# character-wizard

Create complete level-1 SRD 5.2.1 characters in a terminal, store them as
canonical JSON, and share them as compact `cw1:` codes.

The rules live in a library whose behaviour is stated in `requires` /
`ensures` contracts and proved with Verus:

- `src/record.rs`, `src/ids.rs`, `src/content.rs`, `src/srd.rs`: the character
  record, identifiers, campaign-pack records and the SRD tables.
- `src/validation.rs`, `src/canonical.rs`, `src/derived.rs`, `src/abilities.rs`:
  what makes a record valid, the message that reports the first broken rule,
  and the values derived from it.
- `src/sheet.rs`: the play values of a level-1 record: hit points, armor
  class, initiative, speed, starting inventory and gold.
- `src/resolve.rs`, `src/rules.rs`, `src/provenance.rs`: attaching the exact
  pack mechanics a record refers to, and checking that the loaded pack is the
  revision the record was made with.
- `src/data_pack.rs`: the manifest and content rules of campaign data packs.
- `src/prompts.rs`, `src/wizard.rs`, `src/drafts.rs`, `src/review.rs`: the
  creation wizard, its checkpoints, random generation and the review rows.
- `src/share.rs`: the `cw1:` share-code envelope.
- `src/storage.rs`, `src/cli.rs`, `src/app_error.rs`: collection paths, output
  names, the command-line grammar and application errors.

Laws that span several functions are public proof functions, for example
`share::lemma_share_round_trip`, `drafts::lemma_checkpoint_rebuilds_record`,
`cli::lemma_output_stem_is_a_file_name` and the
`data_pack::lemma_accepted_*_are_add_only` family.

The prompt port keeps a record of the questions it answered, with the
choices offered and the answers given; the wizard's stages state what they
ask and what they make of the answers over that record.

`app/` is the program around the library: argument handling, files, JSON
through serde, the terminal prompts and the process exit code. `tests/` runs
the library on concrete values.
