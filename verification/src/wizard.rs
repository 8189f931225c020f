//! The creation wizard: the questions of each stage and what is offered in them.

use vstd::prelude::*;

use crate::content::{PackBackground, PackEquipment, PackEquipmentGrant, PackSpecies};
use crate::drafts::{BuildDraft, CharacterDraft, DetailsDraft, OriginDraft};
use crate::record::{Character, DataPackReference};
use crate::prompts::RandomPromptPort;
use crate::record::ClassChoices;
use crate::srd::{
    always_prepared_exec, background_package_exec, class_package_exec, class_skill_options_exec, spell_list_index_exec,
    weapon_index_exec, ALIGNMENTS, BACKGROUND_PACKAGE_GOLD, CLASS_MASTERY_COUNTS, CLASS_SKILL_COUNTS,
    CLASS_STARTING_GOLD, CLASS_CANTRIP_COUNTS, CLASS_PREPARED_COUNTS, DIVINE_ORDERS, FIGHTING_STYLES, PRIMAL_ORDERS,
    WARLOCK_INVOCATIONS, WEAPON_FINESSE_OR_LIGHT, WEAPON_MARTIAL, WEAPON_NAMES, WEAPON_RANGED,
};
use crate::prompts::{PromptPort, WizardError};
use crate::record::MagicInitiateChoice;
use crate::srd::{
    class_skill_options, background_index, background_index_exec, list_cantrips_exec, list_level_one_exec, species_index_exec, ARTISAN_TOOLS,
    BACKGROUND_FEATS, BACKGROUND_FIRST_ABILITIES, BACKGROUND_FIRST_SKILLS, BACKGROUND_MAGIC_LISTS, BACKGROUND_NAMES,
    BACKGROUND_SECOND_ABILITIES, BACKGROUND_SECOND_SKILLS, BACKGROUND_THIRD_ABILITIES, BACKGROUND_TOOLS, CLASS_NAMES,
    DRACONIC_ANCESTRIES, ELF_LINEAGES, FIENDISH_LEGACIES, GIANT_ANCESTRIES, GNOME_LINEAGES, KEEN_SENSES_SKILLS,
    MUSICAL_INSTRUMENTS, ORIGIN_FEATS, SKILLS, SPECIES_MEDIUM, SPECIES_NAMES, SPECIES_SMALL, SPELLCASTING_ABILITIES,
    STANDARD_LANGUAGES,
};
use crate::abilities::{adjusted_seq, increases_shape, point_buy_total, score_seq, scores_from, AbilityGenerationMethod, AbilityScoreGeneration, BackgroundAbilityAdjustment};
use crate::data_pack::{unsigned_value, unsigned_value_exec, VALUE_CAP};
use crate::record::AbilityScores;
use crate::srd::{class_index_exec, point_buy_cost, point_buy_cost_exec, ABILITIES, POINT_BUY_BUDGET, STANDARD_ARRAY, SUGGESTED_ARRAYS};
use crate::prompts::{exchange, honours, optional_answer};
use crate::text::{decimal, decimal_exec, in_list, in_strings, join2, list_contains, owned, str_eq, strings_contain, string_views, str_views};

verus! {

/// What a background grants that the wizard's questions depend on.
pub struct BackgroundFacts {
    pub skills: Vec<String>,
    pub feat: String,
    pub tool: String,
    pub magic_list: Option<String>,
    pub abilities: Vec<String>,
}

/// The facts of the SRD background at index `i`.
pub fn srd_background_facts(i: usize) -> (r: BackgroundFacts)
    requires
        i < 4,
    ensures
        string_views(r.skills@) == seq![BACKGROUND_FIRST_SKILLS@[i as int]@, BACKGROUND_SECOND_SKILLS@[i as int]@],
        r.feat@ == BACKGROUND_FEATS@[i as int]@,
        r.tool@ == BACKGROUND_TOOLS@[i as int]@,
        crate::text::opt_view(r.magic_list) == if BACKGROUND_MAGIC_LISTS@[i as int]@.len() == 0 {
            None::<Seq<char>>
        } else {
            Some(BACKGROUND_MAGIC_LISTS@[i as int]@)
        },
        string_views(r.abilities@) == seq![
            BACKGROUND_FIRST_ABILITIES@[i as int]@,
            BACKGROUND_SECOND_ABILITIES@[i as int]@,
            BACKGROUND_THIRD_ABILITIES@[i as int]@,
        ],
{
    let mut skills: Vec<String> = Vec::new();
    skills.push(owned(BACKGROUND_FIRST_SKILLS[i]));
    skills.push(owned(BACKGROUND_SECOND_SKILLS[i]));
    let mut abilities: Vec<String> = Vec::new();
    abilities.push(owned(BACKGROUND_FIRST_ABILITIES[i]));
    abilities.push(owned(BACKGROUND_SECOND_ABILITIES[i]));
    abilities.push(owned(BACKGROUND_THIRD_ABILITIES[i]));
    let magic = BACKGROUND_MAGIC_LISTS[i];
    let magic_list = if magic.is_empty() {
        None
    } else {
        Some(owned(magic))
    };
    assert(string_views(skills@) =~= seq![BACKGROUND_FIRST_SKILLS@[i as int]@, BACKGROUND_SECOND_SKILLS@[i as int]@]);
    assert(string_views(abilities@) =~= seq![
        BACKGROUND_FIRST_ABILITIES@[i as int]@,
        BACKGROUND_SECOND_ABILITIES@[i as int]@,
        BACKGROUND_THIRD_ABILITIES@[i as int]@,
    ]);
    BackgroundFacts {
        skills,
        feat: owned(BACKGROUND_FEATS[i]),
        tool: owned(BACKGROUND_TOOLS[i]),
        magic_list,
        abilities,
    }
}

/// The facts of a pack background.
pub fn pack_background_facts(rule: &PackBackground) -> (r: BackgroundFacts)
    ensures
        r.skills@ == rule.skills@,
        r.feat@ == rule.feat@,
        r.tool@ == rule.tool@,
        r.magic_list == rule.magic_initiate_list,
        r.abilities@ == rule.abilities@,
{
    BackgroundFacts {
        skills: crate::text::clone_strings(&rule.skills),
        feat: rule.feat.clone(),
        tool: rule.tool.clone(),
        magic_list: crate::text::clone_opt_string(&rule.magic_initiate_list),
        abilities: crate::text::clone_strings(&rule.abilities),
    }
}

/// The first pack background whose display name is `name`.
pub fn pack_background_named<'a>(backgrounds: &'a [PackBackground], name: &str) -> (r: Option<&'a PackBackground>)
    ensures
        match r {
            Some(b) => exists|k: int| 0 <= k < backgrounds@.len() && backgrounds@[k] == *b && b.name@ == name@,
            None => forall|k: int| 0 <= k < backgrounds@.len() ==> (#[trigger] backgrounds@[k]).name@ != name@,
        },
{
    let mut i: usize = 0;
    while i < backgrounds.len()
        invariant
            i <= backgrounds@.len(),
            forall|k: int| 0 <= k < i ==> (#[trigger] backgrounds@[k]).name@ != name@,
        decreases backgrounds.len() - i,
    {
        if str_eq(backgrounds[i].name.as_str(), name) {
            return Some(&backgrounds[i]);
        }
        i = i + 1;
    }
    None
}

/// The first pack background whose ID is `id`.
pub fn pack_background_with_id<'a>(backgrounds: &'a [PackBackground], id: &str) -> (r: Option<&'a PackBackground>)
    ensures
        match r {
            Some(b) => exists|k: int| 0 <= k < backgrounds@.len() && backgrounds@[k] == *b && b.id@ == id@,
            None => forall|k: int| 0 <= k < backgrounds@.len() ==> (#[trigger] backgrounds@[k]).id@ != id@,
        },
{
    let mut i: usize = 0;
    while i < backgrounds.len()
        invariant
            i <= backgrounds@.len(),
            forall|k: int| 0 <= k < i ==> (#[trigger] backgrounds@[k]).id@ != id@,
        decreases backgrounds.len() - i,
    {
        if str_eq(backgrounds[i].id.as_str(), id) {
            return Some(&backgrounds[i]);
        }
        i = i + 1;
    }
    None
}

/// The first pack species whose display name is `name`.
pub fn pack_species_named<'a>(species: &'a [PackSpecies], name: &str) -> (r: Option<&'a PackSpecies>)
    ensures
        match r {
            Some(s) => exists|k: int| 0 <= k < species@.len() && species@[k] == *s && s.name@ == name@,
            None => forall|k: int| 0 <= k < species@.len() ==> (#[trigger] species@[k]).name@ != name@,
        },
{
    let mut i: usize = 0;
    while i < species.len()
        invariant
            i <= species@.len(),
            forall|k: int| 0 <= k < i ==> (#[trigger] species@[k]).name@ != name@,
        decreases species.len() - i,
    {
        if str_eq(species[i].name.as_str(), name) {
            return Some(&species[i]);
        }
        i = i + 1;
    }
    None
}

/// The entries of `list` that `excluded` does not hold, in order.
pub open spec fn without(list: Seq<&str>, excluded: Seq<String>) -> Seq<&str>
    decreases list.len(),
{
    if list.len() == 0 {
        seq![]
    } else if in_strings(excluded, list.last()@) {
        without(list.drop_last(), excluded)
    } else {
        without(list.drop_last(), excluded).push(list.last())
    }
}

/// The entries of `list` that `excluded` does not hold, in order.
pub fn without_exec<'a>(list: &[&'a str], excluded: &Vec<String>) -> (r: Vec<&'a str>)
    ensures
        r@ == without(list@, excluded@),
{
    let mut out: Vec<&'a str> = Vec::new();
    let mut i: usize = 0;
    while i < list.len()
        invariant
            i <= list@.len(),
            out@ == without(list@.subrange(0, i as int), excluded@),
        decreases list.len() - i,
    {
        assert(list@.subrange(0, i as int + 1).drop_last() =~= list@.subrange(0, i as int));
        if !strings_contain(excluded, list[i]) {
            out.push(list[i]);
        }
        i = i + 1;
    }
    assert(list@.subrange(0, list@.len() as int) =~= list@);
    out
}

/// The Origin feats a Human may take beside a background granting `background_feat`:
/// any other feat, and the repeatable Magic Initiate and Skilled.
pub open spec fn human_feat_options(background_feat: Seq<char>) -> Seq<&'static str> {
    human_feats_from(background_feat, ORIGIN_FEATS@.len() as int)
}

/// The permitted feats among the first `n` Origin feats.
pub open spec fn human_feats_from(background_feat: Seq<char>, n: int) -> Seq<&'static str>
    decreases n,
{
    if n <= 0 {
        seq![]
    } else {
        let feat = ORIGIN_FEATS@[n - 1];
        let rest = human_feats_from(background_feat, n - 1);
        if feat@ != background_feat || feat@ == "Magic Initiate"@ || feat@ == "Skilled"@ {
            rest.push(feat)
        } else {
            rest
        }
    }
}

/// The Origin feats a Human may take beside a background granting `background_feat`.
pub fn human_feat_options_exec(background_feat: &str) -> (r: Vec<&'static str>)
    ensures
        r@ == human_feat_options(background_feat@),
{
    let mut out: Vec<&'static str> = Vec::new();
    let mut i: usize = 0;
    while i < ORIGIN_FEATS.len()
        invariant
            i <= ORIGIN_FEATS@.len(),
            out@ == human_feats_from(background_feat@, i as int),
        decreases ORIGIN_FEATS.len() - i,
    {
        let feat = ORIGIN_FEATS[i];
        if !str_eq(feat, background_feat) || str_eq(feat, "Magic Initiate") || str_eq(feat, "Skilled") {
            out.push(feat);
        }
        i = i + 1;
    }
    out
}

/// How many Skilled feats a background feat and a Human feat grant together.
pub open spec fn skilled_count(background_feat: Seq<char>, human_feat: Option<String>) -> nat {
    (if background_feat == "Skilled"@ { 1nat } else { 0nat }) + match human_feat {
        Some(f) => if f@ == "Skilled"@ { 1nat } else { 0nat },
        None => 0nat,
    }
}

/// `after` is `before` with one more question, asking for two of `offered`
/// under `label`, whose answers include `a` and `b`.
pub open spec fn pair_answered(
    before: Seq<(Seq<char>, Seq<Seq<char>>, nat, Seq<Seq<char>>)>,
    after: Seq<(Seq<char>, Seq<Seq<char>>, nat, Seq<Seq<char>>)>,
    label: Seq<char>,
    offered: Seq<Seq<char>>,
    a: Seq<char>,
    b: Seq<char>,
) -> bool {
    &&& after.len() == before.len() + 1
    &&& after.drop_last() == before
    &&& after.last().0 == label
    &&& after.last().1 == offered
    &&& after.last().2 == 2
    &&& after.last().3.contains(a)
    &&& after.last().3.contains(b)
}

/// Two different entries of `choices`, through the prompt port.
pub fn choose_pair<P: PromptPort>(prompts: &mut P, label: &str, choices: &[&str]) -> (r: Result<[String; 2], WizardError>)
    ensures
        match r {
            Ok(p) => p@[0]@ != p@[1]@ && pair_answered(
                old(prompts).answered(),
                final(prompts).answered(),
                label@,
                str_views(choices@),
                p@[0]@,
                p@[1]@,
            ),
            Err(_) => old(prompts).answered().is_prefix_of(final(prompts).answered()),
        },
{
    let chosen = prompts.choose_set(label, choices, 2)?;
    let ghost chosen_seq = chosen@;
    let ghost answers = string_views(chosen@);
    let values = crate::prompts::sorted_set(chosen);
    if values.len() < 2 {
        assert(old(prompts).answered().is_prefix_of(prompts.answered()));
        return Err(WizardError::Message(join2("expected two selections for ", label)));
    }
    proof {
        assert(crate::prompts::lex_lt(values@[0]@, values@[1]@));
        crate::prompts::lemma_lex_total(values@[0]@, values@[0]@);
    }
    let pair = [values[0].clone(), values[1].clone()];
    assert(pair@[0]@ == values@[0]@ && pair@[1]@ == values@[1]@);
    proof {
        lemma_text_set_views(chosen_seq);
        assert(crate::prompts::text_set(values@).contains(values@[0]@));
        assert(crate::prompts::text_set(values@).contains(values@[1]@));
        assert(answers.to_set().contains(values@[0]@));
        assert(answers.to_set().contains(values@[1]@));
        assert(prompts.answered().drop_last() =~= old(prompts).answered());
    }
    Ok(pair)
}

/// Two different entries of `choices`, shown without descriptions.
pub fn choose_plain_pair<P: PromptPort>(prompts: &mut P, label: &str, choices: &[&str]) -> (r: Result<[String; 2], WizardError>)
    ensures
        match r {
            Ok(p) => p@[0]@ != p@[1]@ && pair_answered(
                old(prompts).answered(),
                final(prompts).answered(),
                label@,
                str_views(choices@),
                p@[0]@,
                p@[1]@,
            ),
            Err(_) => old(prompts).answered().is_prefix_of(final(prompts).answered()),
        },
{
    let chosen = prompts.choose_set_with_descriptions(label, choices, 2, false)?;
    let ghost chosen_seq = chosen@;
    let ghost answers = string_views(chosen@);
    let values = crate::prompts::sorted_set(chosen);
    if values.len() < 2 {
        assert(old(prompts).answered().is_prefix_of(prompts.answered()));
        return Err(WizardError::Message(join2("expected two selections for ", label)));
    }
    proof {
        assert(crate::prompts::lex_lt(values@[0]@, values@[1]@));
        crate::prompts::lemma_lex_total(values@[0]@, values@[0]@);
    }
    let pair = [values[0].clone(), values[1].clone()];
    assert(pair@[0]@ == values@[0]@ && pair@[1]@ == values@[1]@);
    proof {
        lemma_text_set_views(chosen_seq);
        assert(crate::prompts::text_set(values@).contains(values@[0]@));
        assert(crate::prompts::text_set(values@).contains(values@[1]@));
        assert(answers.to_set().contains(values@[0]@));
        assert(answers.to_set().contains(values@[1]@));
        assert(prompts.answered().drop_last() =~= old(prompts).answered());
    }
    Ok(pair)
}

/// The details stage: three optional lines of text.
pub fn collect_details<P: PromptPort>(prompts: &mut P) -> (r: Result<DetailsDraft, WizardError>)
    ensures
        match r {
            Ok(d) => final(prompts).answered() == old(prompts).answered() + seq![
                exchange("Backstory"@, seq![], 1, optional_answer(d.backstory)),
                exchange("Appearance"@, seq![], 1, optional_answer(d.appearance)),
                exchange("Personality"@, seq![], 1, optional_answer(d.personality)),
            ],
            Err(_) => old(prompts).answered().is_prefix_of(final(prompts).answered()),
        },
{
    let backstory = prompts.optional_prompt("Backstory")?;
    let appearance = prompts.optional_prompt("Appearance")?;
    let personality = prompts.optional_prompt("Personality")?;
    let details = DetailsDraft { backstory, appearance, personality };
    assert(prompts.answered() =~= old(prompts).answered() + seq![
        exchange("Backstory"@, seq![], 1, optional_answer(details.backstory)),
        exchange("Appearance"@, seq![], 1, optional_answer(details.appearance)),
        exchange("Personality"@, seq![], 1, optional_answer(details.personality)),
    ]);
    Ok(details)
}

/// One Magic Initiate selection from the named SRD list.
pub fn collect_magic_initiate<P: PromptPort>(list: &str, prompts: &mut P) -> (r: Result<MagicInitiateChoice, WizardError>)
    ensures
        match r {
            Ok(m) => m.spell_list@ == list@ && crate::srd::is_magic_initiate_list(list@)
                && old(prompts).answered().is_prefix_of(final(prompts).answered()),
            Err(_) => true,
        },
{
    let index: usize = if str_eq(list, "Cleric") {
        1
    } else if str_eq(list, "Druid") {
        2
    } else if str_eq(list, "Wizard") {
        7
    } else {
        return Err(WizardError::Message(owned("invalid spell list")));
    };
    proof {
        reveal_strlit("Cleric");
        reveal_strlit("Druid");
        reveal_strlit("Wizard");
        reveal_strlit("Bard");
        reveal_strlit("Paladin");
        reveal_strlit("Ranger");
        reveal_strlit("Sorcerer");
        reveal_strlit("Warlock");
    }
    assert(crate::srd::is_magic_initiate_list(list@));
    let ghost h = prompts.answered();
    assert(h.is_prefix_of(h)) by {
        assert(h.subrange(0, h.len() as int) =~= h);
    }
    let ghost hb = prompts.answered();
    let spellcasting_ability = prompts.choose_one("Magic Initiate spellcasting ability", SPELLCASTING_ABILITIES.as_slice())?;
    proof {
        crate::prompts::lemma_grows(h, hb, prompts.answered());
    }
    let ghost hb = prompts.answered();
    let cantrips = choose_pair(prompts, "Magic Initiate cantrips", list_cantrips_exec(index))?;
    proof {
        crate::prompts::lemma_grows(h, hb, prompts.answered());
    }
    let ghost hb = prompts.answered();
    let level_one_spell = prompts.choose_one("Magic Initiate level 1 spell", list_level_one_exec(index))?;
    proof {
        crate::prompts::lemma_grows(h, hb, prompts.answered());
    }
    Ok(MagicInitiateChoice { spell_list: owned(list), spellcasting_ability, cantrips, level_one_spell })
}


/// The sizes an SRD species may have, in the order they are offered.
pub fn srd_species_sizes(i: usize) -> (r: Vec<&'static str>)
    requires
        i < 9,
    ensures
        r@.len() == (if SPECIES_SMALL@[i as int] { 1int } else { 0int }) + (if SPECIES_MEDIUM@[i as int] { 1int } else { 0int }),
{
    let mut sizes: Vec<&'static str> = Vec::new();
    if SPECIES_SMALL[i] {
        sizes.push("Small");
    }
    if SPECIES_MEDIUM[i] {
        sizes.push("Medium");
    }
    sizes
}

/// The species options an origin holds are exactly those its species calls for.
pub open spec fn species_options_fit(o: OriginDraft) -> bool {
    let sp = o.species@;
    &&& (sp == "Dragonborn"@) == (o.dragonborn_ancestry is Some)
    &&& (sp == "Elf"@) == (o.elf_lineage is Some)
    &&& (sp == "Elf"@) == (o.elf_spellcasting_ability is Some)
    &&& (sp == "Elf"@) == (o.elf_keen_senses_skill is Some)
    &&& (sp == "Gnome"@) == (o.gnome_lineage is Some)
    &&& (sp == "Gnome"@) == (o.gnome_spellcasting_ability is Some)
    &&& (sp == "Goliath"@) == (o.goliath_ancestry is Some)
    &&& (sp == "Human"@) == (o.human_skill is Some)
    &&& (sp == "Human"@) == (o.human_origin_feat is Some)
    &&& (sp == "Tiefling"@) == (o.tiefling_legacy is Some)
    &&& (sp == "Tiefling"@) == (o.tiefling_spellcasting_ability is Some)
}

/// The origin stage records a species answer as the ID of the pack species
/// that bears the answered name, and any other answer as given: so `id` is a
/// pack species ID, or names no pack species.
pub open spec fn species_recorded(id: Seq<char>, pack: Seq<PackSpecies>) -> bool {
    ||| exists|k: int| 0 <= k < pack.len() && #[trigger] pack[k].id@ == id
    ||| forall|k: int| 0 <= k < pack.len() ==> (#[trigger] pack[k]).name@ != id
}

/// The origin stage records a background answer as the ID of the pack
/// background that bears the answered name, and any other answer as given.
pub open spec fn background_recorded(id: Seq<char>, pack: Seq<PackBackground>) -> bool {
    ||| exists|k: int| 0 <= k < pack.len() && #[trigger] pack[k].id@ == id
    ||| forall|k: int| 0 <= k < pack.len() ==> (#[trigger] pack[k]).name@ != id
}

/// The names of pack backgrounds, in order.
pub open spec fn background_names(pack: Seq<PackBackground>) -> Seq<Seq<char>> {
    pack.map_values(|b: PackBackground| b.name@)
}

/// The names of pack species, in order.
pub open spec fn species_names(pack: Seq<PackSpecies>) -> Seq<Seq<char>> {
    pack.map_values(|s: PackSpecies| s.name@)
}

/// The backgrounds the origin stage offers: the SRD backgrounds, then the pack's by name.
pub open spec fn background_menu(pack: Seq<PackBackground>) -> Seq<Seq<char>> {
    str_views(BACKGROUND_NAMES@) + background_names(pack)
}

/// The species the origin stage offers: the SRD species, then the pack's by name.
pub open spec fn species_menu(pack: Seq<PackSpecies>) -> Seq<Seq<char>> {
    str_views(SPECIES_NAMES@) + species_names(pack)
}

/// `id` is what the origin stage records for the species answer `label`: the
/// ID of a pack species with that name, or the label itself when no pack
/// species has it.
pub open spec fn species_answer(label: Seq<char>, id: Seq<char>, pack: Seq<PackSpecies>) -> bool {
    ||| exists|k: int| 0 <= k < pack.len() && #[trigger] pack[k].name@ == label && pack[k].id@ == id
    ||| (forall|k: int| 0 <= k < pack.len() ==> (#[trigger] pack[k]).name@ != label) && id == label
}

/// `id` is what the origin stage records for the background answer `label`:
/// the ID of a pack background with that name, or the label itself.
pub open spec fn background_answer(label: Seq<char>, id: Seq<char>, pack: Seq<PackBackground>) -> bool {
    ||| exists|k: int| 0 <= k < pack.len() && #[trigger] pack[k].name@ == label && pack[k].id@ == id
    ||| (forall|k: int| 0 <= k < pack.len() ==> (#[trigger] pack[k]).name@ != label) && id == label
}

/// The origin stage's first four questions and what it made of their answers:
/// the name and class as answered, the background and species offered with the
/// pack's entries by name and recorded by the answer, as a pack ID where the
/// answer names a pack entry.
pub open spec fn origin_answers(
    before: Seq<(Seq<char>, Seq<Seq<char>>, nat, Seq<Seq<char>>)>,
    after: Seq<(Seq<char>, Seq<Seq<char>>, nat, Seq<Seq<char>>)>,
    o: OriginDraft,
    pack_species: Seq<PackSpecies>,
    pack_backgrounds: Seq<PackBackground>,
) -> bool {
    let n = before.len() as int;
    &&& before.is_prefix_of(after)
    &&& after.len() >= n + 4
    &&& after[n] == exchange("Character name"@, seq![], 1, seq![o.name@])
    &&& after[n + 1] == exchange("Class"@, str_views(CLASS_NAMES@), 1, seq![o.character_class@])
    &&& after[n + 2].0 == "Background"@ && after[n + 2].1 == background_menu(pack_backgrounds) && after[n + 2].2 == 1
    &&& after[n + 2].3.len() == 1 && background_answer(after[n + 2].3[0], o.background@, pack_backgrounds)
    &&& after[n + 3].0 == "Species"@ && after[n + 3].1 == species_menu(pack_species) && after[n + 3].2 == 1
    &&& after[n + 3].3.len() == 1 && species_answer(after[n + 3].3[0], o.species@, pack_species)
}

/// The origin stage asked for two standard languages after its first four
/// questions, and recorded two of the answers.
pub open spec fn languages_answered(
    after: Seq<(Seq<char>, Seq<Seq<char>>, nat, Seq<Seq<char>>)>,
    n: int,
    o: OriginDraft,
) -> bool {
    exists|k: int|
        n + 4 <= k < after.len() && (#[trigger] after[k]).0 == "Choose two standard languages"@ && after[k].1 == str_views(
            STANDARD_LANGUAGES@,
        ) && after[k].3.contains(o.selected_languages@[0]@) && after[k].3.contains(o.selected_languages@[1]@)
}

/// The origin stage: name, class, background, species and their options,
/// languages, and the selections that origin feats call for.
#[verifier::rlimit(100)]
#[verifier::spinoff_prover]
pub fn collect_origin<P: PromptPort>(
    prompts: &mut P,
    pack_species: &[PackSpecies],
    pack_backgrounds: &[PackBackground],
) -> (r: Result<OriginDraft, WizardError>)
    ensures
        match r {
            Ok(o) => o.selected_languages@[0]@ != o.selected_languages@[1]@ && species_options_fit(o)
                && crate::prompts::strictly_sorted(o.skilled_proficiencies@),
            Err(_) => true,
        },
        r matches Ok(o) ==> species_recorded(o.species@, pack_species@),
        r matches Ok(o) ==> background_recorded(o.background@, pack_backgrounds@),
        r matches Ok(o) ==> origin_answers(old(prompts).answered(), final(prompts).answered(), o, pack_species@, pack_backgrounds@),
        r matches Ok(o) ==> languages_answered(final(prompts).answered(), old(prompts).answered().len() as int, o),
{
    proof {
        reveal_strlit("Dragonborn");
        reveal_strlit("Elf");
        reveal_strlit("Gnome");
        reveal_strlit("Goliath");
        reveal_strlit("Human");
        reveal_strlit("Tiefling");
        assert("Elf"@[0] != "Dragonborn"@[0]);
        assert("Gnome"@[0] != "Dragonborn"@[0] && "Gnome"@[0] != "Elf"@[0]);
        assert("Goliath"@[0] != "Dragonborn"@[0] && "Goliath"@[0] != "Elf"@[0] && "Goliath"@[1] != "Gnome"@[1]);
        assert("Human"@[0] != "Dragonborn"@[0] && "Human"@[0] != "Elf"@[0] && "Human"@[0] != "Gnome"@[0]
            && "Human"@[0] != "Goliath"@[0]);
        assert("Tiefling"@[0] != "Dragonborn"@[0] && "Tiefling"@[0] != "Elf"@[0] && "Tiefling"@[0] != "Gnome"@[0]
            && "Tiefling"@[0] != "Goliath"@[0] && "Tiefling"@[0] != "Human"@[0]);
    }
    let ghost h0 = prompts.answered();
    let name = prompts.prompt("Character name")?;
    let character_class = prompts.choose_one("Class", CLASS_NAMES.as_slice())?;
    let mut background_labels: Vec<&str> = Vec::new();
    let mut k: usize = 0;
    while k < BACKGROUND_NAMES.len()
        invariant
            k <= 4,
            str_views(background_labels@) == str_views(BACKGROUND_NAMES@.subrange(0, k as int)),
        decreases 4 - k,
    {
        let ghost before = background_labels@;
        background_labels.push(BACKGROUND_NAMES[k]);
        assert(str_views(background_labels@) =~= str_views(before).push(BACKGROUND_NAMES@[k as int]@));
        assert(str_views(BACKGROUND_NAMES@.subrange(0, k as int + 1)) =~= str_views(BACKGROUND_NAMES@.subrange(0, k as int)).push(BACKGROUND_NAMES@[k as int]@));
        k = k + 1;
    }
    assert(BACKGROUND_NAMES@.subrange(0, 4) =~= BACKGROUND_NAMES@);
    let mut k: usize = 0;
    while k < pack_backgrounds.len()
        invariant
            k <= pack_backgrounds@.len(),
            str_views(background_labels@) == str_views(BACKGROUND_NAMES@) + background_names(pack_backgrounds@.subrange(0, k as int)),
        decreases pack_backgrounds.len() - k,
    {
        let ghost before = background_labels@;
        background_labels.push(pack_backgrounds[k].name.as_str());
        assert(str_views(background_labels@) =~= str_views(before).push(pack_backgrounds@[k as int].name@));
        assert(background_names(pack_backgrounds@.subrange(0, k as int + 1)) =~= background_names(pack_backgrounds@.subrange(0, k as int)).push(pack_backgrounds@[k as int].name@));
        k = k + 1;
    }
    assert(pack_backgrounds@.subrange(0, pack_backgrounds@.len() as int) =~= pack_backgrounds@);
    let background_label = prompts.choose_one("Background", background_labels.as_slice())?;
    let custom_background = pack_background_named(pack_backgrounds, background_label.as_str());
    let background: String = match custom_background {
        Some(rule) => rule.id.clone(),
        None => background_label.clone(),
    };
    assert(background_recorded(background@, pack_backgrounds@));
    assert(background_answer(background_label@, background@, pack_backgrounds@));
    let facts: Option<BackgroundFacts> = match custom_background {
        Some(rule) => Some(pack_background_facts(rule)),
        None => match background_index_exec(background.as_str()) {
            Some(i) => Some(srd_background_facts(i)),
            None => None,
        },
    };
    let background_skills: Vec<String> = match &facts {
        Some(f) => crate::text::clone_strings(&f.skills),
        None => Vec::new(),
    };
    let background_feat: String = match &facts {
        Some(f) => f.feat.clone(),
        None => String::new(),
    };
    let mut species_labels: Vec<&str> = Vec::new();
    let mut k: usize = 0;
    while k < SPECIES_NAMES.len()
        invariant
            k <= 9,
            str_views(species_labels@) == str_views(SPECIES_NAMES@.subrange(0, k as int)),
        decreases 9 - k,
    {
        let ghost before = species_labels@;
        species_labels.push(SPECIES_NAMES[k]);
        assert(str_views(species_labels@) =~= str_views(before).push(SPECIES_NAMES@[k as int]@));
        assert(str_views(SPECIES_NAMES@.subrange(0, k as int + 1)) =~= str_views(SPECIES_NAMES@.subrange(0, k as int)).push(SPECIES_NAMES@[k as int]@));
        k = k + 1;
    }
    assert(SPECIES_NAMES@.subrange(0, 9) =~= SPECIES_NAMES@);
    let mut k: usize = 0;
    while k < pack_species.len()
        invariant
            k <= pack_species@.len(),
            str_views(species_labels@) == str_views(SPECIES_NAMES@) + species_names(pack_species@.subrange(0, k as int)),
        decreases pack_species.len() - k,
    {
        let ghost before = species_labels@;
        species_labels.push(pack_species[k].name.as_str());
        assert(str_views(species_labels@) =~= str_views(before).push(pack_species@[k as int].name@));
        assert(species_names(pack_species@.subrange(0, k as int + 1)) =~= species_names(pack_species@.subrange(0, k as int)).push(pack_species@[k as int].name@));
        k = k + 1;
    }
    assert(pack_species@.subrange(0, pack_species@.len() as int) =~= pack_species@);
    let species_label = prompts.choose_one("Species", species_labels.as_slice())?;
    let custom_species = pack_species_named(pack_species, species_label.as_str());
    let species: String = match custom_species {
        Some(rule) => rule.id.clone(),
        None => species_label.clone(),
    };
    assert(species_recorded(species@, pack_species@));
    assert(species_answer(species_label@, species@, pack_species@));
    let ghost h4 = prompts.answered();
    assert(h4 =~= h0 + seq![
        exchange("Character name"@, seq![], 1, seq![name@]),
        exchange("Class"@, str_views(CLASS_NAMES@), 1, seq![character_class@]),
        exchange("Background"@, background_menu(pack_backgrounds@), 1, seq![background_label@]),
        exchange("Species"@, species_menu(pack_species@), 1, seq![species_label@]),
    ]);
    assert(h4.is_prefix_of(h4)) by {
        assert(h4.subrange(0, h4.len() as int) =~= h4);
    }
    let sizes: Vec<&str> = match custom_species {
        Some(rule) => {
            let mut out: Vec<&str> = Vec::new();
            let mut k: usize = 0;
            while k < rule.sizes.len()
                decreases rule.sizes.len() - k,
            {
                out.push(rule.sizes[k].as_str());
                k = k + 1;
            }
            out
        },
        None => match species_index_exec(species.as_str()) {
            Some(i) => srd_species_sizes(i),
            None => Vec::new(),
        },
    };
    let size = if sizes.len() == 1 {
        owned(sizes[0])
    } else {
        let ghost hb = prompts.answered();
        let chosen = prompts.choose_one("Size", sizes.as_slice())?;
        proof {
            crate::prompts::lemma_grows(h4, hb, prompts.answered());
        }
        chosen
    };
    let ghost hb = prompts.answered();
    let selected_languages = choose_plain_pair(prompts, "Choose two standard languages", STANDARD_LANGUAGES.as_slice())?;
    proof {
        crate::prompts::lemma_grows(h4, hb, prompts.answered());
    }
    let ghost h_lang = prompts.answered();
    assert(h_lang.is_prefix_of(h_lang)) by {
        assert(h_lang.subrange(0, h_lang.len() as int) =~= h_lang);
    }
    let mut dragonborn_ancestry: Option<String> = None;
    let mut elf_lineage: Option<String> = None;
    let mut elf_spellcasting_ability: Option<String> = None;
    let mut elf_keen_senses_skill: Option<String> = None;
    let mut gnome_lineage: Option<String> = None;
    let mut gnome_spellcasting_ability: Option<String> = None;
    let mut goliath_ancestry: Option<String> = None;
    let mut human_skill: Option<String> = None;
    let mut human_origin_feat: Option<String> = None;
    let mut tiefling_legacy: Option<String> = None;
    let mut tiefling_spellcasting_ability: Option<String> = None;
    if str_eq(species.as_str(), "Dragonborn") {
        let ghost hb = prompts.answered();
        dragonborn_ancestry = Some(prompts.choose_one("Draconic ancestry", DRACONIC_ANCESTRIES.as_slice())?);
        proof {
            crate::prompts::lemma_grows(h4, hb, prompts.answered());
            crate::prompts::lemma_grows(h_lang, hb, prompts.answered());
        }
    } else if str_eq(species.as_str(), "Elf") {
        let ghost hb = prompts.answered();
        elf_lineage = Some(prompts.choose_one("Elven lineage", ELF_LINEAGES.as_slice())?);
        proof {
            crate::prompts::lemma_grows(h4, hb, prompts.answered());
            crate::prompts::lemma_grows(h_lang, hb, prompts.answered());
        }
        let ghost hb = prompts.answered();
        elf_spellcasting_ability = Some(prompts.choose_one("Spellcasting ability", SPELLCASTING_ABILITIES.as_slice())?);
        proof {
            crate::prompts::lemma_grows(h4, hb, prompts.answered());
            crate::prompts::lemma_grows(h_lang, hb, prompts.answered());
        }
        let available = without_exec(KEEN_SENSES_SKILLS.as_slice(), &background_skills);
        let ghost hb = prompts.answered();
        elf_keen_senses_skill = Some(prompts.choose_one("Keen Senses skill", available.as_slice())?);
        proof {
            crate::prompts::lemma_grows(h4, hb, prompts.answered());
            crate::prompts::lemma_grows(h_lang, hb, prompts.answered());
        }
    } else if str_eq(species.as_str(), "Gnome") {
        let ghost hb = prompts.answered();
        gnome_lineage = Some(prompts.choose_one("Gnomish lineage", GNOME_LINEAGES.as_slice())?);
        proof {
            crate::prompts::lemma_grows(h4, hb, prompts.answered());
            crate::prompts::lemma_grows(h_lang, hb, prompts.answered());
        }
        let ghost hb = prompts.answered();
        gnome_spellcasting_ability = Some(prompts.choose_one("Spellcasting ability", SPELLCASTING_ABILITIES.as_slice())?);
        proof {
            crate::prompts::lemma_grows(h4, hb, prompts.answered());
            crate::prompts::lemma_grows(h_lang, hb, prompts.answered());
        }
    } else if str_eq(species.as_str(), "Goliath") {
        let ghost hb = prompts.answered();
        goliath_ancestry = Some(prompts.choose_one("Giant ancestry", GIANT_ANCESTRIES.as_slice())?);
        proof {
            crate::prompts::lemma_grows(h4, hb, prompts.answered());
            crate::prompts::lemma_grows(h_lang, hb, prompts.answered());
        }
    } else if str_eq(species.as_str(), "Human") {
        let available = without_exec(SKILLS.as_slice(), &background_skills);
        let ghost hb = prompts.answered();
        human_skill = Some(prompts.choose_one("Additional skill", available.as_slice())?);
        proof {
            crate::prompts::lemma_grows(h4, hb, prompts.answered());
            crate::prompts::lemma_grows(h_lang, hb, prompts.answered());
        }
        let feats = human_feat_options_exec(background_feat.as_str());
        let ghost hb = prompts.answered();
        human_origin_feat = Some(prompts.choose_one("Origin feat", feats.as_slice())?);
        proof {
            crate::prompts::lemma_grows(h4, hb, prompts.answered());
            crate::prompts::lemma_grows(h_lang, hb, prompts.answered());
        }
    } else if str_eq(species.as_str(), "Tiefling") {
        let ghost hb = prompts.answered();
        tiefling_legacy = Some(prompts.choose_one("Fiendish legacy", FIENDISH_LEGACIES.as_slice())?);
        proof {
            crate::prompts::lemma_grows(h4, hb, prompts.answered());
            crate::prompts::lemma_grows(h_lang, hb, prompts.answered());
        }
        let ghost hb = prompts.answered();
        tiefling_spellcasting_ability = Some(prompts.choose_one("Spellcasting ability", SPELLCASTING_ABILITIES.as_slice())?);
        proof {
            crate::prompts::lemma_grows(h4, hb, prompts.answered());
            crate::prompts::lemma_grows(h_lang, hb, prompts.answered());
        }
    }
    let mut magic_lists: Vec<String> = Vec::new();
    match &facts {
        Some(f) => match &f.magic_list {
            Some(list) => magic_lists.push(list.clone()),
            None => {},
        },
        None => {},
    }
    let human_magic = match &human_origin_feat {
        Some(f) => str_eq(f.as_str(), "Magic Initiate"),
        None => false,
    };
    if human_magic {
        let available = without_exec(["Cleric", "Druid", "Wizard"].as_slice(), &magic_lists);
        let ghost hb = prompts.answered();
        let list = prompts.choose_one("Human Magic Initiate list", available.as_slice())?;
        proof {
            crate::prompts::lemma_grows(h4, hb, prompts.answered());
            crate::prompts::lemma_grows(h_lang, hb, prompts.answered());
        }
        magic_lists.push(list);
    }
    let mut magic_initiate_choices: Vec<MagicInitiateChoice> = Vec::new();
    let mut k: usize = 0;
    while k < magic_lists.len()
        invariant
            h4.is_prefix_of(prompts.answered()),
            h_lang.is_prefix_of(prompts.answered()),
        decreases magic_lists.len() - k,
    {
        let ghost hb = prompts.answered();
        let choice = collect_magic_initiate(magic_lists[k].as_str(), prompts)?;
        proof {
            crate::prompts::lemma_grows(h4, hb, prompts.answered());
            crate::prompts::lemma_grows(h_lang, hb, prompts.answered());
        }
        magic_initiate_choices.push(choice);
        k = k + 1;
    }
    let human_skilled = match &human_origin_feat {
        Some(f) => str_eq(f.as_str(), "Skilled"),
        None => false,
    };
    let skilled_count: usize = (if str_eq(background_feat.as_str(), "Skilled") { 1 } else { 0 }) + (if human_skilled {
        1
    } else {
        0
    });
    let mut skilled_proficiencies: Vec<String> = Vec::new();
    if skilled_count > 0 {
        let mut unavailable = crate::text::clone_strings(&background_skills);
        crate::text::push_opt(&mut unavailable, &human_skill);
        crate::text::push_opt(&mut unavailable, &elf_keen_senses_skill);
        let mut choices = without_exec(SKILLS.as_slice(), &unavailable);
        let mut excluded_tools: Vec<String> = Vec::new();
        match &facts {
            Some(f) => excluded_tools.push(f.tool.clone()),
            None => {},
        }
        let artisan = without_exec(ARTISAN_TOOLS.as_slice(), &excluded_tools);
        let instruments = without_exec(MUSICAL_INSTRUMENTS.as_slice(), &excluded_tools);
        let mut k: usize = 0;
        while k < artisan.len()
            decreases artisan.len() - k,
        {
            choices.push(artisan[k]);
            k = k + 1;
        }
        let mut k: usize = 0;
        while k < instruments.len()
            decreases instruments.len() - k,
        {
            choices.push(instruments[k]);
            k = k + 1;
        }
        let ghost hb = prompts.answered();
        let picked = prompts.choose_set("Skilled proficiencies", choices.as_slice(), skilled_count * 3)?;
        proof {
            crate::prompts::lemma_grows(h4, hb, prompts.answered());
            crate::prompts::lemma_grows(h_lang, hb, prompts.answered());
        }
        skilled_proficiencies = crate::prompts::sorted_set(picked);
    }
    let origin = OriginDraft {
        name,
        character_class,
        background,
        species,
        size,
        dragonborn_ancestry,
        elf_lineage,
        elf_spellcasting_ability,
        elf_keen_senses_skill,
        gnome_lineage,
        gnome_spellcasting_ability,
        goliath_ancestry,
        human_skill,
        human_origin_feat,
        tiefling_legacy,
        tiefling_spellcasting_ability,
        magic_initiate_choices,
        skilled_proficiencies,
        selected_languages,
    };
    assert(species_recorded(origin.species@, pack_species@));
    assert(background_recorded(origin.background@, pack_backgrounds@));
    proof {
        let h = prompts.answered();
        let n = h0.len() as int;
        assert(h.subrange(0, h4.len() as int) == h4);
        assert(h[n] == h.subrange(0, h4.len() as int)[n]);
        assert(h[n + 1] == h.subrange(0, h4.len() as int)[n + 1]);
        assert(h[n + 2] == h.subrange(0, h4.len() as int)[n + 2]);
        assert(h[n + 3] == h.subrange(0, h4.len() as int)[n + 3]);
        assert(h0.is_prefix_of(h)) by {
            assert(h.subrange(0, n) =~= h4.subrange(0, n));
        }
    }
    assert(origin_answers(h0, prompts.answered(), origin, pack_species@, pack_backgrounds@));
    proof {
        let h = prompts.answered();
        let k = h_lang.len() - 1;
        assert(h.subrange(0, h_lang.len() as int) == h_lang);
        assert(h[k] == h.subrange(0, h_lang.len() as int)[k]);
        assert(h_lang.len() >= h4.len() + 1);
        assert(languages_answered(h, h0.len() as int, origin));
    }
    Ok(origin)
}


/// `rand::random_range(1..=6)`: one roll of a six-sided die.
///
/// Trusted: the outcome is chance; the crate documents that the value lies
/// in the given inclusive range, and nothing more is claimed.
#[verifier::external_body]
fn roll_d6() -> (r: u8)
    ensures
        1 <= r <= 6,
{
    rand::random_range(1..=6)
}

/// `rand::random::<u64>()`: a fresh seed from the thread-local generator.
///
/// Trusted: the value is chance and nothing is claimed of it.
#[verifier::external_body]
pub(crate) fn random_seed() -> (r: u64) {
    rand::random()
}

/// The sum of four dice without the lowest one.
pub open spec fn drop_lowest_sum(d: [u8; 4]) -> int {
    let low = if d[0] <= d[1] && d[0] <= d[2] && d[0] <= d[3] {
        d[0]
    } else if d[1] <= d[2] && d[1] <= d[3] {
        d[1]
    } else if d[2] <= d[3] {
        d[2]
    } else {
        d[3]
    };
    d[0] + d[1] + d[2] + d[3] - low
}

/// The sum of four dice without the lowest one.
pub fn drop_lowest(d: [u8; 4]) -> (r: u8)
    requires
        forall|k: int| 0 <= k < 4 ==> 1 <= #[trigger] d[k] <= 6,
    ensures
        r == drop_lowest_sum(d),
        3 <= r <= 18,
{
    let low = if d[0] <= d[1] && d[0] <= d[2] && d[0] <= d[3] {
        d[0]
    } else if d[1] <= d[2] && d[1] <= d[3] {
        d[1]
    } else if d[2] <= d[3] {
        d[2]
    } else {
        d[3]
    };
    assert(1 <= d[0] <= 6 && 1 <= d[1] <= 6 && 1 <= d[2] <= 6 && 1 <= d[3] <= 6);
    d[0] + d[1] + d[2] + d[3] - low
}

/// Six scores, each the best three of four six-sided dice.
fn roll_scores() -> (r: [u8; 6])
    ensures
        forall|k: int| 0 <= k < 6 ==> 3 <= #[trigger] r[k] <= 18,
{
    let mut values: [u8; 6] = [0; 6];
    let mut i: usize = 0;
    while i < 6
        invariant
            i <= 6,
            forall|k: int| 0 <= k < i ==> 3 <= #[trigger] values[k] <= 18,
        decreases 6 - i,
    {
        let dice: [u8; 4] = [roll_d6(), roll_d6(), roll_d6(), roll_d6()];
        values[i] = drop_lowest(dice);
        i = i + 1;
    }
    values
}

/// What reading `text` as a `u8` gives, with the standard library's messages.
pub open spec fn parsed_u8(text: Seq<char>) -> Result<u8, Seq<char>> {
    if text.len() == 0 {
        Err("cannot parse integer from empty string"@)
    } else {
        match unsigned_value(text) {
            None => Err("invalid digit found in string"@),
            Some(v) => if v <= 255 {
                Ok(v as u8)
            } else {
                Err("number too large to fit in target type"@)
            },
        }
    }
}

/// Read `text` as a `u8`.
pub fn parse_u8(text: &str) -> (r: Result<u8, String>)
    ensures
        match parsed_u8(text@) {
            Ok(v) => r == Ok::<u8, String>(v),
            Err(message) => match r {
                Err(e) => e@ == message,
                Ok(_) => false,
            },
        },
{
    let chars = crate::text::chars_of(text);
    if chars.len() == 0 {
        return Err(owned("cannot parse integer from empty string"));
    }
    match unsigned_value_exec(&chars) {
        None => Err(owned("invalid digit found in string")),
        Some(v) => if v <= 255 {
            Ok(v as u8)
        } else {
            Err(owned("number too large to fit in target type"))
        },
    }
}

/// An ability name with its first letter capitalized.
pub open spec fn title_spec(value: Seq<char>) -> Seq<char> {
    if value.len() > 0 && 'a' <= value[0] <= 'z' {
        value.update(0, ((value[0] as u32) - 32) as char)
    } else {
        value
    }
}

/// An ability name with its first letter capitalized.
pub fn title(value: &str) -> (r: String)
    ensures
        r@ == title_spec(value@),
{
    let mut chars = crate::text::chars_of(value);
    if chars.len() > 0 && 'a' <= chars[0] && chars[0] <= 'z' {
        let upper = ((chars[0] as u8) - 32) as char;
        assert(upper == ((value@[0] as u32) - 32) as char) by {
            assert(((chars[0] as u8) - 32) as u8 as u32 == (chars[0] as u32) - 32);
        }
        chars[0] = upper;
    }
    crate::text::string_of(&chars)
}

/// Texts joined with a separator.
pub fn join_with(items: &Vec<String>, separator: &str) -> (r: String)
    ensures
        r@ == joined(string_views(items@), separator@),
{
    let mut out = String::new();
    let mut i: usize = 0;
    while i < items.len()
        invariant
            i <= items@.len(),
            out@ == joined(string_views(items@.subrange(0, i as int)), separator@),
        decreases items.len() - i,
    {
        let ghost before = out@;
        assert(string_views(items@.subrange(0, i as int + 1)).drop_last() =~= string_views(items@.subrange(0, i as int)));
        assert(string_views(items@.subrange(0, i as int + 1)).last() == items@[i as int]@);
        if i > 0 {
            out.append(separator);
        }
        out.append(items[i].as_str());
        i = i + 1;
    }
    assert(items@.subrange(0, items@.len() as int) =~= items@);
    out
}

/// The texts of `items` with `separator` between each two.
pub open spec fn joined(items: Seq<Seq<char>>, separator: Seq<char>) -> Seq<char>
    decreases items.len(),
{
    if items.len() == 0 {
        seq![]
    } else if items.len() == 1 {
        items[0]
    } else {
        joined(items.drop_last(), separator) + separator + items.last()
    }
}

/// Assign a pool of six scores to the abilities in order, one question per ability.
///
/// Each answer must be one of the scores still in the pool; it is taken out.
pub fn assign_score_pool<P: PromptPort>(pool: [u8; 6], prompts: &mut P) -> (r: Result<AbilityScores, WizardError>)
    ensures
        match r {
            Ok(scores) => forall|k: int| 0 <= k < 6 ==> pool@.contains(#[trigger] crate::abilities::score_seq(scores)[k]),
            Err(_) => true,
        },
{
    let ghost initial_pool = pool@;
    let mut pool = pool;
    let mut values: [u8; 6] = [0; 6];
    let mut index: usize = 0;
    while index < 6
        invariant
            index <= 6,
            forall|k: int| 0 <= k < index ==> initial_pool.contains(#[trigger] values@[k]),
            forall|k: int| 0 <= k < 6 ==> initial_pool.contains(#[trigger] pool@[k]),
        decreases 6 - index,
    {
        let mut labels: Vec<String> = Vec::new();
        let mut k: usize = index;
        while k < 6
            invariant
                index <= k <= 6,
            decreases 6 - k,
        {
            labels.push(decimal_exec(pool[k] as u64));
            k = k + 1;
        }
        let mut choices: Vec<&str> = Vec::new();
        let mut k: usize = 0;
        while k < labels.len()
            decreases labels.len() - k,
        {
            choices.push(labels[k].as_str());
            k = k + 1;
        }
        let mut label = owned("Assign ");
        label.append(title(ABILITIES[index]).as_str());
        label.append(" (remaining: ");
        label.append(join_with(&labels, ", ").as_str());
        label.append(")");
        let answer = prompts.choose_one(label.as_str(), choices.as_slice())?;
        let selected = match parse_u8(answer.as_str()) {
            Ok(v) => v,
            Err(e) => {
                return Err(WizardError::Message(e));
            },
        };
        let mut position: usize = index;
        while position < 6 && pool[position] != selected
            invariant
                index <= position <= 6,
                index < 6,
            decreases 6 - position,
        {
            position = position + 1;
        }
        if position == 6 {
            return Err(WizardError::Message(owned("selected score is unavailable")));
        }
        let taken = pool[position];
        assert(initial_pool.contains(pool@[position as int]));
        assert(initial_pool.contains(pool@[index as int]));
        let other = pool[index];
        pool[position] = other;
        pool[index] = taken;
        values[index] = selected;
        index = index + 1;
    }
    let scores = scores_from(values);
    assert(crate::abilities::score_seq(scores) =~= values@);
    Ok(scores)
}


/// A score the point buy can pay for.
pub open spec fn buyable(v: u8) -> bool {
    8 <= v <= 15
}

/// The cost of a buyable score.
pub open spec fn cost_of(v: u8) -> int {
    point_buy_cost(v as int)->0
}

/// The points six buyable scores cost together.
pub open spec fn spent6(values: [u8; 6]) -> int {
    cost_of(values[0]) + cost_of(values[1]) + cost_of(values[2]) + cost_of(values[3]) + cost_of(values[4])
        + cost_of(values[5])
}

proof fn lemma_spent6(values: [u8; 6])
    requires
        forall|k: int| 0 <= k < 6 ==> buyable(#[trigger] values[k]),
    ensures
        point_buy_total(values@) == Some(spent6(values)),
{
    let s = values@;
    assert(buyable(values[0]) && buyable(values[1]) && buyable(values[2]) && buyable(values[3]) && buyable(values[4])
        && buyable(values[5]));
    let s5 = s.drop_last();
    let s4 = s5.drop_last();
    let s3 = s4.drop_last();
    let s2 = s3.drop_last();
    let s1 = s2.drop_last();
    let s0 = s1.drop_last();
    assert(s0.len() == 0);
    assert(point_buy_total(s0) == Some(0int));
    assert(point_buy_total(s1) == Some(cost_of(values[0])));
    assert(point_buy_total(s2) == Some(cost_of(values[0]) + cost_of(values[1])));
    assert(point_buy_total(s3) == Some(cost_of(values[0]) + cost_of(values[1]) + cost_of(values[2])));
    assert(point_buy_total(s4) == Some(cost_of(values[0]) + cost_of(values[1]) + cost_of(values[2]) + cost_of(values[3])));
    assert(point_buy_total(s5) == Some(cost_of(values[0]) + cost_of(values[1]) + cost_of(values[2]) + cost_of(values[3])
        + cost_of(values[4])));
}

/// The cost of a buyable score.
fn cost_exec(v: u8) -> (r: u8)
    requires
        buyable(v),
    ensures
        r == cost_of(v),
        r <= 9,
{
    match point_buy_cost_exec(v) {
        Some(c) => c,
        None => 0,
    }
}

/// Six scores bought with the point buy, one adjustment per question, until
/// the budget is spent exactly and the user finishes.
#[verifier::rlimit(80)]
#[verifier::spinoff_prover]
pub fn collect_point_buy_scores<P: PromptPort>(prompts: &mut P) -> (r: Result<AbilityScores, WizardError>)
    ensures
        match r {
            Ok(scores) => point_buy_total(score_seq(scores)) == Some(POINT_BUY_BUDGET as int),
            Err(_) => true,
        },
{
    let mut values: [u8; 6] = [8; 6];
    let mut steps: u64 = u64::MAX;
    loop
        invariant
            forall|k: int| 0 <= k < 6 ==> buyable(#[trigger] values[k]),
            spent6(values) <= POINT_BUY_BUDGET,
        decreases steps,
    {
        if steps == 0 {
            return Err(WizardError::Message(owned("point buy did not finish")));
        }
        steps = steps - 1;
        let spent: u8 = cost_exec(values[0]) + cost_exec(values[1]) + cost_exec(values[2]) + cost_exec(values[3])
            + cost_exec(values[4]) + cost_exec(values[5]);
        let remaining: u8 = POINT_BUY_BUDGET - spent;
        let mut parts: Vec<String> = Vec::new();
        let mut k: usize = 0;
        while k < 6
            invariant
                k <= 6,
            decreases 6 - k,
        {
            let mut part = title(ABILITIES[k]);
            part.append(" ");
            part.append(decimal_exec(values[k] as u64).as_str());
            parts.push(part);
            k = k + 1;
        }
        let mut label = owned("Point cost — ");
        label.append(decimal_exec(remaining as u64).as_str());
        label.append(" points remaining (");
        label.append(join_with(&parts, ", ").as_str());
        label.append(")");
        let options: [&str; 7] = [
            ABILITIES[0],
            ABILITIES[1],
            ABILITIES[2],
            ABILITIES[3],
            ABILITIES[4],
            ABILITIES[5],
            "Finish",
        ];
        let choice = prompts.choose_one(label.as_str(), options.as_slice())?;
        if str_eq(choice.as_str(), "Finish") {
            if remaining == 0 {
                let scores = scores_from(values);
                proof {
                    assert(score_seq(scores) =~= values@);
                    lemma_spent6(values);
                }
                return Ok(scores);
            }
            let mut note = owned("Spend the remaining ");
            note.append(decimal_exec(remaining as u64).as_str());
            note.append(" points before finishing.");
            prompts.display(note.as_str());
        } else {
            let mut index: usize = 0;
            while index < 6 && !str_eq(ABILITIES[index], choice.as_str())
                invariant
                    index <= 6,
                decreases 6 - index,
            {
                index = index + 1;
            }
            if index == 6 {
                return Err(WizardError::Message(owned("unknown ability")));
            }
            let refunded = cost_exec(values[index]);
            let available: u8 = remaining + refunded;
            let mut labels: Vec<String> = Vec::new();
            let mut score: u8 = 8;
            while score <= 15
                invariant
                    8 <= score <= 16,
                decreases 16 - score,
            {
                if cost_exec(score) <= available {
                    labels.push(decimal_exec(score as u64));
                }
                score = score + 1;
            }
            let mut choices: Vec<&str> = Vec::new();
            let mut k: usize = 0;
            while k < labels.len()
                decreases labels.len() - k,
            {
                choices.push(labels[k].as_str());
                k = k + 1;
            }
            let mut set_label = owned("Set ");
            set_label.append(title(choice.as_str()).as_str());
            set_label.append(" (");
            set_label.append(decimal_exec(remaining as u64).as_str());
            set_label.append(" points remaining)");
            let answer = prompts.choose_one(set_label.as_str(), choices.as_slice())?;
            let value = match parse_u8(answer.as_str()) {
                Ok(v) => v,
                Err(e) => {
                    return Err(WizardError::Message(e));
                },
            };
            if !(8 <= value && value <= 15) || cost_exec(value) > available {
                return Err(WizardError::Message(owned("selected score is unavailable")));
            }
            values[index] = value;
        }
    }
}


/// The abilities a background lets the wizard increase, from a pack rule with
/// the background's ID or else from the SRD.
pub fn background_abilities(background: &str, pack_backgrounds: &[PackBackground]) -> (r: Vec<String>)
    ensures
        (exists|k: int| 0 <= k < pack_backgrounds@.len() && #[trigger] pack_backgrounds@[k].id@ == background@)
            ==> exists|k: int|
            0 <= k < pack_backgrounds@.len() && #[trigger] pack_backgrounds@[k].id@ == background@ && r@
                == pack_backgrounds@[k].abilities@,
        !(exists|k: int| 0 <= k < pack_backgrounds@.len() && #[trigger] pack_backgrounds@[k].id@ == background@)
            ==> string_views(r@) == match background_index(background@) {
            Some(i) => seq![
                BACKGROUND_FIRST_ABILITIES@[i]@,
                BACKGROUND_SECOND_ABILITIES@[i]@,
                BACKGROUND_THIRD_ABILITIES@[i]@,
            ],
            None => Seq::<Seq<char>>::empty(),
        },
{
    match pack_background_with_id(pack_backgrounds, background) {
        Some(rule) => crate::text::clone_strings(&rule.abilities),
        None => match background_index_exec(background) {
            Some(i) => srd_background_facts(i).abilities,
            None => Vec::new(),
        },
    }
}

/// The current score of an ability; an unknown ability counts as zero.
fn score_or_zero(scores: &AbilityScores, ability: &str) -> (r: u8)
    ensures
        r == match scores.score_of(ability@) {
            Some(v) => v,
            None => 0u8,
        },
{
    match scores.score(ability) {
        Some(v) => v,
        None => 0,
    }
}

/// The current score of an ability when increases are offered; an unknown
/// ability counts as zero.
pub open spec fn current_score(scores: AbilityScores, ability: Seq<char>) -> int {
    match scores.score_of(ability) {
        Some(v) => v as int,
        None => 0,
    }
}

/// Ability `a` of the list can take +2 while a different ability `b` takes +1.
pub open spec fn two_and_one(scores: AbilityScores, abilities: Seq<Seq<char>>, a: int, b: int) -> bool {
    &&& 0 <= a < abilities.len()
    &&& 0 <= b < abilities.len()
    &&& abilities[b] != abilities[a]
    &&& current_score(scores, abilities[a]) <= 18
    &&& current_score(scores, abilities[b]) <= 19
}

/// Some listed ability can take +2 while another takes +1.
pub open spec fn can_raise_two_and_one(scores: AbilityScores, abilities: Seq<Seq<char>>) -> bool {
    exists|a: int, b: int| #[trigger] two_and_one(scores, abilities, a, b)
}

/// Every listed ability can take +1.
pub open spec fn can_raise_each(scores: AbilityScores, abilities: Seq<Seq<char>>) -> bool {
    forall|k: int| 0 <= k < abilities.len() ==> #[trigger] current_score(scores, abilities[k]) <= 19
}

/// The increase methods the wizard offers for the background's abilities.
pub open spec fn increase_menu(scores: AbilityScores, abilities: Seq<Seq<char>>) -> Seq<Seq<char>> {
    (if can_raise_two_and_one(scores, abilities) {
        seq!["+2 to one and +1 to another"@]
    } else {
        Seq::<Seq<char>>::empty()
    }) + (if can_raise_each(scores, abilities) {
        seq!["+1 to all three"@]
    } else {
        Seq::<Seq<char>>::empty()
    })
}

/// `names` are the abilities the background lets the wizard increase: those of
/// a pack rule with the background's ID, or else those of the SRD background.
pub open spec fn increase_abilities_of(background: Seq<char>, pack: Seq<PackBackground>, names: Seq<Seq<char>>) -> bool {
    if exists|k: int| 0 <= k < pack.len() && #[trigger] pack[k].id@ == background {
        exists|k: int| 0 <= k < pack.len() && #[trigger] pack[k].id@ == background && string_views(pack[k].abilities@) == names
    } else {
        names == match background_index(background) {
            Some(i) => seq![
                BACKGROUND_FIRST_ABILITIES@[i]@,
                BACKGROUND_SECOND_ABILITIES@[i]@,
                BACKGROUND_THIRD_ABILITIES@[i]@,
            ],
            None => Seq::<Seq<char>>::empty(),
        }
    }
}

/// The increase methods the wizard offers for the background's abilities.
pub fn increase_methods(scores: &AbilityScores, abilities: &Vec<String>) -> (r: Vec<&'static str>)
    ensures
        str_views(r@) == increase_menu(*scores, string_views(abilities@)),
{
    let ghost names = string_views(abilities@);
    let n = abilities.len();
    let mut each = true;
    let mut i: usize = 0;
    while i < n
        invariant
            i <= n,
            n == abilities@.len(),
            names == string_views(abilities@),
            each == (forall|k: int| 0 <= k < i ==> #[trigger] current_score(*scores, names[k]) <= 19),
        decreases n - i,
    {
        let v = score_or_zero(scores, abilities[i].as_str());
        assert(names[i as int] == abilities@[i as int]@);
        assert(v as int == current_score(*scores, names[i as int]));
        if v > 19 {
            each = false;
        }
        i = i + 1;
    }
    let mut two = false;
    let mut a: usize = 0;
    while a < n
        invariant
            a <= n,
            n == abilities@.len(),
            names == string_views(abilities@),
            two == (exists|x: int, y: int| 0 <= x < a && #[trigger] two_and_one(*scores, names, x, y)),
        decreases n - a,
    {
        let mut found = false;
        let mut b: usize = 0;
        while b < n
            invariant
                a < n,
                b <= n,
                n == abilities@.len(),
                names == string_views(abilities@),
                found == (exists|y: int| 0 <= y < b && names[y] != names[a as int] && #[trigger] current_score(*scores, names[y]) <= 19),
            decreases n - b,
        {
            if !str_eq(abilities[b].as_str(), abilities[a].as_str()) && score_or_zero(scores, abilities[b].as_str()) <= 19 {
                found = true;
                assert(names[b as int] != names[a as int] && current_score(*scores, names[b as int]) <= 19);
            }
            b = b + 1;
        }
        if score_or_zero(scores, abilities[a].as_str()) <= 18 && found {
            proof {
                let y = choose|y: int| 0 <= y < n && names[y] != names[a as int] && #[trigger] current_score(*scores, names[y]) <= 19;
                assert(two_and_one(*scores, names, a as int, y));
            }
            two = true;
        } else {
            assert forall|y: int| !two_and_one(*scores, names, a as int, y) by {
                if two_and_one(*scores, names, a as int, y) {
                    assert(current_score(*scores, names[y]) <= 19);
                }
            }
        }
        assert(two == (exists|x: int, y: int| 0 <= x < a + 1 && #[trigger] two_and_one(*scores, names, x, y))) by {
            if exists|x: int, y: int| 0 <= x < a + 1 && #[trigger] two_and_one(*scores, names, x, y) {
                let (x, y) = choose|x: int, y: int| 0 <= x < a + 1 && #[trigger] two_and_one(*scores, names, x, y);
                if x < a {
                    assert(two);
                }
            }
        }
        a = a + 1;
    }
    assert(two == can_raise_two_and_one(*scores, names));
    let mut methods: Vec<&'static str> = Vec::new();
    if two {
        methods.push("+2 to one and +1 to another");
    }
    if each {
        methods.push("+1 to all three");
    }
    proof {
        reveal_strlit("+2 to one and +1 to another");
        reveal_strlit("+1 to all three");
    }
    assert(str_views(methods@) =~= increase_menu(*scores, names));
    methods
}

/// The first question of the increases: the method, offered from the menu
/// the scores allow.
pub open spec fn increase_menu_asked(
    before: Seq<(Seq<char>, Seq<Seq<char>>, nat, Seq<Seq<char>>)>,
    after: Seq<(Seq<char>, Seq<Seq<char>>, nat, Seq<Seq<char>>)>,
    scores: AbilityScores,
    names: Seq<Seq<char>>,
) -> bool {
    let n = before.len() as int;
    &&& before.is_prefix_of(after)
    &&& after.len() > n
    &&& after[n].0 == "Apply background ability increases"@
    &&& after[n].1 == increase_menu(scores, names)
    &&& after[n].2 == 1
}

/// Apply the background's ability increases: +2 to one and +1 to another, or
/// +1 to all three, as far as each keeps its score at most 20.
pub fn apply_background_increases<P: PromptPort>(
    scores: &AbilityScores,
    background: &str,
    prompts: &mut P,
    pack_backgrounds: &[PackBackground],
) -> (r: Result<AbilityScores, WizardError>)
    ensures
        match r {
            Ok(s) => forall|k: int|
                0 <= k < 6 ==> score_seq(*scores)[k] <= #[trigger] score_seq(s)[k] <= 20,
            Err(_) => true,
        },
        exists|names: Seq<Seq<char>>| {
            &&& increase_abilities_of(background@, pack_backgrounds@, names)
            &&& names.len() == 0 ==> (r matches Err(WizardError::Message(m)) && m@ == "unknown background"@
                && *final(prompts) == *old(prompts))
            &&& names.len() > 0 && increase_menu(*scores, names).len() == 0 ==> (r matches Err(WizardError::Message(m))
                && m@ == "no legal background ability increases remain"@ && *final(prompts) == *old(prompts))
            &&& r matches Ok(s) ==> exists|increases: Seq<(String, u8)>, listed: Seq<&str>|
                str_views(listed) == names && increases_shape(increases, listed) && score_seq(s).map_values(
                    |v: u8| v as int,
                ) == adjusted_seq(*scores, increases)
            &&& r is Ok ==> increase_menu_asked(old(prompts).answered(), final(prompts).answered(), *scores, names)
        },
{
    let abilities = background_abilities(background, pack_backgrounds);
    assert(increase_abilities_of(background@, pack_backgrounds@, string_views(abilities@)));
    if abilities.len() == 0 {
        return Err(WizardError::Message(owned("unknown background")));
    }
    let mut plus_one: Vec<&str> = Vec::new();
    let mut k: usize = 0;
    while k < abilities.len()
        decreases abilities.len() - k,
    {
        if score_or_zero(scores, abilities[k].as_str()) <= 19 {
            plus_one.push(abilities[k].as_str());
        }
        k = k + 1;
    }
    let mut plus_two: Vec<&str> = Vec::new();
    let mut k: usize = 0;
    while k < abilities.len()
        decreases abilities.len() - k,
    {
        let ability = abilities[k].as_str();
        let mut other = false;
        let mut j: usize = 0;
        while j < plus_one.len()
            decreases plus_one.len() - j,
        {
            if !str_eq(plus_one[j], ability) {
                other = true;
            }
            j = j + 1;
        }
        if score_or_zero(scores, ability) <= 18 && other {
            plus_two.push(ability);
        }
        k = k + 1;
    }
    let methods = increase_methods(scores, &abilities);
    if methods.len() == 0 {
        return Err(WizardError::Message(owned("no legal background ability increases remain")));
    }
    let ghost h0 = prompts.answered();
    let method = prompts.choose_one("Apply background ability increases", methods.as_slice())?;
    let ghost h1 = prompts.answered();
    assert(h1.is_prefix_of(h1)) by {
        assert(h1.subrange(0, h1.len() as int) =~= h1);
    }
    let method_chars = crate::text::chars_of(method.as_str());
    let mut increases: Vec<(String, u8)> = Vec::new();
    if method_chars.len() >= 2 && method_chars[0] == '+' && method_chars[1] == '2' {
        let ghost hb = prompts.answered();
        let plus_two_choice = prompts.choose_one("Ability to increase by 2", plus_two.as_slice())?;
        proof {
            crate::prompts::lemma_grows(h1, hb, prompts.answered());
        }
        let mut candidates: Vec<&str> = Vec::new();
        let mut k: usize = 0;
        while k < plus_one.len()
            decreases plus_one.len() - k,
        {
            if !str_eq(plus_one[k], plus_two_choice.as_str()) {
                candidates.push(plus_one[k]);
            }
            k = k + 1;
        }
        let ghost hb = prompts.answered();
        let plus_one_choice = prompts.choose_one("Different ability to increase by 1", candidates.as_slice())?;
        proof {
            crate::prompts::lemma_grows(h1, hb, prompts.answered());
        }
        increases.push((plus_two_choice, 2));
        increases.push((plus_one_choice, 1));
    } else {
        let mut k: usize = 0;
        while k < abilities.len()
            decreases abilities.len() - k,
        {
            increases.push((abilities[k].clone(), 1));
            k = k + 1;
        }
    }
    let mut names: Vec<&str> = Vec::new();
    let mut k: usize = 0;
    while k < abilities.len()
        invariant
            k <= abilities@.len(),
            str_views(names@) == string_views(abilities@.subrange(0, k as int)),
        decreases abilities.len() - k,
    {
        let ghost before = names@;
        names.push(abilities[k].as_str());
        assert(str_views(names@) =~= str_views(before).push(abilities@[k as int]@));
        assert(string_views(abilities@.subrange(0, k as int + 1)) =~= string_views(abilities@.subrange(0, k as int)).push(abilities@[k as int]@));
        k = k + 1;
    }
    assert(abilities@.subrange(0, abilities@.len() as int) =~= abilities@);
    let adjustment = BackgroundAbilityAdjustment {
        background: owned(background),
        base_scores: *scores,
        increases,
    };
    match adjustment.adjusted_scores_for(names.as_slice()) {
        Ok(s) => {
            proof {
                assert forall|k: int| 0 <= k < 6 implies score_seq(*scores)[k] <= #[trigger] score_seq(s)[k] <= 20 by {
                    crate::abilities::lemma_increase_nonnegative(adjustment.increases@, ABILITIES@[k]@);
                    assert(score_seq(s).map_values(|v: u8| v as int)[k] == score_seq(s)[k] as int);
                }
                assert(increases_shape(adjustment.increases@, names@));
                let h = prompts.answered();
                let n = h0.len() as int;
                assert(h.subrange(0, h1.len() as int) == h1);
                assert(h[n] == h.subrange(0, h1.len() as int)[n]);
                assert(h1[n] == exchange("Apply background ability increases"@, str_views(methods@), 1, seq![method@]));
                assert(h0.is_prefix_of(h)) by {
                    assert(h.subrange(0, n) =~= h1.subrange(0, n));
                    assert(h1.subrange(0, n) =~= h0);
                }
            }
            Ok(s)
        },
        Err(e) => Err(WizardError::Message(e)),
    }
}


/// The abilities stage: generate base scores by the chosen method, check them
/// against the method, and apply the background's increases.
pub fn collect_abilities<P: PromptPort>(
    origin: &OriginDraft,
    prompts: &mut P,
    pack_backgrounds: &[PackBackground],
) -> (r: Result<AbilityScores, WizardError>)
    ensures
        match r {
            Ok(s) => forall|k: int| 0 <= k < 6 ==> #[trigger] score_seq(s)[k] <= 20,
            Err(_) => true,
        },
{
    let methods: [&str; 4] = [
        "Use the class suggested array",
        "Assign the standard array",
        "Roll 4d6 and drop the lowest",
        "Use 27-point point buy",
    ];
    let method_label = prompts.choose_one("Generate ability scores", methods.as_slice())?;
    let (method, scores) = if str_eq(method_label.as_str(), "Use the class suggested array") {
        match class_index_exec(origin.character_class.as_str()) {
            Some(i) => (AbilityGenerationMethod::SuggestedArray, scores_from(SUGGESTED_ARRAYS[i])),
            None => {
                return Err(WizardError::Message(owned("unknown class suggested array")));
            },
        }
    } else if str_eq(method_label.as_str(), "Assign the standard array") {
        (AbilityGenerationMethod::StandardArray, assign_score_pool(STANDARD_ARRAY, prompts)?)
    } else if str_eq(method_label.as_str(), "Roll 4d6 and drop the lowest") {
        let rolled = roll_scores();
        (AbilityGenerationMethod::Random, assign_score_pool(rolled, prompts)?)
    } else {
        (AbilityGenerationMethod::PointBuy, collect_point_buy_scores(prompts)?)
    };
    let generation = AbilityScoreGeneration {
        method,
        scores,
        character_class: Some(origin.character_class.clone()),
    };
    match generation.validate() {
        Ok(()) => {},
        Err(e) => {
            return Err(WizardError::Message(e));
        },
    }
    apply_background_increases(&scores, origin.background.as_str(), prompts, pack_backgrounds)
}

/// How one item of a package reads: `N x name` for several, the name alone for one.
pub open spec fn item_label(name: Seq<char>, quantity: u16) -> Seq<char> {
    if quantity > 1 {
        decimal(quantity as nat) + " x "@ + name
    } else {
        name
    }
}

/// The items of a package, each with its count, joined by commas.
pub open spec fn package_summary(names: Seq<&str>, counts: Seq<u16>) -> Seq<char>
    decreases names.len(),
{
    if names.len() == 0 {
        seq![]
    } else if names.len() == 1 {
        item_label(names[0]@, counts[0])
    } else {
        package_summary(names.drop_last(), counts.drop_last()) + ", "@ + item_label(names.last()@, counts[names.len() - 1])
    }
}

pub(crate) fn item_label_exec(name: &str, quantity: u16) -> (r: String)
    ensures
        r@ == item_label(name@, quantity),
{
    if quantity > 1 {
        let mut out = decimal_exec(quantity as u64);
        out.append(" x ");
        out.append(name);
        out
    } else {
        owned(name)
    }
}

/// The items of a package, each with its count, joined by commas.
pub fn equipment_summary(names: &[&str], counts: &[u16]) -> (r: String)
    requires
        names@.len() == counts@.len(),
    ensures
        r@ == package_summary(names@, counts@),
{
    let mut out = String::new();
    let mut i: usize = 0;
    while i < names.len()
        invariant
            i <= names@.len(),
            names@.len() == counts@.len(),
            out@ == package_summary(names@.subrange(0, i as int), counts@.subrange(0, i as int)),
        decreases names.len() - i,
    {
        let ghost n = names@.subrange(0, i as int + 1);
        let ghost c = counts@.subrange(0, i as int + 1);
        assert(n.drop_last() =~= names@.subrange(0, i as int));
        assert(c.drop_last() =~= counts@.subrange(0, i as int));
        if i > 0 {
            out.append(", ");
        }
        out.append(item_label_exec(names[i], counts[i]).as_str());
        i = i + 1;
    }
    assert(names@.subrange(0, names@.len() as int) =~= names@);
    assert(counts@.subrange(0, counts@.len() as int) =~= counts@);
    out
}

/// The display label of one class starting-equipment option, when the class has it.
pub open spec fn class_option_label(class: int, option: Seq<char>) -> Option<Seq<char>> {
    if option == "Gold"@ {
        Some("Gold — start with "@ + decimal(CLASS_STARTING_GOLD@[class] as nat) + " GP and no class package"@)
    } else {
        match crate::srd::class_package(class, option) {
            Some((names, counts, gold)) => Some(option + " — "@ + package_summary(names, counts) + "; plus "@ + decimal(
                gold as nat,
            ) + " GP"@),
            None => None,
        }
    }
}

/// The labels of the offered class starting-equipment options, in order, for those the class has.
pub open spec fn class_option_labels(class: int, options: Seq<&str>) -> Seq<Seq<char>>
    decreases options.len(),
{
    if options.len() == 0 {
        seq![]
    } else {
        let rest = class_option_labels(class, options.drop_last());
        match class_option_label(class, options.last()@) {
            Some(label) => rest.push(label),
            None => rest,
        }
    }
}

pub(crate) proof fn lemma_package_counts(class: int, option: Seq<char>)
    requires
        0 <= class < 12,
    ensures
        match crate::srd::class_package(class, option) {
            Some((names, counts, _)) => names.len() == counts.len(),
            None => true,
        },
{
}

/// The labels of the offered class starting-equipment options; an unknown class has none.
pub fn class_equipment_labels(character_class: &str, options: &[&str]) -> (r: Vec<String>)
    ensures
        match crate::srd::class_index(character_class@) {
            Some(class) => string_views(r@) == class_option_labels(class, options@),
            None => r@.len() == 0,
        },
{
    let class = match class_index_exec(character_class) {
        Some(i) => i,
        None => {
            return Vec::new();
        },
    };
    let mut out: Vec<String> = Vec::new();
    let mut i: usize = 0;
    while i < options.len()
        invariant
            i <= options@.len(),
            class < 12,
            crate::srd::class_index(character_class@) == Some(class as int),
            string_views(out@) == class_option_labels(class as int, options@.subrange(0, i as int)),
        decreases options.len() - i,
    {
        let ghost before = out@;
        assert(options@.subrange(0, i as int + 1).drop_last() =~= options@.subrange(0, i as int));
        let option = options[i];
        if str_eq(option, "Gold") {
            let mut label = owned("Gold — start with ");
            label.append(decimal_exec(CLASS_STARTING_GOLD[class] as u64).as_str());
            label.append(" GP and no class package");
            out.push(label);
            assert(string_views(out@) =~= string_views(before).push(out@[out@.len() - 1]@));
        } else {
            proof {
                lemma_package_counts(class as int, option@);
            }
            match class_package_exec(class, option) {
                Some((names, counts, gold)) => {
                    let mut label = owned(option);
                    label.append(" — ");
                    label.append(equipment_summary(names, counts).as_str());
                    label.append("; plus ");
                    label.append(decimal_exec(gold as u64).as_str());
                    label.append(" GP");
                    out.push(label);
                    assert(string_views(out@) =~= string_views(before).push(out@[out@.len() - 1]@));
                },
                None => {},
            }
        }
        i = i + 1;
    }
    assert(options@.subrange(0, options@.len() as int) =~= options@);
    out
}

/// The first pack item whose ID is `id`.
pub open spec fn equipment_with_id(equipment: Seq<PackEquipment>, id: Seq<char>) -> Option<int> {
    crate::resolve::first_where(equipment, |e: PackEquipment| e.id@ == id)
}

/// The name of a pack grant: its own, or that of the pack item it refers to.
pub open spec fn grant_name(grant: PackEquipmentGrant, equipment: Seq<PackEquipment>) -> Seq<char> {
    match grant.name {
        Some(n) => n@,
        None => match grant.equipment_id {
            Some(id) => match equipment_with_id(equipment, id@) {
                Some(k) => equipment[k].name@,
                None => "Unknown equipment"@,
            },
            None => "Unknown equipment"@,
        },
    }
}

/// The grants of a pack background, each with its count, joined by commas.
pub open spec fn pack_summary(grants: Seq<PackEquipmentGrant>, equipment: Seq<PackEquipment>) -> Seq<char>
    decreases grants.len(),
{
    if grants.len() == 0 {
        seq![]
    } else if grants.len() == 1 {
        item_label(grant_name(grants[0], equipment), grants[0].quantity)
    } else {
        pack_summary(grants.drop_last(), equipment) + ", "@ + item_label(
            grant_name(grants.last(), equipment),
            grants.last().quantity,
        )
    }
}

#[verifier::loop_isolation(false)]
pub(crate) fn grant_name_exec(grant: &PackEquipmentGrant, equipment: &[PackEquipment]) -> (r: String)
    ensures
        r@ == grant_name(*grant, equipment@),
{
    match &grant.name {
        Some(n) => n.clone(),
        None => match &grant.equipment_id {
            Some(id) => {
                let ghost p = |e: PackEquipment| e.id@ == id@;
                proof {
                    crate::resolve::lemma_first_where(equipment@, p, 0);
                }
                let mut k: usize = 0;
                while k < equipment.len()
                    invariant
                        k <= equipment@.len(),
                        p == (|e: PackEquipment| e.id@ == id@),
                        crate::resolve::first_where(equipment@, p) == crate::resolve::first_where_from(
                            equipment@,
                            p,
                            k as int,
                        ),
                    decreases equipment.len() - k,
                {
                    if str_eq(equipment[k].id.as_str(), id.as_str()) {
                        assert(p(equipment@[k as int]));
                        assert(crate::resolve::first_where_from(equipment@, p, k as int) == Some(k as int));
                        return equipment[k].name.clone();
                    }
                    k = k + 1;
                }
                owned("Unknown equipment")
            },
            None => owned("Unknown equipment"),
        },
    }
}

/// The grants of a pack background, each with its count, joined by commas.
pub fn pack_equipment_summary(grants: &Vec<PackEquipmentGrant>, equipment: &[PackEquipment]) -> (r: String)
    ensures
        r@ == pack_summary(grants@, equipment@),
{
    let mut out = String::new();
    let mut i: usize = 0;
    while i < grants.len()
        invariant
            i <= grants@.len(),
            out@ == pack_summary(grants@.subrange(0, i as int), equipment@),
        decreases grants.len() - i,
    {
        assert(grants@.subrange(0, i as int + 1).drop_last() =~= grants@.subrange(0, i as int));
        if i > 0 {
            out.append(", ");
        }
        let name = grant_name_exec(&grants[i], equipment);
        out.append(item_label_exec(name.as_str(), grants[i].quantity).as_str());
        i = i + 1;
    }
    assert(grants@.subrange(0, grants@.len() as int) =~= grants@);
    out
}

pub(crate) proof fn lemma_background_package_shape(i: int)
    requires
        0 <= i < 4,
    ensures
        crate::srd::background_package(i).0.len() == crate::srd::background_package(i).1.len(),
{
}

/// The labels of the background starting-equipment options: the package, when
/// there is one, and gold instead of it.
pub fn background_equipment_labels(
    background: &str,
    pack_background: Option<&PackBackground>,
    pack_equipment: &[PackEquipment],
) -> (r: Vec<String>)
    ensures
        match pack_background {
            Some(rule) => string_views(r@) == seq![
                "A — "@ + pack_summary(rule.equipment@, pack_equipment@) + "; plus "@ + decimal(rule.equipment_gold as nat)
                    + " GP"@,
                "Gold — start with "@ + decimal(rule.gold_alternative as nat) + " GP and no background package"@,
            ],
            None => match crate::srd::background_index(background@) {
                Some(i) => string_views(r@) == seq![
                    "A — "@ + package_summary(crate::srd::background_package(i).0, crate::srd::background_package(i).1)
                        + "; plus "@ + decimal(BACKGROUND_PACKAGE_GOLD@[i] as nat) + " GP"@,
                    "Gold — start with "@ + decimal(50) + " GP and no background package"@,
                ],
                None => string_views(r@) == seq!["Gold — start with "@ + decimal(50) + " GP and no background package"@],
            },
        },
{
    let mut labels: Vec<String> = Vec::new();
    match pack_background {
        Some(rule) => {
            let mut label = owned("A — ");
            label.append(pack_equipment_summary(&rule.equipment, pack_equipment).as_str());
            label.append("; plus ");
            label.append(decimal_exec(rule.equipment_gold as u64).as_str());
            label.append(" GP");
            labels.push(label);
        },
        None => match background_index_exec(background) {
            Some(i) => {
                let (names, counts) = background_package_exec(i);
                proof {
                    lemma_background_package_shape(i as int);
                }
                let mut label = owned("A — ");
                label.append(equipment_summary(names, counts).as_str());
                label.append("; plus ");
                label.append(decimal_exec(BACKGROUND_PACKAGE_GOLD[i] as u64).as_str());
                label.append(" GP");
                labels.push(label);
            },
            None => {},
        },
    }
    let gold: u16 = match pack_background {
        Some(rule) => rule.gold_alternative,
        None => 50,
    };
    let mut label = owned("Gold — start with ");
    label.append(decimal_exec(gold as u64).as_str());
    label.append(" GP and no background package");
    labels.push(label);
    proof {
        assert(string_views(labels@) =~= labels@.map_values(|x: String| x@));
    }
    labels
}


/// The option an answer selects: the option itself, or its label `option — ...`.
pub open spec fn selects(answer: Seq<char>, option: Seq<char>) -> bool {
    answer == option || (answer.len() >= option.len() + 2 && answer.subrange(0, option.len() as int) == option
        && answer[option.len() as int] == ' ' && answer[option.len() as int + 1] == '—')
}

fn selects_exec(answer: &str, option: &str) -> (r: bool)
    ensures
        r == selects(answer@, option@),
{
    if str_eq(answer, option) {
        return true;
    }
    let a = crate::text::chars_of(answer);
    let o = crate::text::chars_of(option);
    if a.len() < 2 || a.len() - 2 < o.len() {
        return false;
    }
    let mut i: usize = 0;
    while i < o.len()
        invariant
            i <= o@.len(),
            a@ == answer@,
            o@ == option@,
            a@.len() >= o@.len() + 2,
            forall|k: int| 0 <= k < i ==> a@[k] == o@[k],
        decreases o.len() - i,
    {
        if a[i] != o[i] {
            assert(answer@.subrange(0, option@.len() as int)[i as int] != option@[i as int]);
            return false;
        }
        i = i + 1;
    }
    assert(answer@.subrange(0, option@.len() as int) =~= option@);
    a[o.len()] == ' ' && a[o.len() + 1] == '—'
}

/// Ask for one of `options` by its display label and return the option selected.
#[verifier::loop_isolation(false)]
pub fn choose_equipment_option<P: PromptPort>(
    prompts: &mut P,
    label: &str,
    options: &[&str],
    display_labels: &Vec<String>,
) -> (r: Result<String, WizardError>)
    ensures
        match r {
            Ok(option) => in_list(options@, option@) && final(prompts).answered().len() == old(prompts).answered().len()
                + 1 && final(prompts).answered().drop_last() == old(prompts).answered(),
            Err(_) => true,
        },
{
    let mut choices: Vec<&str> = Vec::new();
    let mut k: usize = 0;
    while k < display_labels.len()
        decreases display_labels.len() - k,
    {
        choices.push(display_labels[k].as_str());
        k = k + 1;
    }
    let selected = prompts.choose_one(label, choices.as_slice())?;
    assert(prompts.answered().drop_last() =~= old(prompts).answered());
    let mut i: usize = 0;
    while i < options.len()
        invariant
            i <= options@.len(),
        decreases options.len() - i,
    {
        if selects_exec(selected.as_str(), options[i]) {
            let option = owned(options[i]);
            assert(options@[i as int]@ == option@);
            return Ok(option);
        }
        i = i + 1;
    }
    let mut message = owned("invalid ");
    message.append(label);
    message.append(" choice: ");
    message.append(selected.as_str());
    Err(WizardError::Message(message))
}

/// The skills a class may not take again: the background's, the Human's and
/// Keen Senses' picks, and skills taken with Skilled, in sorted order.
pub fn unavailable_skills(background_skills: &Vec<String>, origin: &OriginDraft) -> (r: Vec<String>)
    ensures
        crate::prompts::strictly_sorted(r@),
        crate::prompts::text_set(r@) == (string_views(background_skills@) + crate::text::opt_seq(origin.human_skill)
            + crate::text::opt_seq(origin.elf_keen_senses_skill) + crate::derived::skill_picks(
            origin.skilled_proficiencies@,
        )).to_set(),
{
    let mut all = crate::text::clone_strings(background_skills);
    crate::text::push_opt(&mut all, &origin.human_skill);
    crate::text::push_opt(&mut all, &origin.elf_keen_senses_skill);
    let ghost head = string_views(all@);
    let mut k: usize = 0;
    while k < origin.skilled_proficiencies.len()
        invariant
            k <= origin.skilled_proficiencies@.len(),
            string_views(all@) == head + crate::derived::skill_picks(origin.skilled_proficiencies@.subrange(0, k as int)),
        decreases origin.skilled_proficiencies.len() - k,
    {
        let ghost before = all@;
        assert(origin.skilled_proficiencies@.subrange(0, k as int + 1).drop_last() =~= origin.skilled_proficiencies@.subrange(
            0,
            k as int,
        ));
        if crate::srd::is_skill_exec(origin.skilled_proficiencies[k].as_str()) {
            all.push(origin.skilled_proficiencies[k].clone());
            assert(string_views(all@) =~= string_views(before).push(origin.skilled_proficiencies@[k as int]@));
        }
        k = k + 1;
    }
    assert(origin.skilled_proficiencies@.subrange(0, origin.skilled_proficiencies@.len() as int)
        =~= origin.skilled_proficiencies@);
    proof {
        lemma_text_set_views(all@);
    }
    crate::prompts::sorted_set(all)
}

pub(crate) proof fn lemma_text_set_views(v: Seq<String>)
    ensures
        crate::prompts::text_set(v) == string_views(v).to_set(),
{
    assert forall|t: Seq<char>| #[trigger] crate::prompts::text_set(v).contains(t) <==> string_views(v).to_set().contains(t) by {
        if crate::prompts::text_set(v).contains(t) {
            let i = choose|i: int| 0 <= i < v.len() && #[trigger] v[i]@ == t;
            assert(string_views(v)[i] == t);
        }
        if string_views(v).to_set().contains(t) {
            assert(string_views(v).contains(t));
            let i = choose|i: int| 0 <= i < string_views(v).len() && string_views(v)[i] == t;
            assert(v[i]@ == t);
        }
    }
    assert(crate::prompts::text_set(v) =~= string_views(v).to_set());
}

/// The weapons whose mastery a class may choose: melee ones for a Barbarian,
/// simple, finesse or light ones for a Rogue, any for another class.
pub open spec fn mastery_option(class: Seq<char>, w: int) -> bool {
    if class == "Barbarian"@ {
        !WEAPON_RANGED@[w]
    } else if class == "Rogue"@ {
        !WEAPON_MARTIAL@[w] || WEAPON_FINESSE_OR_LIGHT@[w]
    } else {
        true
    }
}

/// The weapons whose mastery the class may choose, in catalog order.
pub fn mastery_options(class: &str) -> (r: Vec<&'static str>)
    ensures
        forall|k: int| 0 <= k < r@.len() ==> exists|w: int| 0 <= w < 38 && #[trigger] r@[k] == WEAPON_NAMES@[w] && mastery_option(class@, w),
{
    proof {
        reveal_strlit("Barbarian");
        reveal_strlit("Rogue");
    }
    let barbarian = str_eq(class, "Barbarian");
    let rogue = str_eq(class, "Rogue");
    let mut out: Vec<&'static str> = Vec::new();
    let mut w: usize = 0;
    while w < WEAPON_NAMES.len()
        invariant
            w <= 38,
            barbarian == (class@ == "Barbarian"@),
            rogue == (class@ == "Rogue"@),
            forall|k: int| 0 <= k < out@.len() ==> exists|v: int| 0 <= v < 38 && #[trigger] out@[k] == WEAPON_NAMES@[v] && mastery_option(class@, v),
        decreases 38 - w,
    {
        let keep = if barbarian {
            !WEAPON_RANGED[w]
        } else if rogue {
            !WEAPON_MARTIAL[w] || WEAPON_FINESSE_OR_LIGHT[w]
        } else {
            true
        };
        if keep {
            let ghost before = out@;
            out.push(WEAPON_NAMES[w]);
            assert(out@[out@.len() - 1] == WEAPON_NAMES@[w as int]);
            assert forall|k: int| 0 <= k < out@.len() implies exists|v: int| 0 <= v < 38 && #[trigger] out@[k] == WEAPON_NAMES@[v] && mastery_option(class@, v) by {
                if k < before.len() {
                    assert(out@[k] == before[k]);
                } else {
                    assert(out@[k] == WEAPON_NAMES@[w as int]);
                }
            }
        }
        w = w + 1;
    }
    out
}

/// The cantrips a class learns at level 1, with one more for a Thaumaturge or Magician.
pub open spec fn cantrip_count(class: int, divine_order: Option<String>, primal_order: Option<String>) -> int {
    CLASS_CANTRIP_COUNTS@[class] + if opt_is(divine_order, "Thaumaturge"@) || opt_is(primal_order, "Magician"@) {
        1int
    } else {
        0int
    }
}

/// An optional text is present and equals `value`.
pub open spec fn opt_is(o: Option<String>, value: Seq<char>) -> bool {
    match o {
        Some(v) => v@ == value,
        None => false,
    }
}

fn opt_is_exec(o: &Option<String>, value: &str) -> (r: bool)
    ensures
        r == opt_is(*o, value@),
{
    match o {
        Some(v) => str_eq(v.as_str(), value),
        None => false,
    }
}

/// A sorted, duplicate-free selection from the prompt port.
fn choose_set_of<P: PromptPort>(prompts: &mut P, label: &str, choices: &[&str], count: usize) -> (r: Result<Vec<String>, WizardError>)
    ensures
        match r {
            Ok(v) => crate::prompts::strictly_sorted(v@) && final(prompts).answered().len() == old(prompts).answered().len()
                + 1 && final(prompts).answered().drop_last() == old(prompts).answered(),
            Err(_) => true,
        },
{
    let chosen = prompts.choose_set(label, choices, count)?;
    assert(prompts.answered().drop_last() =~= old(prompts).answered());
    Ok(crate::prompts::sorted_set(chosen))
}

/// A set of `count` entries of `choices`, sorted, recorded as the answer.
fn choose_recorded_set<P: PromptPort>(prompts: &mut P, label: &str, choices: &[&str], count: usize) -> (r: Result<
    Vec<String>,
    WizardError,
>)
    ensures
        match r {
            Ok(v) => crate::prompts::strictly_sorted(v@) && set_answered(
                old(prompts).answered(),
                final(prompts).answered(),
                label@,
                str_views(choices@),
                count as nat,
                v@,
            ),
            Err(_) => true,
        },
{
    let chosen = prompts.choose_set(label, choices, count)?;
    let ghost chosen_seq = chosen@;
    let v = crate::prompts::sorted_set(chosen);
    proof {
        lemma_text_set_views(chosen_seq);
        assert(prompts.answered().drop_last() =~= old(prompts).answered());
    }
    Ok(v)
}

/// `after` is `before` with one more question, asking for `count` of `offered`
/// under `label`, whose answers are, as a set, those of `chosen`.
pub open spec fn set_answered(
    before: Seq<(Seq<char>, Seq<Seq<char>>, nat, Seq<Seq<char>>)>,
    after: Seq<(Seq<char>, Seq<Seq<char>>, nat, Seq<Seq<char>>)>,
    label: Seq<char>,
    offered: Seq<Seq<char>>,
    count: nat,
    chosen: Seq<String>,
) -> bool {
    &&& after.len() == before.len() + 1
    &&& after.drop_last() == before
    &&& after.last().0 == label
    &&& after.last().1 == offered
    &&& after.last().2 == count
    &&& crate::prompts::text_set(chosen) == after.last().3.to_set()
}

/// The class options a build holds are exactly those its class calls for, and
/// its equipment choices are among the offered options.
pub open spec fn build_options_fit(class: Seq<char>, b: BuildDraft) -> bool {
    &&& class_choices_fit(class, b.class_choices)
    &&& (b.class_equipment_option@ == "A"@ || b.class_equipment_option@ == "Gold"@ || (class == "Fighter"@
        && b.class_equipment_option@ == "B"@))
    &&& (b.background_equipment_option@ == "A"@ || b.background_equipment_option@ == "Gold"@)
    &&& (b.bard_starting_instrument is Some) == (class == "Bard"@ && b.class_equipment_option@ != "Gold"@)
}

/// The class options are exactly those the class calls for.
pub open spec fn class_choices_fit(class: Seq<char>, cc: ClassChoices) -> bool {
    &&& (class == "Cleric"@) == (cc.divine_order is Some)
    &&& (class == "Druid"@) == (cc.primal_order is Some)
    &&& (class == "Fighter"@) == (cc.fighting_style is Some)
    &&& (class == "Warlock"@) == (cc.eldritch_invocation is Some)
    &&& (class == "Rogue"@) == (cc.additional_language is Some)
    &&& (class != "Rogue"@ ==> cc.expertise@.len() == 0)
    &&& (class == "Monk"@ ==> cc.tools@.len() == 1)
    &&& (class != "Bard"@ && class != "Monk"@ ==> cc.tools@.len() == 0)
    &&& (class != "Wizard"@ ==> cc.spellbook_spells@.len() == 0)
    &&& cc.pack_choices@.len() == 0
}

/// The class options of a build: masteries, tools, Expertise, orders, styles,
/// invocations, languages and spells, as far as the class calls for them.
#[verifier::rlimit(100)]
#[verifier::spinoff_prover]
fn collect_class_choices<P: PromptPort>(
    prompts: &mut P,
    class: usize,
    class_name: &str,
    unavailable: &Vec<String>,
    class_skills: &Vec<String>,
    origin: &OriginDraft,
) -> (r: Result<ClassChoices, WizardError>)
    requires
        class < 12,
    ensures
        match r {
            Ok(cc) => class_choices_fit(class_name@, cc) && crate::prompts::extends(
                final(prompts).answered(),
                old(prompts).answered(),
            ),
            Err(_) => true,
        },
{
    let ghost h_start = prompts.answered();
    proof {
        crate::prompts::lemma_extends_itself(h_start);
    }
    proof {
        reveal_strlit("Bard");
        reveal_strlit("Monk");
        assert("Monk"@[0] != "Bard"@[0]);
    }
    let mut choices = ClassChoices::empty();
    let mastery_count = CLASS_MASTERY_COUNTS[class];
    if mastery_count > 0 {
        let options = mastery_options(class_name);
        let ghost hb = prompts.answered();
        choices.weapon_masteries = choose_set_of(prompts, "Weapon masteries", options.as_slice(), mastery_count)?;
        proof {
            crate::prompts::lemma_extends_grows(h_start, hb, prompts.answered());
        }
    }
    if str_eq(class_name, "Bard") {
        let ghost hb = prompts.answered();
        choices.tools = choose_set_of(prompts, "Musical instrument proficiencies", MUSICAL_INSTRUMENTS.as_slice(), 3)?;
        proof {
            crate::prompts::lemma_extends_grows(h_start, hb, prompts.answered());
        }
    }
    if str_eq(class_name, "Monk") {
        let mut tools: Vec<&str> = Vec::new();
        let mut k: usize = 0;
        while k < ARTISAN_TOOLS.len()
            invariant
                k <= 17,
            decreases 17 - k,
        {
            tools.push(ARTISAN_TOOLS[k]);
            k = k + 1;
        }
        let mut k: usize = 0;
        while k < MUSICAL_INSTRUMENTS.len()
            invariant
                k <= 10,
            decreases 10 - k,
        {
            tools.push(MUSICAL_INSTRUMENTS[k]);
            k = k + 1;
        }
        let ghost hb = prompts.answered();
        let tool = prompts.choose_one("One artisan tool or musical instrument", tools.as_slice())?;
        proof {
            crate::prompts::lemma_extends_grows(h_start, hb, prompts.answered());
        }
        choices.tools.push(tool);
    }
    if str_eq(class_name, "Rogue") {
        let mut expertise: Vec<&str> = Vec::new();
        let mut k: usize = 0;
        while k < unavailable.len()
            decreases unavailable.len() - k,
        {
            expertise.push(unavailable[k].as_str());
            k = k + 1;
        }
        let mut k: usize = 0;
        while k < class_skills.len()
            decreases class_skills.len() - k,
        {
            expertise.push(class_skills[k].as_str());
            k = k + 1;
        }
        let ghost hb = prompts.answered();
        choices.expertise = choose_set_of(prompts, "Two existing skills for Expertise", expertise.as_slice(), 2)?;
        proof {
            crate::prompts::lemma_extends_grows(h_start, hb, prompts.answered());
        }
        let mut taken: Vec<String> = Vec::new();
        taken.push(origin.selected_languages[0].clone());
        taken.push(origin.selected_languages[1].clone());
        let languages = without_exec(STANDARD_LANGUAGES.as_slice(), &taken);
        let ghost hb = prompts.answered();
        choices.additional_language = Some(prompts.choose_one("Additional Rogue language", languages.as_slice())?);
        proof {
            crate::prompts::lemma_extends_grows(h_start, hb, prompts.answered());
        }
    }
    if str_eq(class_name, "Cleric") {
        let ghost hb = prompts.answered();
        choices.divine_order = Some(prompts.choose_one("Divine Order", DIVINE_ORDERS.as_slice())?);
        proof {
            crate::prompts::lemma_extends_grows(h_start, hb, prompts.answered());
        }
    }
    if str_eq(class_name, "Druid") {
        let ghost hb = prompts.answered();
        choices.primal_order = Some(prompts.choose_one("Primal Order", PRIMAL_ORDERS.as_slice())?);
        proof {
            crate::prompts::lemma_extends_grows(h_start, hb, prompts.answered());
        }
    }
    if str_eq(class_name, "Fighter") {
        let ghost hb = prompts.answered();
        choices.fighting_style = Some(prompts.choose_one("Fighting Style", FIGHTING_STYLES.as_slice())?);
        proof {
            crate::prompts::lemma_extends_grows(h_start, hb, prompts.answered());
        }
    }
    if str_eq(class_name, "Warlock") {
        let ghost hb = prompts.answered();
        choices.eldritch_invocation = Some(prompts.choose_one("Eldritch Invocation", WARLOCK_INVOCATIONS.as_slice())?);
        proof {
            crate::prompts::lemma_extends_grows(h_start, hb, prompts.answered());
        }
    }
    let ghost hb = prompts.answered();
    collect_class_spells(prompts, class, class_name, &mut choices)?;
    proof {
        crate::prompts::lemma_extends_grows(h_start, hb, prompts.answered());
    }
    Ok(choices)
}

/// The spell selections of a build, as far as the class casts spells.
#[verifier::rlimit(100)]
#[verifier::spinoff_prover]
fn collect_class_spells<P: PromptPort>(prompts: &mut P, class: usize, class_name: &str, choices: &mut ClassChoices) -> (r: Result<
    (),
    WizardError,
>)
    requires
        class < 12,
    ensures
        r is Ok ==> old(prompts).answered().is_prefix_of(final(prompts).answered()),
        *final(choices) == (ClassChoices {
            cantrips: final(choices).cantrips,
            spellbook_spells: final(choices).spellbook_spells,
            prepared_spells: final(choices).prepared_spells,
            ..*old(choices)
        }),
        class_name@ != "Wizard"@ ==> final(choices).spellbook_spells == old(choices).spellbook_spells,
{
    let ghost h_start = prompts.answered();
    proof {
        crate::prompts::lemma_extends_itself(h_start);
        reveal_strlit("Wizard");
    }
    match spell_list_index_exec(class_name) {
        Some(list) => {
            let extra: usize = if opt_is_exec(&choices.divine_order, "Thaumaturge") || opt_is_exec(
                &choices.primal_order,
                "Magician",
            ) {
                1
            } else {
                0
            };
            let cantrip_count = CLASS_CANTRIP_COUNTS[class] + extra;
            if cantrip_count > 0 {
                let ghost hb = prompts.answered();
                choices.cantrips = choose_set_of(prompts, "Class cantrips", list_cantrips_exec(list), cantrip_count)?;
                proof {
                    crate::prompts::lemma_extends_grows(h_start, hb, prompts.answered());
                }
            }
            if str_eq(class_name, "Wizard") {
                let ghost hb = prompts.answered();
                choices.spellbook_spells = choose_set_of(prompts, "Wizard spellbook spells", list_level_one_exec(list), 6)?;
                proof {
                    crate::prompts::lemma_extends_grows(h_start, hb, prompts.answered());
                }
                let mut options: Vec<&str> = Vec::new();
                let mut k: usize = 0;
                while k < choices.spellbook_spells.len()
                    decreases choices.spellbook_spells.len() - k,
                {
                    options.push(choices.spellbook_spells[k].as_str());
                    k = k + 1;
                }
                let ghost hb = prompts.answered();
                let prepared = choose_set_of(prompts, "Prepared Wizard spells", options.as_slice(), 4)?;
                proof {
                    crate::prompts::lemma_extends_grows(h_start, hb, prompts.answered());
                }
                choices.prepared_spells = prepared;
            } else {
                let prepared = CLASS_PREPARED_COUNTS[class];
                if prepared > 0 {
                    let always = crate::text::strs_to_strings(always_prepared_exec(class_name));
                    let options = without_exec(list_level_one_exec(list), &always);
                    let ghost hb = prompts.answered();
                    choices.prepared_spells = choose_set_of(prompts, "Prepared class spells", options.as_slice(), prepared)?;
                    proof {
                        crate::prompts::lemma_extends_grows(h_start, hb, prompts.answered());
                    }
                }
            }
        },
        None => {},
    }
    proof {
        crate::prompts::lemma_extends_is_prefix(prompts.answered(), h_start);
    }
    Ok(())
}

/// The entries of `list` that are not in `excluded`, in order.
pub open spec fn offer(list: Seq<&str>, excluded: Set<Seq<char>>) -> Seq<Seq<char>>
    decreases list.len(),
{
    if list.len() == 0 {
        seq![]
    } else if excluded.contains(list.last()@) {
        offer(list.drop_last(), excluded)
    } else {
        offer(list.drop_last(), excluded).push(list.last()@)
    }
}

proof fn lemma_without_offer(list: Seq<&str>, excluded: Seq<String>)
    ensures
        str_views(without(list, excluded)) == offer(list, crate::prompts::text_set(excluded)),
    decreases list.len(),
{
    if list.len() > 0 {
        lemma_without_offer(list.drop_last(), excluded);
        assert(in_strings(excluded, list.last()@) == crate::prompts::text_set(excluded).contains(list.last()@));
        let rest = without(list.drop_last(), excluded);
        assert(str_views(rest.push(list.last())) =~= str_views(rest).push(list.last()@));
    } else {
        assert(str_views(without(list, excluded)) =~= Seq::<Seq<char>>::empty());
    }
}

/// `skills` are the skills of the background the build stage reads: those of a
/// pack rule with the background's ID, or else those of the SRD background.
pub open spec fn background_skills_of(background: Seq<char>, pack: Seq<PackBackground>, skills: Seq<Seq<char>>) -> bool {
    if exists|k: int| 0 <= k < pack.len() && #[trigger] pack[k].id@ == background {
        exists|k: int| 0 <= k < pack.len() && #[trigger] pack[k].id@ == background && string_views(pack[k].skills@) == skills
    } else {
        skills == match background_index(background) {
            Some(i) => seq![BACKGROUND_FIRST_SKILLS@[i]@, BACKGROUND_SECOND_SKILLS@[i]@],
            None => Seq::<Seq<char>>::empty(),
        }
    }
}

/// The class skills the build stage offers, given the background's skills:
/// the class's skills without those the character already has, in order.
pub open spec fn class_skill_offer(o: OriginDraft, background_skills: Seq<Seq<char>>) -> Seq<Seq<char>> {
    offer(
        crate::srd::class_skill_options(crate::srd::class_index(o.character_class@)->0),
        (background_skills + crate::text::opt_seq(o.human_skill) + crate::text::opt_seq(o.elf_keen_senses_skill)
            + crate::derived::skill_picks(o.skilled_proficiencies@)).to_set(),
    )
}

/// The build stage's first question and its answer: the class skills offered
/// and asked for, and the class skills recorded as the answer.
pub open spec fn build_asks(
    before: Seq<(Seq<char>, Seq<Seq<char>>, nat, Seq<Seq<char>>)>,
    after: Seq<(Seq<char>, Seq<Seq<char>>, nat, Seq<Seq<char>>)>,
    o: OriginDraft,
    pack: Seq<PackBackground>,
    b: BuildDraft,
) -> bool {
    let n = before.len() as int;
    &&& before.is_prefix_of(after)
    &&& after.len() > n
    &&& after[n].0 == "Class skills"@
    &&& after[n].2 == CLASS_SKILL_COUNTS@[crate::srd::class_index(o.character_class@)->0]
    &&& crate::prompts::text_set(b.class_skills@) == after[n].3.to_set()
    &&& exists|skills: Seq<Seq<char>>| #[trigger] background_skills_of(o.background@, pack, skills) && after[n].1
        == class_skill_offer(o, skills)
}

/// The build stage: class skills, class options, spells, starting equipment and alignment.
#[verifier::rlimit(40)]
pub fn collect_build<P: PromptPort>(
    origin: &OriginDraft,
    prompts: &mut P,
    pack_backgrounds: &[PackBackground],
    pack_equipment: &[PackEquipment],
) -> (r: Result<BuildDraft, WizardError>)
    ensures
        match r {
            Ok(b) => crate::prompts::strictly_sorted(b.class_skills@) && crate::srd::class_index(origin.character_class@)
                is Some && build_options_fit(origin.character_class@, b),
            Err(_) => true,
        },
        crate::srd::class_index(origin.character_class@) is None ==> match r {
            Err(WizardError::Message(m)) => m@ == "unknown class"@,
            _ => false,
        } && *final(prompts) == *old(prompts),
        crate::srd::class_index(origin.character_class@) is Some && crate::srd::background_index(origin.background@)
            is None && (forall|k: int| 0 <= k < pack_backgrounds@.len() ==> (#[trigger] pack_backgrounds@[k]).id@
            != origin.background@) ==> match r {
            Err(WizardError::Message(m)) => m@ == "unknown background"@,
            _ => false,
        } && *final(prompts) == *old(prompts),
        crate::srd::class_index(origin.character_class@) is Some && (exists|k: int|
            0 <= k < pack_backgrounds@.len() && #[trigger] pack_backgrounds@[k].id@ == origin.background@) && (forall|k: int|
            0 <= k < pack_backgrounds@.len() && #[trigger] pack_backgrounds@[k].id@ == origin.background@
                ==> pack_backgrounds@[k].skills@.len() == 0) ==> match r {
            Err(WizardError::Message(m)) => m@ == "unknown background"@,
            _ => false,
        } && *final(prompts) == *old(prompts),
        r matches Ok(b) ==> build_asks(old(prompts).answered(), final(prompts).answered(), *origin, pack_backgrounds@, b),
{
    proof {
        reveal_strlit("Bard");
        reveal_strlit("Monk");
        reveal_strlit("A");
        reveal_strlit("B");
        reveal_strlit("Gold");
    }
    let class = match class_index_exec(origin.character_class.as_str()) {
        Some(i) => i,
        None => {
            return Err(WizardError::Message(owned("unknown class")));
        },
    };
    let class_name = origin.character_class.as_str();
    let pack_background = pack_background_with_id(pack_backgrounds, origin.background.as_str());
    let background_skills: Vec<String> = match pack_background {
        Some(rule) => crate::text::clone_strings(&rule.skills),
        None => match background_index_exec(origin.background.as_str()) {
            Some(i) => srd_background_facts(i).skills,
            None => Vec::new(),
        },
    };
    if background_skills.len() == 0 {
        return Err(WizardError::Message(owned("unknown background")));
    }
    assert(background_skills_of(origin.background@, pack_backgrounds@, string_views(background_skills@)));
    let unavailable = unavailable_skills(&background_skills, origin);
    let available_skills = without_exec(class_skill_options_exec(class), &unavailable);
    proof {
        lemma_without_offer(class_skill_options(class as int), unavailable@);
        assert(str_views(available_skills@) == class_skill_offer(*origin, string_views(background_skills@)));
    }
    let ghost h0 = prompts.answered();
    let class_skills = choose_recorded_set(prompts, "Class skills", available_skills.as_slice(), CLASS_SKILL_COUNTS[class])?;
    let ghost h1 = prompts.answered();
    assert(h1.is_prefix_of(h1)) by {
        assert(h1.subrange(0, h1.len() as int) =~= h1);
    }
    let ghost hb = prompts.answered();
    let choices = collect_class_choices(prompts, class, class_name, &unavailable, &class_skills, origin)?;
    proof {
        crate::prompts::lemma_extends_is_prefix(prompts.answered(), hb);
        crate::prompts::lemma_grows(h1, hb, prompts.answered());
    }
    let class_options: &[&str] = if str_eq(class_name, "Fighter") {
        ["A", "B", "Gold"].as_slice()
    } else {
        ["A", "Gold"].as_slice()
    };
    let class_labels = class_equipment_labels(class_name, class_options);
    let ghost hb = prompts.answered();
    let class_equipment_option = choose_equipment_option(prompts, "Class equipment", class_options, &class_labels)?;
    proof {
        crate::prompts::lemma_grows(h1, hb, prompts.answered());
    }
    let bard_starting_instrument = if str_eq(class_name, "Bard") && !str_eq(class_equipment_option.as_str(), "Gold") {
        let mut options: Vec<&str> = Vec::new();
        let mut k: usize = 0;
        while k < choices.tools.len()
            decreases choices.tools.len() - k,
        {
            options.push(choices.tools[k].as_str());
            k = k + 1;
        }
        let ghost hb = prompts.answered();
        let instrument = prompts.choose_one("Starting instrument", options.as_slice())?;
        proof {
            crate::prompts::lemma_grows(h1, hb, prompts.answered());
        }
        Some(instrument)
    } else {
        None
    };
    let background_labels = background_equipment_labels(origin.background.as_str(), pack_background, pack_equipment);
    let ghost hb = prompts.answered();
    let background_equipment_option = choose_equipment_option(
        prompts,
        "Background equipment",
        ["A", "Gold"].as_slice(),
        &background_labels,
    )?;
    proof {
        crate::prompts::lemma_grows(h1, hb, prompts.answered());
    }
    let ghost hb = prompts.answered();
    let alignment = prompts.choose_one("Alignment", ALIGNMENTS.as_slice())?;
    proof {
        crate::prompts::lemma_grows(h1, hb, prompts.answered());
    }
    let build = BuildDraft {
        class_skills,
        class_choices: choices,
        class_equipment_option,
        background_equipment_option,
        bard_starting_instrument,
        alignment,
    };
    proof {
        let h = prompts.answered();
        let n = h0.len() as int;
        assert(h.subrange(0, h1.len() as int) == h1);
        assert(h[n] == h.subrange(0, h1.len() as int)[n]);
        assert(h1[n] == h1.last());
        assert(h0.is_prefix_of(h)) by {
            assert(h.subrange(0, n) =~= h1.subrange(0, n));
            assert(h1.subrange(0, n) =~= h1.drop_last());
        }
        assert(background_skills_of(origin.background@, pack_backgrounds@, string_views(background_skills@)));
    }
    Ok(build)
}


/// The display name a species constraint stands for: a pack species matched by
/// ID or name, ignoring ASCII case, gives its name; anything else stays as given.
/// The species a random character is asked for: the name of the first pack
/// entry whose ID or name matches the request, ignoring ASCII case, or the
/// request itself.
pub open spec fn requested_species(value: Seq<char>, pack: Seq<PackSpecies>) -> Seq<char> {
    match crate::resolve::first_where(
        pack,
        |e: PackSpecies| crate::text::eq_ignore_case(e.id@, value) || crate::text::eq_ignore_case(e.name@, value),
    ) {
        Some(k) => pack[k].name@,
        None => value,
    }
}

fn species_constraint_name(value: &str, pack_species: &[PackSpecies]) -> (r: String)
    ensures
        r@ == requested_species(value@, pack_species@),
{
    let ghost p = |e: PackSpecies| crate::text::eq_ignore_case(e.id@, value@) || crate::text::eq_ignore_case(e.name@, value@);
    let mut i: usize = 0;
    while i < pack_species.len()
        invariant
            i <= pack_species@.len(),
            p == (|e: PackSpecies| crate::text::eq_ignore_case(e.id@, value@) || crate::text::eq_ignore_case(e.name@, value@)),
            crate::resolve::first_where(pack_species@, p) == crate::resolve::first_where_from(pack_species@, p, i as int),
        decreases pack_species.len() - i,
    {
        let rule = &pack_species[i];
        if crate::text::eq_ignore_case_exec(rule.id.as_str(), value) || crate::text::eq_ignore_case_exec(
            rule.name.as_str(),
            value,
        ) {
            return rule.name.clone();
        }
        i = i + 1;
    }
    owned(value)
}

/// The display name a background constraint stands for.
/// The background a random character is asked for: the name of the first pack
/// entry whose ID or name matches the request, ignoring ASCII case, or the
/// request itself.
pub open spec fn requested_background(value: Seq<char>, pack: Seq<PackBackground>) -> Seq<char> {
    match crate::resolve::first_where(
        pack,
        |e: PackBackground| crate::text::eq_ignore_case(e.id@, value) || crate::text::eq_ignore_case(e.name@, value),
    ) {
        Some(k) => pack[k].name@,
        None => value,
    }
}

fn background_constraint_name(value: &str, pack_backgrounds: &[PackBackground]) -> (r: String)
    ensures
        r@ == requested_background(value@, pack_backgrounds@),
{
    let ghost p = |e: PackBackground| crate::text::eq_ignore_case(e.id@, value@) || crate::text::eq_ignore_case(e.name@, value@);
    let mut i: usize = 0;
    while i < pack_backgrounds.len()
        invariant
            i <= pack_backgrounds@.len(),
            p == (|e: PackBackground| crate::text::eq_ignore_case(e.id@, value@) || crate::text::eq_ignore_case(e.name@, value@)),
            crate::resolve::first_where(pack_backgrounds@, p) == crate::resolve::first_where_from(pack_backgrounds@, p, i as int),
        decreases pack_backgrounds.len() - i,
    {
        let rule = &pack_backgrounds[i];
        if crate::text::eq_ignore_case_exec(rule.id.as_str(), value) || crate::text::eq_ignore_case_exec(
            rule.name.as_str(),
            value,
        ) {
            return rule.name.clone();
        }
        i = i + 1;
    }
    owned(value)
}

/// Attach the pack background, equipment and species a drafted character refers to.
pub fn resolve_drafted(
    character: Character,
    pack_species: &[PackSpecies],
    pack_backgrounds: &[PackBackground],
    pack_equipment: &[PackEquipment],
) -> (r: Result<Character, WizardError>)
    ensures
        match r {
            Ok(c) => c.valid() && c == (Character {
                resolved_pack_background: c.resolved_pack_background,
                resolved_pack_equipment: c.resolved_pack_equipment,
                resolved_pack_species: c.resolved_pack_species,
                ..character
            }),
            Err(_) => true,
        },
        character.srd_background() is None && crate::resolve::background_with_id(pack_backgrounds@, character.background@)
            is None ==> match r {
            Err(WizardError::Message(m)) => m@ == "unknown background in data pack: "@ + character.background@,
            _ => false,
        },
        character.srd_background() is Some && character.srd_species() is Some ==> (r is Ok <==> (Character {
            resolved_pack_background: None,
            ..character
        }).valid()),
{
    let ghost start = character;
    let ghost without_background = Character { resolved_pack_background: None, ..character };
    let mut character = character;
    match character.resolve_pack_background(pack_backgrounds) {
        Ok(()) => {},
        Err(e) => {
            return Err(WizardError::Message(e));
        },
    }
    let ghost after_background = character;
    match character.resolve_pack_equipment(pack_equipment) {
        Ok(()) => {},
        Err(e) => {
            proof {
                if start.srd_background() is Some {
                    crate::validation::lemma_valid_ignores_equipment_and_species(after_background, character);
                }
            }
            return Err(WizardError::Message(e));
        },
    }
    let ghost after_equipment = character;
    match character.resolve_pack_species(pack_species) {
        Ok(()) => {},
        Err(e) => {
            return Err(WizardError::Message(e));
        },
    }
    proof {
        if start.srd_background() is Some && start.srd_species() is Some {
            assert(after_background == without_background);
            crate::validation::lemma_valid_ignores_equipment_and_species(after_background, character);
        }
    }
    match character.validate() {
        Ok(()) => Ok(character),
        Err(e) => Err(WizardError::Message(e)),
    }
}


/// A generated character has the requested class, and the background and
/// species recorded from the requests: the pack entry a request names, by ID,
/// or the SRD entry of that name.
pub open spec fn honours_requests(
    c: Character,
    character_class: Option<&str>,
    background: Option<&str>,
    species: Option<&str>,
    pack_species: Seq<PackSpecies>,
    pack_backgrounds: Seq<PackBackground>,
) -> bool {
    &&& character_class matches Some(x) ==> c.character_class@ == x@
    &&& background matches Some(x) ==> background_answer(requested_background(x@, pack_backgrounds), c.background@, pack_backgrounds)
    &&& species matches Some(x) ==> species_answer(requested_species(x@, pack_species), c.species@, pack_species)
}

/// A complete level-1 character from seeded random legal choices, honoring
/// the requested class, background and species.
pub fn generate_random_character_with_catalog(
    character_class: Option<&str>,
    background: Option<&str>,
    species: Option<&str>,
    seed: u64,
    data_pack: Option<DataPackReference>,
    pack_species: &[PackSpecies],
    pack_backgrounds: &[PackBackground],
    pack_equipment: &[PackEquipment],
) -> (r: Result<Character, WizardError>)
    ensures
        match r {
            Ok(c) => c.level == 1 && c.xp == 0 && c.valid() && c.data_pack == data_pack,
            Err(_) => true,
        },
        r matches Ok(c) ==> honours_requests(c, character_class, background, species, pack_species@, pack_backgrounds@),
{
    let species_choice: Option<String> = match species {
        Some(value) => Some(species_constraint_name(value, pack_species)),
        None => None,
    };
    let background_choice: Option<String> = match background {
        Some(value) => Some(background_constraint_name(value, pack_backgrounds)),
        None => None,
    };
    let background_ref: Option<&str> = match &background_choice {
        Some(b) => Some(b.as_str()),
        None => None,
    };
    let species_ref: Option<&str> = match &species_choice {
        Some(s) => Some(s.as_str()),
        None => None,
    };
    let mut prompts = RandomPromptPort::new(seed, character_class, background_ref, species_ref);
    proof {
        use_type_invariant(&prompts);
        RandomPromptPort::lemma_keeps_requests(&prompts);
    }
    let ghost h0 = prompts.answered();
    let ghost first = prompts.answered()[0];
    let origin = collect_origin(&mut prompts, pack_species, pack_backgrounds)?;
    proof {
        use_type_invariant(&prompts);
        RandomPromptPort::lemma_keeps_requests(&prompts);
        let h = prompts.answered();
        let n = h0.len() as int;
        assert(h[0] == h.subrange(0, h0.len() as int)[0]);
        assert(h[0] == first);
        reveal_strlit("requested");
        reveal_strlit("open");
        assert("requested"@[0] != "open"@[0]);
        assert(prompts.class_constraint() == match character_class {
            Some(x) => Some(x@),
            None => None::<Seq<char>>,
        });
        assert(prompts.background_constraint() == match background_ref {
            Some(x) => Some(x@),
            None => None::<Seq<char>>,
        });
        assert(prompts.species_constraint() == match species_ref {
            Some(x) => Some(x@),
            None => None::<Seq<char>>,
        });
        assert(honours(h[n + 1], "Class"@, prompts.class_constraint()));
        assert(honours(h[n + 2], "Background"@, prompts.background_constraint()));
        assert(honours(h[n + 3], "Species"@, prompts.species_constraint()));
        assert(h[n + 1].0 == "Class"@);
        assert(h[n + 1].3 == seq![origin.character_class@]);
        assert(h[n + 1].3[0] == origin.character_class@);
        assert(character_class matches Some(x) ==> origin.character_class@ == x@);
        assert(background matches Some(x) ==> background_answer(requested_background(x@, pack_backgrounds@), origin.background@, pack_backgrounds@));
        assert(species matches Some(x) ==> species_answer(requested_species(x@, pack_species@), origin.species@, pack_species@));
    }
    let ghost chosen = origin;
    let abilities = collect_abilities(&origin, &mut prompts, pack_backgrounds)?;
    let build = collect_build(&origin, &mut prompts, pack_backgrounds, pack_equipment)?;
    let details = collect_details(&mut prompts)?;
    let draft = CharacterDraft {
        data_pack,
        origin: Some(origin),
        abilities: Some(abilities),
        build: Some(build),
        details: Some(details),
    };
    let character = draft.into_character()?;
    assert(character.character_class@ == chosen.character_class@ && character.background@ == chosen.background@
        && character.species@ == chosen.species@);
    resolve_drafted(character, pack_species, pack_backgrounds, pack_equipment)
}

/// A complete level-1 SRD character from seeded random legal choices.
pub fn generate_random_character_with_seed(character_class: Option<&str>, species: Option<&str>, seed: u64) -> (r: Result<
    Character,
    WizardError,
>)
    ensures
        match r {
            Ok(c) => c.level == 1 && c.xp == 0 && c.valid() && c.data_pack is None,
            Err(_) => true,
        },
        r matches Ok(c) ==> (character_class matches Some(x) ==> c.character_class@ == x@) && (species matches Some(
            x,
        ) ==> c.species@ == x@),
{
    let no_species: &[PackSpecies] = &[];
    let no_backgrounds: &[PackBackground] = &[];
    let r = generate_random_character_with_catalog(character_class, None, species, seed, None, no_species, no_backgrounds, &[]);
    proof {
        assert(no_species@.len() == 0);
        if let Some(x) = species {
            assert(requested_species(x@, no_species@) == x@);
        }
    }
    r
}

/// A complete level-1 SRD character from random legal choices.
pub fn generate_random_character(character_class: Option<&str>, species: Option<&str>) -> (r: Result<Character, WizardError>)
    ensures
        match r {
            Ok(c) => c.level == 1 && c.xp == 0 && c.valid() && c.data_pack is None,
            Err(_) => true,
        },
        r matches Ok(c) ==> (character_class matches Some(x) ==> c.character_class@ == x@) && (species matches Some(
            x,
        ) ==> c.species@ == x@),
{
    generate_random_character_with_seed(character_class, species, random_seed())
}

/// A complete level-1 character from random legal choices, with a pack's content.
pub fn generate_random_character_with_pack(
    character_class: Option<&str>,
    background: Option<&str>,
    species: Option<&str>,
    data_pack: Option<DataPackReference>,
    pack_species: &[PackSpecies],
    pack_backgrounds: &[PackBackground],
    pack_equipment: &[PackEquipment],
) -> (r: Result<Character, WizardError>)
    ensures
        match r {
            Ok(c) => c.level == 1 && c.xp == 0 && c.valid() && c.data_pack == data_pack,
            Err(_) => true,
        },
        r matches Ok(c) ==> honours_requests(c, character_class, background, species, pack_species@, pack_backgrounds@),
{
    generate_random_character_with_catalog(
        character_class,
        background,
        species,
        random_seed(),
        data_pack,
        pack_species,
        pack_backgrounds,
        pack_equipment,
    )
}

/// Announce a wizard stage.
fn display_progress<P: PromptPort>(prompts: &mut P, stage: u64, label: &str)
    ensures
        final(prompts).answered() == old(prompts).answered(),
{
    let mut line = owned("\n== Step ");
    line.append(decimal_exec(stage).as_str());
    line.append("/5: ");
    line.append(label);
    line.append(" ==");
    prompts.display(line.as_str());
}

/// The actions the edit review offers.
pub open spec fn edit_menu() -> Seq<Seq<char>> {
    seq!["Save changes"@, "Edit identity"@, "Edit abilities"@, "Edit build"@, "Edit details"@, "Cancel"@]
}

/// The actions the quick review offers.
pub open spec fn quick_menu() -> Seq<Seq<char>> {
    seq!["Accept"@, "Reroll"@, "Edit"@]
}

/// The last question answered is `label`, offered from `menu`, and was
/// answered with `answer`.
pub open spec fn last_answer_is(
    record: Seq<(Seq<char>, Seq<Seq<char>>, nat, Seq<Seq<char>>)>,
    label: Seq<char>,
    menu: Seq<Seq<char>>,
    answer: Seq<char>,
) -> bool {
    record.len() > 0 && record.last() == exchange(label, menu, 1, seq![answer])
}

/// Edit a completed character through the wizard. `None` means the user
/// cancelled without saving.
#[verifier::rlimit(60)]
#[verifier::spinoff_prover]
pub fn run_edit_interactive_with_catalog<P: PromptPort>(
    character: &Character,
    prompts: &mut P,
    pack_species: &[PackSpecies],
    pack_backgrounds: &[PackBackground],
    pack_equipment: &[PackEquipment],
) -> (r: Result<Option<Character>, WizardError>)
    ensures
        match r {
            Ok(Some(c)) => c.valid() && c.data_pack == character.data_pack && last_answer_is(
                final(prompts).answered(),
                "Edit action"@,
                edit_menu(),
                "Save changes"@,
            ),
            _ => true,
        },
{
    let mut draft = CharacterDraft::from_character(character);
    let mut steps: u64 = u64::MAX;
    loop
        invariant
            draft.data_pack == character.data_pack,
        decreases steps,
    {
        if steps == 0 {
            return Err(WizardError::Message(owned("editing did not finish")));
        }
        steps = steps - 1;
        if draft.origin.is_none() {
            display_progress(prompts, 1, "Identity");
            match collect_origin(prompts, pack_species, pack_backgrounds) {
                Ok(origin) => draft.origin = Some(origin),
                Err(WizardError::Back) => {
                    continue;
                },
                Err(error) => {
                    return Err(error);
                },
            }
        }
        if draft.abilities.is_none() {
            let abilities = match &draft.origin {
                Some(origin) => {
                    display_progress(prompts, 2, "Abilities");
                    collect_abilities(origin, prompts, pack_backgrounds)
                },
                None => {
                    return Err(WizardError::Message(owned("origin choices missing")));
                },
            };
            match abilities {
                Ok(a) => draft.abilities = Some(a),
                Err(WizardError::Back) => {
                    continue;
                },
                Err(error) => {
                    return Err(error);
                },
            }
        }
        if draft.build.is_none() {
            let build = match &draft.origin {
                Some(origin) => {
                    display_progress(prompts, 3, "Build");
                    collect_build(origin, prompts, pack_backgrounds, pack_equipment)
                },
                None => {
                    return Err(WizardError::Message(owned("origin choices missing")));
                },
            };
            match build {
                Ok(b) => draft.build = Some(b),
                Err(WizardError::Back) => {
                    continue;
                },
                Err(error) => {
                    return Err(error);
                },
            }
        }
        if draft.details.is_none() {
            display_progress(prompts, 4, "Details");
            match collect_details(prompts) {
                Ok(d) => draft.details = Some(d),
                Err(WizardError::Back) => {
                    continue;
                },
                Err(error) => {
                    return Err(error);
                },
            }
        }
        let edited = resolve_drafted(draft.duplicate().into_character()?, pack_species, pack_backgrounds, pack_equipment)?;
        display_progress(prompts, 5, "Review");
        crate::review::display_character_review(prompts, &edited);
        let actions: [&str; 6] = [
            "Save changes",
            "Edit identity",
            "Edit abilities",
            "Edit build",
            "Edit details",
            "Cancel",
        ];
        proof {
            reveal_strlit("Save changes");
            reveal_strlit("Edit identity");
            reveal_strlit("Edit abilities");
            reveal_strlit("Edit build");
            reveal_strlit("Edit details");
            reveal_strlit("Cancel");
            assert(str_views(actions@) =~= edit_menu());
        }
        let action = match prompts.choose_one("Edit action", actions.as_slice()) {
            Ok(action) => action,
            Err(WizardError::Back) => {
                return Ok(None);
            },
            Err(error) => {
                return Err(error);
            },
        };
        if str_eq(action.as_str(), "Save changes") {
            return Ok(Some(edited));
        } else if str_eq(action.as_str(), "Edit identity") {
            draft.origin = None;
            draft.abilities = None;
            draft.build = None;
            draft.details = None;
        } else if str_eq(action.as_str(), "Edit abilities") {
            draft.abilities = None;
            draft.build = None;
        } else if str_eq(action.as_str(), "Edit build") {
            draft.build = None;
        } else if str_eq(action.as_str(), "Edit details") {
            draft.details = None;
        } else if str_eq(action.as_str(), "Cancel") {
            return Ok(None);
        } else {
            return Err(WizardError::Message(owned("invalid edit action")));
        }
    }
}

/// Edit a completed SRD character through the wizard.
pub fn run_edit_interactive_with<P: PromptPort>(character: &Character, prompts: &mut P) -> (r: Result<
    Option<Character>,
    WizardError,
>)
    ensures
        match r {
            Ok(Some(c)) => c.valid() && c.data_pack == character.data_pack,
            _ => true,
        },
{
    run_edit_interactive_with_catalog(character, prompts, &[], &[], &[])
}

/// Quick creation: show a random character and accept, reroll or edit it.
pub fn run_quick_interactive_with_catalog<P: PromptPort>(
    prompts: &mut P,
    seed: u64,
    data_pack: Option<&DataPackReference>,
    pack_species: &[PackSpecies],
    pack_backgrounds: &[PackBackground],
    pack_equipment: &[PackEquipment],
) -> (r: Result<Character, WizardError>)
    ensures
        match r {
            Ok(c) => c.valid() && c.data_pack == match data_pack {
                Some(p) => Some(*p),
                None => None,
            } && (last_answer_is(final(prompts).answered(), "Quick action"@, quick_menu(), "Accept"@) || last_answer_is(
                final(prompts).answered(),
                "Edit action"@,
                edit_menu(),
                "Save changes"@,
            )),
            Err(_) => true,
        },
{
    let mut seed = seed;
    let mut steps: u64 = u64::MAX;
    loop
        decreases steps,
    {
        if steps == 0 {
            return Err(WizardError::Message(owned("quick creation did not finish")));
        }
        steps = steps - 1;
        let pack: Option<DataPackReference> = match data_pack {
            Some(p) => Some(p.clone()),
            None => None,
        };
        let character = generate_random_character_with_catalog(
            None,
            None,
            None,
            seed,
            pack,
            pack_species,
            pack_backgrounds,
            pack_equipment,
        )?;
        crate::review::display_character_review(prompts, &character);
        let actions: [&str; 3] = ["Accept", "Reroll", "Edit"];
        proof {
            reveal_strlit("Accept");
            reveal_strlit("Reroll");
            reveal_strlit("Edit");
            assert(str_views(actions@) =~= quick_menu());
        }
        let action = prompts.choose_one("Quick action", actions.as_slice())?;
        if str_eq(action.as_str(), "Accept") {
            return Ok(character);
        } else if str_eq(action.as_str(), "Reroll") {
            seed = seed.wrapping_add(1);
        } else if str_eq(action.as_str(), "Edit") {
            match run_edit_interactive_with_catalog(&character, prompts, pack_species, pack_backgrounds, pack_equipment)? {
                Some(edited) => {
                    return Ok(edited);
                },
                None => {},
            }
        } else {
            return Err(WizardError::Message(owned("invalid quick action")));
        }
    }
}

/// Quick creation from a fresh random seed, with a pack's content when one is loaded.
pub fn run_quick_interactive_with_pack<P: PromptPort>(
    prompts: &mut P,
    data_pack: Option<&DataPackReference>,
    pack_species: &[PackSpecies],
    pack_backgrounds: &[PackBackground],
    pack_equipment: &[PackEquipment],
) -> (r: Result<Character, WizardError>)
    ensures
        match r {
            Ok(c) => c.valid() && c.data_pack == match data_pack {
                Some(p) => Some(*p),
                None => None,
            },
            Err(_) => true,
        },
{
    run_quick_interactive_with_catalog(prompts, random_seed(), data_pack, pack_species, pack_backgrounds, pack_equipment)
}

/// Quick creation of an SRD character from `seed`.
pub fn run_quick_interactive_with_seed<P: PromptPort>(prompts: &mut P, seed: u64) -> (r: Result<Character, WizardError>)
    ensures
        match r {
            Ok(c) => c.valid() && c.data_pack is None,
            Err(_) => true,
        },
{
    run_quick_interactive_with_catalog(prompts, seed, None, &[], &[], &[])
}

/// What one step of the checkpointed wizard led to.
pub enum WizardStep {
    /// Ask again without saving.
    Continue,
    /// The checkpoint changed; save it before the next step.
    Save,
    /// The user accepted the character.
    Finished(Character),
}

/// Tie a checkpoint to the pack in use: a checkpoint of another pack is refused.
pub fn adopt_data_pack(draft: &mut CharacterDraft, data_pack: Option<DataPackReference>) -> (r: Result<(), WizardError>)
    ensures
        match old(draft).data_pack {
            Some(p) => match data_pack {
                Some(q) => if p.same(q) {
                    r is Ok && final(draft).data_pack == Some(q)
                } else {
                    (r matches Err(WizardError::Message(m)) && m@ == "draft belongs to a different data pack"@)
                        && *final(draft) == *old(draft)
                },
                None => (r matches Err(WizardError::Message(m)) && m@ == "draft belongs to a different data pack"@)
                    && *final(draft) == *old(draft),
            },
            None => r is Ok && final(draft).data_pack == data_pack,
        },
        r is Ok ==> (final(draft).origin == old(draft).origin && final(draft).abilities == old(draft).abilities
            && final(draft).build == old(draft).build && final(draft).details == old(draft).details),
{
    let matches = match (&draft.data_pack, &data_pack) {
        (Some(p), Some(q)) => p.same_as(q),
        (Some(_), None) => false,
        (None, _) => true,
    };
    if !matches {
        return Err(WizardError::Message(owned("draft belongs to a different data pack")));
    }
    draft.data_pack = data_pack;
    Ok(())
}

/// What a review answer asks the checkpointed wizard to do.
pub enum ReviewChoice {
    /// Keep the character.
    Accept,
    /// Collect the reopened stages again.
    Reopen,
    /// Keep the checkpoint and stop.
    Stop,
}

/// The actions the review offers.
pub open spec fn review_menu() -> Seq<Seq<char>> {
    seq!["Accept"@, "Edit origin"@, "Edit abilities"@, "Edit build"@, "Edit details"@, "Save and exit"@]
}

/// What a review answer asks for.
pub open spec fn review_choice_of(action: Seq<char>) -> ReviewChoice {
    if action == "Accept"@ {
        ReviewChoice::Accept
    } else if action == "Edit origin"@ || action == "Edit abilities"@ || action == "Edit build"@ || action
        == "Edit details"@ {
        ReviewChoice::Reopen
    } else {
        ReviewChoice::Stop
    }
}

/// The checkpoint after a review answer: editing a stage reopens it and the
/// stages that depend on it.
pub open spec fn reopened(d: CharacterDraft, action: Seq<char>) -> CharacterDraft {
    if action == "Edit origin"@ {
        CharacterDraft { origin: None, abilities: None, build: None, details: None, ..d }
    } else if action == "Edit abilities"@ {
        CharacterDraft { abilities: None, build: None, ..d }
    } else if action == "Edit build"@ {
        CharacterDraft { build: None, ..d }
    } else if action == "Edit details"@ {
        CharacterDraft { details: None, ..d }
    } else {
        d
    }
}

/// Apply a review answer to the checkpoint.
pub fn apply_review_action(draft: &mut CharacterDraft, action: &str) -> (r: ReviewChoice)
    ensures
        r == review_choice_of(action@),
        *final(draft) == reopened(*old(draft), action@),
{
    proof {
        reveal_strlit("Accept");
        reveal_strlit("Edit origin");
        assert("Accept"@[0] != "Edit origin"@[0]);
        reveal_strlit("Edit abilities");
        reveal_strlit("Edit build");
        reveal_strlit("Edit details");
        assert("Edit abilities"@[5] != "Edit origin"@[5]);
        assert("Edit build"@[5] != "Edit origin"@[5] && "Edit build"@[5] != "Edit abilities"@[5]);
        assert("Edit details"@[5] != "Edit origin"@[5] && "Edit details"@[5] != "Edit abilities"@[5]
            && "Edit details"@[5] != "Edit build"@[5]);
    }
    if str_eq(action, "Accept") {
        ReviewChoice::Accept
    } else if str_eq(action, "Edit origin") {
        draft.origin = None;
        draft.abilities = None;
        draft.build = None;
        draft.details = None;
        ReviewChoice::Reopen
    } else if str_eq(action, "Edit abilities") {
        draft.abilities = None;
        draft.build = None;
        ReviewChoice::Reopen
    } else if str_eq(action, "Edit build") {
        draft.build = None;
        ReviewChoice::Reopen
    } else if str_eq(action, "Edit details") {
        draft.details = None;
        ReviewChoice::Reopen
    } else {
        ReviewChoice::Stop
    }
}

/// A complete checkpoint goes straight to the review, whose one question
/// decides the step: accepting finishes, editing reopens stages, and going
/// back reopens the details.
pub open spec fn review_step(
    before: Seq<(Seq<char>, Seq<Seq<char>>, nat, Seq<Seq<char>>)>,
    after: Seq<(Seq<char>, Seq<Seq<char>>, nat, Seq<Seq<char>>)>,
    old_draft: CharacterDraft,
    new_draft: CharacterDraft,
    r: Result<WizardStep, WizardError>,
) -> bool {
    match r {
        Ok(WizardStep::Finished(_)) => after == before.push(exchange("Review action"@, review_menu(), 1, seq!["Accept"@]))
            && new_draft == old_draft,
        Ok(WizardStep::Save) => (after == before && new_draft == CharacterDraft { details: None, ..old_draft }) || (
        after.len() == before.len() + 1 && after.drop_last() == before && after.last().0 == "Review action"@
            && after.last().1 == review_menu() && after.last().3.len() == 1 && review_choice_of(after.last().3[0])
            is Reopen && new_draft == reopened(old_draft, after.last().3[0])),
        Ok(WizardStep::Continue) => false,
        Err(WizardError::SaveAndExit) => after == before || (after.len() == before.len() + 1 && after.drop_last()
            == before && after.last().0 == "Review action"@ && after.last().3.len() == 1 && review_choice_of(
            after.last().3[0],
        ) is Stop),
        Err(_) => true,
    }
}

/// One step of the checkpointed wizard: the first incomplete stage is
/// collected, or, when all are complete, the character is reviewed.
///
/// Going back from a stage clears the stage before it; a review action clears
/// the stages it revisits.
pub fn wizard_step<P: PromptPort>(
    draft: &mut CharacterDraft,
    prompts: &mut P,
    pack_species: &[PackSpecies],
    pack_backgrounds: &[PackBackground],
    pack_equipment: &[PackEquipment],
) -> (r: Result<WizardStep, WizardError>)
    ensures
        old(draft).origin is None ==> match r {
            Ok(WizardStep::Save) => final(draft).origin is Some,
            Ok(WizardStep::Continue) => final(draft).origin is None,
            Ok(WizardStep::Finished(_)) => false,
            Err(_) => true,
        },
        old(draft).origin is Some && old(draft).abilities is None ==> match r {
            Ok(WizardStep::Save) => final(draft).abilities is Some || final(draft).origin is None,
            Ok(WizardStep::Continue) => false,
            Ok(WizardStep::Finished(_)) => false,
            Err(_) => true,
        },
        match r {
            Ok(WizardStep::Finished(c)) => c.valid() && old(draft).origin is Some && old(draft).abilities is Some
                && old(draft).build is Some && old(draft).details is Some && c.data_pack == old(draft).data_pack,
            _ => true,
        },
        final(draft).data_pack == old(draft).data_pack,
        old(draft).origin is Some && old(draft).abilities is Some && old(draft).build is Some && old(draft).details
            is Some ==> review_step(old(prompts).answered(), final(prompts).answered(), *old(draft), *final(draft), r),
{
    if draft.origin.is_none() {
        display_progress(prompts, 1, "Origin");
        return match collect_origin(prompts, pack_species, pack_backgrounds) {
            Ok(origin) => {
                draft.origin = Some(origin);
                Ok(WizardStep::Save)
            },
            Err(WizardError::Back) => {
                prompts.display("Origin is the first stage; there is nothing to go back to.");
                Ok(WizardStep::Continue)
            },
            Err(error) => Err(error),
        };
    }
    if draft.abilities.is_none() {
        let abilities = match &draft.origin {
            Some(origin) => {
                display_progress(prompts, 2, "Abilities");
                collect_abilities(origin, prompts, pack_backgrounds)
            },
            None => {
                return Err(WizardError::Message(owned("origin checkpoint missing")));
            },
        };
        return match abilities {
            Ok(a) => {
                draft.abilities = Some(a);
                Ok(WizardStep::Save)
            },
            Err(WizardError::Back) => {
                draft.origin = None;
                Ok(WizardStep::Save)
            },
            Err(error) => Err(error),
        };
    }
    if draft.build.is_none() {
        let build = match &draft.origin {
            Some(origin) => {
                display_progress(prompts, 3, "Build");
                collect_build(origin, prompts, pack_backgrounds, pack_equipment)
            },
            None => {
                return Err(WizardError::Message(owned("origin checkpoint missing")));
            },
        };
        return match build {
            Ok(b) => {
                draft.build = Some(b);
                Ok(WizardStep::Save)
            },
            Err(WizardError::Back) => {
                draft.abilities = None;
                Ok(WizardStep::Save)
            },
            Err(error) => Err(error),
        };
    }
    if draft.details.is_none() {
        display_progress(prompts, 4, "Details");
        return match collect_details(prompts) {
            Ok(d) => {
                draft.details = Some(d);
                Ok(WizardStep::Save)
            },
            Err(WizardError::Back) => {
                draft.build = None;
                Ok(WizardStep::Save)
            },
            Err(error) => Err(error),
        };
    }
    let character = resolve_drafted(draft.duplicate().into_character()?, pack_species, pack_backgrounds, pack_equipment)?;
    display_progress(prompts, 5, "Review");
    crate::review::display_character_review(prompts, &character);
    let actions: [&str; 6] = [
        "Accept",
        "Edit origin",
        "Edit abilities",
        "Edit build",
        "Edit details",
        "Save and exit",
    ];
    proof {
        reveal_strlit("Accept");
        reveal_strlit("Edit origin");
        reveal_strlit("Edit abilities");
        reveal_strlit("Edit build");
        reveal_strlit("Edit details");
        reveal_strlit("Save and exit");
        assert(str_views(actions@) =~= review_menu());
    }
    let action = match prompts.choose_one("Review action", actions.as_slice()) {
        Ok(action) => action,
        Err(WizardError::Back) => {
            draft.details = None;
            return Ok(WizardStep::Save);
        },
        Err(error) => {
            return Err(error);
        },
    };
    assert(prompts.answered().drop_last() =~= old(prompts).answered());
    match apply_review_action(draft, action.as_str()) {
        ReviewChoice::Accept => {
            proof {
                assert(action@ == "Accept"@);
                assert("Accept"@[0] != "Edit origin"@[0] && "Accept"@[0] != "Edit abilities"@[0]
                    && "Accept"@[0] != "Edit build"@[0] && "Accept"@[0] != "Edit details"@[0]);
            }
            Ok(WizardStep::Finished(character))
        },
        ReviewChoice::Reopen => Ok(WizardStep::Save),
        ReviewChoice::Stop => Err(WizardError::SaveAndExit),
    }
}


/// Where the wizard keeps its checkpoint between stages.
pub trait CheckpointStore {
    /// Keep `draft` as the latest checkpoint.
    fn save(&mut self, draft: &CharacterDraft) -> Result<(), WizardError>;
}

/// Run the checkpointed wizard from `draft` until the character is accepted,
/// saving the checkpoint whenever a stage completes or is reopened.
///
/// The draft must belong to the same data pack, if it belongs to one.
pub fn run_interactive_with_catalog<P: PromptPort, S: CheckpointStore>(
    store: &mut S,
    prompts: &mut P,
    draft: CharacterDraft,
    data_pack: Option<DataPackReference>,
    pack_species: &[PackSpecies],
    pack_backgrounds: &[PackBackground],
    pack_equipment: &[PackEquipment],
) -> (r: Result<Character, WizardError>)
    ensures
        match r {
            Ok(c) => c.valid() && c.data_pack == data_pack && last_answer_is(
                final(prompts).answered(),
                "Review action"@,
                review_menu(),
                "Accept"@,
            ),
            Err(_) => true,
        },
        match draft.data_pack {
            Some(p) => match data_pack {
                Some(q) => !p.same(q),
                None => true,
            },
            None => false,
        } ==> match r {
            Err(WizardError::Message(m)) => m@ == "draft belongs to a different data pack"@,
            _ => false,
        } && *final(store) == *old(store) && *final(prompts) == *old(prompts),
{
    let mut current = draft;
    adopt_data_pack(&mut current, data_pack)?;
    let mut steps: u64 = u64::MAX;
    loop
        invariant
            match draft.data_pack {
                Some(p) => match data_pack {
                    Some(q) => p.same(q),
                    None => false,
                },
                None => true,
            },
            current.data_pack == data_pack,
        decreases steps,
    {
        if steps == 0 {
            return Err(WizardError::Message(owned("creation did not finish")));
        }
        steps = steps - 1;
        match wizard_step(&mut current, prompts, pack_species, pack_backgrounds, pack_equipment)? {
            WizardStep::Continue => {},
            WizardStep::Save => store.save(&current)?,
            WizardStep::Finished(character) => {
                return Ok(character);
            },
        }
    }
}

/// Run the checkpointed wizard with the SRD rules alone.
pub fn run_interactive_with<P: PromptPort, S: CheckpointStore>(
    store: &mut S,
    prompts: &mut P,
    draft: CharacterDraft,
) -> (r: Result<Character, WizardError>)
    ensures
        match r {
            Ok(c) => c.valid() && c.data_pack is None,
            Err(_) => true,
        },
{
    run_interactive_with_catalog(store, prompts, draft, None, &[], &[], &[])
}

} // verus!
