use character_wizard::cli::{
    canonical_srd_choice, character_output_path, parse_command_line, resolve_character_path,
    CharacterRefArgs, Cli, CliParseError, Command, CreateArgs,
};
use character_wizard::srd::CLASS_NAMES;

fn args(list: &[&str]) -> Vec<String> {
    list.iter().map(|s| s.to_string()).collect()
}

fn create_options(cli: Cli) -> CreateArgs {
    match cli.command {
        Command::Create(options) => options,
        _ => panic!("expected create command"),
    }
}

#[test]
fn cli_create_does_not_require_a_template_argument() {
    let cli = parse_command_line(&args(&["character-wizard", "create"])).expect("parse create");
    let options = create_options(cli);
    assert!(options.template.is_none());
    assert!(!options.quick);
    assert!(options.json.is_none());
    assert!(options.output.is_none());
}

#[test]
fn cli_create_accepts_explicit_output_paths() {
    let cli = parse_command_line(&args(&[
        "character-wizard",
        "create",
        "--json",
        "records/legolas.json",
        "--output",
        "sheets/legolas.pdf",
    ]))
    .expect("parse create");
    let options = create_options(cli);
    assert_eq!(options.json, Some("records/legolas.json".to_string()));
    assert_eq!(options.output, Some("sheets/legolas.pdf".to_string()));
}

#[test]
fn cli_random_accepts_case_insensitive_constraints() {
    let cli = parse_command_line(&args(&[
        "character-wizard",
        "random",
        "--class",
        "wizard",
        "--species",
        "dwarf",
    ]))
    .expect("parse random");
    let options = match cli.command {
        Command::Random(options) => options,
        _ => panic!("expected random command"),
    };
    assert_eq!(options.class_name.as_deref(), Some("wizard"));
    assert_eq!(options.species.as_deref(), Some("dwarf"));
    assert_eq!(
        canonical_srd_choice(options.class_name.as_deref().expect("class"), &CLASS_NAMES, "class").ok(),
        Some("Wizard".to_string())
    );
}

#[test]
fn cli_create_accepts_quick_but_not_a_json_source() {
    let cli = parse_command_line(&args(&["character-wizard", "create", "--quick"])).expect("parse quick create");
    let options = create_options(cli);
    assert!(options.quick);
    assert!(parse_command_line(&args(&[
        "character-wizard",
        "create",
        "--quick",
        "--from-json",
        "legolas.json",
    ]))
    .is_err());
}

#[test]
fn cli_global_data_pack_option_is_available_after_a_command() {
    let cli = parse_command_line(&args(&["character-wizard", "random", "--data", "my-campaign"]))
        .expect("parse data pack option");
    assert_eq!(cli.data, Some("my-campaign".to_string()));
    assert!(matches!(cli.command, Command::Random(_)));
}

#[test]
fn cli_edit_accepts_an_optional_pdf_output() {
    let cli = parse_command_line(&args(&[
        "character-wizard",
        "edit",
        "records/legolas.json",
        "--template",
        "assets/character-sheet.pdf",
        "--output",
        "sheets/legolas.pdf",
        "--force",
    ]))
    .expect("parse edit");
    let options = match cli.command {
        Command::Edit(options) => options,
        _ => panic!("expected edit command"),
    };
    assert_eq!(options.character.character, "records/legolas.json");
    assert_eq!(options.template, Some("assets/character-sheet.pdf".to_string()));
    assert_eq!(options.output, Some("sheets/legolas.pdf".to_string()));
    assert!(options.force);
}

#[test]
fn cli_render_accepts_explicit_paths() {
    let cli = parse_command_line(&args(&[
        "character-wizard",
        "render",
        "records/legolas.json",
        "--template",
        "assets/character-sheet.pdf",
        "--output",
        "sheets/legolas.pdf",
        "--force",
    ]))
    .expect("parse render");
    let options = match cli.command {
        Command::Render(options) => options,
        _ => panic!("expected render command"),
    };
    assert_eq!(options.character.character, "records/legolas.json");
    assert_eq!(options.template, Some("assets/character-sheet.pdf".to_string()));
    assert_eq!(options.output, Some("sheets/legolas.pdf".to_string()));
    assert!(options.force);
}

#[test]
fn cli_a_bare_name_resolves_from_the_selected_collection_directory() {
    let character = CharacterRefArgs {
        character: "legolas".to_string(),
        directory: Some("party".to_string()),
    };
    assert_eq!(
        resolve_character_path(&character.character, character.directory.as_deref(), false),
        "party/legolas.json"
    );
}

#[test]
fn cli_character_name_becomes_safe_default_output_name() {
    assert_eq!(character_output_path("Legolas", "json"), "legolas.json");
    assert_eq!(character_output_path("Aelinor of Rivendell", "pdf"), "aelinor-of-rivendell.pdf");
    assert_eq!(character_output_path("../../", "json"), "character.json");
}

#[test]
fn main_create_does_not_require_a_template_argument() {
    let cli = parse_command_line(&args(&["character-wizard", "create"])).expect("parse create");
    let options = create_options(cli);
    assert!(options.template.is_none());
    assert!(!options.quick);
    assert!(options.json.is_none());
    assert!(options.output.is_none());
}

#[test]
fn main_create_accepts_explicit_output_paths() {
    let cli = parse_command_line(&args(&[
        "character-wizard",
        "create",
        "--json",
        "records/legolas.json",
        "--output",
        "sheets/legolas.pdf",
    ]))
    .expect("parse create");
    let options = create_options(cli);
    assert_eq!(options.json, Some("records/legolas.json".to_string()));
    assert_eq!(options.output, Some("sheets/legolas.pdf".to_string()));
}

#[test]
fn main_random_accepts_case_insensitive_constraints() {
    let cli = parse_command_line(&args(&[
        "character-wizard",
        "random",
        "--class",
        "wizard",
        "--species",
        "dwarf",
    ]))
    .expect("parse random");
    let options = match cli.command {
        Command::Random(options) => options,
        _ => panic!("expected random command"),
    };
    assert_eq!(options.class_name.as_deref(), Some("wizard"));
    assert_eq!(options.species.as_deref(), Some("dwarf"));
    assert_eq!(
        canonical_srd_choice(options.class_name.as_deref().expect("class"), &CLASS_NAMES, "class").ok(),
        Some("Wizard".to_string())
    );
}

#[test]
fn main_create_accepts_quick_but_not_a_json_source() {
    let cli = parse_command_line(&args(&["character-wizard", "create", "--quick"])).expect("parse quick create");
    let options = create_options(cli);
    assert!(options.quick);
    assert!(parse_command_line(&args(&[
        "character-wizard",
        "create",
        "--quick",
        "--from-json",
        "legolas.json",
    ]))
    .is_err());
}

#[test]
fn main_global_data_pack_option_is_available_after_a_command() {
    let cli = parse_command_line(&args(&["character-wizard", "random", "--data", "my-campaign"]))
        .expect("parse data pack option");
    assert_eq!(cli.data, Some("my-campaign".to_string()));
    assert!(matches!(cli.command, Command::Random(_)));
}

#[test]
fn main_edit_accepts_an_optional_pdf_output() {
    let cli = parse_command_line(&args(&[
        "character-wizard",
        "edit",
        "records/legolas.json",
        "--template",
        "assets/character-sheet.pdf",
        "--output",
        "sheets/legolas.pdf",
        "--force",
    ]))
    .expect("parse edit");
    let options = match cli.command {
        Command::Edit(options) => options,
        _ => panic!("expected edit command"),
    };
    assert_eq!(options.character.character, "records/legolas.json");
    assert_eq!(options.template, Some("assets/character-sheet.pdf".to_string()));
    assert_eq!(options.output, Some("sheets/legolas.pdf".to_string()));
    assert!(options.force);
}

#[test]
fn main_render_accepts_explicit_paths() {
    let cli = parse_command_line(&args(&[
        "character-wizard",
        "render",
        "records/legolas.json",
        "--template",
        "assets/character-sheet.pdf",
        "--output",
        "sheets/legolas.pdf",
        "--force",
    ]))
    .expect("parse render");
    let options = match cli.command {
        Command::Render(options) => options,
        _ => panic!("expected render command"),
    };
    assert_eq!(options.character.character, "records/legolas.json");
    assert_eq!(options.template, Some("assets/character-sheet.pdf".to_string()));
    assert_eq!(options.output, Some("sheets/legolas.pdf".to_string()));
    assert!(options.force);
}

#[test]
fn main_a_bare_name_resolves_from_the_selected_collection_directory() {
    let character = CharacterRefArgs {
        character: "legolas".to_string(),
        directory: Some("party".to_string()),
    };
    assert_eq!(
        resolve_character_path(&character.character, character.directory.as_deref(), false),
        "party/legolas.json"
    );
}

#[test]
fn main_character_name_becomes_safe_default_output_name() {
    assert_eq!(character_output_path("Legolas", "json"), "legolas.json");
    assert_eq!(character_output_path("Aelinor of Rivendell", "pdf"), "aelinor-of-rivendell.pdf");
    assert_eq!(character_output_path("../../", "json"), "character.json");
}

#[test]
fn export_and_import_accept_collection_or_explicit_destinations() {
    let cli = parse_command_line(&args(&["character-wizard", "export", "legolas", "--directory", "party"]))
        .expect("parse export");
    let options = match cli.command {
        Command::Export(options) => options,
        _ => panic!("expected export command"),
    };
    assert_eq!(options.character.character, "legolas");
    assert_eq!(options.character.directory, Some("party".to_string()));

    let cli = parse_command_line(&args(&[
        "character-wizard",
        "import",
        "cw1:AAAA",
        "--output",
        "party/legolas.json",
        "--force",
    ]))
    .expect("parse import");
    let options = match cli.command {
        Command::Import(options) => options,
        _ => panic!("expected import command"),
    };
    assert_eq!(options.output, Some("party/legolas.json".to_string()));
    assert!(options.force);
}

#[test]
fn version_and_help_flags_are_reported_instead_of_a_command() {
    assert_eq!(parse_command_line(&args(&["character-wizard", "--version"])), Err(CliParseError::Version));
    assert_eq!(parse_command_line(&args(&["character-wizard", "--help"])), Err(CliParseError::Help));
}

#[test]
fn an_unknown_command_is_invalid() {
    assert!(matches!(
        parse_command_line(&args(&["character-wizard", "dance"])),
        Err(CliParseError::Invalid(_))
    ));
}

#[test]
fn an_unknown_class_lists_the_choices() {
    let error = canonical_srd_choice("pirate", &CLASS_NAMES, "class").expect_err("unknown class");
    assert!(error.message().starts_with("unknown SRD class: pirate (choose one of: Barbarian"));
    assert_eq!(error.exit_code(), 1);
    let error = canonical_srd_choice("x", &["Elf", "Orc"], "species").expect_err("unknown species");
    assert_eq!(error.message(), "unknown SRD species: x (choose one of: Elf, Orc)");
}

#[test]
fn a_character_path_is_kept_when_it_names_a_file() {
    assert_eq!(resolve_character_path("legolas", Some("party"), true), "legolas");
    assert_eq!(resolve_character_path("records/legolas.json", None, false), "records/legolas.json");
}

#[test]
fn output_names_never_leave_the_current_directory() {
    assert_eq!(character_output_path("../../x/y.z", "json"), "x-y-z.json");
    assert_eq!(character_output_path("  Élodie  ", "pdf"), "Élodie.pdf");
    assert_eq!(character_output_path("...", "pdf"), "character.pdf");
}

#[test]
fn option_dependencies_and_conflicts_are_enforced() {
    assert!(matches!(
        parse_command_line(&args(&["character-wizard", "edit", "legolas", "--template", "sheet.pdf"])),
        Err(CliParseError::Invalid(_))
    ));
    assert!(matches!(
        parse_command_line(&args(&["character-wizard", "import", "cw1:AAAA", "--directory", "party", "--output", "x.json"])),
        Err(CliParseError::Invalid(_))
    ));
    let cli = parse_command_line(&args(&["character-wizard", "render", "legolas", "-o", "sheet.pdf"])).expect("short output");
    match cli.command {
        Command::Render(options) => assert_eq!(options.output, Some("sheet.pdf".to_string())),
        _ => panic!("expected render command"),
    }
    let cli = parse_command_line(&args(&["character-wizard", "create"])).expect("parse create");
    assert_eq!(create_options(cli).draft, "character-draft.json");
}
