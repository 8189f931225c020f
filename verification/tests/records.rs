use character_wizard::app_error::{AppError, ErrorKind};
use character_wizard::content::{PackBackground, PackEquipmentGrant, PackSpell};
use character_wizard::data_pack::DataPackManifest;
use character_wizard::drafts::CharacterDraft;
use character_wizard::ids::{BackgroundId, ClassId, SpeciesId};
use character_wizard::prompts::{lex_less, sorted_set, WizardError};
use character_wizard::provenance::{data_pack_reference, ensure_data_pack, resolve_pack_content, set_data_pack};
use character_wizard::record::{AbilityScores, Character, DataPackReference, MagicInitiateChoice};
use character_wizard::review::{character_review_rows, signed};
use character_wizard::rules::{resolve_rules, RulesContext};
use character_wizard::wizard::{
    increase_methods, resolve_drafted, background_abilities, join_with, drop_lowest, generate_random_character_with_catalog, generate_random_character_with_seed, parse_u8, title,
};

fn test_pack() -> DataPackReference {
    DataPackReference { id: "test-pack".to_owned(), format_version: 1, version: 1 }
}

fn pack_background(id: &str, name: &str, feat: &str, magic_initiate_list: Option<&str>) -> PackBackground {
    PackBackground {
        id: id.to_owned(),
        name: name.to_owned(),
        abilities: vec!["dexterity".to_owned(), "constitution".to_owned(), "intelligence".to_owned()],
        skills: vec!["Sleight of Hand".to_owned(), "Stealth".to_owned()],
        feat: feat.to_owned(),
        tool: "Thieves' Tools".to_owned(),
        magic_initiate_list: magic_initiate_list.map(str::to_owned),
        equipment: vec![PackEquipmentGrant { name: Some("Dagger".to_owned()), equipment_id: None, quantity: 1 }],
        equipment_gold: 10,
        gold_alternative: 50,
    }
}

fn moon_spark() -> PackSpell {
    PackSpell {
        id: "moon-spark".to_owned(),
        name: "Moon Spark".to_owned(),
        level: 0,
        school: "Evocation".to_owned(),
        lists: vec!["Wizard".to_owned()],
        casting_time: "Action".to_owned(),
        range: "60 feet".to_owned(),
        components: vec!["V".to_owned(), "S".to_owned()],
        material: None,
        concentration: false,
        ritual: false,
        notes: "Duration: Instantaneous".to_owned(),
        tags: vec!["Damage".to_owned()],
    }
}

fn character_with_background(rule: &PackBackground) -> Character {
    generate_random_character_with_catalog(
        Some("Fighter"),
        Some(&rule.id),
        Some("Dwarf"),
        3,
        Some(test_pack()),
        &[],
        std::slice::from_ref(rule),
        &[],
    )
    .expect("pack character")
}

fn manifest_with(id: &str, version: u32) -> DataPackManifest {
    DataPackManifest {
        format_version: 1,
        id: id.to_owned(),
        version,
        name: "Test Pack".to_owned(),
        files: Vec::new(),
        species: Vec::new(),
        backgrounds: Vec::new(),
        equipment: Vec::new(),
        spells: Vec::new(),
        classes: Vec::new(),
    }
}

#[test]
fn rejects_out_of_scope_levels_at_the_validation_boundary() {
    let mut character = generate_random_character_with_seed(Some("Rogue"), None, 5).expect("character");
    character.level = 0;
    assert_eq!(character.validate(), Err("level must be between 1 and 20".to_owned()));
    assert_eq!(character.from_parsed(), Err("level must be between 1 and 20".to_owned()));
}

#[test]
fn pack_background_must_resolve_before_full_validation() {
    let rule = pack_background("shadow-agent", "Shadow Agent", "Alert", None);
    let mut character = character_with_background(&rule);
    character.resolved_pack_background = None;
    assert_eq!(
        character.resolve_pack_background(&[]),
        Err("unknown background in data pack: shadow-agent".to_owned())
    );
    character.resolve_pack_background(std::slice::from_ref(&rule)).expect("resolved character");
    assert_eq!(character.background_name(), "Shadow Agent");
}

#[test]
fn pack_spell_references_require_exact_catalog_resolution() {
    let rule = pack_background("moon-scholar", "Moon Scholar", "Magic Initiate", Some("Wizard"));
    let mut character = character_with_background(&rule);
    let ability = character.magic_initiate_choices[0].spellcasting_ability.clone();
    character.magic_initiate_choices = vec![MagicInitiateChoice {
        spell_list: "Wizard".to_owned(),
        spellcasting_ability: ability,
        cantrips: ["moon-spark".to_owned(), "Light".to_owned()],
        level_one_spell: "Magic Missile".to_owned(),
    }];
    assert_eq!(
        character.resolve_pack_spells(&[]),
        Err("Magic Initiate cantrips must come from the Wizard list".to_owned())
    );
    character.resolve_pack_spells(std::slice::from_ref(&moon_spark())).expect("resolve exact spell catalog");
    assert_eq!(character.spell_name("moon-spark"), "Moon Spark");
    assert_eq!(character.spell_name("Light"), "Light");
}

#[test]
fn pack_class_requires_exact_catalog_resolution() {
    let mut character = generate_random_character_with_seed(Some("Fighter"), None, 11).expect("character");
    character.character_class = ClassId::parse("moon-warden").expect("identifier");
    character.data_pack = Some(test_pack());
    assert_eq!(character.resolve_pack_class(&[]), Err("unknown class in data pack: moon-warden".to_owned()));
}

#[test]
fn a_character_needs_the_exact_pack_it_was_made_with() {
    let mut character = generate_random_character_with_seed(Some("Bard"), None, 2).expect("character");
    assert_eq!(ensure_data_pack(&character, None), Ok(()));
    let pack = manifest_with("moon-pack", 2);
    set_data_pack(&mut character, Some(&pack));
    assert_eq!(
        character.data_pack,
        Some(DataPackReference { id: "moon-pack".to_owned(), format_version: 1, version: 2 })
    );
    assert_eq!(data_pack_reference(&pack), character.data_pack.clone().expect("reference"));
    assert_eq!(ensure_data_pack(&character, Some(&pack)), Ok(()));
    assert_eq!(
        ensure_data_pack(&character, None),
        Err("character requires data pack moon-pack; pass --data <directory>".to_owned())
    );
    assert_eq!(
        ensure_data_pack(&character, Some(&manifest_with("moon-pack", 3))),
        Err("character requires data pack moon-pack version 2 (format version 1)".to_owned())
    );
    set_data_pack(&mut character, None);
    assert_eq!(character.data_pack, None);
}

#[test]
fn pack_content_resolution_names_the_pack_in_errors() {
    let mut character = generate_random_character_with_seed(Some("Fighter"), None, 11).expect("character");
    character.character_class = ClassId::parse("moon-warden").expect("identifier");
    let pack = manifest_with("moon-pack", 1);
    assert_eq!(
        resolve_pack_content(&mut character, Some(&pack)),
        Err("unknown class in data pack: moon-warden in data pack moon-pack".to_owned())
    );
    assert_eq!(
        resolve_pack_content(&mut character, None),
        Err("unknown class in data pack: moon-warden".to_owned())
    );

    let mut srd = generate_random_character_with_seed(Some("Fighter"), None, 12).expect("character");
    assert_eq!(resolve_pack_content(&mut srd, None), Ok(()));
    srd.species = SpeciesId::parse("moonfolk").expect("identifier");
    assert!(resolve_pack_content(&mut srd, None).is_err());
}

#[test]
fn a_checkpoint_of_a_character_builds_the_same_character() {
    let character = generate_random_character_with_seed(Some("Wizard"), Some("Elf"), 21).expect("character");
    let draft = CharacterDraft::from_character(&character);
    assert_eq!(draft.into_character(), Ok(character));
}

#[test]
fn incomplete_checkpoints_report_the_missing_stage() {
    assert_eq!(
        CharacterDraft::empty().into_character(),
        Err(WizardError::Message("draft is missing origin choices".to_owned()))
    );
    let character = generate_random_character_with_seed(None, None, 8).expect("character");
    let mut draft = CharacterDraft::from_character(&character);
    draft.abilities = None;
    assert_eq!(draft.into_character(), Err(WizardError::Message("draft is missing ability scores".to_owned())));
    let mut draft = CharacterDraft::from_character(&character);
    draft.build = None;
    assert_eq!(draft.into_character(), Err(WizardError::Message("draft is missing build choices".to_owned())));
}

#[test]
fn review_rows_are_human_readable_instead_of_json() {
    let mut character = generate_random_character_with_seed(Some("Rogue"), Some("Elf"), 4).expect("character");
    character.name = "Binary Smoke Test".to_owned();
    character.abilities = AbilityScores {
        strength: 8,
        dexterity: 16,
        constitution: 12,
        intelligence: 13,
        wisdom: 10,
        charisma: 14,
    };
    character.class_equipment_option = "A".to_owned();
    character.human_origin_feat = None;
    let rows = character_review_rows(&character);
    assert_eq!(rows[0], ("Name", "Binary Smoke Test".to_owned()));
    assert!(rows.iter().any(|(label, value)| {
        *label == "Combat" && value.contains("HP 9") && value.contains("AC 14")
    }));
    assert!(rows.iter().all(|(_, value)| !value.contains('{')));
}

#[test]
fn review_rows_name_the_character_in_plain_text() {
    let character = generate_random_character_with_seed(Some("Rogue"), Some("Dwarf"), 4).expect("character");
    let rows = character_review_rows(&character);
    assert_eq!(rows[0], ("Name", character.name.clone()));
    assert_eq!(rows[1], ("Character", "Level 1 Dwarf Rogue".to_owned()));
    assert_eq!(rows[4], ("Size", "Medium".to_owned()));
    assert_eq!(rows[6].0, "Combat");
    assert_eq!(rows[7].0, "Skills");
    assert!(rows[8].1.starts_with("Common, "));
    assert_eq!(rows[9].0, "Equipment");
    assert_eq!(rows.len(), 10);
    assert!(rows.iter().all(|(_, value)| !value.contains('{')));
}

#[test]
fn sheet_values_follow_the_level_one_rules() {
    let mut character = generate_random_character_with_seed(Some("Rogue"), Some("Dwarf"), 4).expect("character");
    character.abilities = AbilityScores {
        strength: 8,
        dexterity: 17,
        constitution: 14,
        intelligence: 13,
        wisdom: 10,
        charisma: 12,
    };
    character.human_origin_feat = None;
    character.class_equipment_option = "A".to_owned();
    character.background_equipment_option = "Gold".to_owned();
    assert_eq!(character.hit_points(), 8 + 2 + 1);
    assert_eq!(character.armor_class(), 11 + 3);
    assert_eq!(character.speed(), 30);
    let inventory = character.inventory();
    assert_eq!(inventory[0], ("Leather Armor".to_owned(), 1));
    assert_eq!(inventory[1], ("Dagger".to_owned(), 2));
    assert_eq!(inventory.len(), 8);
    assert_eq!(character.gold(), 8 + 50);
    let rows = character_review_rows(&character);
    assert!(rows[6].1.starts_with("HP 11  AC 14  Initiative "));
    assert!(rows[6].1.ends_with("  Speed 30 ft."));
    assert!(rows[9].1.starts_with("Leather Armor, 2 x Dagger, Shortsword"));
    assert!(rows[9].1.ends_with("; 58 GP"));
    character.class_equipment_option = "Gold".to_owned();
    assert!(character.inventory().is_empty());
    assert_eq!(character.armor_class(), 10 + 3);
    let rows = character_review_rows(&character);
    assert_eq!(rows[9].1, "No package items; 150 GP");
}

#[test]
fn small_helpers_compute_exact_values() {
    assert_eq!(signed(2), "+2");
    assert_eq!(signed(0), "+0");
    assert_eq!(signed(-1), "-1");
    assert_eq!(drop_lowest([3, 6, 1, 4]), 13);
    assert_eq!(parse_u8("15"), Ok(15));
    assert_eq!(parse_u8(""), Err("cannot parse integer from empty string".to_owned()));
    assert!(parse_u8("300").is_err());
    assert_eq!(title("sleight of hand"), "Sleight of hand");
    assert!(lex_less("Alert", "Skilled"));
    assert_eq!(
        sorted_set(vec!["b".to_owned(), "a".to_owned(), "b".to_owned()]),
        vec!["a".to_owned(), "b".to_owned()]
    );
}

#[test]
fn application_errors_carry_their_kind_and_exit_code() {
    let error = AppError::new(ErrorKind::Rules, "bad".to_owned());
    assert_eq!(error.kind(), ErrorKind::Rules);
    assert_eq!(error.message(), "bad");
    assert_eq!(error.exit_code(), 1);
    assert_eq!(WizardError::Back.message(), "returned to the previous step");
}

#[test]
fn joined_lists_and_background_abilities_are_exact() {
    assert_eq!(join_with(&vec!["a".to_owned(), "b".to_owned(), "c".to_owned()], ", "), "a, b, c");
    assert_eq!(join_with(&Vec::new(), ", "), "");
    assert_eq!(background_abilities("Sage", &[]), vec!["constitution", "intelligence", "wisdom"]);
    let rule = pack_background("shadow-agent", "Shadow Agent", "Alert", None);
    assert_eq!(
        background_abilities("shadow-agent", std::slice::from_ref(&rule)),
        vec!["dexterity", "constitution", "intelligence"]
    );
    assert!(background_abilities("nobody", &[]).is_empty());
}

#[test]
fn resolution_failures_are_rules_errors_naming_the_pack() {
    let mut character = generate_random_character_with_seed(Some("Fighter"), None, 11).expect("character");
    character.data_pack = Some(test_pack());
    let error = resolve_rules(character, RulesContext::srd()).expect_err("pack required");
    assert_eq!(error.kind(), ErrorKind::Rules);
    assert_eq!(error.message(), "character requires data pack test-pack; pass --data <directory>");

    let mut character = generate_random_character_with_seed(Some("Fighter"), None, 11).expect("character");
    character.data_pack = Some(test_pack());
    character.character_class = ClassId::parse("moon-warden").expect("identifier");
    let reference = test_pack();
    let rules = RulesContext::with_pack(&reference, "Test Pack", &[], &[], &[], &[], &[]);
    let error = resolve_rules(character, rules).expect_err("unknown class");
    assert_eq!(error.message(), "unknown class in data pack: moon-warden in data pack test-pack");

    let srd = generate_random_character_with_seed(Some("Wizard"), None, 3).expect("character");
    let resolved = resolve_rules(srd, RulesContext::srd()).expect("SRD character resolves");
    assert_eq!(resolved.character().character_class.as_str(), "Wizard");
}

#[test]
fn refused_records_are_answered_with_the_first_broken_rule() {
    let mut wizard = generate_random_character_with_seed(Some("Wizard"), Some("Dwarf"), 11).expect("wizard");
    assert_eq!(wizard.validate(), Ok(()));
    wizard.class_choices.cantrips.push("Light".to_owned());
    assert_eq!(
        wizard.validate_class_choices(),
        Err("invalid number or selection of Wizard cantrips".to_owned())
    );
    assert_eq!(wizard.validate(), Err("invalid number or selection of Wizard cantrips".to_owned()));

    let mut human = generate_random_character_with_seed(Some("Fighter"), Some("Human"), 5).expect("human");
    human.species = SpeciesId::parse("moonfolk").expect("identifier");
    human.data_pack = Some(test_pack());
    assert_eq!(
        human.validate_species_choices(),
        Err("SRD species subchoices are invalid for pack species".to_owned())
    );

    let mut elf = generate_random_character_with_seed(Some("Fighter"), Some("Elf"), 5).expect("elf");
    elf.elf_lineage = None;
    assert_eq!(
        elf.validate(),
        Err("Elf characters must choose a lineage, spellcasting ability, and Keen Senses skill".to_owned())
    );

    let mut rogue = generate_random_character_with_seed(Some("Rogue"), Some("Dwarf"), 5).expect("rogue");
    rogue.alignment = "Chaotic Hungry".to_owned();
    assert_eq!(rogue.validate(), Err("invalid alignment: Chaotic Hungry".to_owned()));
}

#[test]
fn drafted_characters_resolve_their_pack_rules() {
    let character = generate_random_character_with_seed(Some("Cleric"), Some("Gnome"), 9).expect("cleric");
    let name = character.name.clone();
    let resolved = resolve_drafted(character, &[], &[], &[]).expect("SRD rules resolve");
    assert_eq!(resolved.name, name);
    let mut lost = generate_random_character_with_seed(Some("Cleric"), Some("Gnome"), 9).expect("cleric");
    lost.background = BackgroundId::parse("moon-hermit").expect("identifier");
    lost.data_pack = Some(test_pack());
    match resolve_drafted(lost, &[], &[], &[]) {
        Err(WizardError::Message(message)) => assert_eq!(message, "unknown background in data pack: moon-hermit"),
        Err(other) => panic!("unexpected error: {other:?}"),
        Ok(_) => panic!("an unknown pack background was accepted"),
    }
}

#[test]
fn srd_records_resolve_or_report_their_first_broken_rule() {
    let good = generate_random_character_with_seed(Some("Monk"), Some("Orc"), 21).expect("monk");
    assert!(resolve_rules(good, RulesContext::srd()).is_ok());
    let mut bad = generate_random_character_with_seed(Some("Monk"), Some("Orc"), 21).expect("monk");
    bad.alignment = "Neutral Hungry".to_owned();
    let error = resolve_rules(bad, RulesContext::srd()).expect_err("invalid alignment");
    assert_eq!(error.message(), "invalid alignment: Neutral Hungry");
}

#[test]
fn background_increase_menu_follows_the_scores() {
    let abilities = vec!["strength".to_owned(), "dexterity".to_owned(), "constitution".to_owned()];
    let fresh = AbilityScores { strength: 10, dexterity: 10, constitution: 10, intelligence: 10, wisdom: 10, charisma: 10 };
    assert_eq!(increase_methods(&fresh, &abilities), vec!["+2 to one and +1 to another", "+1 to all three"]);
    let capped = AbilityScores { strength: 20, dexterity: 19, constitution: 20, intelligence: 10, wisdom: 10, charisma: 10 };
    assert_eq!(increase_methods(&capped, &abilities), Vec::<&str>::new());
    let high = AbilityScores { strength: 19, dexterity: 19, constitution: 19, intelligence: 10, wisdom: 10, charisma: 10 };
    assert_eq!(increase_methods(&high, &abilities), vec!["+1 to all three"]);
}
