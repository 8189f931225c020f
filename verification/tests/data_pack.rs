use character_wizard::content::{
    PackBackground, PackClass, PackClassChoice, PackClassChoiceOption, PackClassResource, PackClassSpellcasting,
    PackEquipment, PackEquipmentGrant, PackEquipmentKind, PackSpecies, PackSpell,
};
use character_wizard::data_pack::{
    check_manifest_path, is_identifier_exec, is_safe_relative_path_exec, valid_damage_dice_exec,
    validate_backgrounds, validate_classes, validate_equipment, validate_manifest_header, validate_species,
    validate_spells, ContentFamily, DataPackManifest,
};
use character_wizard::ids::Size;

fn strings(items: &[&str]) -> Vec<String> {
    items.iter().map(|s| s.to_string()).collect()
}

fn named_grant(name: &str) -> PackEquipmentGrant {
    PackEquipmentGrant { name: Some(name.to_owned()), equipment_id: None, quantity: 1 }
}

fn background(id: &str, name: &str, abilities: &[&str], skills: &[&str], feat: &str, tool: &str) -> PackBackground {
    PackBackground {
        id: id.to_owned(),
        name: name.to_owned(),
        abilities: strings(abilities),
        skills: strings(skills),
        feat: feat.to_owned(),
        tool: tool.to_owned(),
        magic_initiate_list: None,
        equipment: vec![named_grant("Robe")],
        equipment_gold: 0,
        gold_alternative: 50,
    }
}

fn weapon(id: &str, name: &str, damage: &str) -> PackEquipment {
    PackEquipment {
        id: id.to_owned(),
        name: name.to_owned(),
        kind: PackEquipmentKind::Weapon {
            category: "Simple".to_owned(),
            kind: "Melee".to_owned(),
            properties: strings(&["Finesse"]),
            mastery: "Vex".to_owned(),
            damage: damage.to_owned(),
            damage_type: "Radiant".to_owned(),
            normal_range: 5,
            long_range: None,
            versatile_damage: None,
        },
    }
}

fn spell(id: &str, name: &str, lists: &[&str], components: &[&str]) -> PackSpell {
    PackSpell {
        id: id.to_owned(),
        name: name.to_owned(),
        level: 0,
        school: "Evocation".to_owned(),
        lists: strings(lists),
        casting_time: "Action".to_owned(),
        range: "60 feet".to_owned(),
        components: strings(components),
        material: None,
        concentration: false,
        ritual: false,
        notes: "Duration: Instantaneous".to_owned(),
        tags: Vec::new(),
    }
}

fn class(id: &str, name: &str) -> PackClass {
    PackClass {
        id: id.to_owned(),
        name: name.to_owned(),
        hit_die: 10,
        saving_throws: strings(&["strength", "constitution"]),
        skill_count: 2,
        skills: strings(&["Athletics", "Perception"]),
        armor_training: strings(&["Light"]),
        weapon_training: strings(&["Simple"]),
        equipment: vec![named_grant("Longsword")],
        equipment_gold: 0,
        starting_gold: 100,
        features: strings(&["Watchful"]),
        weapon_mastery_count: 0,
        choices: Vec::new(),
        resources: Vec::new(),
        spellcasting: None,
    }
}

fn manifest(files: Vec<(ContentFamily, String)>) -> DataPackManifest {
    DataPackManifest {
        format_version: 1,
        id: "my-campaign".to_owned(),
        version: 1,
        name: "My Campaign".to_owned(),
        files,
        species: Vec::new(),
        backgrounds: Vec::new(),
        equipment: Vec::new(),
        spells: Vec::new(),
        classes: Vec::new(),
    }
}

#[test]
fn rejects_a_manifest_that_escapes_the_pack_directory() {
    let manifest = manifest(vec![(ContentFamily::Species, "../species.json".to_owned())]);
    assert!(validate_manifest_header(&manifest).is_ok());
    let (family, path) = &manifest.files[0];
    assert!(check_manifest_path(*family, path).expect_err("unsafe path").contains("relative path"));
}

#[test]
fn rejects_invalid_or_conflicting_background_rules() {
    let conflicting = background(
        "acolyte",
        "Custom Acolyte",
        &["intelligence", "wisdom", "charisma"],
        &["Insight", "Religion"],
        "Alert",
        "Calligrapher's Supplies",
    );
    assert!(validate_backgrounds(&[conflicting], &[])
        .expect_err("SRD collision")
        .contains("conflicts with SRD background"));

    let invalid_magic = background(
        "hedge-mage",
        "Hedge Mage",
        &["intelligence", "wisdom", "charisma"],
        &["Arcana", "Nature"],
        "Magic Initiate",
        "Herbalism Kit",
    );
    assert!(validate_backgrounds(&[invalid_magic], &[])
        .expect_err("missing spell list")
        .contains("magic_initiate_list"));
}

#[test]
fn rejects_invalid_equipment_and_unknown_background_references() {
    let invalid_weapon = weapon("moonblade", "Moonblade", "bright");
    assert!(validate_equipment(&[invalid_weapon])
        .expect_err("invalid damage dice")
        .contains("invalid pack weapon mechanics"));

    let mut scout = background(
        "lunar-scout",
        "Lunar Scout",
        &["dexterity", "wisdom", "charisma"],
        &["Perception", "Survival"],
        "Alert",
        "Navigator's Tools",
    );
    scout.equipment = vec![PackEquipmentGrant { name: None, equipment_id: Some("missing-item".to_owned()), quantity: 1 }];
    assert!(validate_backgrounds(&[scout], &[])
        .expect_err("unknown item")
        .contains("references unknown pack equipment"));
}

#[test]
fn rejects_invalid_or_conflicting_spell_rules() {
    let conflicting = spell("acid-splash", "acid splash", &["Wizard"], &["V", "S"]);
    assert!(validate_spells(&[conflicting]).expect_err("SRD collision").contains("conflicts with SRD spell"));

    let invalid_material = spell("moon-spark", "Moon Spark", &["Wizard"], &["V", "M"]);
    assert!(validate_spells(&[invalid_material])
        .expect_err("material mismatch")
        .contains("invalid pack spell mechanics"));

    let invalid_list = spell("moon-spark", "Moon Spark", &["Artificer"], &["V"]);
    assert!(validate_spells(&[invalid_list])
        .expect_err("unsupported list")
        .contains("invalid pack spell mechanics"));
}

#[test]
fn rejects_invalid_or_conflicting_class_rules() {
    let conflicting = class("fighter", "Custom Fighter");
    assert!(validate_classes(&[conflicting], &[]).expect_err("SRD collision").contains("conflicts with SRD class"));

    let mut invalid_spellcasting = class("moon-mage", "Moon Mage");
    invalid_spellcasting.hit_die = 7;
    invalid_spellcasting.saving_throws = strings(&["intelligence", "intelligence"]);
    invalid_spellcasting.skill_count = 3;
    invalid_spellcasting.skills = strings(&["Arcana"]);
    invalid_spellcasting.armor_training = strings(&["Mystic"]);
    invalid_spellcasting.weapon_training = strings(&["Arcane"]);
    invalid_spellcasting.equipment =
        vec![PackEquipmentGrant { name: None, equipment_id: Some("moonblade".to_owned()), quantity: 1 }];
    invalid_spellcasting.starting_gold = 0;
    invalid_spellcasting.features = Vec::new();
    invalid_spellcasting.weapon_mastery_count = 4;
    assert!(validate_classes(&[invalid_spellcasting], &[])
        .expect_err("invalid class mechanics")
        .contains("invalid pack class mechanics"));

    let mut extended = class("moon-mystic", "Moon Mystic");
    extended.hit_die = 8;
    extended.saving_throws = strings(&["intelligence", "wisdom"]);
    extended.skills = strings(&["Arcana", "Insight", "Nature"]);
    extended.armor_training = Vec::new();
    extended.equipment = vec![named_grant("Quarterstaff")];
    extended.features = strings(&["Moon Lore"]);
    extended.choices = vec![PackClassChoice {
        id: "calling".to_owned(),
        label: "Calling".to_owned(),
        count: 2,
        options: vec![PackClassChoiceOption { id: "seer".to_owned(), name: "Seer".to_owned(), description: None }],
    }];
    extended.resources = vec![PackClassResource {
        name: "Focus".to_owned(),
        maximum: 0,
        unit: "uses".to_owned(),
        recovery: "Long Rest".to_owned(),
        detail: None,
    }];
    extended.spellcasting = Some(PackClassSpellcasting {
        ability: "wisdom".to_owned(),
        spell_list: "Artificer".to_owned(),
        cantrip_count: 2,
        prepared_spell_count: 2,
        spell_slots: 0,
        slot_recovery: String::new(),
    });
    assert!(validate_classes(&[extended], &[]).expect_err("invalid extensions").contains("invalid pack class mechanics"));
}

#[test]
fn a_well_formed_pack_passes_every_check() {
    let species = PackSpecies {
        id: "moonfolk".to_owned(),
        name: "Moonfolk".to_owned(),
        sizes: vec![Size::Small],
        speed: 35,
        darkvision_range: None,
        traits: strings(&["Moonlit Step"]),
    };
    assert_eq!(validate_species(&[species]), Ok(()));
    let blade = weapon("moonblade", "Moonblade", "1d8");
    assert_eq!(validate_equipment(std::slice::from_ref(&blade)), Ok(()));
    let mut scout = background(
        "lunar-scout",
        "Lunar Scout",
        &["dexterity", "wisdom", "charisma"],
        &["Perception", "Survival"],
        "Alert",
        "Navigator's Tools",
    );
    scout.equipment = vec![PackEquipmentGrant { name: None, equipment_id: Some("moonblade".to_owned()), quantity: 1 }];
    assert_eq!(validate_backgrounds(&[scout], std::slice::from_ref(&blade)), Ok(()));
    let spark = spell("moon-spark", "Moon Spark", &["Wizard"], &["V", "S"]);
    assert_eq!(validate_spells(std::slice::from_ref(&spark)), Ok(()));
    let mut warden = class("moon-warden", "Moon Warden");
    warden.saving_throws = strings(&["strength", "wisdom"]);
    warden.skills = strings(&["Athletics", "Insight", "Nature", "Perception", "Survival"]);
    warden.armor_training = strings(&["Light", "Medium", "Shields"]);
    warden.weapon_training = strings(&["Simple", "Martial"]);
    warden.equipment = vec![named_grant("Longsword"), named_grant("Scale Mail"), named_grant("Shield")];
    warden.equipment_gold = 10;
    warden.starting_gold = 150;
    warden.features = strings(&["Moonlit Vigil"]);
    warden.weapon_mastery_count = 2;
    assert_eq!(validate_classes(&[warden], std::slice::from_ref(&spark)), Ok(()));
}

#[test]
fn manifest_headers_are_checked_in_order() {
    let mut bad_format = manifest(Vec::new());
    bad_format.format_version = 2;
    assert_eq!(
        validate_manifest_header(&bad_format),
        Err("unsupported data pack format version 2; expected 1".to_owned())
    );
    let mut bad_id = manifest(Vec::new());
    bad_id.id = "My Campaign".to_owned();
    assert_eq!(
        validate_manifest_header(&bad_id),
        Err("data pack id must use lowercase letters, digits, and hyphens".to_owned())
    );
    let mut bad_version = manifest(Vec::new());
    bad_version.version = 0;
    assert_eq!(validate_manifest_header(&bad_version), Err("data pack version must be at least 1".to_owned()));
    let mut blank_name = manifest(Vec::new());
    blank_name.name = "   ".to_owned();
    assert_eq!(validate_manifest_header(&blank_name), Err("data pack name must not be empty".to_owned()));
    assert_eq!(check_manifest_path(ContentFamily::Spells, "content/spells.json"), Ok(()));
    assert_eq!(
        check_manifest_path(ContentFamily::Classes, "/etc/classes.json"),
        Err("data pack classes file must be a relative path inside the pack: /etc/classes.json".to_owned())
    );
}

#[test]
fn identifiers_paths_and_dice_follow_their_grammars() {
    assert!(is_identifier_exec("moon-pack-2"));
    assert!(!is_identifier_exec(""));
    assert!(!is_identifier_exec("Moon"));
    assert!(is_safe_relative_path_exec("a/b.json"));
    assert!(!is_safe_relative_path_exec("a/../b.json"));
    assert!(!is_safe_relative_path_exec("/a.json"));
    assert!(valid_damage_dice_exec("1d8"));
    assert!(valid_damage_dice_exec("2d6"));
    assert!(!valid_damage_dice_exec("d8"));
    assert!(!valid_damage_dice_exec("1d1"));
    assert!(!valid_damage_dice_exec("11d6"));
    assert!(!valid_damage_dice_exec("bright"));
}

#[test]
fn species_must_be_unique_and_complete() {
    let moonfolk = PackSpecies {
        id: "moonfolk".to_owned(),
        name: "Moonfolk".to_owned(),
        sizes: vec![Size::Small],
        speed: 35,
        darkvision_range: None,
        traits: strings(&["  "]),
    };
    assert_eq!(
        validate_species(&[moonfolk]),
        Err("pack species traits must not be empty: moonfolk".to_owned())
    );
}

#[test]
fn equipment_ids_may_not_name_srd_equipment() {
    let item = PackEquipment {
        id: "longsword".to_owned(),
        name: "Moon Edge".to_owned(),
        kind: PackEquipmentKind::Gear,
    };
    let error = validate_equipment(std::slice::from_ref(&item)).expect_err("SRD weapon ID");
    assert!(error.contains("conflicts with SRD equipment"));
    let shield = PackEquipment {
        id: "shield".to_owned(),
        name: "Moon Guard".to_owned(),
        kind: PackEquipmentKind::Gear,
    };
    assert!(validate_equipment(std::slice::from_ref(&shield)).is_err());
    let fine = PackEquipment {
        id: "moon-edge".to_owned(),
        name: "Moon Edge".to_owned(),
        kind: PackEquipmentKind::Gear,
    };
    assert_eq!(validate_equipment(std::slice::from_ref(&fine)), Ok(()));
}
