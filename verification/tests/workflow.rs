use character_wizard::content::{PackBackground, PackEquipment, PackEquipmentGrant, PackEquipmentKind, PackSpecies};
use character_wizard::ids::Size;
use character_wizard::prompts::{PromptPort, WizardError};
use character_wizard::record::DataPackReference;
use character_wizard::srd::{CLASS_NAMES, SPECIES_NAMES};
use character_wizard::drafts::CharacterDraft;
use character_wizard::wizard::{
    background_equipment_labels, class_equipment_labels, collect_details, collect_origin,
    generate_random_character_with_catalog, generate_random_character_with_seed,
    run_edit_interactive_with, run_edit_interactive_with_catalog, run_interactive_with, run_interactive_with_catalog,
    run_quick_interactive_with_catalog, run_quick_interactive_with_seed, CheckpointStore,
};

fn unexpected<T>(what: &str) -> Result<T, WizardError> {
    Err(WizardError::Message(format!("unexpected {what}")))
}

struct ScriptedPrompts;

impl PromptPort for ScriptedPrompts {
    fn prompt(&mut self, _label: &str) -> Result<String, WizardError> {
        unexpected("required text prompt")
    }

    fn optional_prompt(&mut self, label: &str) -> Result<Option<String>, WizardError> {
        Ok(Some(format!("scripted {label}")))
    }

    fn choose_one(&mut self, _label: &str, _choices: &[&str]) -> Result<String, WizardError> {
        unexpected("choice prompt")
    }

    fn choose_set(&mut self, _label: &str, _choices: &[&str], _count: usize) -> Result<Vec<String>, WizardError> {
        unexpected("multi-select prompt")
    }

    fn choose_set_with_descriptions(
        &mut self,
        _label: &str,
        _choices: &[&str],
        _count: usize,
        _descriptions: bool,
    ) -> Result<Vec<String>, WizardError> {
        unexpected("described multi-select prompt")
    }

    fn display(&mut self, _text: &str) {}
}

struct QuickPrompts {
    action_count: usize,
}

impl PromptPort for QuickPrompts {
    fn prompt(&mut self, _label: &str) -> Result<String, WizardError> {
        unexpected("required text prompt")
    }

    fn optional_prompt(&mut self, _label: &str) -> Result<Option<String>, WizardError> {
        unexpected("optional text prompt")
    }

    fn choose_one(&mut self, label: &str, _choices: &[&str]) -> Result<String, WizardError> {
        if label != "Quick action" {
            return Err(WizardError::Message(format!("unexpected choice prompt: {label}")));
        }
        let action = if self.action_count == 0 { "Reroll" } else { "Accept" };
        self.action_count += 1;
        Ok(action.to_owned())
    }

    fn choose_set(&mut self, _label: &str, _choices: &[&str], _count: usize) -> Result<Vec<String>, WizardError> {
        unexpected("multi-select prompt")
    }

    fn choose_set_with_descriptions(
        &mut self,
        _label: &str,
        _choices: &[&str],
        _count: usize,
        _descriptions: bool,
    ) -> Result<Vec<String>, WizardError> {
        unexpected("described multi-select prompt")
    }

    fn display(&mut self, _text: &str) {}
}

struct EditingPrompts {
    cancel: bool,
}

impl PromptPort for EditingPrompts {
    fn prompt(&mut self, _label: &str) -> Result<String, WizardError> {
        unexpected("required text prompt")
    }

    fn optional_prompt(&mut self, _label: &str) -> Result<Option<String>, WizardError> {
        unexpected("optional text prompt")
    }

    fn choose_one(&mut self, label: &str, _choices: &[&str]) -> Result<String, WizardError> {
        if label == "Edit action" {
            Ok(if self.cancel { "Cancel" } else { "Save changes" }.to_owned())
        } else {
            Err(WizardError::Message(format!("unexpected choice prompt: {label}")))
        }
    }

    fn choose_set(&mut self, _label: &str, _choices: &[&str], _count: usize) -> Result<Vec<String>, WizardError> {
        unexpected("multi-select prompt")
    }

    fn choose_set_with_descriptions(
        &mut self,
        _label: &str,
        _choices: &[&str],
        _count: usize,
        _descriptions: bool,
    ) -> Result<Vec<String>, WizardError> {
        unexpected("described multi-select prompt")
    }

    fn display(&mut self, _text: &str) {}
}

/// Answers the origin stage of a Rogue of the requested species.
struct OriginPrompts {
    species: &'static str,
}

impl PromptPort for OriginPrompts {
    fn prompt(&mut self, label: &str) -> Result<String, WizardError> {
        if label == "Character name" {
            Ok("Scripted Rogue".to_owned())
        } else {
            Err(WizardError::Message(format!("unexpected required text prompt: {label}")))
        }
    }

    fn optional_prompt(&mut self, _label: &str) -> Result<Option<String>, WizardError> {
        Ok(None)
    }

    fn choose_one(&mut self, label: &str, choices: &[&str]) -> Result<String, WizardError> {
        let answer = match label {
            "Class" => "Rogue",
            "Background" => "Criminal",
            "Species" => self.species,
            _ => choices.first().copied().unwrap_or(""),
        };
        Ok(answer.to_owned())
    }

    fn choose_set(&mut self, _label: &str, choices: &[&str], count: usize) -> Result<Vec<String>, WizardError> {
        Ok(choices.iter().take(count).map(|c| c.to_string()).collect())
    }

    fn choose_set_with_descriptions(
        &mut self,
        label: &str,
        choices: &[&str],
        count: usize,
        _descriptions: bool,
    ) -> Result<Vec<String>, WizardError> {
        self.choose_set(label, choices, count)
    }

    fn display(&mut self, _text: &str) {}
}

fn moon_pack() -> DataPackReference {
    DataPackReference { id: "moon-pack".to_owned(), format_version: 1, version: 1 }
}

fn moonfolk() -> PackSpecies {
    PackSpecies {
        id: "moonfolk".to_owned(),
        name: "Moonfolk".to_owned(),
        sizes: vec![Size::Small],
        speed: 35,
        darkvision_range: None,
        traits: vec!["Moonlit Step".to_owned()],
    }
}

fn lunar_scout(feat: &str, magic_initiate_list: Option<&str>, equipment: Vec<PackEquipmentGrant>) -> PackBackground {
    PackBackground {
        id: "lunar-scout".to_owned(),
        name: "Lunar Scout".to_owned(),
        abilities: vec!["dexterity".to_owned(), "wisdom".to_owned(), "charisma".to_owned()],
        skills: vec!["Perception".to_owned(), "Survival".to_owned()],
        feat: feat.to_owned(),
        tool: "Navigator's Tools".to_owned(),
        magic_initiate_list: magic_initiate_list.map(str::to_owned),
        equipment,
        equipment_gold: 12,
        gold_alternative: 50,
    }
}

fn named_grant(name: &str, quantity: u16) -> PackEquipmentGrant {
    PackEquipmentGrant { name: Some(name.to_owned()), equipment_id: None, quantity }
}

fn moonblade() -> PackEquipment {
    PackEquipment {
        id: "moonblade".to_owned(),
        name: "Moonblade".to_owned(),
        kind: PackEquipmentKind::Weapon {
            category: "Simple".to_owned(),
            kind: "Melee".to_owned(),
            properties: vec!["Finesse".to_owned(), "Light".to_owned()],
            mastery: "Vex".to_owned(),
            damage: "1d8".to_owned(),
            damage_type: "Radiant".to_owned(),
            normal_range: 5,
            long_range: None,
            versatile_damage: None,
        },
    }
}

#[test]
fn workflow_uses_the_supplied_prompt_port() {
    let details = collect_details(&mut ScriptedPrompts).expect("scripted details");
    assert_eq!(details.backstory.as_deref(), Some("scripted Backstory"));
    assert_eq!(details.appearance.as_deref(), Some("scripted Appearance"));
    assert_eq!(details.personality.as_deref(), Some("scripted Personality"));
}

#[test]
fn equipment_details_are_embedded_in_selectable_rows() {
    assert_eq!(
        class_equipment_labels("Wizard", &["A", "Gold"]),
        [
            "A — 2 x Dagger, Arcane Focus (Quarterstaff), Robe, Spellbook, Scholar's Pack; plus 5 GP",
            "Gold — start with 55 GP and no class package"
        ]
    );
    let background = background_equipment_labels("Criminal", None, &[]);
    assert!(background[0].starts_with("A — 2 x Dagger, Thieves' Tools"));
    assert_eq!(background[1], "Gold — start with 50 GP and no background package");
}

#[test]
fn random_generation_honors_class_and_species_constraints() {
    let character = generate_random_character_with_seed(Some("Wizard"), Some("Dwarf"), 42).expect("random character");
    assert_eq!(character.character_class.as_str(), "Wizard");
    assert_eq!(character.species.as_str(), "Dwarf");
    assert_eq!(character.level, 1);
}

#[test]
fn random_generation_can_produce_every_class_and_species() {
    for (index, class) in CLASS_NAMES.iter().enumerate() {
        generate_random_character_with_seed(Some(class), None, index as u64)
            .unwrap_or_else(|error| panic!("random {class}: {}", error.message()));
    }
    for (index, species) in SPECIES_NAMES.iter().enumerate() {
        generate_random_character_with_seed(None, Some(species), index as u64 + 100)
            .unwrap_or_else(|error| panic!("random {species}: {}", error.message()));
    }
}

#[test]
fn quick_creation_can_reroll_then_accept() {
    let mut prompts = QuickPrompts { action_count: 0 };
    let character = run_quick_interactive_with_seed(&mut prompts, 42).expect("quick character");
    assert_eq!(prompts.action_count, 2);
    assert_eq!(character, generate_random_character_with_seed(None, None, 43).expect("rerolled character"));
}

#[test]
fn origin_prompt_exposes_pack_species_and_stores_its_stable_id() {
    let origin = collect_origin(&mut OriginPrompts { species: "Moonfolk" }, &[moonfolk()], &[])
        .expect("collect pack origin");
    assert_eq!(origin.species, "moonfolk");
    assert_eq!(origin.size, "Small");
}

#[test]
fn quick_creation_can_select_a_pack_species() {
    let rule = moonfolk();
    let reference = moon_pack();
    let seed = (0..1_000)
        .find(|seed| {
            generate_random_character_with_catalog(
                None,
                None,
                None,
                *seed,
                Some(reference.clone()),
                std::slice::from_ref(&rule),
                &[],
                &[],
            )
            .is_ok_and(|character| character.species.as_str() == "moonfolk")
        })
        .expect("seed selecting pack species");
    let character = run_quick_interactive_with_catalog(
        &mut QuickPrompts { action_count: 1 },
        seed,
        Some(&reference),
        std::slice::from_ref(&rule),
        &[],
        &[],
    )
    .expect("quick pack character");
    assert_eq!(character.species.as_str(), "moonfolk");
    assert_eq!(character.resolved_pack_species.as_ref().map(|s| s.speed), Some(35));
}

#[test]
fn quick_creation_can_select_a_pack_background() {
    let rule = lunar_scout("Alert", None, vec![named_grant("Shortbow", 1)]);
    let reference = moon_pack();
    let seed = (0..1_000)
        .find(|seed| {
            generate_random_character_with_catalog(
                None,
                None,
                None,
                *seed,
                Some(reference.clone()),
                &[],
                std::slice::from_ref(&rule),
                &[],
            )
            .is_ok_and(|character| character.background.as_str() == "lunar-scout")
        })
        .expect("seed selecting pack background");
    let character = run_quick_interactive_with_catalog(
        &mut QuickPrompts { action_count: 1 },
        seed,
        Some(&reference),
        &[],
        std::slice::from_ref(&rule),
        &[],
    )
    .expect("quick pack background");
    assert_eq!(character.background_name(), "Lunar Scout");
}

#[test]
fn custom_background_is_constrained_resolved_and_editable() {
    let rule = lunar_scout(
        "Alert",
        None,
        vec![
            PackEquipmentGrant { name: None, equipment_id: Some("moonblade".to_owned()), quantity: 1 },
            named_grant("Arrow", 20),
        ],
    );
    let equipment = moonblade();
    let character = generate_random_character_with_catalog(
        Some("Fighter"),
        Some("lunar-scout"),
        Some("Dwarf"),
        42,
        Some(moon_pack()),
        &[],
        std::slice::from_ref(&rule),
        std::slice::from_ref(&equipment),
    )
    .expect("generate custom background");
    assert_eq!(character.background.as_str(), "lunar-scout");
    assert_eq!(character.background_name(), "Lunar Scout");
    let skills = character.skill_proficiencies();
    assert!(skills.iter().any(|skill| skill == "Perception"));
    assert!(skills.iter().any(|skill| skill == "Survival"));
    assert_eq!(character.background_tool().as_deref(), Some("Navigator's Tools"));
    assert!(character.resolved_pack_equipment.iter().any(|item| item.name == "Moonblade"));
    assert_eq!(character.abilities.strength, 15);
    assert_eq!(character.abilities.constitution, 13);
    assert_eq!(character.abilities.intelligence, 8);

    let edited = run_edit_interactive_with_catalog(
        &character,
        &mut EditingPrompts { cancel: false },
        &[],
        std::slice::from_ref(&rule),
        std::slice::from_ref(&equipment),
    )
    .expect("edit custom background")
    .expect("save edit");
    assert_eq!(edited, character);
}

#[test]
fn custom_background_origin_feat_subchoices_are_completed() {
    for (index, (feat, magic_list)) in
        [("Alert", None), ("Magic Initiate", Some("Wizard")), ("Savage Attacker", None), ("Skilled", None)]
            .into_iter()
            .enumerate()
    {
        let mut rule = lunar_scout(feat, magic_list, vec![named_grant("Shortbow", 1)]);
        rule.id = format!("test-background-{index}");
        rule.name = format!("Test Background {index}");
        let character = generate_random_character_with_catalog(
            Some("Fighter"),
            Some(&rule.id),
            Some("Dwarf"),
            index as u64,
            Some(DataPackReference { id: "test-pack".to_owned(), format_version: 1, version: 1 }),
            &[],
            std::slice::from_ref(&rule),
            &[],
        )
        .unwrap_or_else(|error| panic!("generate {feat}: {}", error.message()));
        assert_eq!(character.magic_initiate_choices.len(), usize::from(feat == "Magic Initiate"));
        assert_eq!(character.skilled_proficiencies.len(), 3 * usize::from(feat == "Skilled"));
        assert_eq!(character.background_feat().as_deref(), Some(feat));
    }
}

#[test]
fn editor_can_accept_or_cancel_a_loaded_character() {
    let character = generate_random_character_with_seed(Some("Rogue"), None, 7).expect("character");
    let accepted = run_edit_interactive_with_catalog(&character, &mut EditingPrompts { cancel: false }, &[], &[], &[])
        .expect("editor completes")
        .expect("editor saves changes");
    assert_eq!(accepted, character);
    assert_eq!(
        run_edit_interactive_with_catalog(&character, &mut EditingPrompts { cancel: true }, &[], &[], &[]),
        Ok(None)
    );
}

/// Keeps every saved checkpoint in memory.
struct MemoryCheckpoints {
    saves: usize,
    latest: Option<CharacterDraft>,
}

impl CheckpointStore for MemoryCheckpoints {
    fn save(&mut self, draft: &CharacterDraft) -> Result<(), WizardError> {
        self.saves += 1;
        self.latest = Some(draft.duplicate());
        Ok(())
    }
}

fn memory() -> MemoryCheckpoints {
    MemoryCheckpoints { saves: 0, latest: None }
}

/// Answers every stage of the wizard for a Criminal Rogue.
struct FullRoguePrompts {
    back_from_abilities_once: bool,
    name_prompts: usize,
    species: &'static str,
}

impl FullRoguePrompts {
    fn new(back_from_abilities_once: bool) -> Self {
        FullRoguePrompts { back_from_abilities_once, name_prompts: 0, species: "Dwarf" }
    }
}

impl PromptPort for FullRoguePrompts {
    fn prompt(&mut self, label: &str) -> Result<String, WizardError> {
        if label == "Character name" {
            self.name_prompts += 1;
            Ok("Scripted Rogue".to_owned())
        } else {
            Err(WizardError::Message(format!("unexpected required text prompt: {label}")))
        }
    }

    fn optional_prompt(&mut self, _label: &str) -> Result<Option<String>, WizardError> {
        Ok(None)
    }

    fn choose_one(&mut self, label: &str, _choices: &[&str]) -> Result<String, WizardError> {
        let value = match label {
            "Class" => "Rogue",
            "Background" => "Criminal",
            "Species" => self.species,
            "Generate ability scores" => {
                if self.back_from_abilities_once {
                    self.back_from_abilities_once = false;
                    return Err(WizardError::Back);
                }
                "Use the class suggested array"
            }
            "Apply background ability increases" => "+2 to one and +1 to another",
            "Ability to increase by 2" => "dexterity",
            "Different ability to increase by 1" => "constitution",
            "Additional Rogue language" => "Dwarvish",
            "Class equipment" | "Background equipment" => "A",
            "Alignment" => "Neutral",
            "Review action" => "Accept",
            _ => return Err(WizardError::Message(format!("unexpected choice prompt: {label}"))),
        };
        Ok(value.to_owned())
    }

    fn choose_set(&mut self, label: &str, _choices: &[&str], _count: usize) -> Result<Vec<String>, WizardError> {
        let values: &[&str] = match label {
            "Class skills" => &["Athletics", "Deception", "Insight", "Investigation"],
            "Weapon masteries" => &["Dagger", "Shortsword"],
            "Two existing skills for Expertise" => &["Investigation", "Stealth"],
            _ => return Err(WizardError::Message(format!("unexpected multi-select prompt: {label}"))),
        };
        Ok(values.iter().map(|value| (*value).to_owned()).collect())
    }

    fn choose_set_with_descriptions(
        &mut self,
        label: &str,
        choices: &[&str],
        count: usize,
        descriptions: bool,
    ) -> Result<Vec<String>, WizardError> {
        if label == "Choose two standard languages" && !descriptions {
            Ok(vec!["Elvish".to_owned(), "Halfling".to_owned()])
        } else {
            self.choose_set(label, choices, count)
        }
    }

    fn display(&mut self, _text: &str) {}
}

struct AcceptingPrompts;

impl PromptPort for AcceptingPrompts {
    fn prompt(&mut self, _label: &str) -> Result<String, WizardError> {
        unexpected("required text prompt")
    }

    fn optional_prompt(&mut self, _label: &str) -> Result<Option<String>, WizardError> {
        unexpected("optional text prompt")
    }

    fn choose_one(&mut self, label: &str, _choices: &[&str]) -> Result<String, WizardError> {
        if label == "Review action" {
            Ok("Accept".to_owned())
        } else {
            Err(WizardError::Message(format!("unexpected choice prompt: {label}")))
        }
    }

    fn choose_set(&mut self, _label: &str, _choices: &[&str], _count: usize) -> Result<Vec<String>, WizardError> {
        unexpected("multi-select prompt")
    }

    fn choose_set_with_descriptions(
        &mut self,
        _label: &str,
        _choices: &[&str],
        _count: usize,
        _descriptions: bool,
    ) -> Result<Vec<String>, WizardError> {
        unexpected("described multi-select prompt")
    }

    fn display(&mut self, _text: &str) {}
}

#[test]
fn scripted_port_completes_every_wizard_stage() {
    let mut store = memory();
    let mut prompts = FullRoguePrompts::new(false);
    let character =
        run_interactive_with(&mut store, &mut prompts, CharacterDraft::empty()).expect("scripted workflow completes");
    assert_eq!(character.name, "Scripted Rogue");
    assert_eq!(character.character_class.as_str(), "Rogue");
    assert_eq!(character.abilities.dexterity, 17);
    assert_eq!(character.abilities.constitution, 14);
    assert_eq!(character.class_skills.len(), 4);
    assert_eq!(character.class_choices.weapon_masteries.len(), 2);
    assert_eq!(character.class_choices.expertise.len(), 2);
    assert_eq!(prompts.name_prompts, 1);
    assert_eq!(store.saves, 4);
}

#[test]
fn scripted_back_navigation_replays_the_origin_stage() {
    let mut store = memory();
    let mut prompts = FullRoguePrompts::new(true);
    let character =
        run_interactive_with(&mut store, &mut prompts, CharacterDraft::empty()).expect("workflow recovers after Back");
    assert_eq!(character.name, "Scripted Rogue");
    assert_eq!(prompts.name_prompts, 2);
}

#[test]
fn complete_checkpoint_builds_the_canonical_character() {
    let character = generate_random_character_with_seed(Some("Rogue"), None, 17).expect("character");
    let draft = CharacterDraft::from_character(&character);
    assert_eq!(draft.duplicate().into_character(), Ok(generate_random_character_with_seed(Some("Rogue"), None, 17).expect("character")));
    let mut store = memory();
    let completed = run_interactive_with(&mut store, &mut AcceptingPrompts, draft)
        .expect("scripted review accepts completed draft");
    assert_eq!(completed, character);
    assert_eq!(store.saves, 0);
}

#[test]
fn a_checkpoint_of_another_pack_is_refused() {
    let mut draft = CharacterDraft::empty();
    draft.data_pack = Some(moon_pack());
    let other = DataPackReference { id: "moon-pack".to_owned(), format_version: 1, version: 2 };
    let result = run_interactive_with_catalog(&mut memory(), &mut AcceptingPrompts, draft, Some(other), &[], &[], &[]);
    assert_eq!(result, Err(WizardError::Message("draft belongs to a different data pack".to_owned())));
}

struct SaveAndExitPrompts;
impl PromptPort for SaveAndExitPrompts {
    fn prompt(&mut self, _label: &str) -> Result<String, WizardError> {
        Err(WizardError::SaveAndExit)
    }
    fn optional_prompt(&mut self, _label: &str) -> Result<Option<String>, WizardError> {
        Err(WizardError::SaveAndExit)
    }
    fn choose_one(&mut self, _label: &str, _choices: &[&str]) -> Result<String, WizardError> {
        Err(WizardError::SaveAndExit)
    }
    fn choose_set(&mut self, _label: &str, _choices: &[&str], _count: usize) -> Result<Vec<String>, WizardError> {
        Err(WizardError::SaveAndExit)
    }
    fn choose_set_with_descriptions(
        &mut self,
        _label: &str,
        _choices: &[&str],
        _count: usize,
        _descriptions: bool,
    ) -> Result<Vec<String>, WizardError> {
        Err(WizardError::SaveAndExit)
    }
    fn display(&mut self, _text: &str) {}
}

#[test]
fn saving_and_exiting_keeps_the_checkpoint() {
    let result = run_interactive_with(&mut memory(), &mut SaveAndExitPrompts, CharacterDraft::empty());
    assert_eq!(result, Err(WizardError::SaveAndExit));
}

struct EditDetailsPrompts {
    action_count: usize,
}

impl PromptPort for EditDetailsPrompts {
    fn prompt(&mut self, _label: &str) -> Result<String, WizardError> {
        unexpected("required text prompt")
    }

    fn optional_prompt(&mut self, label: &str) -> Result<Option<String>, WizardError> {
        Ok(Some(format!("Updated {label}")))
    }

    fn choose_one(&mut self, label: &str, _choices: &[&str]) -> Result<String, WizardError> {
        if label != "Edit action" {
            return Err(WizardError::Message(format!("unexpected choice prompt: {label}")));
        }
        let action = if self.action_count == 0 { "Edit details" } else { "Save changes" };
        self.action_count += 1;
        Ok(action.to_owned())
    }

    fn choose_set(&mut self, _label: &str, _choices: &[&str], _count: usize) -> Result<Vec<String>, WizardError> {
        unexpected("multi-select prompt")
    }

    fn choose_set_with_descriptions(
        &mut self,
        _label: &str,
        _choices: &[&str],
        _count: usize,
        _descriptions: bool,
    ) -> Result<Vec<String>, WizardError> {
        unexpected("described multi-select prompt")
    }

    fn display(&mut self, _text: &str) {}
}

#[test]
fn editor_recollects_only_the_selected_details_section() {
    let character = generate_random_character_with_seed(Some("Cleric"), None, 9).expect("character");
    let edited = run_edit_interactive_with(&character, &mut EditDetailsPrompts { action_count: 0 })
        .expect("editor completes")
        .expect("editor saves changes");
    assert_eq!(edited.backstory.as_deref(), Some("Updated Backstory"));
    assert_eq!(edited.appearance.as_deref(), Some("Updated Appearance"));
    assert_eq!(edited.personality.as_deref(), Some("Updated Personality"));
    assert_eq!(edited.character_class, character.character_class);
    assert_eq!(edited.class_choices, character.class_choices);
}
