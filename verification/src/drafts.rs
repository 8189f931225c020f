//! Creation checkpoints and their conversion to and from the canonical record.

use vstd::prelude::*;

use crate::canonical::{normalized_detail, normalize_detail};
use crate::ids::{BackgroundId, ClassId, Size, SpeciesId};
use crate::prompts::WizardError;
use crate::record::{AbilityScores, Character, ClassChoices, DataPackReference, MagicInitiateChoice};
use crate::srd::{is_tool, is_tool_exec};
use crate::text::{clone_opt_string, clone_strings, is_blank, opt_view, owned, string_views};

verus! {

/// The origin stage: identity, species options, origin feats and languages.
#[derive(Debug, PartialEq, Eq)]
pub struct OriginDraft {
    pub name: String,
    pub character_class: String,
    pub background: String,
    pub species: String,
    pub size: String,
    pub dragonborn_ancestry: Option<String>,
    pub elf_lineage: Option<String>,
    pub elf_spellcasting_ability: Option<String>,
    pub elf_keen_senses_skill: Option<String>,
    pub gnome_lineage: Option<String>,
    pub gnome_spellcasting_ability: Option<String>,
    pub goliath_ancestry: Option<String>,
    pub human_skill: Option<String>,
    pub human_origin_feat: Option<String>,
    pub tiefling_legacy: Option<String>,
    pub tiefling_spellcasting_ability: Option<String>,
    pub magic_initiate_choices: Vec<MagicInitiateChoice>,
    pub skilled_proficiencies: Vec<String>,
    pub selected_languages: [String; 2],
}

/// The build stage: class skills and options, starting equipment and alignment.
#[derive(Debug, PartialEq, Eq)]
pub struct BuildDraft {
    pub class_skills: Vec<String>,
    pub class_choices: ClassChoices,
    pub class_equipment_option: String,
    pub background_equipment_option: String,
    pub bard_starting_instrument: Option<String>,
    pub alignment: String,
}

/// The details stage: optional free text.
#[derive(Debug, PartialEq, Eq)]
pub struct DetailsDraft {
    pub backstory: Option<String>,
    pub appearance: Option<String>,
    pub personality: Option<String>,
}

/// A creation checkpoint: each completed stage, and the pack it belongs to.
#[derive(Debug, PartialEq, Eq)]
pub struct CharacterDraft {
    pub data_pack: Option<DataPackReference>,
    pub origin: Option<OriginDraft>,
    pub abilities: Option<AbilityScores>,
    pub build: Option<BuildDraft>,
    pub details: Option<DetailsDraft>,
}

/// Two sets of class selections hold the same texts.
pub open spec fn same_class_choices(a: ClassChoices, b: ClassChoices) -> bool {
    &&& a.weapon_masteries@ == b.weapon_masteries@
    &&& a.tools@ == b.tools@
    &&& a.expertise@ == b.expertise@
    &&& a.additional_language == b.additional_language
    &&& a.divine_order == b.divine_order
    &&& a.primal_order == b.primal_order
    &&& a.fighting_style == b.fighting_style
    &&& a.eldritch_invocation == b.eldritch_invocation
    &&& a.cantrips@ == b.cantrips@
    &&& a.prepared_spells@ == b.prepared_spells@
    &&& a.spellbook_spells@ == b.spellbook_spells@
    &&& a.pack_choices@.len() == b.pack_choices@.len()
    &&& forall|i: int|
        0 <= i < a.pack_choices@.len() ==> (#[trigger] a.pack_choices@[i]).0 == b.pack_choices@[i].0
            && a.pack_choices@[i].1@ == b.pack_choices@[i].1@
}

/// A copy of a set of class selections.
pub fn clone_class_choices(c: &ClassChoices) -> (r: ClassChoices)
    ensures
        same_class_choices(r, *c),
{
    let mut pack_choices: Vec<(String, Vec<String>)> = Vec::new();
    let mut i: usize = 0;
    while i < c.pack_choices.len()
        invariant
            i <= c.pack_choices@.len(),
            pack_choices@.len() == i,
            forall|k: int|
                0 <= k < i ==> (#[trigger] pack_choices@[k]).0 == c.pack_choices@[k].0 && pack_choices@[k].1@
                    == c.pack_choices@[k].1@,
        decreases c.pack_choices.len() - i,
    {
        let entry = (c.pack_choices[i].0.clone(), clone_strings(&c.pack_choices[i].1));
        pack_choices.push(entry);
        i = i + 1;
    }
    ClassChoices {
        weapon_masteries: clone_strings(&c.weapon_masteries),
        tools: clone_strings(&c.tools),
        expertise: clone_strings(&c.expertise),
        additional_language: clone_opt_string(&c.additional_language),
        divine_order: clone_opt_string(&c.divine_order),
        primal_order: clone_opt_string(&c.primal_order),
        fighting_style: clone_opt_string(&c.fighting_style),
        eldritch_invocation: clone_opt_string(&c.eldritch_invocation),
        cantrips: clone_strings(&c.cantrips),
        prepared_spells: clone_strings(&c.prepared_spells),
        spellbook_spells: clone_strings(&c.spellbook_spells),
        pack_choices,
    }
}

/// A copy of a list of Magic Initiate selections.
pub fn clone_magic_choices(v: &Vec<MagicInitiateChoice>) -> (r: Vec<MagicInitiateChoice>)
    ensures
        r@ == v@,
{
    let mut out: Vec<MagicInitiateChoice> = Vec::new();
    let mut i: usize = 0;
    while i < v.len()
        invariant
            i <= v@.len(),
            out@.len() == i,
            forall|k: int| 0 <= k < i ==> #[trigger] out@[k] == v@[k],
        decreases v.len() - i,
    {
        out.push(v[i].clone());
        i = i + 1;
    }
    assert(out@ =~= v@);
    out
}

/// A copy of a pair of strings.
pub fn clone_pair(p: &[String; 2]) -> (r: [String; 2])
    ensures
        r@ == p@,
{
    let r = [p[0].clone(), p[1].clone()];
    assert(r@ =~= p@);
    r
}

/// `d` is the complete checkpoint of `c`: every stage holds the record's values.
pub open spec fn draft_of(c: Character, d: CharacterDraft) -> bool {
    &&& d.data_pack == c.data_pack
    &&& d.abilities == Some(c.abilities)
    &&& match d.origin {
        Some(o) => {
            &&& o.name@ == c.name@
            &&& o.character_class@ == c.character_class@
            &&& o.background@ == c.background@
            &&& o.species@ == c.species@
            &&& o.size@ == c.size.name()
            &&& o.dragonborn_ancestry == c.dragonborn_ancestry
            &&& o.elf_lineage == c.elf_lineage
            &&& o.elf_spellcasting_ability == c.elf_spellcasting_ability
            &&& o.elf_keen_senses_skill == c.elf_keen_senses_skill
            &&& o.gnome_lineage == c.gnome_lineage
            &&& o.gnome_spellcasting_ability == c.gnome_spellcasting_ability
            &&& o.goliath_ancestry == c.goliath_ancestry
            &&& o.human_skill == c.human_skill
            &&& o.human_origin_feat == c.human_origin_feat
            &&& o.tiefling_legacy == c.tiefling_legacy
            &&& o.tiefling_spellcasting_ability == c.tiefling_spellcasting_ability
            &&& o.magic_initiate_choices@ == c.magic_initiate_choices@
            &&& o.skilled_proficiencies@ == c.skilled_proficiencies@
            &&& o.selected_languages@ == c.selected_languages@
        },
        None => false,
    }
    &&& match d.build {
        Some(b) => {
            &&& b.class_skills@ == c.class_skills@
            &&& same_class_choices(b.class_choices, c.class_choices)
            &&& b.class_equipment_option@ == c.class_equipment_option@
            &&& b.background_equipment_option@ == c.background_equipment_option@
            &&& b.bard_starting_instrument == c.bard_starting_instrument
            &&& b.alignment@ == c.alignment@
        },
        None => false,
    }
    &&& match d.details {
        Some(t) => t.backstory == c.backstory && t.appearance == c.appearance && t.personality == c.personality,
        None => false,
    }
}

/// The tools among a list of skill or tool picks, in order.
pub open spec fn tool_picks(picks: Seq<String>) -> Seq<String>
    decreases picks.len(),
{
    if picks.len() == 0 {
        seq![]
    } else if is_tool(picks.last()@) {
        tool_picks(picks.drop_last()).push(picks.last())
    } else {
        tool_picks(picks.drop_last())
    }
}

/// The tools among a list of picks, in order.
pub fn tools_among(picks: &Vec<String>) -> (r: Vec<String>)
    ensures
        r@ == tool_picks(picks@),
{
    let mut out: Vec<String> = Vec::new();
    let mut i: usize = 0;
    while i < picks.len()
        invariant
            i <= picks@.len(),
            out@ == tool_picks(picks@.subrange(0, i as int)),
        decreases picks.len() - i,
    {
        let ghost before = out@;
        assert(picks@.subrange(0, i as int + 1).drop_last() =~= picks@.subrange(0, i as int));
        if is_tool_exec(picks[i].as_str()) {
            out.push(picks[i].clone());
            assert(out@ =~= before.push(picks@[i as int]));
        }
        i = i + 1;
    }
    assert(picks@.subrange(0, picks@.len() as int) =~= picks@);
    out
}

/// `c` is the record a complete checkpoint describes, before its details are normalized.
pub open spec fn record_of(d: CharacterDraft, o: OriginDraft, a: AbilityScores, b: BuildDraft, c: Character) -> bool {
    &&& c.name == o.name
    &&& c.data_pack == d.data_pack
    &&& c.character_class@ == o.character_class@
    &&& c.resolved_pack_class is None
    &&& c.background@ == o.background@
    &&& c.resolved_pack_background is None
    &&& c.resolved_pack_equipment@.len() == 0
    &&& c.resolved_pack_spells is None
    &&& c.species@ == o.species@
    &&& c.resolved_pack_species is None
    &&& c.size.name() == o.size@
    &&& c.dragonborn_ancestry == o.dragonborn_ancestry
    &&& c.elf_lineage == o.elf_lineage
    &&& c.elf_spellcasting_ability == o.elf_spellcasting_ability
    &&& c.elf_keen_senses_skill == o.elf_keen_senses_skill
    &&& c.gnome_lineage == o.gnome_lineage
    &&& c.gnome_spellcasting_ability == o.gnome_spellcasting_ability
    &&& c.goliath_ancestry == o.goliath_ancestry
    &&& c.human_skill == o.human_skill
    &&& c.human_origin_feat == o.human_origin_feat
    &&& c.tiefling_legacy == o.tiefling_legacy
    &&& c.tiefling_spellcasting_ability == o.tiefling_spellcasting_ability
    &&& c.alignment == b.alignment
    &&& c.abilities == a
    &&& c.class_skills == b.class_skills
    &&& c.class_choices == b.class_choices
    &&& c.class_equipment_option == b.class_equipment_option
    &&& c.background_equipment_option == b.background_equipment_option
    &&& c.bard_starting_instrument == b.bard_starting_instrument
    &&& c.tool_proficiencies@ == tool_picks(o.skilled_proficiencies@)
    &&& c.magic_initiate_choices == o.magic_initiate_choices
    &&& c.skilled_proficiencies == o.skilled_proficiencies
    &&& c.selected_languages == o.selected_languages
    &&& c.level == 1
    &&& c.xp == 0
    &&& match d.details {
        Some(t) => opt_view(c.backstory) == normalized_detail(t.backstory) && opt_view(c.appearance)
            == normalized_detail(t.appearance) && opt_view(c.personality) == normalized_detail(t.personality),
        None => c.backstory is None && c.appearance is None && c.personality is None,
    }
}

/// The message for an identifier field that fails to parse, if one does.
pub open spec fn draft_identifier_issue(o: OriginDraft) -> Option<Seq<char>> {
    if is_blank(o.character_class@) {
        Some("class identifier must not be empty"@)
    } else if is_blank(o.background@) {
        Some("background identifier must not be empty"@)
    } else if is_blank(o.species@) {
        Some("species identifier must not be empty"@)
    } else if o.size@ != "Small"@ && o.size@ != "Medium"@ {
        Some("unknown SRD Size: "@ + o.size@)
    } else {
        None
    }
}

impl CharacterDraft {
    /// A checkpoint with no stage completed.
    pub fn empty() -> (r: CharacterDraft)
        ensures
            r.data_pack is None,
            r.origin is None,
            r.abilities is None,
            r.build is None,
            r.details is None,
    {
        CharacterDraft { data_pack: None, origin: None, abilities: None, build: None, details: None }
    }

    /// The complete checkpoint of a canonical character, ready for editing.
    pub fn from_character(character: &Character) -> (r: CharacterDraft)
        ensures
            draft_of(*character, r),
    {
        let data_pack = match &character.data_pack {
            Some(p) => Some(p.clone()),
            None => None,
        };
        let origin = OriginDraft {
            name: character.name.clone(),
            character_class: owned(character.character_class.as_str()),
            background: owned(character.background.as_str()),
            species: owned(character.species.as_str()),
            size: owned(character.size.as_str()),
            dragonborn_ancestry: clone_opt_string(&character.dragonborn_ancestry),
            elf_lineage: clone_opt_string(&character.elf_lineage),
            elf_spellcasting_ability: clone_opt_string(&character.elf_spellcasting_ability),
            elf_keen_senses_skill: clone_opt_string(&character.elf_keen_senses_skill),
            gnome_lineage: clone_opt_string(&character.gnome_lineage),
            gnome_spellcasting_ability: clone_opt_string(&character.gnome_spellcasting_ability),
            goliath_ancestry: clone_opt_string(&character.goliath_ancestry),
            human_skill: clone_opt_string(&character.human_skill),
            human_origin_feat: clone_opt_string(&character.human_origin_feat),
            tiefling_legacy: clone_opt_string(&character.tiefling_legacy),
            tiefling_spellcasting_ability: clone_opt_string(&character.tiefling_spellcasting_ability),
            magic_initiate_choices: clone_magic_choices(&character.magic_initiate_choices),
            skilled_proficiencies: clone_strings(&character.skilled_proficiencies),
            selected_languages: clone_pair(&character.selected_languages),
        };
        let build = BuildDraft {
            class_skills: clone_strings(&character.class_skills),
            class_choices: clone_class_choices(&character.class_choices),
            class_equipment_option: character.class_equipment_option.clone(),
            background_equipment_option: character.background_equipment_option.clone(),
            bard_starting_instrument: clone_opt_string(&character.bard_starting_instrument),
            alignment: character.alignment.clone(),
        };
        let details = DetailsDraft {
            backstory: clone_opt_string(&character.backstory),
            appearance: clone_opt_string(&character.appearance),
            personality: clone_opt_string(&character.personality),
        };
        CharacterDraft {
            data_pack,
            origin: Some(origin),
            abilities: Some(character.abilities),
            build: Some(build),
            details: Some(details),
        }
    }

    /// Convert a complete checkpoint into the canonical validated record.
    ///
    /// The first missing stage is reported; then the identifiers and size are
    /// parsed, the record is assembled at level 1 with its tool picks recorded,
    /// its details are normalized, and it is validated.
    pub fn into_character(self) -> (r: Result<Character, WizardError>)
        ensures
            match (self.origin, self.abilities, self.build) {
                (None, _, _) => match r {
                    Err(WizardError::Message(m)) => m@ == "draft is missing origin choices"@,
                    _ => false,
                },
                (Some(_), None, _) => match r {
                    Err(WizardError::Message(m)) => m@ == "draft is missing ability scores"@,
                    _ => false,
                },
                (Some(_), Some(_), None) => match r {
                    Err(WizardError::Message(m)) => m@ == "draft is missing build choices"@,
                    _ => false,
                },
                (Some(o), Some(a), Some(b)) => match draft_identifier_issue(o) {
                    Some(message) => match r {
                        Err(WizardError::Message(m)) => m@ == message,
                        _ => false,
                    },
                    None => match r {
                        Ok(c) => record_of(self, o, a, b, c) && c.valid(),
                        Err(WizardError::Message(_)) => exists|c: Character| record_of(self, o, a, b, c) && !c.valid(),
                        Err(_) => false,
                    },
                },
            },
    {
        proof {
            reveal_strlit("Small");
            reveal_strlit("Medium");
        }
        let origin = match self.origin {
            Some(o) => o,
            None => {
                return Err(WizardError::Message(missing("draft is missing origin choices")));
            },
        };
        let abilities = match self.abilities {
            Some(a) => a,
            None => {
                return Err(WizardError::Message(missing("draft is missing ability scores")));
            },
        };
        let build = match self.build {
            Some(b) => b,
            None => {
                return Err(WizardError::Message(missing("draft is missing build choices")));
            },
        };
        let character_class = match ClassId::parse(origin.character_class.as_str()) {
            Ok(id) => id,
            Err(e) => {
                return Err(WizardError::Message(e));
            },
        };
        let background = match BackgroundId::parse(origin.background.as_str()) {
            Ok(id) => id,
            Err(e) => {
                return Err(WizardError::Message(e));
            },
        };
        let species = match SpeciesId::parse(origin.species.as_str()) {
            Ok(id) => id,
            Err(e) => {
                return Err(WizardError::Message(e));
            },
        };
        let size = match Size::parse(origin.size.as_str()) {
            Ok(s) => s,
            Err(e) => {
                return Err(WizardError::Message(e));
            },
        };
        let tool_proficiencies = tools_among(&origin.skilled_proficiencies);
        let (backstory, appearance, personality) = match self.details {
            Some(d) => (normalize_detail(d.backstory), normalize_detail(d.appearance), normalize_detail(d.personality)),
            None => (None, None, None),
        };
        let character = Character {
            name: origin.name,
            data_pack: self.data_pack,
            character_class,
            resolved_pack_class: None,
            background,
            resolved_pack_background: None,
            resolved_pack_equipment: Vec::new(),
            resolved_pack_spells: None,
            species,
            resolved_pack_species: None,
            size,
            dragonborn_ancestry: origin.dragonborn_ancestry,
            elf_lineage: origin.elf_lineage,
            elf_spellcasting_ability: origin.elf_spellcasting_ability,
            elf_keen_senses_skill: origin.elf_keen_senses_skill,
            gnome_lineage: origin.gnome_lineage,
            gnome_spellcasting_ability: origin.gnome_spellcasting_ability,
            goliath_ancestry: origin.goliath_ancestry,
            human_skill: origin.human_skill,
            human_origin_feat: origin.human_origin_feat,
            tiefling_legacy: origin.tiefling_legacy,
            tiefling_spellcasting_ability: origin.tiefling_spellcasting_ability,
            alignment: build.alignment,
            abilities,
            class_skills: build.class_skills,
            class_choices: build.class_choices,
            class_equipment_option: build.class_equipment_option,
            background_equipment_option: build.background_equipment_option,
            bard_starting_instrument: build.bard_starting_instrument,
            tool_proficiencies,
            magic_initiate_choices: origin.magic_initiate_choices,
            skilled_proficiencies: origin.skilled_proficiencies,
            selected_languages: origin.selected_languages,
            backstory,
            appearance,
            personality,
            level: 1,
            xp: 0,
        };
        match character.validate() {
            Ok(()) => Ok(character),
            Err(e) => Err(WizardError::Message(e)),
        }
    }
}

fn missing(message: &str) -> (r: String)
    ensures
        r@ == message@,
{
    owned(message)
}


/// A copy of an origin stage.
pub fn clone_origin(o: &OriginDraft) -> (r: OriginDraft)
    ensures
        r.name@ == o.name@,
        r.character_class@ == o.character_class@,
        r.background@ == o.background@,
        r.species@ == o.species@,
        r.size@ == o.size@,
        r.skilled_proficiencies@ == o.skilled_proficiencies@,
        r.selected_languages@ == o.selected_languages@,
{
    OriginDraft {
        name: o.name.clone(),
        character_class: o.character_class.clone(),
        background: o.background.clone(),
        species: o.species.clone(),
        size: o.size.clone(),
        dragonborn_ancestry: clone_opt_string(&o.dragonborn_ancestry),
        elf_lineage: clone_opt_string(&o.elf_lineage),
        elf_spellcasting_ability: clone_opt_string(&o.elf_spellcasting_ability),
        elf_keen_senses_skill: clone_opt_string(&o.elf_keen_senses_skill),
        gnome_lineage: clone_opt_string(&o.gnome_lineage),
        gnome_spellcasting_ability: clone_opt_string(&o.gnome_spellcasting_ability),
        goliath_ancestry: clone_opt_string(&o.goliath_ancestry),
        human_skill: clone_opt_string(&o.human_skill),
        human_origin_feat: clone_opt_string(&o.human_origin_feat),
        tiefling_legacy: clone_opt_string(&o.tiefling_legacy),
        tiefling_spellcasting_ability: clone_opt_string(&o.tiefling_spellcasting_ability),
        magic_initiate_choices: clone_magic_choices(&o.magic_initiate_choices),
        skilled_proficiencies: clone_strings(&o.skilled_proficiencies),
        selected_languages: clone_pair(&o.selected_languages),
    }
}

/// A copy of a build stage.
pub fn clone_build(b: &BuildDraft) -> (r: BuildDraft)
    ensures
        r.class_skills@ == b.class_skills@,
        same_class_choices(r.class_choices, b.class_choices),
{
    BuildDraft {
        class_skills: clone_strings(&b.class_skills),
        class_choices: clone_class_choices(&b.class_choices),
        class_equipment_option: b.class_equipment_option.clone(),
        background_equipment_option: b.background_equipment_option.clone(),
        bard_starting_instrument: clone_opt_string(&b.bard_starting_instrument),
        alignment: b.alignment.clone(),
    }
}

/// A copy of a details stage.
pub fn clone_details(d: &DetailsDraft) -> (r: DetailsDraft)
    ensures
        r == *d,
{
    DetailsDraft {
        backstory: clone_opt_string(&d.backstory),
        appearance: clone_opt_string(&d.appearance),
        personality: clone_opt_string(&d.personality),
    }
}

impl CharacterDraft {
    /// A copy of the checkpoint, stage by stage.
    pub fn duplicate(&self) -> (r: CharacterDraft)
        ensures
            r.data_pack == self.data_pack,
            r.abilities == self.abilities,
            r.origin is Some == self.origin is Some,
            r.build is Some == self.build is Some,
            r.details == self.details,
    {
        CharacterDraft {
            data_pack: match &self.data_pack {
                Some(p) => Some(p.clone()),
                None => None,
            },
            origin: match &self.origin {
                Some(o) => Some(clone_origin(o)),
                None => None,
            },
            abilities: self.abilities,
            build: match &self.build {
                Some(b) => Some(clone_build(b)),
                None => None,
            },
            details: match &self.details {
                Some(d) => Some(clone_details(d)),
                None => None,
            },
        }
    }
}

/// A complete record that a checkpoint describes exactly: level 1 without
/// experience, no pack content attached yet, non-empty identifiers, its
/// Skilled tool picks recorded as its tool proficiencies, and details that
/// are already normalized.
pub open spec fn checkpointable(c: Character) -> bool {
    &&& c.level == 1
    &&& c.xp == 0
    &&& c.resolved_pack_class is None
    &&& c.resolved_pack_background is None
    &&& c.resolved_pack_equipment@.len() == 0
    &&& c.resolved_pack_spells is None
    &&& c.resolved_pack_species is None
    &&& !is_blank(c.character_class@)
    &&& !is_blank(c.background@)
    &&& !is_blank(c.species@)
    &&& c.tool_proficiencies@ == tool_picks(c.skilled_proficiencies@)
    &&& normalized_detail(c.backstory) == opt_view(c.backstory)
    &&& normalized_detail(c.appearance) == opt_view(c.appearance)
    &&& normalized_detail(c.personality) == opt_view(c.personality)
}

/// Two records hold the same choices, text compared by its characters.
pub open spec fn same_record(a: Character, b: Character) -> bool {
    &&& a.name@ == b.name@
    &&& a.data_pack == b.data_pack
    &&& a.character_class@ == b.character_class@
    &&& a.resolved_pack_class == b.resolved_pack_class
    &&& a.background@ == b.background@
    &&& a.resolved_pack_background == b.resolved_pack_background
    &&& a.resolved_pack_equipment@ == b.resolved_pack_equipment@
    &&& a.resolved_pack_spells == b.resolved_pack_spells
    &&& a.species@ == b.species@
    &&& a.resolved_pack_species == b.resolved_pack_species
    &&& a.size == b.size
    &&& a.dragonborn_ancestry == b.dragonborn_ancestry
    &&& a.elf_lineage == b.elf_lineage
    &&& a.elf_spellcasting_ability == b.elf_spellcasting_ability
    &&& a.elf_keen_senses_skill == b.elf_keen_senses_skill
    &&& a.gnome_lineage == b.gnome_lineage
    &&& a.gnome_spellcasting_ability == b.gnome_spellcasting_ability
    &&& a.goliath_ancestry == b.goliath_ancestry
    &&& a.human_skill == b.human_skill
    &&& a.human_origin_feat == b.human_origin_feat
    &&& a.tiefling_legacy == b.tiefling_legacy
    &&& a.tiefling_spellcasting_ability == b.tiefling_spellcasting_ability
    &&& a.alignment@ == b.alignment@
    &&& a.abilities == b.abilities
    &&& a.class_skills@ == b.class_skills@
    &&& same_class_choices(a.class_choices, b.class_choices)
    &&& a.class_equipment_option@ == b.class_equipment_option@
    &&& a.background_equipment_option@ == b.background_equipment_option@
    &&& a.bard_starting_instrument == b.bard_starting_instrument
    &&& a.tool_proficiencies@ == b.tool_proficiencies@
    &&& a.magic_initiate_choices@ == b.magic_initiate_choices@
    &&& a.skilled_proficiencies@ == b.skilled_proficiencies@
    &&& a.selected_languages@ == b.selected_languages@
    &&& opt_view(a.backstory) == opt_view(b.backstory)
    &&& opt_view(a.appearance) == opt_view(b.appearance)
    &&& opt_view(a.personality) == opt_view(b.personality)
    &&& a.level == b.level
    &&& a.xp == b.xp
}

/// A valid record's complete checkpoint builds the same record back: the
/// checkpoint's identifiers parse, and every record it describes holds the
/// same choices and is valid, so resuming from a saved checkpoint loses
/// nothing.
pub proof fn lemma_checkpoint_rebuilds_record(c: Character, d: CharacterDraft, r: Character)
    requires
        c.valid(),
        checkpointable(c),
        draft_of(c, d),
        record_of(d, d.origin->0, d.abilities->0, d.build->0, r),
    ensures
        draft_identifier_issue(d.origin->0) is None,
        same_record(c, r),
        r.valid(),
{
    reveal_strlit("Small");
    reveal_strlit("Medium");
    let o = d.origin->0;
    assert(o.size@ == c.size.name());
    assert(r.size == c.size);
    assert(r.resolved_pack_equipment@ =~= c.resolved_pack_equipment@);
    assert(same_record(c, r));
    assert(r.valid());
}

} // verus!
