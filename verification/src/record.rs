//! The canonical level-1 character record.

use vstd::prelude::*;

use crate::content::{PackBackground, PackClass, PackEquipment, PackSpecies, PackSpell};
use crate::ids::{BackgroundId, ClassId, Size, SpeciesId};

verus! {

/// Provenance of the campaign data pack a character depends on.
#[derive(Debug, PartialEq, Eq)]
pub struct DataPackReference {
    pub id: String,
    pub format_version: u8,
    pub version: u32,
}

impl DataPackReference {
    /// Two references name the same pack revision.
    pub open spec fn same(self, other: DataPackReference) -> bool {
        self.id@ == other.id@ && self.format_version == other.format_version && self.version
            == other.version
    }

    /// Whether two references name the same pack revision.
    pub fn same_as(&self, other: &DataPackReference) -> (r: bool)
        ensures
            r == self.same(*other),
    {
        self.id == other.id && self.format_version == other.format_version && self.version
            == other.version
    }
}

impl Clone for DataPackReference {
    fn clone(&self) -> (r: Self)
        ensures
            r == *self,
    {
        DataPackReference { id: self.id.clone(), format_version: self.format_version, version: self.version }
    }
}

/// The six ability scores.
#[derive(Debug, Clone, Copy, PartialEq, Eq, Structural)]
pub struct AbilityScores {
    pub strength: u8,
    pub dexterity: u8,
    pub constitution: u8,
    pub intelligence: u8,
    pub wisdom: u8,
    pub charisma: u8,
}

/// One Magic Initiate selection: a list, an ability, two cantrips and a level-1 spell.
#[derive(Debug, PartialEq, Eq)]
pub struct MagicInitiateChoice {
    pub spell_list: String,
    pub spellcasting_ability: String,
    pub cantrips: [String; 2],
    pub level_one_spell: String,
}

/// The mathematical content of a [`MagicInitiateChoice`].
pub struct MagicInitiateModel {
    pub spell_list: Seq<char>,
    pub spellcasting_ability: Seq<char>,
    pub cantrips: Seq<String>,
    pub level_one_spell: Seq<char>,
}

impl View for MagicInitiateChoice {
    type V = MagicInitiateModel;

    open spec fn view(&self) -> MagicInitiateModel {
        MagicInitiateModel {
            spell_list: self.spell_list@,
            spellcasting_ability: self.spellcasting_ability@,
            cantrips: self.cantrips@,
            level_one_spell: self.level_one_spell@,
        }
    }
}

impl Clone for MagicInitiateChoice {
    fn clone(&self) -> (r: Self)
        ensures
            r == *self,
    {
        let first = self.cantrips[0].clone();
        let second = self.cantrips[1].clone();
        let cantrips = [first, second];
        assert(cantrips@ =~= self.cantrips@);
        proof {
            vstd::array::axiom_array_ext_equal(cantrips, self.cantrips);
        }
        MagicInitiateChoice {
            spell_list: self.spell_list.clone(),
            spellcasting_ability: self.spellcasting_ability.clone(),
            cantrips,
            level_one_spell: self.level_one_spell.clone(),
        }
    }
}

/// Class-specific selections. Lists stand for sets: no entry occurs twice.
#[derive(Debug, PartialEq, Eq)]
pub struct ClassChoices {
    pub weapon_masteries: Vec<String>,
    pub tools: Vec<String>,
    pub expertise: Vec<String>,
    pub additional_language: Option<String>,
    pub divine_order: Option<String>,
    pub primal_order: Option<String>,
    pub fighting_style: Option<String>,
    pub eldritch_invocation: Option<String>,
    pub cantrips: Vec<String>,
    pub prepared_spells: Vec<String>,
    pub spellbook_spells: Vec<String>,
    /// Pack class choice selections, keyed by choice ID.
    pub pack_choices: Vec<(String, Vec<String>)>,
}

impl ClassChoices {
    /// No selections at all.
    pub fn empty() -> (r: ClassChoices)
        ensures
            r.weapon_masteries@.len() == 0,
            r.tools@.len() == 0,
            r.expertise@.len() == 0,
            r.additional_language is None,
            r.divine_order is None,
            r.primal_order is None,
            r.fighting_style is None,
            r.eldritch_invocation is None,
            r.cantrips@.len() == 0,
            r.prepared_spells@.len() == 0,
            r.spellbook_spells@.len() == 0,
            r.pack_choices@.len() == 0,
    {
        ClassChoices {
            weapon_masteries: Vec::new(),
            tools: Vec::new(),
            expertise: Vec::new(),
            additional_language: None,
            divine_order: None,
            primal_order: None,
            fighting_style: None,
            eldritch_invocation: None,
            cantrips: Vec::new(),
            prepared_spells: Vec::new(),
            spellbook_spells: Vec::new(),
            pack_choices: Vec::new(),
        }
    }
}

/// The canonical character record together with the pack mechanics it was resolved against.
#[derive(Debug, PartialEq, Eq)]
pub struct Character {
    pub name: String,
    pub data_pack: Option<DataPackReference>,
    pub character_class: ClassId,
    pub resolved_pack_class: Option<PackClass>,
    pub background: BackgroundId,
    pub resolved_pack_background: Option<PackBackground>,
    pub resolved_pack_equipment: Vec<PackEquipment>,
    pub resolved_pack_spells: Option<Vec<PackSpell>>,
    pub species: SpeciesId,
    pub resolved_pack_species: Option<PackSpecies>,
    pub size: Size,
    pub dragonborn_ancestry: Option<String>,
    pub elf_lineage: Option<String>,
    pub elf_spellcasting_ability: Option<String>,
    pub elf_keen_senses_skill: Option<String>,
    pub gnome_lineage: Option<String>,
    pub gnome_spellcasting_ability: Option<String>,
    pub goliath_ancestry: Option<String>,
    pub human_skill: Option<String>,
    pub human_origin_feat: Option<String>,
    pub tiefling_legacy: Option<String>,
    pub tiefling_spellcasting_ability: Option<String>,
    pub alignment: String,
    pub abilities: AbilityScores,
    pub class_skills: Vec<String>,
    pub class_choices: ClassChoices,
    pub class_equipment_option: String,
    pub background_equipment_option: String,
    pub bard_starting_instrument: Option<String>,
    pub tool_proficiencies: Vec<String>,
    pub magic_initiate_choices: Vec<MagicInitiateChoice>,
    pub skilled_proficiencies: Vec<String>,
    pub selected_languages: [String; 2],
    pub backstory: Option<String>,
    pub appearance: Option<String>,
    pub personality: Option<String>,
    pub level: u8,
    pub xp: u32,
}

} // verus!
