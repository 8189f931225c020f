//! Rule records supplied by external campaign data packs.

use vstd::prelude::*;

use crate::ids::Size;
use crate::text::{clone_opt_string, clone_strings};

verus! {

#[derive(Debug, PartialEq, Eq)]
pub struct PackSpecies {
    pub id: String,
    pub name: String,
    pub sizes: Vec<Size>,
    pub speed: u8,
    pub darkvision_range: Option<u8>,
    pub traits: Vec<String>,
}

#[derive(Debug, PartialEq, Eq)]
pub struct PackBackground {
    pub id: String,
    pub name: String,
    pub abilities: Vec<String>,
    pub skills: Vec<String>,
    pub feat: String,
    pub tool: String,
    pub magic_initiate_list: Option<String>,
    pub equipment: Vec<PackEquipmentGrant>,
    pub equipment_gold: u16,
    pub gold_alternative: u16,
}

#[derive(Debug, PartialEq, Eq)]
pub struct PackClass {
    pub id: String,
    pub name: String,
    pub hit_die: u8,
    pub saving_throws: Vec<String>,
    pub skill_count: usize,
    pub skills: Vec<String>,
    pub armor_training: Vec<String>,
    pub weapon_training: Vec<String>,
    pub equipment: Vec<PackEquipmentGrant>,
    pub equipment_gold: u16,
    pub starting_gold: u16,
    pub features: Vec<String>,
    pub weapon_mastery_count: usize,
    pub choices: Vec<PackClassChoice>,
    pub resources: Vec<PackClassResource>,
    pub spellcasting: Option<PackClassSpellcasting>,
}

#[derive(Debug, PartialEq, Eq)]
pub struct PackClassChoice {
    pub id: String,
    pub label: String,
    pub count: usize,
    pub options: Vec<PackClassChoiceOption>,
}

#[derive(Debug, PartialEq, Eq)]
pub struct PackClassChoiceOption {
    pub id: String,
    pub name: String,
    pub description: Option<String>,
}

#[derive(Debug, PartialEq, Eq)]
pub struct PackClassResource {
    pub name: String,
    pub maximum: i16,
    pub unit: String,
    pub recovery: String,
    pub detail: Option<String>,
}

#[derive(Debug, PartialEq, Eq)]
pub struct PackClassSpellcasting {
    pub ability: String,
    pub spell_list: String,
    pub cantrip_count: usize,
    pub prepared_spell_count: usize,
    pub spell_slots: u8,
    pub slot_recovery: String,
}

#[derive(Debug, PartialEq, Eq)]
pub struct PackEquipmentGrant {
    pub name: Option<String>,
    pub equipment_id: Option<String>,
    pub quantity: u16,
}

#[derive(Debug, PartialEq, Eq)]
pub struct PackEquipment {
    pub id: String,
    pub name: String,
    pub kind: PackEquipmentKind,
}

#[derive(Debug, PartialEq, Eq)]
pub enum PackEquipmentKind {
    Gear,
    Ammunition,
    Shield { armor_class_bonus: i16 },
    Armor {
        category: String,
        base_ac: i16,
        dexterity_cap: Option<i16>,
        strength_requirement: Option<u8>,
    },
    Weapon {
        category: String,
        kind: String,
        properties: Vec<String>,
        mastery: String,
        damage: String,
        damage_type: String,
        normal_range: u16,
        long_range: Option<u16>,
        versatile_damage: Option<String>,
    },
}

#[derive(Debug, PartialEq, Eq)]
pub struct PackSpell {
    pub id: String,
    pub name: String,
    pub level: u8,
    pub school: String,
    pub lists: Vec<String>,
    pub casting_time: String,
    pub range: String,
    pub components: Vec<String>,
    pub material: Option<String>,
    pub concentration: bool,
    pub ritual: bool,
    pub notes: String,
    pub tags: Vec<String>,
}

/// The mathematical content of a [`PackSpecies`].
pub struct PackSpeciesModel {
    pub id: Seq<char>,
    pub name: Seq<char>,
    pub sizes: Seq<Size>,
    pub speed: u8,
    pub darkvision_range: Option<u8>,
    pub traits: Seq<String>,
}

/// The mathematical content of a [`PackBackground`].
pub struct PackBackgroundModel {
    pub id: Seq<char>,
    pub name: Seq<char>,
    pub abilities: Seq<String>,
    pub skills: Seq<String>,
    pub feat: Seq<char>,
    pub tool: Seq<char>,
    pub magic_initiate_list: Option<String>,
    pub equipment: Seq<PackEquipmentGrant>,
    pub equipment_gold: u16,
    pub gold_alternative: u16,
}

/// The mathematical content of a [`PackClassChoice`].
pub struct PackClassChoiceModel {
    pub id: Seq<char>,
    pub label: Seq<char>,
    pub count: usize,
    pub options: Seq<PackClassChoiceOption>,
}

/// The mathematical content of a [`PackClass`].
pub struct PackClassModel {
    pub id: Seq<char>,
    pub name: Seq<char>,
    pub hit_die: u8,
    pub saving_throws: Seq<String>,
    pub skill_count: usize,
    pub skills: Seq<String>,
    pub armor_training: Seq<String>,
    pub weapon_training: Seq<String>,
    pub equipment: Seq<PackEquipmentGrant>,
    pub equipment_gold: u16,
    pub starting_gold: u16,
    pub features: Seq<String>,
    pub weapon_mastery_count: usize,
    pub choices: Seq<PackClassChoiceModel>,
    pub resources: Seq<PackClassResource>,
    pub spellcasting: Option<PackClassSpellcasting>,
}

/// The mathematical content of a [`PackEquipmentKind`].
pub enum PackEquipmentKindModel {
    Gear,
    Ammunition,
    Shield { armor_class_bonus: i16 },
    Armor { category: Seq<char>, base_ac: i16, dexterity_cap: Option<i16>, strength_requirement: Option<u8> },
    Weapon {
        category: Seq<char>,
        kind: Seq<char>,
        properties: Seq<String>,
        mastery: Seq<char>,
        damage: Seq<char>,
        damage_type: Seq<char>,
        normal_range: u16,
        long_range: Option<u16>,
        versatile_damage: Option<String>,
    },
}

/// The mathematical content of a [`PackEquipment`].
pub struct PackEquipmentModel {
    pub id: Seq<char>,
    pub name: Seq<char>,
    pub kind: PackEquipmentKindModel,
}

/// The mathematical content of a [`PackSpell`].
pub struct PackSpellModel {
    pub id: Seq<char>,
    pub name: Seq<char>,
    pub level: u8,
    pub school: Seq<char>,
    pub lists: Seq<String>,
    pub casting_time: Seq<char>,
    pub range: Seq<char>,
    pub components: Seq<String>,
    pub material: Option<String>,
    pub concentration: bool,
    pub ritual: bool,
    pub notes: Seq<char>,
    pub tags: Seq<String>,
}

impl View for PackSpecies {
    type V = PackSpeciesModel;

    open spec fn view(&self) -> PackSpeciesModel {
        PackSpeciesModel {
            id: self.id@,
            name: self.name@,
            sizes: self.sizes@,
            speed: self.speed,
            darkvision_range: self.darkvision_range,
            traits: self.traits@,
        }
    }
}

impl View for PackBackground {
    type V = PackBackgroundModel;

    open spec fn view(&self) -> PackBackgroundModel {
        PackBackgroundModel {
            id: self.id@,
            name: self.name@,
            abilities: self.abilities@,
            skills: self.skills@,
            feat: self.feat@,
            tool: self.tool@,
            magic_initiate_list: self.magic_initiate_list,
            equipment: self.equipment@,
            equipment_gold: self.equipment_gold,
            gold_alternative: self.gold_alternative,
        }
    }
}

impl View for PackClassChoice {
    type V = PackClassChoiceModel;

    open spec fn view(&self) -> PackClassChoiceModel {
        PackClassChoiceModel { id: self.id@, label: self.label@, count: self.count, options: self.options@ }
    }
}

impl View for PackClass {
    type V = PackClassModel;

    open spec fn view(&self) -> PackClassModel {
        PackClassModel {
            id: self.id@,
            name: self.name@,
            hit_die: self.hit_die,
            saving_throws: self.saving_throws@,
            skill_count: self.skill_count,
            skills: self.skills@,
            armor_training: self.armor_training@,
            weapon_training: self.weapon_training@,
            equipment: self.equipment@,
            equipment_gold: self.equipment_gold,
            starting_gold: self.starting_gold,
            features: self.features@,
            weapon_mastery_count: self.weapon_mastery_count,
            choices: self.choices@.map_values(|c: PackClassChoice| c@),
            resources: self.resources@,
            spellcasting: self.spellcasting,
        }
    }
}

impl View for PackEquipmentKind {
    type V = PackEquipmentKindModel;

    open spec fn view(&self) -> PackEquipmentKindModel {
        match self {
            PackEquipmentKind::Gear => PackEquipmentKindModel::Gear,
            PackEquipmentKind::Ammunition => PackEquipmentKindModel::Ammunition,
            PackEquipmentKind::Shield { armor_class_bonus } => PackEquipmentKindModel::Shield {
                armor_class_bonus: *armor_class_bonus,
            },
            PackEquipmentKind::Armor { category, base_ac, dexterity_cap, strength_requirement } =>
                PackEquipmentKindModel::Armor {
                category: category@,
                base_ac: *base_ac,
                dexterity_cap: *dexterity_cap,
                strength_requirement: *strength_requirement,
            },
            PackEquipmentKind::Weapon {
                category,
                kind,
                properties,
                mastery,
                damage,
                damage_type,
                normal_range,
                long_range,
                versatile_damage,
            } => PackEquipmentKindModel::Weapon {
                category: category@,
                kind: kind@,
                properties: properties@,
                mastery: mastery@,
                damage: damage@,
                damage_type: damage_type@,
                normal_range: *normal_range,
                long_range: *long_range,
                versatile_damage: *versatile_damage,
            },
        }
    }
}

impl View for PackEquipment {
    type V = PackEquipmentModel;

    open spec fn view(&self) -> PackEquipmentModel {
        PackEquipmentModel { id: self.id@, name: self.name@, kind: self.kind@ }
    }
}

impl View for PackSpell {
    type V = PackSpellModel;

    open spec fn view(&self) -> PackSpellModel {
        PackSpellModel {
            id: self.id@,
            name: self.name@,
            level: self.level,
            school: self.school@,
            lists: self.lists@,
            casting_time: self.casting_time@,
            range: self.range@,
            components: self.components@,
            material: self.material,
            concentration: self.concentration,
            ritual: self.ritual,
            notes: self.notes@,
            tags: self.tags@,
        }
    }
}

/// The views of a sequence of records.
pub open spec fn views<T: View>(s: Seq<T>) -> Seq<T::V> {
    s.map_values(|x: T| x@)
}

/// The quantity an equipment grant has when it names none.
pub fn default_equipment_quantity() -> (r: u16)
    ensures
        r == 1,
{
    1
}

/// The gold a pack background grants in place of its package when it names none.
pub fn default_background_gold_alternative() -> (r: u16)
    ensures
        r == 50,
{
    50
}

fn clone_sizes(v: &Vec<Size>) -> (r: Vec<Size>)
    ensures
        r@ == v@,
{
    let mut out: Vec<Size> = Vec::new();
    let mut i: usize = 0;
    while i < v.len()
        invariant
            i <= v.len(),
            out@ == v@.subrange(0, i as int),
        decreases v.len() - i,
    {
        out.push(v[i]);
        i = i + 1;
    }
    out
}

fn clone_grants(v: &Vec<PackEquipmentGrant>) -> (r: Vec<PackEquipmentGrant>)
    ensures
        r@ == v@,
{
    let mut out: Vec<PackEquipmentGrant> = Vec::new();
    let mut i: usize = 0;
    while i < v.len()
        invariant
            i <= v.len(),
            out@ == v@.subrange(0, i as int),
        decreases v.len() - i,
    {
        out.push(v[i].clone());
        i = i + 1;
    }
    out
}

fn clone_options(v: &Vec<PackClassChoiceOption>) -> (r: Vec<PackClassChoiceOption>)
    ensures
        r@ == v@,
{
    let mut out: Vec<PackClassChoiceOption> = Vec::new();
    let mut i: usize = 0;
    while i < v.len()
        invariant
            i <= v.len(),
            out@ == v@.subrange(0, i as int),
        decreases v.len() - i,
    {
        out.push(v[i].clone());
        i = i + 1;
    }
    out
}

fn clone_choices(v: &Vec<PackClassChoice>) -> (r: Vec<PackClassChoice>)
    ensures
        views(r@) == views(v@),
{
    let mut out: Vec<PackClassChoice> = Vec::new();
    let mut i: usize = 0;
    while i < v.len()
        invariant
            i <= v.len(),
            out@.len() == i,
            forall|k: int| 0 <= k < i ==> (#[trigger] out@[k])@ == v@[k]@,
        decreases v.len() - i,
    {
        out.push(v[i].clone());
        i = i + 1;
    }
    assert(views(out@) =~= views(v@));
    out
}

fn clone_resources(v: &Vec<PackClassResource>) -> (r: Vec<PackClassResource>)
    ensures
        r@ == v@,
{
    let mut out: Vec<PackClassResource> = Vec::new();
    let mut i: usize = 0;
    while i < v.len()
        invariant
            i <= v.len(),
            out@ == v@.subrange(0, i as int),
        decreases v.len() - i,
    {
        out.push(v[i].clone());
        i = i + 1;
    }
    out
}

/// A copy of a list of pack species.
pub fn clone_pack_species(v: &[PackSpecies]) -> (r: Vec<PackSpecies>)
    ensures
        views(r@) == views(v@),
{
    let mut out: Vec<PackSpecies> = Vec::new();
    let mut i: usize = 0;
    while i < v.len()
        invariant
            i <= v.len(),
            out@.len() == i,
            forall|k: int| 0 <= k < i ==> (#[trigger] out@[k])@ == v@[k]@,
        decreases v.len() - i,
    {
        out.push(v[i].clone());
        i = i + 1;
    }
    assert(views(out@) =~= views(v@));
    out
}

/// A copy of a list of pack equipment.
pub fn clone_pack_equipment(v: &[PackEquipment]) -> (r: Vec<PackEquipment>)
    ensures
        views(r@) == views(v@),
{
    let mut out: Vec<PackEquipment> = Vec::new();
    let mut i: usize = 0;
    while i < v.len()
        invariant
            i <= v.len(),
            out@.len() == i,
            forall|k: int| 0 <= k < i ==> (#[trigger] out@[k])@ == v@[k]@,
        decreases v.len() - i,
    {
        out.push(v[i].clone());
        i = i + 1;
    }
    assert(views(out@) =~= views(v@));
    out
}

/// A copy of a list of pack spells.
pub fn clone_pack_spells(v: &[PackSpell]) -> (r: Vec<PackSpell>)
    ensures
        views(r@) == views(v@),
{
    let mut out: Vec<PackSpell> = Vec::new();
    let mut i: usize = 0;
    while i < v.len()
        invariant
            i <= v.len(),
            out@.len() == i,
            forall|k: int| 0 <= k < i ==> (#[trigger] out@[k])@ == v@[k]@,
        decreases v.len() - i,
    {
        out.push(v[i].clone());
        i = i + 1;
    }
    assert(views(out@) =~= views(v@));
    out
}

impl Clone for PackSpecies {
    fn clone(&self) -> (r: Self)
        ensures
            r@ == self@,
    {
        PackSpecies {
            id: self.id.clone(),
            name: self.name.clone(),
            sizes: clone_sizes(&self.sizes),
            speed: self.speed,
            darkvision_range: self.darkvision_range,
            traits: clone_strings(&self.traits),
        }
    }
}

impl Clone for PackEquipmentGrant {
    fn clone(&self) -> (r: Self)
        ensures
            r == *self,
    {
        PackEquipmentGrant {
            name: clone_opt_string(&self.name),
            equipment_id: clone_opt_string(&self.equipment_id),
            quantity: self.quantity,
        }
    }
}

impl Clone for PackBackground {
    fn clone(&self) -> (r: Self)
        ensures
            r@ == self@,
    {
        PackBackground {
            id: self.id.clone(),
            name: self.name.clone(),
            abilities: clone_strings(&self.abilities),
            skills: clone_strings(&self.skills),
            feat: self.feat.clone(),
            tool: self.tool.clone(),
            magic_initiate_list: clone_opt_string(&self.magic_initiate_list),
            equipment: clone_grants(&self.equipment),
            equipment_gold: self.equipment_gold,
            gold_alternative: self.gold_alternative,
        }
    }
}

impl Clone for PackClassChoiceOption {
    fn clone(&self) -> (r: Self)
        ensures
            r == *self,
    {
        PackClassChoiceOption {
            id: self.id.clone(),
            name: self.name.clone(),
            description: clone_opt_string(&self.description),
        }
    }
}

impl Clone for PackClassChoice {
    fn clone(&self) -> (r: Self)
        ensures
            r@ == self@,
    {
        PackClassChoice {
            id: self.id.clone(),
            label: self.label.clone(),
            count: self.count,
            options: clone_options(&self.options),
        }
    }
}

impl Clone for PackClassResource {
    fn clone(&self) -> (r: Self)
        ensures
            r == *self,
    {
        PackClassResource {
            name: self.name.clone(),
            maximum: self.maximum,
            unit: self.unit.clone(),
            recovery: self.recovery.clone(),
            detail: clone_opt_string(&self.detail),
        }
    }
}

impl Clone for PackClassSpellcasting {
    fn clone(&self) -> (r: Self)
        ensures
            r == *self,
    {
        PackClassSpellcasting {
            ability: self.ability.clone(),
            spell_list: self.spell_list.clone(),
            cantrip_count: self.cantrip_count,
            prepared_spell_count: self.prepared_spell_count,
            spell_slots: self.spell_slots,
            slot_recovery: self.slot_recovery.clone(),
        }
    }
}

impl Clone for PackClass {
    fn clone(&self) -> (r: Self)
        ensures
            r@ == self@,
    {
        PackClass {
            id: self.id.clone(),
            name: self.name.clone(),
            hit_die: self.hit_die,
            saving_throws: clone_strings(&self.saving_throws),
            skill_count: self.skill_count,
            skills: clone_strings(&self.skills),
            armor_training: clone_strings(&self.armor_training),
            weapon_training: clone_strings(&self.weapon_training),
            equipment: clone_grants(&self.equipment),
            equipment_gold: self.equipment_gold,
            starting_gold: self.starting_gold,
            features: clone_strings(&self.features),
            weapon_mastery_count: self.weapon_mastery_count,
            choices: clone_choices(&self.choices),
            resources: clone_resources(&self.resources),
            spellcasting: match &self.spellcasting {
                Some(s) => Some(s.clone()),
                None => None,
            },
        }
    }
}

impl Clone for PackEquipmentKind {
    fn clone(&self) -> (r: Self)
        ensures
            r@ == self@,
    {
        match self {
            PackEquipmentKind::Gear => PackEquipmentKind::Gear,
            PackEquipmentKind::Ammunition => PackEquipmentKind::Ammunition,
            PackEquipmentKind::Shield { armor_class_bonus } => PackEquipmentKind::Shield {
                armor_class_bonus: *armor_class_bonus,
            },
            PackEquipmentKind::Armor { category, base_ac, dexterity_cap, strength_requirement } =>
                PackEquipmentKind::Armor {
                category: category.clone(),
                base_ac: *base_ac,
                dexterity_cap: *dexterity_cap,
                strength_requirement: *strength_requirement,
            },
            PackEquipmentKind::Weapon {
                category,
                kind,
                properties,
                mastery,
                damage,
                damage_type,
                normal_range,
                long_range,
                versatile_damage,
            } => PackEquipmentKind::Weapon {
                category: category.clone(),
                kind: kind.clone(),
                properties: clone_strings(properties),
                mastery: mastery.clone(),
                damage: damage.clone(),
                damage_type: damage_type.clone(),
                normal_range: *normal_range,
                long_range: *long_range,
                versatile_damage: clone_opt_string(versatile_damage),
            },
        }
    }
}

impl Clone for PackEquipment {
    fn clone(&self) -> (r: Self)
        ensures
            r@ == self@,
    {
        PackEquipment { id: self.id.clone(), name: self.name.clone(), kind: self.kind.clone() }
    }
}

impl Clone for PackSpell {
    fn clone(&self) -> (r: Self)
        ensures
            r@ == self@,
    {
        PackSpell {
            id: self.id.clone(),
            name: self.name.clone(),
            level: self.level,
            school: self.school.clone(),
            lists: clone_strings(&self.lists),
            casting_time: self.casting_time.clone(),
            range: self.range.clone(),
            components: clone_strings(&self.components),
            material: clone_opt_string(&self.material),
            concentration: self.concentration,
            ritual: self.ritual,
            notes: self.notes.clone(),
            tags: clone_strings(&self.tags),
        }
    }
}

} // verus!
