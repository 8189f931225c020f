//! The play values a record implies: hit points, armor class, initiative,
//! speed, starting inventory and coins.

use vstd::prelude::*;

use crate::abilities::modifier_of;
use crate::content::{PackEquipment, PackEquipmentGrant, PackEquipmentKind};
use crate::record::{AbilityScores, Character};
use crate::resolve::{first_where, first_where_from};
use crate::srd::{
    background_index, background_index_exec, first_index, BACKGROUND_FEATS, BACKGROUND_NAMES, background_package, background_package_exec, class_index_exec, class_package,
    class_package_exec, find, index_of, species_index_exec, ARMOR_NAMES, BACKGROUND_PACKAGE_GOLD, CLASS_HIT_DICE,
    CLASS_STARTING_GOLD, SPECIES_SPEEDS,
};
use crate::text::{decimal, decimal_exec, opt_view, owned, str_eq};
use crate::wizard::{grant_name, grant_name_exec};

verus! {

/// The base armor class of each SRD armor, in `ARMOR_NAMES` order.
pub const ARMOR_BASE_AC: [i16; 12] = [11, 11, 12, 12, 13, 14, 14, 15, 14, 16, 17, 18];

/// The largest Dexterity modifier each SRD armor admits, in `ARMOR_NAMES`
/// order; light armor admits any, which `10` stands for.
pub const ARMOR_DEX_CAP: [i16; 12] = [10, 10, 10, 2, 2, 2, 2, 2, 0, 0, 0, 0];

/// The armor class bonus of a shield.
pub const SHIELD_BONUS: i16 = 2;

/// Package items as names with quantities.
pub open spec fn item_views(names: Seq<&str>, counts: Seq<u16>) -> Seq<(Seq<char>, u16)> {
    Seq::new(names.len(), |k: int| (names[k]@, counts[k]))
}

/// Inventory entries as names with quantities.
pub open spec fn entry_views(entries: Seq<(String, u16)>) -> Seq<(Seq<char>, u16)> {
    Seq::new(entries.len(), |k: int| (entries[k].0@, entries[k].1))
}

/// The pack item with the given name, if any.
pub open spec fn equipment_named(equipment: Seq<PackEquipment>, name: Seq<char>) -> Option<int> {
    first_where(equipment, |e: PackEquipment| e.name@ == name)
}

/// The inventory entry a grant gives: its name, or that of the pack item it
/// refers to, with its quantity.
pub open spec fn grant_item(g: PackEquipmentGrant, equipment: Seq<PackEquipment>) -> (Seq<char>, u16) {
    (grant_name(g, equipment), g.quantity)
}

/// The inventory entries a list of grants gives.
pub open spec fn grant_items(grants: Seq<PackEquipmentGrant>, equipment: Seq<PackEquipment>) -> Seq<(Seq<char>, u16)> {
    Seq::new(grants.len(), |k: int| grant_item(grants[k], equipment))
}

/// The armor class and Dexterity cap an inventory entry gives when worn as armor.
pub open spec fn armor_of(name: Seq<char>, equipment: Seq<PackEquipment>) -> Option<(int, int)> {
    match index_of(ARMOR_NAMES@, name) {
        Some(a) => Some((ARMOR_BASE_AC@[a] as int, ARMOR_DEX_CAP@[a] as int)),
        None => match equipment_named(equipment, name) {
            Some(k) => match equipment[k].kind {
                PackEquipmentKind::Armor { category, base_ac, dexterity_cap, .. } => Some(
                    (
                        base_ac as int,
                        match dexterity_cap {
                            Some(d) => d as int,
                            None => if category@ == "Heavy"@ {
                                0
                            } else if category@ == "Medium"@ {
                                2
                            } else {
                                10
                            },
                        },
                    ),
                ),
                _ => None,
            },
            None => None,
        },
    }
}

/// The armor class bonus an inventory entry gives when carried as a shield.
pub open spec fn shield_of(name: Seq<char>, equipment: Seq<PackEquipment>) -> Option<int> {
    if name == "Shield"@ {
        Some(SHIELD_BONUS as int)
    } else {
        match equipment_named(equipment, name) {
            Some(k) => match equipment[k].kind {
                PackEquipmentKind::Shield { armor_class_bonus } => Some(armor_class_bonus as int),
                _ => None,
            },
            None => None,
        }
    }
}

/// The armor class and Dexterity cap of the first entry that is armor.
pub open spec fn first_armor(items: Seq<(Seq<char>, u16)>, equipment: Seq<PackEquipment>) -> Option<(int, int)> {
    match first_where(items, |e: (Seq<char>, u16)| armor_of(e.0, equipment) is Some) {
        Some(k) => armor_of(items[k].0, equipment),
        None => None,
    }
}

/// The bonus of the first entry that is a shield.
pub open spec fn first_shield(items: Seq<(Seq<char>, u16)>, equipment: Seq<PackEquipment>) -> Option<int> {
    match first_where(items, |e: (Seq<char>, u16)| shield_of(e.0, equipment) is Some) {
        Some(k) => shield_of(items[k].0, equipment),
        None => None,
    }
}

/// A whole number as text, with a minus sign when negative.
pub open spec fn int_text(n: int) -> Seq<char> {
    if n >= 0 {
        decimal(n as nat)
    } else {
        "-"@ + decimal((-n) as nat)
    }
}

impl Character {
    /// The hit die of the class, or zero when the class is unknown.
    pub open spec fn hit_die_spec(&self) -> int {
        match self.resolved_pack_class {
            Some(p) => p.hit_die as int,
            None => match self.srd_class() {
                Some(i) => CLASS_HIT_DICE@[i] as int,
                None => 0,
            },
        }
    }

    /// Level-1 hit points: the full hit die plus the Constitution modifier, and
    /// one more for a Dwarf's toughness.
    pub open spec fn hit_points_spec(&self) -> int {
        self.hit_die_spec() + modifier_of(self.abilities.constitution as int) + if self.species@ == "Dwarf"@ {
            1int
        } else {
            0int
        }
    }

    /// Walking speed in feet, or zero when the species is unknown.
    pub open spec fn speed_spec(&self) -> int {
        match self.resolved_pack_species {
            Some(s) => s.speed as int,
            None => match self.srd_species() {
                Some(i) => SPECIES_SPEEDS@[i] as int,
                None => 0,
            },
        }
    }

    /// Whether an Origin feat of the character is Alert.
    pub open spec fn has_alert(&self) -> bool {
        self.background_feat_spec() == Some("Alert"@) || opt_view(self.human_origin_feat) == Some("Alert"@)
    }

    /// Initiative: the Dexterity modifier, plus the level-1 proficiency bonus with Alert.
    pub open spec fn initiative_spec(&self) -> int {
        modifier_of(self.abilities.dexterity as int) + if self.has_alert() {
            2int
        } else {
            0int
        }
    }

    /// The items of the class's starting package, when it was taken.
    pub open spec fn class_items(&self) -> Seq<(Seq<char>, u16)> {
        match self.resolved_pack_class {
            Some(p) => if self.class_equipment_option@ == "A"@ {
                grant_items(p.equipment@, self.resolved_pack_equipment@)
            } else {
                seq![]
            },
            None => match self.srd_class() {
                Some(i) => match class_package(i, self.class_equipment_option@) {
                    Some(pk) => item_views(pk.0, pk.1),
                    None => seq![],
                },
                None => seq![],
            },
        }
    }

    /// The items of the background's starting package, when it was taken.
    pub open spec fn background_items(&self) -> Seq<(Seq<char>, u16)> {
        if self.background_equipment_option@ != "A"@ {
            seq![]
        } else {
            match self.resolved_pack_background {
                Some(b) => grant_items(b.equipment@, self.resolved_pack_equipment@),
                None => match self.srd_background() {
                    Some(i) => item_views(background_package(i).0, background_package(i).1),
                    None => seq![],
                },
            }
        }
    }

    /// The starting inventory: the class package, then the background package.
    pub open spec fn inventory_spec(&self) -> Seq<(Seq<char>, u16)> {
        self.class_items() + self.background_items()
    }

    /// Starting gold from the class: the package's gold, or the gold taken instead.
    pub open spec fn class_gold(&self) -> int {
        match self.resolved_pack_class {
            Some(p) => if self.class_equipment_option@ == "A"@ {
                p.equipment_gold as int
            } else {
                p.starting_gold as int
            },
            None => match self.srd_class() {
                Some(i) => if self.class_equipment_option@ == "Gold"@ {
                    CLASS_STARTING_GOLD@[i] as int
                } else {
                    match class_package(i, self.class_equipment_option@) {
                        Some(pk) => pk.2 as int,
                        None => 0,
                    }
                },
                None => 0,
            },
        }
    }

    /// Starting gold from the background: the package's gold, or the gold taken instead.
    pub open spec fn background_gold(&self) -> int {
        match self.resolved_pack_background {
            Some(b) => if self.background_equipment_option@ == "A"@ {
                b.equipment_gold as int
            } else {
                b.gold_alternative as int
            },
            None => match self.srd_background() {
                Some(i) => if self.background_equipment_option@ == "A"@ {
                    BACKGROUND_PACKAGE_GOLD@[i] as int
                } else {
                    50
                },
                None => 0,
            },
        }
    }

    /// Starting gold pieces.
    pub open spec fn gold_spec(&self) -> int {
        self.class_gold() + self.background_gold()
    }

    /// The first inventory entry worn as armor, with its armor class and Dexterity cap.
    pub open spec fn worn_armor(&self) -> Option<(int, int)> {
        first_armor(self.inventory_spec(), self.resolved_pack_equipment@)
    }

    /// The bonus of the first inventory entry carried as a shield.
    pub open spec fn carried_shield(&self) -> Option<int> {
        first_shield(self.inventory_spec(), self.resolved_pack_equipment@)
    }

    /// Armor class: worn armor with the Dexterity modifier up to its cap, or the
    /// class's unarmored defense, plus a carried shield.
    pub open spec fn armor_class_spec(&self) -> int {
        let dex = modifier_of(self.abilities.dexterity as int);
        let body = match self.worn_armor() {
            Some((base, cap)) => base + if dex < cap {
                dex
            } else {
                cap
            },
            None => if self.character_class@ == "Barbarian"@ && self.resolved_pack_class is None {
                10 + dex + modifier_of(self.abilities.constitution as int)
            } else if self.character_class@ == "Monk"@ && self.resolved_pack_class is None
                && self.carried_shield() is None {
                10 + dex + modifier_of(self.abilities.wisdom as int)
            } else {
                10 + dex
            },
        };
        body + match self.carried_shield() {
            Some(b) => b,
            None => 0,
        }
    }
}


fn push_package(out: &mut Vec<(String, u16)>, names: &[&str], counts: &[u16])
    requires
        names@.len() == counts@.len(),
    ensures
        entry_views(final(out)@) == entry_views(old(out)@) + item_views(names@, counts@),
{
    let ghost start = out@;
    let mut i: usize = 0;
    while i < names.len()
        invariant
            i <= names@.len(),
            names@.len() == counts@.len(),
            entry_views(out@) == entry_views(start) + item_views(names@.subrange(0, i as int), counts@.subrange(0, i as int)),
        decreases names.len() - i,
    {
        let ghost before = out@;
        out.push((owned(names[i]), counts[i]));
        assert(entry_views(out@) =~= entry_views(before).push((names@[i as int]@, counts@[i as int])));
        assert(item_views(names@.subrange(0, i as int + 1), counts@.subrange(0, i as int + 1)) =~= item_views(
            names@.subrange(0, i as int),
            counts@.subrange(0, i as int),
        ).push((names@[i as int]@, counts@[i as int])));
        i = i + 1;
    }
    assert(names@.subrange(0, names@.len() as int) =~= names@);
    assert(counts@.subrange(0, counts@.len() as int) =~= counts@);
}

fn push_grants(out: &mut Vec<(String, u16)>, grants: &[PackEquipmentGrant], equipment: &[PackEquipment])
    ensures
        entry_views(final(out)@) == entry_views(old(out)@) + grant_items(grants@, equipment@),
{
    let ghost start = out@;
    let mut i: usize = 0;
    while i < grants.len()
        invariant
            i <= grants@.len(),
            entry_views(out@) == entry_views(start) + grant_items(grants@.subrange(0, i as int), equipment@),
        decreases grants.len() - i,
    {
        let ghost before = out@;
        let name = grant_name_exec(&grants[i], equipment);
        out.push((name, grants[i].quantity));
        assert(entry_views(out@) =~= entry_views(before).push(grant_item(grants@[i as int], equipment@)));
        assert(grant_items(grants@.subrange(0, i as int + 1), equipment@) =~= grant_items(
            grants@.subrange(0, i as int),
            equipment@,
        ).push(grant_item(grants@[i as int], equipment@)));
        i = i + 1;
    }
    assert(grants@.subrange(0, grants@.len() as int) =~= grants@);
}

impl Character {
    /// The starting inventory: the class package, then the background package.
    pub fn inventory(&self) -> (r: Vec<(String, u16)>)
        ensures
            entry_views(r@) == self.inventory_spec(),
    {
        let mut out: Vec<(String, u16)> = Vec::new();
        assert(entry_views(out@) =~= seq![]);
        match &self.resolved_pack_class {
            Some(p) => {
                if str_eq(self.class_equipment_option.as_str(), "A") {
                    push_grants(&mut out, p.equipment.as_slice(), self.resolved_pack_equipment.as_slice());
                }
            },
            None => match class_index_exec(self.character_class.as_str()) {
                Some(i) => {
                    proof {
                        crate::wizard::lemma_package_counts(i as int, self.class_equipment_option@);
                    }
                    match class_package_exec(i, self.class_equipment_option.as_str()) {
                        Some(pk) => push_package(&mut out, pk.0, pk.1),
                        None => {},
                    }
                },
                None => {},
            },
        }
        assert(entry_views(out@) =~= self.class_items());
        if str_eq(self.background_equipment_option.as_str(), "A") {
            match &self.resolved_pack_background {
                Some(b) => push_grants(&mut out, b.equipment.as_slice(), self.resolved_pack_equipment.as_slice()),
                None => match background_index_exec(self.background.as_str()) {
                    Some(i) => {
                        proof {
                            crate::wizard::lemma_background_package_shape(i as int);
                        }
                        let pk = background_package_exec(i);
                        push_package(&mut out, pk.0, pk.1);
                    },
                    None => {},
                },
            }
        }
        assert(entry_views(out@) =~= self.class_items() + self.background_items());
        out
    }
}


/// A whole number as text, with a minus sign when negative.
pub fn int_text_exec(n: i32) -> (r: String)
    ensures
        r@ == int_text(n as int),
{
    if n >= 0 {
        decimal_exec(n as u64)
    } else {
        let magnitude: u64 = (-(n as i64)) as u64;
        let mut out = owned("-");
        out.append(decimal_exec(magnitude).as_str());
        out
    }
}

fn find_equipment_named(equipment: &[PackEquipment], name: &str) -> (r: Option<usize>)
    ensures
        match r {
            Some(k) => equipment_named(equipment@, name@) == Some(k as int) && k < equipment@.len(),
            None => equipment_named(equipment@, name@) is None,
        },
{
    let ghost p = |e: PackEquipment| e.name@ == name@;
    let mut k: usize = 0;
    while k < equipment.len()
        invariant
            k <= equipment@.len(),
            p == (|e: PackEquipment| e.name@ == name@),
            first_where(equipment@, p) == first_where_from(equipment@, p, k as int),
        decreases equipment.len() - k,
    {
        if str_eq(equipment[k].name.as_str(), name) {
            return Some(k);
        }
        k = k + 1;
    }
    None
}

/// The armor class and Dexterity cap of an inventory entry worn as armor.
pub fn armor_of_exec(name: &str, equipment: &[PackEquipment]) -> (r: Option<(i16, i16)>)
    ensures
        match r {
            Some((base, cap)) => armor_of(name@, equipment@) == Some((base as int, cap as int)),
            None => armor_of(name@, equipment@) is None,
        },
{
    match find(ARMOR_NAMES.as_slice(), name) {
        Some(a) => Some((ARMOR_BASE_AC[a], ARMOR_DEX_CAP[a])),
        None => match find_equipment_named(equipment, name) {
            Some(k) => match &equipment[k].kind {
                PackEquipmentKind::Armor { category, base_ac, dexterity_cap, .. } => {
                    let cap: i16 = match dexterity_cap {
                        Some(d) => *d,
                        None => if str_eq(category.as_str(), "Heavy") {
                            0
                        } else if str_eq(category.as_str(), "Medium") {
                            2
                        } else {
                            10
                        },
                    };
                    Some((*base_ac, cap))
                },
                _ => None,
            },
            None => None,
        },
    }
}

/// The armor class bonus of an inventory entry carried as a shield.
pub fn shield_of_exec(name: &str, equipment: &[PackEquipment]) -> (r: Option<i16>)
    ensures
        match r {
            Some(b) => shield_of(name@, equipment@) == Some(b as int),
            None => shield_of(name@, equipment@) is None,
        },
{
    if str_eq(name, "Shield") {
        Some(SHIELD_BONUS)
    } else {
        match find_equipment_named(equipment, name) {
            Some(k) => match &equipment[k].kind {
                PackEquipmentKind::Shield { armor_class_bonus } => Some(*armor_class_bonus),
                _ => None,
            },
            None => None,
        }
    }
}

impl Character {
    /// The hit die of the class, or zero when the class is unknown.
    fn hit_die(&self) -> (r: u8)
        ensures
            r as int == self.hit_die_spec(),
    {
        match &self.resolved_pack_class {
            Some(p) => p.hit_die,
            None => match class_index_exec(self.character_class.as_str()) {
                Some(i) => CLASS_HIT_DICE[i],
                None => 0,
            },
        }
    }

    /// Level-1 hit points.
    pub fn hit_points(&self) -> (r: i16)
        ensures
            r as int == self.hit_points_spec(),
    {
        let toughness: i16 = if str_eq(self.species.as_str(), "Dwarf") {
            1
        } else {
            0
        };
        self.hit_die() as i16 + AbilityScores::modifier_for(self.abilities.constitution) as i16 + toughness
    }

    /// Walking speed in feet.
    pub fn speed(&self) -> (r: u8)
        ensures
            r as int == self.speed_spec(),
    {
        match &self.resolved_pack_species {
            Some(s) => s.speed,
            None => match species_index_exec(self.species.as_str()) {
                Some(i) => SPECIES_SPEEDS[i],
                None => 0,
            },
        }
    }

    /// Initiative modifier.
    pub fn initiative_modifier(&self) -> (r: i8)
        ensures
            r as int == self.initiative_spec(),
    {
        let alert_feat = match self.background_feat() {
            Some(f) => str_eq(f.as_str(), "Alert"),
            None => false,
        };
        let alert = alert_feat || match &self.human_origin_feat {
            Some(f) => str_eq(f.as_str(), "Alert"),
            None => false,
        };
        let dex = AbilityScores::modifier_for(self.abilities.dexterity);
        if alert {
            dex + 2
        } else {
            dex
        }
    }

    /// Starting gold pieces.
    pub fn gold(&self) -> (r: u32)
        ensures
            r as int == self.gold_spec(),
    {
        let class_gold: u16 = match &self.resolved_pack_class {
            Some(p) => if str_eq(self.class_equipment_option.as_str(), "A") {
                p.equipment_gold
            } else {
                p.starting_gold
            },
            None => match class_index_exec(self.character_class.as_str()) {
                Some(i) => if str_eq(self.class_equipment_option.as_str(), "Gold") {
                    CLASS_STARTING_GOLD[i]
                } else {
                    match class_package_exec(i, self.class_equipment_option.as_str()) {
                        Some(pk) => pk.2,
                        None => 0,
                    }
                },
                None => 0,
            },
        };
        let background_gold: u16 = match &self.resolved_pack_background {
            Some(b) => if str_eq(self.background_equipment_option.as_str(), "A") {
                b.equipment_gold
            } else {
                b.gold_alternative
            },
            None => match background_index_exec(self.background.as_str()) {
                Some(i) => if str_eq(self.background_equipment_option.as_str(), "A") {
                    BACKGROUND_PACKAGE_GOLD[i]
                } else {
                    50
                },
                None => 0,
            },
        };
        class_gold as u32 + background_gold as u32
    }
}



fn first_armor_exec(items: &Vec<(String, u16)>, equipment: &[PackEquipment]) -> (r: Option<(i16, i16)>)
    ensures
        match r {
            Some((base, cap)) => first_armor(entry_views(items@), equipment@) == Some((base as int, cap as int)),
            None => first_armor(entry_views(items@), equipment@) is None,
        },
{
    let ghost inv = entry_views(items@);
    let ghost p = |e: (Seq<char>, u16)| armor_of(e.0, equipment@) is Some;
    let mut i: usize = 0;
    while i < items.len()
        invariant
            i <= items@.len(),
            inv == entry_views(items@),
            p == (|e: (Seq<char>, u16)| armor_of(e.0, equipment@) is Some),
            first_where(inv, p) == first_where_from(inv, p, i as int),
        decreases items.len() - i,
    {
        assert(inv[i as int] == (items@[i as int].0@, items@[i as int].1));
        let found = armor_of_exec(items[i].0.as_str(), equipment);
        if found.is_some() {
            return found;
        }
        i = i + 1;
    }
    None
}

fn first_shield_exec(items: &Vec<(String, u16)>, equipment: &[PackEquipment]) -> (r: Option<i16>)
    ensures
        match r {
            Some(b) => first_shield(entry_views(items@), equipment@) == Some(b as int),
            None => first_shield(entry_views(items@), equipment@) is None,
        },
{
    let ghost inv = entry_views(items@);
    let ghost p = |e: (Seq<char>, u16)| shield_of(e.0, equipment@) is Some;
    let mut i: usize = 0;
    while i < items.len()
        invariant
            i <= items@.len(),
            inv == entry_views(items@),
            p == (|e: (Seq<char>, u16)| shield_of(e.0, equipment@) is Some),
            first_where(inv, p) == first_where_from(inv, p, i as int),
        decreases items.len() - i,
    {
        assert(inv[i as int] == (items@[i as int].0@, items@[i as int].1));
        let found = shield_of_exec(items[i].0.as_str(), equipment);
        if found.is_some() {
            return found;
        }
        i = i + 1;
    }
    None
}

impl Character {
    /// Armor class: worn armor with the Dexterity modifier up to its cap, or the
    /// class's unarmored defense, plus a carried shield.
    pub fn armor_class(&self) -> (r: i32)
        ensures
            r as int == self.armor_class_spec(),
    {
        let items = self.inventory();
        let armor = first_armor_exec(&items, self.resolved_pack_equipment.as_slice());
        let shield = first_shield_exec(&items, self.resolved_pack_equipment.as_slice());
        let dex = AbilityScores::modifier_for(self.abilities.dexterity) as i32;
        let body: i32 = match armor {
            Some((base, cap)) => base as i32 + if dex < cap as i32 {
                dex
            } else {
                cap as i32
            },
            None => if self.resolved_pack_class.is_none() && str_eq(self.character_class.as_str(), "Barbarian") {
                10 + dex + AbilityScores::modifier_for(self.abilities.constitution) as i32
            } else if self.resolved_pack_class.is_none() && str_eq(self.character_class.as_str(), "Monk")
                && shield.is_none() {
                10 + dex + AbilityScores::modifier_for(self.abilities.wisdom) as i32
            } else {
                10 + dex
            },
        };
        let bonus: i32 = match shield {
            Some(b) => b as i32,
            None => 0,
        };
        body + bonus
    }
}

/// Initiative is the Dexterity modifier, and an Alert Origin feat, from the
/// background or the Human's choice, adds the level-1 Proficiency Bonus of 2.
pub proof fn lemma_alert_adds_proficiency_to_initiative(c: Character)
    ensures
        c.background_feat_spec() == Some("Alert"@) || opt_view(c.human_origin_feat) == Some("Alert"@)
            ==> c.initiative_spec() == (c.abilities.dexterity as int - 10) / 2 + 2,
        !(c.background_feat_spec() == Some("Alert"@) || opt_view(c.human_origin_feat) == Some("Alert"@))
            ==> c.initiative_spec() == (c.abilities.dexterity as int - 10) / 2,
{
}

/// The Criminal background grants Alert, so a Criminal who took no Human
/// Origin feat rolls initiative at the Dexterity modifier plus 2.
pub proof fn lemma_criminal_initiative(c: Character)
    requires
        c.background@ == "Criminal"@,
        c.human_origin_feat is None,
    ensures
        c.initiative_spec() == (c.abilities.dexterity as int - 10) / 2 + 2,
{
    reveal_strlit("Acolyte");
    reveal_strlit("Criminal");
    reveal_strlit("Alert");
    assert(BACKGROUND_NAMES@[0]@ == "Acolyte"@);
    assert(BACKGROUND_NAMES@[1]@ == "Criminal"@);
    assert("Acolyte"@[0] != "Criminal"@[0]);
    assert(first_index(BACKGROUND_NAMES@, c.background@, 1) == Some(1int));
    assert(background_index(c.background@) == Some(1int));
    assert(BACKGROUND_FEATS@[1]@ == "Alert"@);
}

/// Level-1 hit points are the class's full hit die plus the Constitution
/// modifier, and one more for a Dwarf.
pub proof fn lemma_level_one_hit_points(c: Character)
    ensures
        c.resolved_pack_class matches Some(p) ==> c.hit_points_spec() == p.hit_die as int + (c.abilities.constitution
            as int - 10) / 2 + if c.species@ == "Dwarf"@ {
            1int
        } else {
            0int
        },
        c.resolved_pack_class is None && c.srd_class() is Some ==> c.hit_points_spec() == CLASS_HIT_DICE@[c.srd_class()->0]
            as int + (c.abilities.constitution as int - 10) / 2 + if c.species@ == "Dwarf"@ {
            1int
        } else {
            0int
        },
{
}

/// Every SRD species walks 30 feet, but a Goliath walks 35; a pack species
/// walks as its record says.
pub proof fn lemma_walking_speed(c: Character)
    ensures
        c.resolved_pack_species matches Some(sp) ==> c.speed_spec() == sp.speed as int,
        c.resolved_pack_species is None && c.srd_species() is Some ==> c.speed_spec() == if c.species@ == "Goliath"@ {
            35int
        } else {
            30int
        },
{
    if c.resolved_pack_species is None && c.srd_species() is Some {
        let i = c.srd_species()->0;
        crate::srd::lemma_index_of(crate::srd::SPECIES_NAMES@, c.species@);
        reveal_strlit("Dragonborn");
        reveal_strlit("Dwarf");
        reveal_strlit("Elf");
        reveal_strlit("Gnome");
        reveal_strlit("Goliath");
        reveal_strlit("Halfling");
        reveal_strlit("Human");
        reveal_strlit("Orc");
        reveal_strlit("Tiefling");
        assert(crate::srd::SPECIES_NAMES@[i]@ == c.species@);
        if i == 4 {
            assert(c.species@ == "Goliath"@);
        } else if i == 0 {
            assert(c.species@[0] != "Goliath"@[0]);
        } else if i == 1 {
            assert(c.species@[0] != "Goliath"@[0]);
        } else if i == 2 {
            assert(c.species@[0] != "Goliath"@[0]);
        } else if i == 3 {
            assert(c.species@[1] != "Goliath"@[1]);
        } else if i == 5 {
            assert(c.species@[0] != "Goliath"@[0]);
        } else if i == 6 {
            assert(c.species@[0] != "Goliath"@[0]);
        } else if i == 7 {
            assert(c.species@[0] != "Goliath"@[0]);
        } else {
            assert(c.species@[0] != "Goliath"@[0]);
        }
    }
}

/// Armor class: worn armor gives its base plus the Dexterity modifier up to
/// the armor's cap; without armor it is 10 plus the Dexterity modifier, with
/// the Barbarian's Constitution modifier or, without a shield, the Monk's
/// Wisdom modifier added; a carried shield adds its bonus in every case.
pub proof fn lemma_armor_class(c: Character)
    ensures
        ({
            let dex = (c.abilities.dexterity as int - 10) / 2;
            let shield = match c.carried_shield() {
                Some(b) => b,
                None => 0,
            };
            match c.worn_armor() {
                Some((base, cap)) => c.armor_class_spec() == base + (if dex < cap { dex } else { cap }) + shield,
                None => if c.resolved_pack_class is None && c.character_class@ == "Barbarian"@ {
                    c.armor_class_spec() == 10 + dex + (c.abilities.constitution as int - 10) / 2 + shield
                } else if c.resolved_pack_class is None && c.character_class@ == "Monk"@ && c.carried_shield() is None {
                    c.armor_class_spec() == 10 + dex + (c.abilities.wisdom as int - 10) / 2
                } else {
                    c.armor_class_spec() == 10 + dex + shield
                },
            }
        }),
{
}

/// Starting gold: the class's package gold, or its gold in place of the
/// package, plus the background's package gold or 50 in place of the SRD
/// background's package.
pub proof fn lemma_starting_gold(c: Character)
    ensures
        c.gold_spec() == c.class_gold() + c.background_gold(),
        c.resolved_pack_class is None && c.srd_class() is Some && c.class_equipment_option@ == "Gold"@
            ==> c.class_gold() == CLASS_STARTING_GOLD@[c.srd_class()->0] as int,
        c.resolved_pack_background is None && c.srd_background() is Some && c.background_equipment_option@ != "A"@
            ==> c.background_gold() == 50,
        c.resolved_pack_class matches Some(p) ==> c.class_gold() == if c.class_equipment_option@ == "A"@ {
            p.equipment_gold as int
        } else {
            p.starting_gold as int
        },
        c.resolved_pack_background matches Some(b) ==> c.background_gold() == if c.background_equipment_option@
            == "A"@ {
            b.equipment_gold as int
        } else {
            b.gold_alternative as int
        },
{
}

/// Taking gold in place of both packages leaves the starting inventory empty;
/// otherwise it lists the class package before the background package.
pub proof fn lemma_gold_instead_of_packages(c: Character)
    ensures
        c.class_equipment_option@ == "Gold"@ && c.background_equipment_option@ == "Gold"@ ==> c.inventory_spec().len() == 0,
{
    reveal_strlit("Gold");
    reveal_strlit("A");
    reveal_strlit("B");
    if c.class_equipment_option@ == "Gold"@ && c.background_equipment_option@ == "Gold"@ {
        assert("Gold"@.len() != "A"@.len());
        assert("Gold"@.len() != "B"@.len());
    }
}

} // verus!
