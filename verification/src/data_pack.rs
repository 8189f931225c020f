//! Versioned external campaign-data packs: manifest and content validation.
//!
//! Reading the pack directory is left to the caller; every rule that decides
//! whether a manifest or a content record is acceptable stands here.

use vstd::prelude::*;

use crate::content::{
    PackBackground, PackClass, PackClassChoice, PackClassChoiceOption, PackClassResource, PackClassSpellcasting,
    PackEquipment, PackEquipmentGrant, PackEquipmentKind, PackSpecies, PackSpell,
};
use crate::srd::{
    index_of, is_magic_initiate_list, is_skill, is_skill_exec, is_tool, is_tool_exec, is_magic_initiate_list_exec,
    is_srd_armor, list_cantrips, list_cantrips_exec, list_level_one, list_level_one_exec, spell_list_index,
    spell_list_index_exec, weapon_index, weapon_index_exec, ABILITIES, BACKGROUND_NAMES, CLASS_NAMES, ORIGIN_FEATS,
    SPECIES_NAMES, SPELLCASTING_ABILITIES, ARMOR_NAMES, SPELL_LISTS, WEAPON_NAMES,
};
use crate::text::{
    decimal, decimal_exec, digit_char, distinct_strings, eq_ignore_case, eq_ignore_case_exec, in_list, in_strings, is_blank,
    is_blank_exec, join2, join3, list_contains, name_key, name_key_exec, str_eq, strings_contain, strings_distinct,
};

verus! {

/// The file name of a pack manifest inside the pack directory.
pub const MANIFEST_FILE: &'static str = "data-pack.json";

/// The only supported manifest format.
pub const FORMAT_VERSION: u8 = 1;

/// A family of pack content, in the order the manifest's files are checked.
#[derive(Debug, Clone, Copy, PartialEq, Eq, Structural)]
pub enum ContentFamily {
    Species,
    Backgrounds,
    Equipment,
    Spells,
    Classes,
}

impl ContentFamily {
    /// The family's name in manifests and messages.
    pub open spec fn label_spec(self) -> Seq<char> {
        match self {
            ContentFamily::Species => "species"@,
            ContentFamily::Backgrounds => "backgrounds"@,
            ContentFamily::Equipment => "equipment"@,
            ContentFamily::Spells => "spells"@,
            ContentFamily::Classes => "classes"@,
        }
    }

    /// The family's name in manifests and messages.
    pub fn label(self) -> (r: &'static str)
        ensures
            r@ == self.label_spec(),
    {
        match self {
            ContentFamily::Species => "species",
            ContentFamily::Backgrounds => "backgrounds",
            ContentFamily::Equipment => "equipment",
            ContentFamily::Spells => "spells",
            ContentFamily::Classes => "classes",
        }
    }
}

/// A pack manifest with the content it declares.
///
/// `files` lists each declared family once, in family order, with the
/// relative path of its JSON array.
#[derive(Debug)]
pub struct DataPackManifest {
    pub format_version: u8,
    pub id: String,
    pub version: u32,
    pub name: String,
    pub files: Vec<(ContentFamily, String)>,
    pub species: Vec<PackSpecies>,
    pub backgrounds: Vec<PackBackground>,
    pub equipment: Vec<PackEquipment>,
    pub spells: Vec<PackSpell>,
    pub classes: Vec<PackClass>,
}

/// A lowercase ASCII letter, an ASCII digit or a hyphen.
pub open spec fn identifier_char(c: char) -> bool {
    ('a' <= c && c <= 'z') || ('0' <= c && c <= '9') || c == '-'
}

/// A non-empty run of lowercase letters, digits and hyphens.
pub open spec fn is_identifier(value: Seq<char>) -> bool {
    value.len() > 0 && forall|i: int| 0 <= i < value.len() ==> identifier_char(#[trigger] value[i])
}

/// Whether `value` is a pack identifier.
pub fn is_identifier_exec(value: &str) -> (r: bool)
    ensures
        r == is_identifier(value@),
{
    let chars = crate::text::chars_of(value);
    if chars.len() == 0 {
        return false;
    }
    let mut i: usize = 0;
    while i < chars.len()
        invariant
            i <= chars.len(),
            chars@ == value@,
            forall|j: int| 0 <= j < i ==> identifier_char(#[trigger] value@[j]),
        decreases chars.len() - i,
    {
        let c = chars[i];
        if !(('a' <= c && c <= 'z') || ('0' <= c && c <= '9') || c == '-') {
            return false;
        }
        i = i + 1;
    }
    true
}

/// A `..` path component starts at index `i`.
pub open spec fn parent_component_at(path: Seq<char>, i: int) -> bool {
    &&& 0 <= i && i + 1 < path.len()
    &&& (i == 0 || path[i - 1] == '/')
    &&& path[i] == '.' && path[i + 1] == '.'
    &&& (i + 2 == path.len() || path[i + 2] == '/')
}

/// A path whose components are all ordinary names: it is not absolute, does
/// not begin with a `.` component, and has no `..` component. Empty components
/// and `.` components after the first are ignored, as path parsing drops them.
pub open spec fn is_safe_relative_path(path: Seq<char>) -> bool {
    &&& !(path.len() > 0 && path[0] == '/')
    &&& !(path.len() > 0 && path[0] == '.' && (path.len() == 1 || path[1] == '/'))
    &&& forall|i: int| !#[trigger] parent_component_at(path, i)
}

/// Whether `path` stays inside the directory it is relative to.
pub fn is_safe_relative_path_exec(path: &str) -> (r: bool)
    ensures
        r == is_safe_relative_path(path@),
{
    let chars = crate::text::chars_of(path);
    let n = chars.len();
    if n > 0 && chars[0] == '/' {
        return false;
    }
    if n > 0 && chars[0] == '.' && (n == 1 || chars[1] == '/') {
        return false;
    }
    let mut i: usize = 0;
    while i < n
        invariant
            n == chars.len(),
            chars@ == path@,
            i <= n,
            forall|j: int| 0 <= j < i ==> !#[trigger] parent_component_at(path@, j),
        decreases n - i,
    {
        if i + 1 < n && (i == 0 || chars[i - 1] == '/') && chars[i] == '.' && chars[i + 1] == '.' && (i + 2 == n
            || chars[i + 2] == '/') {
            assert(parent_component_at(path@, i as int));
            return false;
        }
        i = i + 1;
    }
    assert forall|j: int| !#[trigger] parent_component_at(path@, j) by {
        if 0 <= j && j < n {
        }
    }
    true
}

/// An ASCII decimal digit.
pub open spec fn is_digit(c: char) -> bool {
    '0' <= c && c <= '9'
}

/// The value of a run of decimal digits.
pub open spec fn digits_value(s: Seq<char>) -> nat
    decreases s.len(),
{
    if s.len() == 0 {
        0
    } else {
        10 * digits_value(s.drop_last()) + ((s.last() as u32) - 48) as nat
    }
}

/// The value of `s` read as an unsigned decimal, as integer parsing reads it:
/// an optional leading `+`, then one or more digits. Leading zeros are allowed.
pub open spec fn unsigned_value(s: Seq<char>) -> Option<nat> {
    if all_digits(unsigned_digits(s)) {
        Some(digits_value(unsigned_digits(s)))
    } else {
        None
    }
}

/// `s` without one leading `+`.
pub open spec fn unsigned_digits(s: Seq<char>) -> Seq<char> {
    if s.len() > 0 && s[0] == '+' {
        s.drop_first()
    } else {
        s
    }
}

/// A non-empty run of decimal digits.
pub open spec fn all_digits(t: Seq<char>) -> bool {
    t.len() > 0 && forall|i: int| 0 <= i < t.len() ==> is_digit(#[trigger] t[i])
}

/// Cap for the exec computation of digit values; above every range checked here.
pub const VALUE_CAP: u32 = 100000;

/// The characters of `v` from `from` up to `to`.
fn sub_chars(v: &Vec<char>, from: usize, to: usize) -> (r: Vec<char>)
    requires
        from <= to <= v.len(),
    ensures
        r@ == v@.subrange(from as int, to as int),
{
    let mut r: Vec<char> = Vec::new();
    let mut i = from;
    while i < to
        invariant
            from <= i <= to <= v.len(),
            r@ == v@.subrange(from as int, i as int),
        decreases to - i,
    {
        r.push(v[i]);
        i = i + 1;
    }
    r
}

/// The value of `s` as an unsigned decimal, saturated at `VALUE_CAP`.
pub fn unsigned_value_exec(s: &Vec<char>) -> (r: Option<u32>)
    ensures
        match unsigned_value(s@) {
            Some(v) => r == Some(if v < VALUE_CAP as nat { v as u32 } else { VALUE_CAP }),
            None => r is None,
        },
{
    let start: usize = if s.len() > 0 && s[0] == '+' { 1 } else { 0 };
    let ghost digits = unsigned_digits(s@);
    assert(digits =~= s@.subrange(start as int, s@.len() as int));
    if start >= s.len() {
        return None;
    }
    let mut value: u32 = 0;
    let mut i: usize = start;
    while i < s.len()
        invariant
            start <= i <= s.len(),
            digits == s@.subrange(start as int, s@.len() as int),
            digits == unsigned_digits(s@),
            forall|j: int| start <= j < i ==> is_digit(#[trigger] s@[j]),
            value == if digits_value(s@.subrange(start as int, i as int)) < VALUE_CAP as nat {
                digits_value(s@.subrange(start as int, i as int)) as u32
            } else {
                VALUE_CAP
            },
        decreases s.len() - i,
    {
        let c = s[i];
        if !('0' <= c && c <= '9') {
            assert(!is_digit(digits[i - start]));
            return None;
        }
        let d: u32 = (c as u32) - 48;
        let ghost before = s@.subrange(start as int, i as int);
        let ghost after = s@.subrange(start as int, i as int + 1);
        assert(after.drop_last() =~= before);
        assert(after.last() == c);
        assert(digits_value(after) == 10 * digits_value(before) + d);
        if value >= VALUE_CAP / 10 {
            value = VALUE_CAP;
        } else {
            let next = value * 10 + d;
            value = if next < VALUE_CAP { next } else { VALUE_CAP };
        }
        i = i + 1;
    }
    assert(s@.subrange(start as int, s@.len() as int) =~= digits);
    assert forall|j: int| 0 <= j < digits.len() implies is_digit(#[trigger] digits[j]) by {
        assert(digits[j] == s@[start + j]);
    }
    Some(value)
}

/// Damage dice written `<count>d<sides>`, split at the first `d`, with one
/// to ten dice of two to a hundred sides.
pub open spec fn valid_damage_dice(value: Seq<char>) -> bool {
    exists|k: int|
        0 <= k < value.len() && value[k] == 'd' && (forall|j: int| 0 <= j < k ==> value[j] != 'd') && match (
            unsigned_value(#[trigger] value.subrange(0, k)),
            unsigned_value(value.subrange(k + 1, value.len() as int)),
        ) {
            (Some(count), Some(sides)) => 1 <= count <= 10 && 2 <= sides <= 100,
            _ => false,
        }
}

/// Whether `value` is valid damage dice.
pub fn valid_damage_dice_exec(value: &str) -> (r: bool)
    ensures
        r == valid_damage_dice(value@),
{
    let chars = crate::text::chars_of(value);
    let mut k: usize = 0;
    while k < chars.len() && chars[k] != 'd'
        invariant
            k <= chars.len(),
            chars@ == value@,
            forall|j: int| 0 <= j < k ==> chars@[j] != 'd',
        decreases chars.len() - k,
    {
        k = k + 1;
    }
    if k == chars.len() {
        assert forall|m: int| 0 <= m < value@.len() && value@[m] == 'd' implies !(forall|j: int| 0 <= j < m ==> value@[j] != 'd') by {
        }
        return false;
    }
    let count = unsigned_value_exec(&sub_chars(&chars, 0, k));
    let sides = unsigned_value_exec(&sub_chars(&chars, k + 1, chars.len()));
    proof {
        assert(chars@.subrange(0, k as int) =~= value@.subrange(0, k as int));
    }
    let ok = match (count, sides) {
        (Some(c), Some(s)) => 1 <= c && c <= 10 && 2 <= s && s <= 100,
        _ => false,
    };
    proof {
        assert forall|m: int|
            0 <= m < value@.len() && value@[m] == 'd' && (forall|j: int| 0 <= j < m ==> value@[j] != 'd') implies m
                == k by {
            if m < k {
            } else if m > k {
                assert(value@[k as int] == 'd');
            }
        }
        if ok {
            assert(value@[k as int] == 'd');
        }
    }
    ok
}


/// `id` or `name` equals one of `names`, ignoring ASCII case.
pub open spec fn srd_name_conflict(names: Seq<&str>, id: Seq<char>, name: Seq<char>) -> bool {
    exists|k: int| 0 <= k < names.len() && (eq_ignore_case(#[trigger] names[k]@, id) || eq_ignore_case(names[k]@, name))
}

/// Whether `id` or `name` equals one of `names`, ignoring ASCII case.
fn srd_name_conflict_exec(names: &[&str], id: &str, name: &str) -> (r: bool)
    ensures
        r == srd_name_conflict(names@, id@, name@),
{
    let mut k: usize = 0;
    while k < names.len()
        invariant
            k <= names.len(),
            forall|j: int| 0 <= j < k ==> !(eq_ignore_case(#[trigger] names@[j]@, id@) || eq_ignore_case(names@[j]@, name@)),
        decreases names.len() - k,
    {
        if eq_ignore_case_exec(names[k], id) || eq_ignore_case_exec(names[k], name) {
            return true;
        }
        k = k + 1;
    }
    false
}

/// Some entry of `items` is blank.
pub open spec fn any_blank(items: Seq<String>) -> bool {
    exists|i: int| 0 <= i < items.len() && is_blank(#[trigger] items[i]@)
}

/// Whether some entry of `items` is blank.
fn any_blank_exec(items: &Vec<String>) -> (r: bool)
    ensures
        r == any_blank(items@),
{
    let mut i: usize = 0;
    while i < items.len()
        invariant
            i <= items.len(),
            forall|j: int| 0 <= j < i ==> !is_blank(#[trigger] items@[j]@),
        decreases items.len() - i,
    {
        if is_blank_exec(items[i].as_str()) {
            return true;
        }
        i = i + 1;
    }
    false
}

/// An earlier pack species has the same ID as the one at `i`.
pub open spec fn species_id_taken(species: Seq<PackSpecies>, i: int) -> bool {
    exists|j: int| 0 <= j < i && #[trigger] species[j].id@ == species[i].id@
}

/// What is wrong with the pack species at `i`, given the ones before it.
pub open spec fn species_issue(species: Seq<PackSpecies>, i: int) -> Option<Seq<char>> {
    let rule = species[i];
    if !is_identifier(rule.id@) {
        Some("invalid pack species id: "@ + rule.id@)
    } else if species_id_taken(species, i) {
        Some("duplicate pack species id: "@ + rule.id@)
    } else if srd_name_conflict(SPECIES_NAMES@, rule.id@, rule.name@) {
        Some("pack species conflicts with SRD species: "@ + rule.id@)
    } else if is_blank(rule.name@) || rule.sizes@.len() == 0 || !(5 <= rule.speed <= 120) {
        Some("invalid basic mechanics for pack species: "@ + rule.id@)
    } else if any_blank(rule.traits@) {
        Some("pack species traits must not be empty: "@ + rule.id@)
    } else {
        None
    }
}

/// The first issue among the first `n` pack species.
pub open spec fn species_first_issue(species: Seq<PackSpecies>, n: int) -> Option<Seq<char>>
    decreases n,
{
    if n <= 0 {
        None
    } else {
        match species_first_issue(species, n - 1) {
            Some(e) => Some(e),
            None => species_issue(species, n - 1),
        }
    }
}

proof fn lemma_species_first_issue_stable(species: Seq<PackSpecies>, n: int, m: int)
    requires
        0 <= n <= m,
        species_first_issue(species, n) is Some,
    ensures
        species_first_issue(species, m) == species_first_issue(species, n),
    decreases m - n,
{
    if n < m {
        lemma_species_first_issue_stable(species, n, m - 1);
    }
}

/// Check pack species records in order and report the first issue.
pub fn validate_species(species: &[PackSpecies]) -> (r: Result<(), String>)
    ensures
        match species_first_issue(species@, species@.len() as int) {
            None => r is Ok,
            Some(message) => match r {
                Err(e) => e@ == message,
                Ok(_) => false,
            },
        },
{
    let mut i: usize = 0;
    while i < species.len()
        invariant
            i <= species.len(),
            species_first_issue(species@, i as int) is None,
        decreases species.len() - i,
    {
        let rule = &species[i];
        let message: Option<String> = if !is_identifier_exec(rule.id.as_str()) {
            Some(join2("invalid pack species id: ", rule.id.as_str()))
        } else if species_id_taken_exec(species, i) {
            Some(join2("duplicate pack species id: ", rule.id.as_str()))
        } else if srd_name_conflict_exec(&SPECIES_NAMES, rule.id.as_str(), rule.name.as_str()) {
            Some(join2("pack species conflicts with SRD species: ", rule.id.as_str()))
        } else if is_blank_exec(rule.name.as_str()) || rule.sizes.len() == 0 || !(5 <= rule.speed && rule.speed <= 120) {
            Some(join2("invalid basic mechanics for pack species: ", rule.id.as_str()))
        } else if any_blank_exec(&rule.traits) {
            Some(join2("pack species traits must not be empty: ", rule.id.as_str()))
        } else {
            None
        };
        match message {
            Some(e) => {
                proof {
                    lemma_species_first_issue_stable(species@, i + 1, species@.len() as int);
                }
                return Err(e);
            },
            None => {},
        }
        i = i + 1;
    }
    Ok(())
}

fn species_id_taken_exec(species: &[PackSpecies], i: usize) -> (r: bool)
    requires
        i < species@.len(),
    ensures
        r == species_id_taken(species@, i as int),
{
    let mut j: usize = 0;
    while j < i
        invariant
            i < species@.len(),
            j <= i,
            forall|k: int| 0 <= k < j ==> #[trigger] species@[k].id@ != species@[i as int].id@,
        decreases i - j,
    {
        if str_eq(species[j].id.as_str(), species[i].id.as_str()) {
            return true;
        }
        j = j + 1;
    }
    false
}


/// Weapon properties a pack weapon may list.
pub const WEAPON_PROPERTY_NAMES: [&'static str; 11] = [
    "Ammunition",
    "Finesse",
    "Heavy",
    "Light",
    "Loading",
    "Reach",
    "Thrown",
    "Two-Handed",
    "Versatile",
    "Improvised",
    "Special",
];

/// Weapon masteries a pack weapon may use.
pub const WEAPON_MASTERY_NAMES: [&'static str; 8] = ["Cleave", "Graze", "Nick", "Push", "Sap", "Slow", "Topple", "Vex"];

/// Damage types a pack weapon may deal.
pub const DAMAGE_TYPES: [&'static str; 13] = [
    "Acid",
    "Bludgeoning",
    "Cold",
    "Fire",
    "Force",
    "Lightning",
    "Necrotic",
    "Piercing",
    "Poison",
    "Psychic",
    "Radiant",
    "Slashing",
    "Thunder",
];

pub const WEAPON_CATEGORIES: [&'static str; 2] = ["Simple", "Martial"];

pub const WEAPON_KINDS: [&'static str; 2] = ["Melee", "Ranged"];

pub const ARMOR_CATEGORIES: [&'static str; 3] = ["Light", "Medium", "Heavy"];

/// The mechanics of a pack weapon are coherent.
pub open spec fn weapon_mechanics_ok(
    category: Seq<char>,
    kind: Seq<char>,
    properties: Seq<String>,
    mastery: Seq<char>,
    damage: Seq<char>,
    damage_type: Seq<char>,
    normal_range: u16,
    long_range: Option<u16>,
    versatile_damage: Option<Seq<char>>,
) -> bool {
    &&& in_list(WEAPON_CATEGORIES@, category)
    &&& in_list(WEAPON_KINDS@, kind)
    &&& distinct_strings(properties)
    &&& crate::text::all_listed(properties, WEAPON_PROPERTY_NAMES@)
    &&& in_list(WEAPON_MASTERY_NAMES@, mastery)
    &&& valid_damage_dice(damage)
    &&& in_list(DAMAGE_TYPES@, damage_type)
    &&& normal_range > 0
    &&& match long_range {
        Some(long) => long >= normal_range,
        None => true,
    }
    &&& in_strings(properties, "Versatile"@) == versatile_damage is Some
    &&& match versatile_damage {
        Some(v) => valid_damage_dice(v),
        None => true,
    }
}

/// Check the mechanics of a pack weapon.
pub fn validate_pack_weapon(
    item: &PackEquipment,
    category: &str,
    kind: &str,
    properties: &Vec<String>,
    mastery: &str,
    damage: &str,
    damage_type: &str,
    normal_range: u16,
    long_range: Option<u16>,
    versatile_damage: Option<&str>,
) -> (r: Result<(), String>)
    ensures
        match r {
            Ok(_) => weapon_mechanics_ok(
                category@,
                kind@,
                properties@,
                mastery@,
                damage@,
                damage_type@,
                normal_range,
                long_range,
                match versatile_damage {
                    Some(v) => Some(v@),
                    None => None,
                },
            ),
            Err(e) => !weapon_mechanics_ok(
                category@,
                kind@,
                properties@,
                mastery@,
                damage@,
                damage_type@,
                normal_range,
                long_range,
                match versatile_damage {
                    Some(v) => Some(v@),
                    None => None,
                },
            ) && e@ == "invalid pack weapon mechanics: "@ + item.id@,
        },
{
    let valid = list_contains(WEAPON_CATEGORIES.as_slice(), category) && list_contains(WEAPON_KINDS.as_slice(), kind)
        && strings_distinct(properties) && crate::text::all_listed_exec(properties, WEAPON_PROPERTY_NAMES.as_slice())
        && list_contains(WEAPON_MASTERY_NAMES.as_slice(), mastery) && valid_damage_dice_exec(damage)
        && list_contains(DAMAGE_TYPES.as_slice(), damage_type) && normal_range > 0 && match long_range {
        Some(long) => long >= normal_range,
        None => true,
    } && strings_contain(properties, "Versatile") == versatile_damage.is_some() && match versatile_damage {
        Some(v) => valid_damage_dice_exec(v),
        None => true,
    };
    proof {
        reveal_strlit("Versatile");
    }
    if valid {
        Ok(())
    } else {
        Err(join2("invalid pack weapon mechanics: ", item.id.as_str()))
    }
}

/// The pack-specific mechanics of an item are coherent, or the message saying they are not.
pub open spec fn equipment_kind_issue(item: PackEquipment) -> Option<Seq<char>> {
    match item.kind {
        PackEquipmentKind::Gear | PackEquipmentKind::Ammunition => None,
        PackEquipmentKind::Shield { armor_class_bonus } => if 1 <= armor_class_bonus <= 10 {
            None
        } else {
            Some("invalid pack shield AC bonus: "@ + item.id@)
        },
        PackEquipmentKind::Armor { category, base_ac, dexterity_cap, strength_requirement } => if in_list(
            ARMOR_CATEGORIES@,
            category@,
        ) && 10 <= base_ac <= 25 && match dexterity_cap {
            Some(cap) => 0 <= cap <= 10,
            None => true,
        } && match strength_requirement {
            Some(score) => 3 <= score <= 20,
            None => true,
        } {
            None
        } else {
            Some("invalid pack armor mechanics: "@ + item.id@)
        },
        PackEquipmentKind::Weapon {
            category,
            kind,
            properties,
            mastery,
            damage,
            damage_type,
            normal_range,
            long_range,
            versatile_damage,
        } => if weapon_mechanics_ok(
            category@,
            kind@,
            properties@,
            mastery@,
            damage@,
            damage_type@,
            normal_range,
            long_range,
            match versatile_damage {
                Some(v) => Some(v@),
                None => None,
            },
        ) {
            None
        } else {
            Some("invalid pack weapon mechanics: "@ + item.id@)
        },
    }
}

/// An earlier item has the same ID as the one at `i`.
pub open spec fn equipment_id_taken(items: Seq<PackEquipment>, i: int) -> bool {
    exists|j: int| 0 <= j < i && #[trigger] items[j].id@ == items[i].id@
}

/// An earlier item has the same normalized name as the one at `i`.
pub open spec fn equipment_name_taken(items: Seq<PackEquipment>, i: int) -> bool {
    exists|j: int| 0 <= j < i && name_key(#[trigger] items[j].name@) == name_key(items[i].name@)
}

/// `name` is an SRD weapon, an SRD armor or a shield.
pub open spec fn srd_equipment_name(name: Seq<char>) -> bool {
    weapon_index(name) is Some || is_srd_armor(name) || eq_ignore_case(name, "Shield"@)
}

/// `id` names, ignoring ASCII case, an SRD weapon, an SRD armor or a shield.
pub open spec fn srd_equipment_id(id: Seq<char>) -> bool {
    srd_name_conflict(WEAPON_NAMES@, id, id) || srd_name_conflict(ARMOR_NAMES@, id, id) || eq_ignore_case(id, "Shield"@)
}

/// What is wrong with the pack item at `i`, given the ones before it.
pub open spec fn equipment_issue(items: Seq<PackEquipment>, i: int) -> Option<Seq<char>> {
    let item = items[i];
    if !is_identifier(item.id@) || equipment_id_taken(items, i) {
        Some("invalid or duplicate pack equipment id: "@ + item.id@)
    } else if is_blank(item.name@) || equipment_name_taken(items, i) {
        Some("invalid or duplicate pack equipment name: "@ + item.name@)
    } else if srd_equipment_name(item.name@) || srd_equipment_id(item.id@) {
        Some("pack equipment conflicts with SRD equipment: "@ + item.id@)
    } else {
        equipment_kind_issue(item)
    }
}

/// The first issue among the first `n` pack items.
pub open spec fn equipment_first_issue(items: Seq<PackEquipment>, n: int) -> Option<Seq<char>>
    decreases n,
{
    if n <= 0 {
        None
    } else {
        match equipment_first_issue(items, n - 1) {
            Some(e) => Some(e),
            None => equipment_issue(items, n - 1),
        }
    }
}

proof fn lemma_equipment_first_issue_stable(items: Seq<PackEquipment>, n: int, m: int)
    requires
        0 <= n <= m,
        equipment_first_issue(items, n) is Some,
    ensures
        equipment_first_issue(items, m) == equipment_first_issue(items, n),
    decreases m - n,
{
    if n < m {
        lemma_equipment_first_issue_stable(items, n, m - 1);
    }
}

fn equipment_id_taken_exec(items: &[PackEquipment], i: usize) -> (r: bool)
    requires
        i < items@.len(),
    ensures
        r == equipment_id_taken(items@, i as int),
{
    let mut j: usize = 0;
    while j < i
        invariant
            i < items@.len(),
            j <= i,
            forall|k: int| 0 <= k < j ==> #[trigger] items@[k].id@ != items@[i as int].id@,
        decreases i - j,
    {
        if str_eq(items[j].id.as_str(), items[i].id.as_str()) {
            return true;
        }
        j = j + 1;
    }
    false
}

fn equipment_name_taken_exec(items: &[PackEquipment], i: usize) -> (r: bool)
    requires
        i < items@.len(),
    ensures
        r == equipment_name_taken(items@, i as int),
{
    let key = name_key_exec(items[i].name.as_str());
    let mut j: usize = 0;
    while j < i
        invariant
            i < items@.len(),
            j <= i,
            key@ == name_key(items@[i as int].name@),
            forall|k: int| 0 <= k < j ==> name_key(#[trigger] items@[k].name@) != name_key(items@[i as int].name@),
        decreases i - j,
    {
        let other = name_key_exec(items[j].name.as_str());
        if other == key {
            return true;
        }
        j = j + 1;
    }
    false
}

/// Check pack equipment records in order and report the first issue.
pub fn validate_equipment(equipment: &[PackEquipment]) -> (r: Result<(), String>)
    ensures
        match equipment_first_issue(equipment@, equipment@.len() as int) {
            None => r is Ok,
            Some(message) => match r {
                Err(e) => e@ == message,
                Ok(_) => false,
            },
        },
{
    let mut i: usize = 0;
    while i < equipment.len()
        invariant
            i <= equipment.len(),
            equipment_first_issue(equipment@, i as int) is None,
        decreases equipment.len() - i,
    {
        let item = &equipment[i];
        let message: Option<String> = if !is_identifier_exec(item.id.as_str()) || equipment_id_taken_exec(equipment, i) {
            Some(join2("invalid or duplicate pack equipment id: ", item.id.as_str()))
        } else if is_blank_exec(item.name.as_str()) || equipment_name_taken_exec(equipment, i) {
            Some(join2("invalid or duplicate pack equipment name: ", item.name.as_str()))
        } else if weapon_index_exec(item.name.as_str()).is_some() || list_contains(ARMOR_NAMES.as_slice(), item.name.as_str())
            || eq_ignore_case_exec(item.name.as_str(), "Shield") || srd_name_conflict_exec(
            WEAPON_NAMES.as_slice(),
            item.id.as_str(),
            item.id.as_str(),
        ) || srd_name_conflict_exec(ARMOR_NAMES.as_slice(), item.id.as_str(), item.id.as_str()) || eq_ignore_case_exec(
            item.id.as_str(),
            "Shield",
        ) {
            Some(join2("pack equipment conflicts with SRD equipment: ", item.id.as_str()))
        } else {
            match &item.kind {
                PackEquipmentKind::Gear | PackEquipmentKind::Ammunition => None,
                PackEquipmentKind::Shield { armor_class_bonus } => if 1 <= *armor_class_bonus && *armor_class_bonus
                    <= 10 {
                    None
                } else {
                    Some(join2("invalid pack shield AC bonus: ", item.id.as_str()))
                },
                PackEquipmentKind::Armor { category, base_ac, dexterity_cap, strength_requirement } => {
                    let ok = list_contains(ARMOR_CATEGORIES.as_slice(), category.as_str()) && 10 <= *base_ac && *base_ac
                        <= 25 && match dexterity_cap {
                        Some(cap) => 0 <= *cap && *cap <= 10,
                        None => true,
                    } && match strength_requirement {
                        Some(score) => 3 <= *score && *score <= 20,
                        None => true,
                    };
                    if ok {
                        None
                    } else {
                        Some(join2("invalid pack armor mechanics: ", item.id.as_str()))
                    }
                },
                PackEquipmentKind::Weapon {
                    category,
                    kind,
                    properties,
                    mastery,
                    damage,
                    damage_type,
                    normal_range,
                    long_range,
                    versatile_damage,
                } => {
                    let versatile: Option<&str> = match versatile_damage {
                        Some(v) => Some(v.as_str()),
                        None => None,
                    };
                    match validate_pack_weapon(
                        item,
                        category.as_str(),
                        kind.as_str(),
                        properties,
                        mastery.as_str(),
                        damage.as_str(),
                        damage_type.as_str(),
                        *normal_range,
                        *long_range,
                        versatile,
                    ) {
                        Ok(_) => None,
                        Err(e) => Some(e),
                    }
                },
            }
        };
        proof {
            reveal_strlit("Shield");
        }
        match message {
            Some(e) => {
                proof {
                    lemma_equipment_first_issue_stable(equipment@, i + 1, equipment@.len() as int);
                }
                return Err(e);
            },
            None => {},
        }
        i = i + 1;
    }
    Ok(())
}


/// Schools a pack spell may belong to.
pub const SPELL_SCHOOLS: [&'static str; 8] = [
    "Abjuration",
    "Conjuration",
    "Divination",
    "Enchantment",
    "Evocation",
    "Illusion",
    "Necromancy",
    "Transmutation",
];

/// Components a pack spell may list.
pub const SPELL_COMPONENTS: [&'static str; 3] = ["V", "S", "M"];

/// `name` equals, ignoring ASCII case, a cantrip or level-1 spell of the SRD list at `l`.
pub open spec fn list_has_spell_name(l: int, name: Seq<char>) -> bool {
    any_eq_ignore_case(list_cantrips(l), name) || any_eq_ignore_case(list_level_one(l), name)
}

/// `name` equals, ignoring ASCII case, a cantrip or level-1 spell of an SRD list.
pub open spec fn srd_spell_conflict(name: Seq<char>) -> bool {
    exists|l: int| 0 <= l < SPELL_LISTS@.len() && #[trigger] list_has_spell_name(l, name)
}

/// Some entry of `list` equals `name`, ignoring ASCII case.
pub open spec fn any_eq_ignore_case(list: Seq<&str>, name: Seq<char>) -> bool {
    exists|k: int| 0 <= k < list.len() && eq_ignore_case(#[trigger] list[k]@, name)
}

fn any_eq_ignore_case_exec(list: &[&str], name: &str) -> (r: bool)
    ensures
        r == any_eq_ignore_case(list@, name@),
{
    let mut k: usize = 0;
    while k < list.len()
        invariant
            k <= list.len(),
            forall|j: int| 0 <= j < k ==> !eq_ignore_case(#[trigger] list@[j]@, name@),
        decreases list.len() - k,
    {
        if eq_ignore_case_exec(list[k], name) {
            return true;
        }
        k = k + 1;
    }
    false
}

fn srd_spell_conflict_exec(name: &str) -> (r: bool)
    ensures
        r == srd_spell_conflict(name@),
{
    let mut l: usize = 0;
    while l < SPELL_LISTS.len()
        invariant
            l <= SPELL_LISTS@.len(),
            forall|m: int| 0 <= m < l ==> !#[trigger] list_has_spell_name(m, name@),
        decreases SPELL_LISTS.len() - l,
    {
        if any_eq_ignore_case_exec(list_cantrips_exec(l), name) || any_eq_ignore_case_exec(list_level_one_exec(l), name) {
            assert(list_has_spell_name(l as int, name@));
            return true;
        }
        l = l + 1;
    }
    false
}

/// The mechanics of a pack spell are coherent.
pub open spec fn spell_mechanics_ok(spell: PackSpell) -> bool {
    &&& spell.level <= 1
    &&& in_list(SPELL_SCHOOLS@, spell.school@)
    &&& spell.lists@.len() > 0
    &&& distinct_strings(spell.lists@)
    &&& crate::text::all_listed(spell.lists@, SPELL_LISTS@)
    &&& !is_blank(spell.casting_time@)
    &&& !is_blank(spell.range@)
    &&& !is_blank(spell.notes@)
    &&& spell.components@.len() > 0
    &&& distinct_strings(spell.components@)
    &&& crate::text::all_listed(spell.components@, SPELL_COMPONENTS@)
    &&& in_strings(spell.components@, "M"@) == spell.material is Some
    &&& match spell.material {
        Some(m) => !is_blank(m@),
        None => true,
    }
    &&& (!spell.ritual || spell.level == 1)
    &&& distinct_strings(spell.tags@)
    &&& !any_blank(spell.tags@)
}

/// An earlier spell has the same ID as the one at `i`.
pub open spec fn spell_id_taken(spells: Seq<PackSpell>, i: int) -> bool {
    exists|j: int| 0 <= j < i && #[trigger] spells[j].id@ == spells[i].id@
}

/// An earlier spell has the same normalized name as the one at `i`.
pub open spec fn spell_name_taken(spells: Seq<PackSpell>, i: int) -> bool {
    exists|j: int| 0 <= j < i && name_key(#[trigger] spells[j].name@) == name_key(spells[i].name@)
}

/// What is wrong with the pack spell at `i`, given the ones before it.
pub open spec fn spell_issue(spells: Seq<PackSpell>, i: int) -> Option<Seq<char>> {
    let spell = spells[i];
    if !is_identifier(spell.id@) || spell_id_taken(spells, i) {
        Some("invalid or duplicate pack spell id: "@ + spell.id@)
    } else if is_blank(spell.name@) || spell_name_taken(spells, i) {
        Some("invalid or duplicate pack spell name: "@ + spell.name@)
    } else if srd_spell_conflict(spell.name@) {
        Some("pack spell conflicts with SRD spell: "@ + spell.id@)
    } else if !spell_mechanics_ok(spell) {
        Some("invalid pack spell mechanics: "@ + spell.id@)
    } else {
        None
    }
}

/// The first issue among the first `n` pack spells.
pub open spec fn spell_first_issue(spells: Seq<PackSpell>, n: int) -> Option<Seq<char>>
    decreases n,
{
    if n <= 0 {
        None
    } else {
        match spell_first_issue(spells, n - 1) {
            Some(e) => Some(e),
            None => spell_issue(spells, n - 1),
        }
    }
}

proof fn lemma_spell_first_issue_stable(spells: Seq<PackSpell>, n: int, m: int)
    requires
        0 <= n <= m,
        spell_first_issue(spells, n) is Some,
    ensures
        spell_first_issue(spells, m) == spell_first_issue(spells, n),
    decreases m - n,
{
    if n < m {
        lemma_spell_first_issue_stable(spells, n, m - 1);
    }
}

fn spell_id_taken_exec(spells: &[PackSpell], i: usize) -> (r: bool)
    requires
        i < spells@.len(),
    ensures
        r == spell_id_taken(spells@, i as int),
{
    let mut j: usize = 0;
    while j < i
        invariant
            i < spells@.len(),
            j <= i,
            forall|k: int| 0 <= k < j ==> #[trigger] spells@[k].id@ != spells@[i as int].id@,
        decreases i - j,
    {
        if str_eq(spells[j].id.as_str(), spells[i].id.as_str()) {
            return true;
        }
        j = j + 1;
    }
    false
}

fn spell_name_taken_exec(spells: &[PackSpell], i: usize) -> (r: bool)
    requires
        i < spells@.len(),
    ensures
        r == spell_name_taken(spells@, i as int),
{
    let key = name_key_exec(spells[i].name.as_str());
    let mut j: usize = 0;
    while j < i
        invariant
            i < spells@.len(),
            j <= i,
            key@ == name_key(spells@[i as int].name@),
            forall|k: int| 0 <= k < j ==> name_key(#[trigger] spells@[k].name@) != name_key(spells@[i as int].name@),
        decreases i - j,
    {
        let other = name_key_exec(spells[j].name.as_str());
        if other == key {
            return true;
        }
        j = j + 1;
    }
    false
}

fn spell_mechanics_ok_exec(spell: &PackSpell) -> (r: bool)
    ensures
        r == spell_mechanics_ok(*spell),
{
    proof {
        reveal_strlit("M");
    }
    spell.level <= 1 && list_contains(SPELL_SCHOOLS.as_slice(), spell.school.as_str()) && spell.lists.len() > 0
        && strings_distinct(&spell.lists) && crate::text::all_listed_exec(&spell.lists, SPELL_LISTS.as_slice())
        && !is_blank_exec(spell.casting_time.as_str()) && !is_blank_exec(spell.range.as_str()) && !is_blank_exec(
        spell.notes.as_str(),
    ) && spell.components.len() > 0 && strings_distinct(&spell.components) && crate::text::all_listed_exec(
        &spell.components,
        SPELL_COMPONENTS.as_slice(),
    ) && strings_contain(&spell.components, "M") == spell.material.is_some() && match &spell.material {
        Some(m) => !is_blank_exec(m.as_str()),
        None => true,
    } && (!spell.ritual || spell.level == 1) && strings_distinct(&spell.tags) && !any_blank_exec(&spell.tags)
}

/// Check pack spell records in order and report the first issue.
pub fn validate_spells(spells: &[PackSpell]) -> (r: Result<(), String>)
    ensures
        match spell_first_issue(spells@, spells@.len() as int) {
            None => r is Ok,
            Some(message) => match r {
                Err(e) => e@ == message,
                Ok(_) => false,
            },
        },
{
    let mut i: usize = 0;
    while i < spells.len()
        invariant
            i <= spells.len(),
            spell_first_issue(spells@, i as int) is None,
        decreases spells.len() - i,
    {
        let spell = &spells[i];
        let message: Option<String> = if !is_identifier_exec(spell.id.as_str()) || spell_id_taken_exec(spells, i) {
            Some(join2("invalid or duplicate pack spell id: ", spell.id.as_str()))
        } else if is_blank_exec(spell.name.as_str()) || spell_name_taken_exec(spells, i) {
            Some(join2("invalid or duplicate pack spell name: ", spell.name.as_str()))
        } else if srd_spell_conflict_exec(spell.name.as_str()) {
            Some(join2("pack spell conflicts with SRD spell: ", spell.id.as_str()))
        } else if !spell_mechanics_ok_exec(spell) {
            Some(join2("invalid pack spell mechanics: ", spell.id.as_str()))
        } else {
            None
        };
        match message {
            Some(e) => {
                proof {
                    lemma_spell_first_issue_stable(spells@, i + 1, spells@.len() as int);
                }
                return Err(e);
            },
            None => {},
        }
        i = i + 1;
    }
    Ok(())
}


/// What is wrong with one equipment grant of a pack background.
pub open spec fn grant_issue(rule: PackBackground, g: int, equipment: Seq<PackEquipment>) -> Option<Seq<char>> {
    let grant = rule.equipment@[g];
    if grant.quantity == 0 || (grant.name is Some) == (grant.equipment_id is Some) || match grant.name {
        Some(n) => is_blank(n@),
        None => false,
    } {
        Some("pack background "@ + rule.id@
            + " equipment grants must define exactly one non-empty name or equipment_id"@)
    } else {
        match grant.equipment_id {
            Some(id) => if crate::resolve::equipment_has_id(equipment, id@) {
                None
            } else {
                Some("pack background "@ + rule.id@ + " references unknown pack equipment: "@ + id@)
            },
            None => None,
        }
    }
}

/// The first issue among the first `n` grants of a pack background.
pub open spec fn grants_first_issue(rule: PackBackground, equipment: Seq<PackEquipment>, n: int) -> Option<Seq<char>>
    decreases n,
{
    if n <= 0 {
        None
    } else {
        match grants_first_issue(rule, equipment, n - 1) {
            Some(e) => Some(e),
            None => grant_issue(rule, n - 1, equipment),
        }
    }
}

proof fn lemma_grants_first_issue_stable(rule: PackBackground, equipment: Seq<PackEquipment>, n: int, m: int)
    requires
        0 <= n <= m,
        grants_first_issue(rule, equipment, n) is Some,
    ensures
        grants_first_issue(rule, equipment, m) == grants_first_issue(rule, equipment, n),
    decreases m - n,
{
    if n < m {
        lemma_grants_first_issue_stable(rule, equipment, n, m - 1);
    }
}

/// An earlier background has the same ID as the one at `i`.
pub open spec fn background_id_taken(backgrounds: Seq<PackBackground>, i: int) -> bool {
    exists|j: int| 0 <= j < i && #[trigger] backgrounds[j].id@ == backgrounds[i].id@
}

/// An earlier background has the same normalized name as the one at `i`.
pub open spec fn background_name_taken(backgrounds: Seq<PackBackground>, i: int) -> bool {
    exists|j: int| 0 <= j < i && name_key(#[trigger] backgrounds[j].name@) == name_key(backgrounds[i].name@)
}

/// The background's magic list is present exactly for Magic Initiate, and valid.
pub open spec fn background_magic_list_ok(rule: PackBackground) -> bool {
    &&& (rule.feat@ == "Magic Initiate"@) == rule.magic_initiate_list is Some
    &&& match rule.magic_initiate_list {
        Some(list) => is_magic_initiate_list(list@),
        None => true,
    }
}

/// The background grants three different abilities.
pub open spec fn background_abilities_ok(rule: PackBackground) -> bool {
    rule.abilities@.len() == 3 && distinct_strings(rule.abilities@) && crate::text::all_listed(rule.abilities@, ABILITIES@)
}

/// Every entry of `items` is an SRD skill.
pub open spec fn all_skills(items: Seq<String>) -> bool {
    forall|i: int| 0 <= i < items.len() ==> is_skill(#[trigger] items[i]@)
}

fn all_skills_exec(items: &Vec<String>) -> (r: bool)
    ensures
        r == all_skills(items@),
{
    let mut i: usize = 0;
    while i < items.len()
        invariant
            i <= items.len(),
            forall|j: int| 0 <= j < i ==> is_skill(#[trigger] items@[j]@),
        decreases items.len() - i,
    {
        if !is_skill_exec(items[i].as_str()) {
            return false;
        }
        i = i + 1;
    }
    true
}

/// The background grants two different SRD skills.
pub open spec fn background_skills_ok(rule: PackBackground) -> bool {
    rule.skills@.len() == 2 && distinct_strings(rule.skills@) && all_skills(rule.skills@)
}

/// What is wrong with the pack background at `i`, given the ones before it.
pub open spec fn background_issue(backgrounds: Seq<PackBackground>, equipment: Seq<PackEquipment>, i: int) -> Option<
    Seq<char>,
> {
    let rule = backgrounds[i];
    if !is_identifier(rule.id@) {
        Some("invalid pack background id: "@ + rule.id@)
    } else if background_id_taken(backgrounds, i) {
        Some("duplicate pack background id: "@ + rule.id@)
    } else if is_blank(rule.name@) || background_name_taken(backgrounds, i) {
        Some("invalid or duplicate pack background name: "@ + rule.name@)
    } else if srd_name_conflict(BACKGROUND_NAMES@, rule.id@, rule.name@) {
        Some("pack background conflicts with SRD background: "@ + rule.id@)
    } else if !background_abilities_ok(rule) {
        Some("pack background "@ + rule.id@ + " must grant three different abilities"@)
    } else if !background_skills_ok(rule) {
        Some("pack background "@ + rule.id@ + " must grant two different SRD skills"@)
    } else if !in_list(ORIGIN_FEATS@, rule.feat@) {
        Some("invalid pack background Origin feat: "@ + rule.feat@)
    } else if !is_tool(rule.tool@) {
        Some("invalid pack background tool: "@ + rule.tool@)
    } else if !background_magic_list_ok(rule) {
        Some("pack background "@ + rule.id@
            + " must define a valid magic_initiate_list exactly when its feat is Magic Initiate"@)
    } else if rule.equipment@.len() == 0 {
        Some("pack background "@ + rule.id@ + " must grant non-empty starting equipment"@)
    } else {
        grants_first_issue(rule, equipment, rule.equipment@.len() as int)
    }
}

/// The first issue among the first `n` pack backgrounds.
pub open spec fn background_first_issue(backgrounds: Seq<PackBackground>, equipment: Seq<PackEquipment>, n: int) -> Option<
    Seq<char>,
>
    decreases n,
{
    if n <= 0 {
        None
    } else {
        match background_first_issue(backgrounds, equipment, n - 1) {
            Some(e) => Some(e),
            None => background_issue(backgrounds, equipment, n - 1),
        }
    }
}

proof fn lemma_background_first_issue_stable(
    backgrounds: Seq<PackBackground>,
    equipment: Seq<PackEquipment>,
    n: int,
    m: int,
)
    requires
        0 <= n <= m,
        background_first_issue(backgrounds, equipment, n) is Some,
    ensures
        background_first_issue(backgrounds, equipment, m) == background_first_issue(backgrounds, equipment, n),
    decreases m - n,
{
    if n < m {
        lemma_background_first_issue_stable(backgrounds, equipment, n, m - 1);
    }
}

fn background_id_taken_exec(backgrounds: &[PackBackground], i: usize) -> (r: bool)
    requires
        i < backgrounds@.len(),
    ensures
        r == background_id_taken(backgrounds@, i as int),
{
    let mut j: usize = 0;
    while j < i
        invariant
            i < backgrounds@.len(),
            j <= i,
            forall|k: int| 0 <= k < j ==> #[trigger] backgrounds@[k].id@ != backgrounds@[i as int].id@,
        decreases i - j,
    {
        if str_eq(backgrounds[j].id.as_str(), backgrounds[i].id.as_str()) {
            return true;
        }
        j = j + 1;
    }
    false
}

fn background_name_taken_exec(backgrounds: &[PackBackground], i: usize) -> (r: bool)
    requires
        i < backgrounds@.len(),
    ensures
        r == background_name_taken(backgrounds@, i as int),
{
    let key = name_key_exec(backgrounds[i].name.as_str());
    let mut j: usize = 0;
    while j < i
        invariant
            i < backgrounds@.len(),
            j <= i,
            key@ == name_key(backgrounds@[i as int].name@),
            forall|k: int|
                0 <= k < j ==> name_key(#[trigger] backgrounds@[k].name@) != name_key(backgrounds@[i as int].name@),
        decreases i - j,
    {
        let other = name_key_exec(backgrounds[j].name.as_str());
        if other == key {
            return true;
        }
        j = j + 1;
    }
    false
}

fn validate_grants(rule: &PackBackground, equipment: &[PackEquipment]) -> (r: Option<String>)
    ensures
        match grants_first_issue(*rule, equipment@, rule.equipment@.len() as int) {
            None => r is None,
            Some(message) => match r {
                Some(e) => e@ == message,
                None => false,
            },
        },
{
    let mut g: usize = 0;
    while g < rule.equipment.len()
        invariant
            g <= rule.equipment.len(),
            grants_first_issue(*rule, equipment@, g as int) is None,
        decreases rule.equipment.len() - g,
    {
        let grant = &rule.equipment[g];
        let bad_shape = grant.quantity == 0 || grant.name.is_some() == grant.equipment_id.is_some() || match &grant.name {
            Some(n) => is_blank_exec(n.as_str()),
            None => false,
        };
        let message: Option<String> = if bad_shape {
            Some(join3(
                "pack background ",
                rule.id.as_str(),
                " equipment grants must define exactly one non-empty name or equipment_id",
            ))
        } else {
            match &grant.equipment_id {
                Some(id) => if crate::resolve::equipment_contains(equipment, id.as_str()) {
                    None
                } else {
                    Some(crate::text::join4(
                        "pack background ",
                        rule.id.as_str(),
                        " references unknown pack equipment: ",
                        id.as_str(),
                    ))
                },
                None => None,
            }
        };
        match message {
            Some(e) => {
                proof {
                    lemma_grants_first_issue_stable(*rule, equipment@, g + 1, rule.equipment@.len() as int);
                }
                return Some(e);
            },
            None => {},
        }
        g = g + 1;
    }
    None
}

/// Check pack background records in order and report the first issue.
pub fn validate_backgrounds(backgrounds: &[PackBackground], equipment: &[PackEquipment]) -> (r: Result<(), String>)
    ensures
        match background_first_issue(backgrounds@, equipment@, backgrounds@.len() as int) {
            None => r is Ok,
            Some(message) => match r {
                Err(e) => e@ == message,
                Ok(_) => false,
            },
        },
{
    let mut i: usize = 0;
    while i < backgrounds.len()
        invariant
            i <= backgrounds.len(),
            background_first_issue(backgrounds@, equipment@, i as int) is None,
        decreases backgrounds.len() - i,
    {
        let rule = &backgrounds[i];
        proof {
            reveal_strlit("Magic Initiate");
        }
        let magic_ok = str_eq(rule.feat.as_str(), "Magic Initiate") == rule.magic_initiate_list.is_some() && match &rule.magic_initiate_list {
            Some(list) => is_magic_initiate_list_exec(list.as_str()),
            None => true,
        };
        let message: Option<String> = if !is_identifier_exec(rule.id.as_str()) {
            Some(join2("invalid pack background id: ", rule.id.as_str()))
        } else if background_id_taken_exec(backgrounds, i) {
            Some(join2("duplicate pack background id: ", rule.id.as_str()))
        } else if is_blank_exec(rule.name.as_str()) || background_name_taken_exec(backgrounds, i) {
            Some(join2("invalid or duplicate pack background name: ", rule.name.as_str()))
        } else if srd_name_conflict_exec(&BACKGROUND_NAMES, rule.id.as_str(), rule.name.as_str()) {
            Some(join2("pack background conflicts with SRD background: ", rule.id.as_str()))
        } else if !(rule.abilities.len() == 3 && strings_distinct(&rule.abilities) && crate::text::all_listed_exec(
            &rule.abilities,
            ABILITIES.as_slice(),
        )) {
            Some(join3("pack background ", rule.id.as_str(), " must grant three different abilities"))
        } else if !(rule.skills.len() == 2 && strings_distinct(&rule.skills) && all_skills_exec(&rule.skills)) {
            Some(join3("pack background ", rule.id.as_str(), " must grant two different SRD skills"))
        } else if !list_contains(ORIGIN_FEATS.as_slice(), rule.feat.as_str()) {
            Some(join2("invalid pack background Origin feat: ", rule.feat.as_str()))
        } else if !is_tool_exec(rule.tool.as_str()) {
            Some(join2("invalid pack background tool: ", rule.tool.as_str()))
        } else if !magic_ok {
            Some(join3(
                "pack background ",
                rule.id.as_str(),
                " must define a valid magic_initiate_list exactly when its feat is Magic Initiate",
            ))
        } else if rule.equipment.len() == 0 {
            Some(join3("pack background ", rule.id.as_str(), " must grant non-empty starting equipment"))
        } else {
            validate_grants(rule, equipment)
        };
        match message {
            Some(e) => {
                proof {
                    lemma_background_first_issue_stable(backgrounds@, equipment@, i + 1, backgrounds@.len() as int);
                }
                return Err(e);
            },
            None => {},
        }
        i = i + 1;
    }
    Ok(())
}


/// Hit dice a pack class may use.
pub const HIT_DICE: [u8; 4] = [6, 8, 10, 12];

/// Armor training a pack class may grant.
pub const ARMOR_TRAINING: [&'static str; 4] = ["Light", "Medium", "Heavy", "Shields"];

/// Weapon training a pack class may grant.
pub const WEAPON_TRAINING: [&'static str; 2] = ["Simple", "Martial"];

/// The most weapon masteries a level-1 pack class may grant.
pub const MAX_WEAPON_MASTERIES: usize = 3;

/// The most level-1 spell slots a pack class may grant.
pub const MAX_SPELL_SLOTS: u8 = 4;

/// The number of pack spells of `level` that belong to `list`.
pub open spec fn pack_spell_count(spells: Seq<PackSpell>, level: int, list: Seq<char>) -> nat
    decreases spells.len(),
{
    if spells.len() == 0 {
        0
    } else {
        pack_spell_count(spells.drop_last(), level, list) + if spells.last().level == level && in_strings(
            spells.last().lists@,
            list,
        ) {
            1nat
        } else {
            0nat
        }
    }
}

fn pack_spell_count_exec(spells: &[PackSpell], level: u8, list: &str) -> (r: usize)
    ensures
        r == pack_spell_count(spells@, level as int, list@),
        r <= spells@.len(),
{
    let mut count: usize = 0;
    let mut i: usize = 0;
    while i < spells.len()
        invariant
            i <= spells.len(),
            count <= i,
            count == pack_spell_count(spells@.subrange(0, i as int), level as int, list@),
        decreases spells.len() - i,
    {
        assert(spells@.subrange(0, i as int + 1).drop_last() =~= spells@.subrange(0, i as int));
        if spells[i].level == level && strings_contain(&spells[i].lists, list) {
            count = count + 1;
        }
        i = i + 1;
    }
    assert(spells@.subrange(0, spells@.len() as int) =~= spells@);
    count
}

/// The view sequence of a vector of strings has no repeated entry.
pub open spec fn distinct_keys(keys: Seq<Seq<char>>) -> bool {
    crate::text::distinct_seqs(keys)
}

fn distinct_keys_exec(keys: &Vec<String>) -> (r: bool)
    ensures
        r == distinct_keys(crate::text::string_views(keys@)),
{
    let ghost v = crate::text::string_views(keys@);
    let d = strings_distinct(keys);
    proof {
        assert(v.len() == keys@.len());
        if d {
            assert forall|i: int, j: int| 0 <= i < v.len() && 0 <= j < v.len() && i != j implies #[trigger] v[i]
                != #[trigger] v[j] by {
                assert(v[i] == keys@[i]@);
                assert(v[j] == keys@[j]@);
            }
        } else {
            let (i, j) = choose|i: int, j: int|
                0 <= i < keys@.len() && 0 <= j < keys@.len() && i != j && !(#[trigger] keys@[i]@
                    != #[trigger] keys@[j]@);
            assert(v[i] == keys@[i]@);
            assert(v[j] == keys@[j]@);
        }
    }
    d
}

/// The IDs of a choice's options.
pub open spec fn option_ids(options: Seq<PackClassChoiceOption>) -> Seq<Seq<char>> {
    options.map_values(|o: PackClassChoiceOption| o.id@)
}

/// The normalized names of a choice's options.
pub open spec fn option_keys(options: Seq<PackClassChoiceOption>) -> Seq<Seq<char>> {
    options.map_values(|o: PackClassChoiceOption| name_key(o.name@))
}

/// The IDs of a class's choices.
pub open spec fn choice_ids(choices: Seq<PackClassChoice>) -> Seq<Seq<char>> {
    choices.map_values(|c: PackClassChoice| c.id@)
}

/// The normalized names of a class's resources.
pub open spec fn resource_keys(resources: Seq<PackClassResource>) -> Seq<Seq<char>> {
    resources.map_values(|r: PackClassResource| name_key(r.name@))
}

/// An optional text is absent or not blank.
pub open spec fn absent_or_filled(text: Option<String>) -> bool {
    match text {
        Some(t) => !is_blank(t@),
        None => true,
    }
}

/// One option of a pack class choice is well formed.
pub open spec fn option_ok(option: PackClassChoiceOption) -> bool {
    is_identifier(option.id@) && !is_blank(option.name@) && absent_or_filled(option.description)
}

/// One pack class choice is well formed.
pub open spec fn choice_ok(choice: PackClassChoice) -> bool {
    &&& is_identifier(choice.id@)
    &&& !is_blank(choice.label@)
    &&& choice.count > 0
    &&& choice.count <= choice.options@.len()
    &&& distinct_keys(option_ids(choice.options@))
    &&& distinct_keys(option_keys(choice.options@))
    &&& forall|k: int| 0 <= k < choice.options@.len() ==> option_ok(#[trigger] choice.options@[k])
}

/// One pack class resource is well formed.
pub open spec fn resource_ok(resource: PackClassResource) -> bool {
    &&& !is_blank(resource.name@)
    &&& resource.maximum > 0
    &&& !is_blank(resource.unit@)
    &&& !is_blank(resource.recovery@)
    &&& absent_or_filled(resource.detail)
}

/// One class equipment grant names an item by display name alone.
pub open spec fn class_grant_ok(grant: PackEquipmentGrant) -> bool {
    grant.quantity > 0 && grant.equipment_id is None && match grant.name {
        Some(n) => !is_blank(n@),
        None => false,
    }
}

/// A pack class's spellcasting fits its SRD list and the pack's spells.
pub open spec fn spellcasting_ok(spellcasting: PackClassSpellcasting, spells: Seq<PackSpell>) -> bool {
    match spell_list_index(spellcasting.spell_list@) {
        Some(l) => {
            &&& in_list(SPELLCASTING_ABILITIES@, spellcasting.ability@)
            &&& spellcasting.cantrip_count <= list_cantrips(l).len() + pack_spell_count(spells, 0, spellcasting.spell_list@)
            &&& spellcasting.prepared_spell_count <= list_level_one(l).len() + pack_spell_count(spells, 1, spellcasting.spell_list@)
            &&& spellcasting.spell_slots <= MAX_SPELL_SLOTS
            &&& !is_blank(spellcasting.slot_recovery@)
            &&& (spellcasting.cantrip_count > 0 || spellcasting.prepared_spell_count > 0)
            &&& (spellcasting.prepared_spell_count > 0) == (spellcasting.spell_slots > 0)
        },
        None => false,
    }
}

/// The mechanics of a pack class are coherent.
pub open spec fn class_mechanics_ok(rule: PackClass, spells: Seq<PackSpell>) -> bool {
    &&& exists|k: int| 0 <= k < HIT_DICE@.len() && HIT_DICE@[k] == rule.hit_die
    &&& rule.saving_throws@.len() == 2
    &&& distinct_strings(rule.saving_throws@)
    &&& crate::text::all_listed(rule.saving_throws@, ABILITIES@)
    &&& rule.skill_count > 0
    &&& rule.skill_count <= rule.skills@.len()
    &&& distinct_strings(rule.skills@)
    &&& all_skills(rule.skills@)
    &&& distinct_strings(rule.armor_training@)
    &&& crate::text::all_listed(rule.armor_training@, ARMOR_TRAINING@)
    &&& distinct_strings(rule.weapon_training@)
    &&& crate::text::all_listed(rule.weapon_training@, WEAPON_TRAINING@)
    &&& rule.equipment@.len() > 0
    &&& forall|g: int| 0 <= g < rule.equipment@.len() ==> class_grant_ok(#[trigger] rule.equipment@[g])
    &&& rule.starting_gold > 0
    &&& rule.features@.len() > 0
    &&& distinct_strings(rule.features@)
    &&& !any_blank(rule.features@)
    &&& rule.weapon_mastery_count <= MAX_WEAPON_MASTERIES
    &&& (rule.weapon_mastery_count == 0 || rule.weapon_training@.len() > 0)
    &&& distinct_keys(choice_ids(rule.choices@))
    &&& forall|c: int| 0 <= c < rule.choices@.len() ==> choice_ok(#[trigger] rule.choices@[c])
    &&& distinct_keys(resource_keys(rule.resources@))
    &&& forall|c: int| 0 <= c < rule.resources@.len() ==> resource_ok(#[trigger] rule.resources@[c])
    &&& match rule.spellcasting {
        Some(sc) => spellcasting_ok(sc, spells),
        None => true,
    }
}

fn absent_or_filled_exec(text: &Option<String>) -> (r: bool)
    ensures
        r == absent_or_filled(*text),
{
    match text {
        Some(t) => !is_blank_exec(t.as_str()),
        None => true,
    }
}

fn choice_ok_exec(choice: &PackClassChoice) -> (r: bool)
    ensures
        r == choice_ok(*choice),
{
    if !(is_identifier_exec(choice.id.as_str()) && !is_blank_exec(choice.label.as_str()) && choice.count > 0
        && choice.count <= choice.options.len()) {
        return false;
    }
    let mut ids: Vec<String> = Vec::new();
    let mut keys: Vec<String> = Vec::new();
    let mut k: usize = 0;
    while k < choice.options.len()
        invariant
            k <= choice.options.len(),
            ids@.len() == k,
            keys@.len() == k,
            forall|j: int| 0 <= j < k ==> (#[trigger] ids@[j])@ == choice.options@[j].id@,
            forall|j: int| 0 <= j < k ==> (#[trigger] keys@[j])@ == name_key(choice.options@[j].name@),
            forall|j: int| 0 <= j < k ==> option_ok(#[trigger] choice.options@[j]),
        decreases choice.options.len() - k,
    {
        let option = &choice.options[k];
        if !(is_identifier_exec(option.id.as_str()) && !is_blank_exec(option.name.as_str()) && absent_or_filled_exec(
            &option.description,
        )) {
            return false;
        }
        ids.push(option.id.clone());
        keys.push(name_key_exec(option.name.as_str()));
        k = k + 1;
    }
    assert(crate::text::string_views(ids@) =~= option_ids(choice.options@));
    assert(crate::text::string_views(keys@) =~= option_keys(choice.options@));
    distinct_keys_exec(&ids) && distinct_keys_exec(&keys)
}

fn resource_ok_exec(resource: &PackClassResource) -> (r: bool)
    ensures
        r == resource_ok(*resource),
{
    !is_blank_exec(resource.name.as_str()) && resource.maximum > 0 && !is_blank_exec(resource.unit.as_str())
        && !is_blank_exec(resource.recovery.as_str()) && absent_or_filled_exec(&resource.detail)
}

fn class_grant_ok_exec(grant: &PackEquipmentGrant) -> (r: bool)
    ensures
        r == class_grant_ok(*grant),
{
    grant.quantity > 0 && grant.equipment_id.is_none() && match &grant.name {
        Some(n) => !is_blank_exec(n.as_str()),
        None => false,
    }
}

fn spellcasting_ok_exec(spellcasting: &PackClassSpellcasting, spells: &[PackSpell]) -> (r: bool)
    ensures
        r == spellcasting_ok(*spellcasting, spells@),
{
    match spell_list_index_exec(spellcasting.spell_list.as_str()) {
        Some(l) => {
            let cantrips = list_cantrips_exec(l).len() as u128 + pack_spell_count_exec(
                spells,
                0,
                spellcasting.spell_list.as_str(),
            ) as u128;
            let level_one = list_level_one_exec(l).len() as u128 + pack_spell_count_exec(
                spells,
                1,
                spellcasting.spell_list.as_str(),
            ) as u128;
            list_contains(SPELLCASTING_ABILITIES.as_slice(), spellcasting.ability.as_str())
                && (spellcasting.cantrip_count as u128) <= cantrips && (spellcasting.prepared_spell_count as u128)
                <= level_one && spellcasting.spell_slots <= MAX_SPELL_SLOTS && !is_blank_exec(
                spellcasting.slot_recovery.as_str(),
            ) && (spellcasting.cantrip_count > 0 || spellcasting.prepared_spell_count > 0) && ((
            spellcasting.prepared_spell_count > 0) == (spellcasting.spell_slots > 0))
        },
        None => false,
    }
}

fn class_mechanics_ok_exec(rule: &PackClass, spells: &[PackSpell]) -> (r: bool)
    ensures
        r == class_mechanics_ok(*rule, spells@),
{
    let hit_die_ok = rule.hit_die == 6 || rule.hit_die == 8 || rule.hit_die == 10 || rule.hit_die == 12;
    proof {
        if hit_die_ok {
            if rule.hit_die == 6 {
                assert(HIT_DICE@[0] == rule.hit_die);
            } else if rule.hit_die == 8 {
                assert(HIT_DICE@[1] == rule.hit_die);
            } else if rule.hit_die == 10 {
                assert(HIT_DICE@[2] == rule.hit_die);
            } else {
                assert(HIT_DICE@[3] == rule.hit_die);
            }
        }
    }
    if !(hit_die_ok && rule.saving_throws.len() == 2 && strings_distinct(&rule.saving_throws)
        && crate::text::all_listed_exec(&rule.saving_throws, ABILITIES.as_slice()) && rule.skill_count > 0
        && rule.skill_count <= rule.skills.len() && strings_distinct(&rule.skills) && all_skills_exec(&rule.skills)
        && strings_distinct(&rule.armor_training) && crate::text::all_listed_exec(
        &rule.armor_training,
        ARMOR_TRAINING.as_slice(),
    ) && strings_distinct(&rule.weapon_training) && crate::text::all_listed_exec(
        &rule.weapon_training,
        WEAPON_TRAINING.as_slice(),
    ) && rule.equipment.len() > 0 && rule.starting_gold > 0 && rule.features.len() > 0 && strings_distinct(
        &rule.features,
    ) && !any_blank_exec(&rule.features) && rule.weapon_mastery_count <= MAX_WEAPON_MASTERIES && (
    rule.weapon_mastery_count == 0 || rule.weapon_training.len() > 0)) {
        return false;
    }
    let mut g: usize = 0;
    while g < rule.equipment.len()
        invariant
            g <= rule.equipment.len(),
            forall|j: int| 0 <= j < g ==> class_grant_ok(#[trigger] rule.equipment@[j]),
        decreases rule.equipment.len() - g,
    {
        if !class_grant_ok_exec(&rule.equipment[g]) {
            return false;
        }
        g = g + 1;
    }
    let mut ids: Vec<String> = Vec::new();
    let mut c: usize = 0;
    while c < rule.choices.len()
        invariant
            c <= rule.choices.len(),
            ids@.len() == c,
            forall|j: int| 0 <= j < c ==> (#[trigger] ids@[j])@ == rule.choices@[j].id@,
            forall|j: int| 0 <= j < c ==> choice_ok(#[trigger] rule.choices@[j]),
        decreases rule.choices.len() - c,
    {
        if !choice_ok_exec(&rule.choices[c]) {
            return false;
        }
        ids.push(rule.choices[c].id.clone());
        c = c + 1;
    }
    assert(crate::text::string_views(ids@) =~= choice_ids(rule.choices@));
    if !distinct_keys_exec(&ids) {
        return false;
    }
    let mut keys: Vec<String> = Vec::new();
    let mut q: usize = 0;
    while q < rule.resources.len()
        invariant
            q <= rule.resources.len(),
            keys@.len() == q,
            forall|j: int| 0 <= j < q ==> (#[trigger] keys@[j])@ == name_key(rule.resources@[j].name@),
            forall|j: int| 0 <= j < q ==> resource_ok(#[trigger] rule.resources@[j]),
        decreases rule.resources.len() - q,
    {
        if !resource_ok_exec(&rule.resources[q]) {
            return false;
        }
        keys.push(name_key_exec(rule.resources[q].name.as_str()));
        q = q + 1;
    }
    assert(crate::text::string_views(keys@) =~= resource_keys(rule.resources@));
    if !distinct_keys_exec(&keys) {
        return false;
    }
    match &rule.spellcasting {
        Some(sc) => spellcasting_ok_exec(sc, spells),
        None => true,
    }
}

/// An earlier pack class has the same ID as the one at `i`.
pub open spec fn class_id_taken(classes: Seq<PackClass>, i: int) -> bool {
    exists|j: int| 0 <= j < i && #[trigger] classes[j].id@ == classes[i].id@
}

/// An earlier pack class has the same normalized name as the one at `i`.
pub open spec fn class_name_taken(classes: Seq<PackClass>, i: int) -> bool {
    exists|j: int| 0 <= j < i && name_key(#[trigger] classes[j].name@) == name_key(classes[i].name@)
}

/// What is wrong with the pack class at `i`, given the ones before it.
pub open spec fn class_issue(classes: Seq<PackClass>, spells: Seq<PackSpell>, i: int) -> Option<Seq<char>> {
    let rule = classes[i];
    if !is_identifier(rule.id@) || class_id_taken(classes, i) {
        Some("invalid or duplicate pack class id: "@ + rule.id@)
    } else if is_blank(rule.name@) || class_name_taken(classes, i) {
        Some("invalid or duplicate pack class name: "@ + rule.name@)
    } else if srd_name_conflict(CLASS_NAMES@, rule.id@, rule.name@) {
        Some("pack class conflicts with SRD class: "@ + rule.id@)
    } else if !class_mechanics_ok(rule, spells) {
        Some("invalid pack class mechanics: "@ + rule.id@)
    } else {
        None
    }
}

/// The first issue among the first `n` pack classes.
pub open spec fn class_first_issue(classes: Seq<PackClass>, spells: Seq<PackSpell>, n: int) -> Option<Seq<char>>
    decreases n,
{
    if n <= 0 {
        None
    } else {
        match class_first_issue(classes, spells, n - 1) {
            Some(e) => Some(e),
            None => class_issue(classes, spells, n - 1),
        }
    }
}

proof fn lemma_class_first_issue_stable(classes: Seq<PackClass>, spells: Seq<PackSpell>, n: int, m: int)
    requires
        0 <= n <= m,
        class_first_issue(classes, spells, n) is Some,
    ensures
        class_first_issue(classes, spells, m) == class_first_issue(classes, spells, n),
    decreases m - n,
{
    if n < m {
        lemma_class_first_issue_stable(classes, spells, n, m - 1);
    }
}

fn class_id_taken_exec(classes: &[PackClass], i: usize) -> (r: bool)
    requires
        i < classes@.len(),
    ensures
        r == class_id_taken(classes@, i as int),
{
    let mut j: usize = 0;
    while j < i
        invariant
            i < classes@.len(),
            j <= i,
            forall|k: int| 0 <= k < j ==> #[trigger] classes@[k].id@ != classes@[i as int].id@,
        decreases i - j,
    {
        if str_eq(classes[j].id.as_str(), classes[i].id.as_str()) {
            return true;
        }
        j = j + 1;
    }
    false
}

fn class_name_taken_exec(classes: &[PackClass], i: usize) -> (r: bool)
    requires
        i < classes@.len(),
    ensures
        r == class_name_taken(classes@, i as int),
{
    let key = name_key_exec(classes[i].name.as_str());
    let mut j: usize = 0;
    while j < i
        invariant
            i < classes@.len(),
            j <= i,
            key@ == name_key(classes@[i as int].name@),
            forall|k: int| 0 <= k < j ==> name_key(#[trigger] classes@[k].name@) != name_key(classes@[i as int].name@),
        decreases i - j,
    {
        let other = name_key_exec(classes[j].name.as_str());
        if other == key {
            return true;
        }
        j = j + 1;
    }
    false
}

/// Check pack class records in order, against the pack's spells, and report the first issue.
pub fn validate_classes(classes: &[PackClass], spells: &[PackSpell]) -> (r: Result<(), String>)
    ensures
        match class_first_issue(classes@, spells@, classes@.len() as int) {
            None => r is Ok,
            Some(message) => match r {
                Err(e) => e@ == message,
                Ok(_) => false,
            },
        },
{
    let mut i: usize = 0;
    while i < classes.len()
        invariant
            i <= classes.len(),
            class_first_issue(classes@, spells@, i as int) is None,
        decreases classes.len() - i,
    {
        let rule = &classes[i];
        let message: Option<String> = if !is_identifier_exec(rule.id.as_str()) || class_id_taken_exec(classes, i) {
            Some(join2("invalid or duplicate pack class id: ", rule.id.as_str()))
        } else if is_blank_exec(rule.name.as_str()) || class_name_taken_exec(classes, i) {
            Some(join2("invalid or duplicate pack class name: ", rule.name.as_str()))
        } else if srd_name_conflict_exec(&CLASS_NAMES, rule.id.as_str(), rule.name.as_str()) {
            Some(join2("pack class conflicts with SRD class: ", rule.id.as_str()))
        } else if !class_mechanics_ok_exec(rule, spells) {
            Some(join2("invalid pack class mechanics: ", rule.id.as_str()))
        } else {
            None
        };
        match message {
            Some(e) => {
                proof {
                    lemma_class_first_issue_stable(classes@, spells@, i + 1, classes@.len() as int);
                }
                return Err(e);
            },
            None => {},
        }
        i = i + 1;
    }
    Ok(())
}


/// What is wrong with a manifest's format, identity or name, if anything.
pub open spec fn manifest_header_issue(manifest: DataPackManifest) -> Option<Seq<char>> {
    if manifest.format_version != FORMAT_VERSION {
        Some("unsupported data pack format version "@ + decimal(manifest.format_version as nat) + "; expected "@
            + decimal(FORMAT_VERSION as nat))
    } else if !is_identifier(manifest.id@) {
        Some("data pack id must use lowercase letters, digits, and hyphens"@)
    } else if manifest.version == 0 {
        Some("data pack version must be at least 1"@)
    } else if is_blank(manifest.name@) {
        Some("data pack name must not be empty"@)
    } else {
        None
    }
}

/// Check a manifest's format version, ID, revision and name.
pub fn validate_manifest_header(manifest: &DataPackManifest) -> (r: Result<(), String>)
    ensures
        match manifest_header_issue(*manifest) {
            None => r is Ok,
            Some(message) => match r {
                Err(e) => e@ == message,
                Ok(_) => false,
            },
        },
{
    if manifest.format_version != FORMAT_VERSION {
        let mut message = String::new();
        message.append("unsupported data pack format version ");
        message.append(decimal_exec(manifest.format_version as u64).as_str());
        message.append("; expected ");
        message.append(decimal_exec(FORMAT_VERSION as u64).as_str());
        return Err(message);
    }
    if !is_identifier_exec(manifest.id.as_str()) {
        return Err(crate::text::owned("data pack id must use lowercase letters, digits, and hyphens"));
    }
    if manifest.version == 0 {
        return Err(crate::text::owned("data pack version must be at least 1"));
    }
    if is_blank_exec(manifest.name.as_str()) {
        return Err(crate::text::owned("data pack name must not be empty"));
    }
    Ok(())
}

/// The message for a declared content file whose path leaves the pack, if it does.
pub open spec fn manifest_path_issue(family: ContentFamily, path: Seq<char>) -> Option<Seq<char>> {
    if is_safe_relative_path(path) {
        None
    } else {
        Some("data pack "@ + family.label_spec() + " file must be a relative path inside the pack: "@ + path)
    }
}

/// Check that a declared content file stays inside the pack directory.
pub fn check_manifest_path(family: ContentFamily, path: &str) -> (r: Result<(), String>)
    ensures
        match manifest_path_issue(family, path@) {
            None => r is Ok,
            Some(message) => match r {
                Err(e) => e@ == message,
                Ok(_) => false,
            },
        },
{
    if is_safe_relative_path_exec(path) {
        Ok(())
    } else {
        Err(crate::text::join4("data pack ", family.label(), " file must be a relative path inside the pack: ", path))
    }
}


proof fn lemma_species_issue_absent(species: Seq<PackSpecies>, n: int, i: int)
    requires
        species_first_issue(species, n) is None,
        0 <= i < n,
    ensures
        species_issue(species, i) is None,
    decreases n,
{
    if i < n - 1 {
        lemma_species_issue_absent(species, n - 1, i);
    }
}

/// Every species of an accepted pack is add-only: its ID is a valid identifier,
/// neither its ID nor its name is an SRD species name in any letter case, and
/// no two pack species share an ID.
pub proof fn lemma_accepted_species_are_add_only(species: Seq<PackSpecies>)
    requires
        species_first_issue(species, species.len() as int) is None,
    ensures
        forall|i: int| 0 <= i < species.len() ==> is_identifier(#[trigger] species[i].id@) && !srd_name_conflict(SPECIES_NAMES@, species[i].id@, species[i].name@),
        forall|i: int, j: int| 0 <= i < j < species.len() ==> #[trigger] species[i].id@ != #[trigger] species[j].id@,
{
    assert forall|i: int| 0 <= i < species.len() implies is_identifier(#[trigger] species[i].id@) && !srd_name_conflict(SPECIES_NAMES@, species[i].id@, species[i].name@) by {
        lemma_species_issue_absent(species, species.len() as int, i);
    }
    assert forall|i: int, j: int| 0 <= i < j < species.len() implies #[trigger] species[i].id@ != #[trigger] species[j].id@ by {
        lemma_species_issue_absent(species, species.len() as int, j);
    }
}

proof fn lemma_background_issue_absent(backgrounds: Seq<PackBackground>, equipment: Seq<PackEquipment>, n: int, i: int)
    requires
        background_first_issue(backgrounds, equipment, n) is None,
        0 <= i < n,
    ensures
        background_issue(backgrounds, equipment, i) is None,
    decreases n,
{
    if i < n - 1 {
        lemma_background_issue_absent(backgrounds, equipment, n - 1, i);
    }
}

/// Every background of an accepted pack is add-only: its ID is a valid
/// identifier, neither its ID nor its name is an SRD background name in any
/// letter case, and no two pack backgrounds share an ID or a name.
pub proof fn lemma_accepted_backgrounds_are_add_only(backgrounds: Seq<PackBackground>, equipment: Seq<PackEquipment>)
    requires
        background_first_issue(backgrounds, equipment, backgrounds.len() as int) is None,
    ensures
        forall|i: int| 0 <= i < backgrounds.len() ==> is_identifier(#[trigger] backgrounds[i].id@) && !srd_name_conflict(BACKGROUND_NAMES@, backgrounds[i].id@, backgrounds[i].name@),
        forall|i: int, j: int| 0 <= i < j < backgrounds.len() ==> #[trigger] backgrounds[i].id@ != #[trigger] backgrounds[j].id@,
        forall|i: int, j: int|
            0 <= i < j < backgrounds.len() ==> name_key(#[trigger] backgrounds[i].name@) != name_key(#[trigger] backgrounds[j].name@),
{
    assert forall|i: int| 0 <= i < backgrounds.len() implies is_identifier(#[trigger] backgrounds[i].id@) && !srd_name_conflict(BACKGROUND_NAMES@, backgrounds[i].id@, backgrounds[i].name@) by {
        lemma_background_issue_absent(backgrounds, equipment, backgrounds.len() as int, i);
    }
    assert forall|i: int, j: int| 0 <= i < j < backgrounds.len() implies #[trigger] backgrounds[i].id@ != #[trigger] backgrounds[j].id@ by {
        lemma_background_issue_absent(backgrounds, equipment, backgrounds.len() as int, j);
    }
    assert forall|i: int, j: int| 0 <= i < j < backgrounds.len() implies name_key(#[trigger] backgrounds[i].name@) != name_key(
        #[trigger] backgrounds[j].name@,
    ) by {
        lemma_background_issue_absent(backgrounds, equipment, backgrounds.len() as int, j);
    }
}

proof fn lemma_class_issue_absent(classes: Seq<PackClass>, spells: Seq<PackSpell>, n: int, i: int)
    requires
        class_first_issue(classes, spells, n) is None,
        0 <= i < n,
    ensures
        class_issue(classes, spells, i) is None,
    decreases n,
{
    if i < n - 1 {
        lemma_class_issue_absent(classes, spells, n - 1, i);
    }
}

/// Every class of an accepted pack is add-only: its ID is a valid identifier,
/// neither its ID nor its name is an SRD class name in any letter case, and
/// no two pack classes share an ID or a name.
pub proof fn lemma_accepted_classes_are_add_only(classes: Seq<PackClass>, spells: Seq<PackSpell>)
    requires
        class_first_issue(classes, spells, classes.len() as int) is None,
    ensures
        forall|i: int| 0 <= i < classes.len() ==> is_identifier(#[trigger] classes[i].id@) && !srd_name_conflict(CLASS_NAMES@, classes[i].id@, classes[i].name@),
        forall|i: int, j: int| 0 <= i < j < classes.len() ==> #[trigger] classes[i].id@ != #[trigger] classes[j].id@,
        forall|i: int, j: int|
            0 <= i < j < classes.len() ==> name_key(#[trigger] classes[i].name@) != name_key(#[trigger] classes[j].name@),
{
    assert forall|i: int| 0 <= i < classes.len() implies is_identifier(#[trigger] classes[i].id@) && !srd_name_conflict(CLASS_NAMES@, classes[i].id@, classes[i].name@) by {
        lemma_class_issue_absent(classes, spells, classes.len() as int, i);
    }
    assert forall|i: int, j: int| 0 <= i < j < classes.len() implies #[trigger] classes[i].id@ != #[trigger] classes[j].id@ by {
        lemma_class_issue_absent(classes, spells, classes.len() as int, j);
    }
    assert forall|i: int, j: int| 0 <= i < j < classes.len() implies name_key(#[trigger] classes[i].name@) != name_key(
        #[trigger] classes[j].name@,
    ) by {
        lemma_class_issue_absent(classes, spells, classes.len() as int, j);
    }
}

proof fn lemma_equipment_issue_absent(items: Seq<PackEquipment>, n: int, i: int)
    requires
        equipment_first_issue(items, n) is None,
        0 <= i < n,
    ensures
        equipment_issue(items, i) is None,
    decreases n,
{
    if i < n - 1 {
        lemma_equipment_issue_absent(items, n - 1, i);
    }
}

/// Every item of an accepted pack is add-only: its ID is a valid identifier,
/// neither its name nor (ignoring case) its ID is an SRD weapon, armor or
/// shield name, and no two pack items
/// share an ID or a name.
pub proof fn lemma_accepted_equipment_are_add_only(items: Seq<PackEquipment>)
    requires
        equipment_first_issue(items, items.len() as int) is None,
    ensures
        forall|i: int|
            0 <= i < items.len() ==> is_identifier(#[trigger] items[i].id@) && !srd_equipment_name(items[i].name@)
                && !srd_equipment_id(items[i].id@),
        forall|i: int, j: int| 0 <= i < j < items.len() ==> #[trigger] items[i].id@ != #[trigger] items[j].id@,
        forall|i: int, j: int|
            0 <= i < j < items.len() ==> name_key(#[trigger] items[i].name@) != name_key(#[trigger] items[j].name@),
{
    assert forall|i: int| 0 <= i < items.len() implies is_identifier(#[trigger] items[i].id@) && !srd_equipment_name(items[i].name@)
        && !srd_equipment_id(items[i].id@) by {
        lemma_equipment_issue_absent(items, items.len() as int, i);
    }
    assert forall|i: int, j: int| 0 <= i < j < items.len() implies #[trigger] items[i].id@ != #[trigger] items[j].id@ by {
        lemma_equipment_issue_absent(items, items.len() as int, j);
    }
    assert forall|i: int, j: int| 0 <= i < j < items.len() implies name_key(#[trigger] items[i].name@) != name_key(
        #[trigger] items[j].name@,
    ) by {
        lemma_equipment_issue_absent(items, items.len() as int, j);
    }
}

proof fn lemma_spell_issue_absent(spells: Seq<PackSpell>, n: int, i: int)
    requires
        spell_first_issue(spells, n) is None,
        0 <= i < n,
    ensures
        spell_issue(spells, i) is None,
    decreases n,
{
    if i < n - 1 {
        lemma_spell_issue_absent(spells, n - 1, i);
    }
}

/// Every spell of an accepted pack is add-only: its ID is a valid identifier,
/// its name is not an SRD spell name in any letter case, and no two pack
/// spells share an ID or a name.
pub proof fn lemma_accepted_spells_are_add_only(spells: Seq<PackSpell>)
    requires
        spell_first_issue(spells, spells.len() as int) is None,
    ensures
        forall|i: int| 0 <= i < spells.len() ==> is_identifier(#[trigger] spells[i].id@) && !srd_spell_conflict(spells[i].name@),
        forall|i: int, j: int| 0 <= i < j < spells.len() ==> #[trigger] spells[i].id@ != #[trigger] spells[j].id@,
        forall|i: int, j: int|
            0 <= i < j < spells.len() ==> name_key(#[trigger] spells[i].name@) != name_key(#[trigger] spells[j].name@),
{
    assert forall|i: int| 0 <= i < spells.len() implies is_identifier(#[trigger] spells[i].id@) && !srd_spell_conflict(spells[i].name@) by {
        lemma_spell_issue_absent(spells, spells.len() as int, i);
    }
    assert forall|i: int, j: int| 0 <= i < j < spells.len() implies #[trigger] spells[i].id@ != #[trigger] spells[j].id@ by {
        lemma_spell_issue_absent(spells, spells.len() as int, j);
    }
    assert forall|i: int, j: int| 0 <= i < j < spells.len() implies name_key(#[trigger] spells[i].name@) != name_key(
        #[trigger] spells[j].name@,
    ) by {
        lemma_spell_issue_absent(spells, spells.len() as int, j);
    }
}

proof fn lemma_digit_char(d: nat)
    requires
        d < 10,
    ensures
        is_digit(digit_char(d)),
        (digit_char(d) as u32) - 48 == d,
        digit_char(d) != 'd',
        digit_char(d) != '+',
{
    assert(((d + 48) as u32) as char as u32 == (d + 48) as u32);
}

proof fn lemma_decimal_reads_back(n: nat)
    ensures
        all_digits(decimal(n)),
        digits_value(decimal(n)) == n,
        forall|i: int| 0 <= i < decimal(n).len() ==> #[trigger] decimal(n)[i] != 'd' && decimal(n)[i] != '+',
    decreases n,
{
    if n < 10 {
        lemma_digit_char(n);
        assert(decimal(n) == seq![digit_char(n)]);
        assert(decimal(n).drop_last() =~= Seq::<char>::empty());
        assert(digits_value(Seq::<char>::empty()) == 0);
        assert(digits_value(decimal(n)) == 10 * digits_value(decimal(n).drop_last()) + ((decimal(n).last() as u32)
            - 48) as nat);
    } else {
        lemma_decimal_reads_back(n / 10);
        lemma_digit_char(n % 10);
        let d = decimal(n);
        assert(d == decimal(n / 10).push(digit_char(n % 10)));
        assert(d.drop_last() =~= decimal(n / 10));
        assert(d.last() == digit_char(n % 10));
        assert(digits_value(d) == 10 * digits_value(d.drop_last()) + ((d.last() as u32) - 48) as nat);
        assert(10 * (n / 10) + n % 10 == n);
        assert forall|i: int| 0 <= i < d.len() implies is_digit(#[trigger] d[i]) by {
            if i < d.len() - 1 {
                assert(d[i] == decimal(n / 10)[i]);
            }
        }
        assert forall|i: int| 0 <= i < d.len() implies #[trigger] d[i] != 'd' && d[i] != '+' by {
            if i < d.len() - 1 {
                assert(d[i] == decimal(n / 10)[i]);
            }
        }
    }
}

/// Text without a `d` is never valid damage dice.
pub proof fn lemma_dice_need_a_d(value: Seq<char>)
    requires
        !value.contains('d'),
    ensures
        !valid_damage_dice(value),
{
    if valid_damage_dice(value) {
        let k = choose|k: int|
            0 <= k < value.len() && value[k] == 'd' && (forall|j: int| 0 <= j < k ==> value[j] != 'd') && match (
                unsigned_value(#[trigger] value.subrange(0, k)),
                unsigned_value(value.subrange(k + 1, value.len() as int)),
            ) {
                (Some(count), Some(sides)) => 1 <= count <= 10 && 2 <= sides <= 100,
                _ => false,
            };
        assert(value.contains(value[k]));
    }
}

/// Damage dice `<count>d<sides>`, written in decimal, are valid exactly when
/// there are one to ten dice of two to a hundred sides.
pub proof fn lemma_every_die_size_is_valid(count: nat, sides: nat)
    ensures
        valid_damage_dice(decimal(count) + "d"@ + decimal(sides)) == (1 <= count <= 10 && 2 <= sides <= 100),
{
    reveal_strlit("d");
    lemma_decimal_reads_back(count);
    lemma_decimal_reads_back(sides);
    let a = decimal(count);
    let b = decimal(sides);
    let v = a + "d"@ + b;
    let k = a.len() as int;
    assert(v[k] == 'd');
    assert(v.subrange(0, k) =~= a);
    assert(v.subrange(k + 1, v.len() as int) =~= b);
    assert forall|j: int| 0 <= j < k implies v[j] != 'd' by {
        assert(v[j] == a[j]);
    }
    assert(unsigned_digits(a) == a);
    assert(unsigned_digits(b) == b);
    assert(unsigned_value(v.subrange(0, k)) == Some(count));
    assert(unsigned_value(v.subrange(k + 1, v.len() as int)) == Some(sides));
    assert forall|m: int|
        0 <= m < v.len() && v[m] == 'd' && (forall|j: int| 0 <= j < m ==> v[j] != 'd') implies m == k by {
        if m < k {
            assert(v[m] == a[m]);
        }
        if m > k {
            assert(v[k] == 'd');
        }
    }
}

} // verus!
