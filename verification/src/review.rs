//! A presentation-neutral review of a character for the wizard's last stage.

use vstd::prelude::*;

use crate::abilities::modifier_of;
use crate::prompts::{sorted_set, strictly_sorted, text_set, PromptPort};
use crate::wizard::{item_label, item_label_exec, join_with, joined};
use crate::record::{AbilityScores, Character};
use crate::sheet::{entry_views, int_text, int_text_exec};
use crate::text::{decimal, decimal_exec, owned, string_views};

verus! {

/// A signed number as `{:+}` writes it: `+2`, `+0`, `-1`.
pub open spec fn signed_text(n: int) -> Seq<char> {
    if n >= 0 {
        "+"@ + decimal(n as nat)
    } else {
        "-"@ + decimal((-n) as nat)
    }
}

/// A signed number as `{:+}` writes it.
pub fn signed(n: i8) -> (r: String)
    ensures
        r@ == signed_text(n as int),
{
    if n >= 0 {
        let mut out = owned("+");
        out.append(decimal_exec(n as u64).as_str());
        out
    } else {
        let magnitude: u64 = (-(n as i16)) as u64;
        let mut out = owned("-");
        out.append(decimal_exec(magnitude).as_str());
        out
    }
}

/// One ability's review entry, such as `STR 15 (+2)`.
pub open spec fn ability_entry(short: Seq<char>, score: u8) -> Seq<char> {
    short + " "@ + decimal(score as nat) + " ("@ + signed_text(modifier_of(score as int)) + ")"@
}

fn ability_entry_exec(short: &str, score: u8) -> (r: String)
    ensures
        r@ == ability_entry(short@, score),
{
    let mut out = owned(short);
    out.append(" ");
    out.append(decimal_exec(score as u64).as_str());
    out.append(" (");
    out.append(signed(AbilityScores::modifier_for(score)).as_str());
    out.append(")");
    out
}

/// The six abilities' review entries, separated by two spaces.
pub open spec fn ability_summary(s: AbilityScores) -> Seq<char> {
    ability_entry("STR"@, s.strength) + "  "@ + ability_entry("DEX"@, s.dexterity) + "  "@ + ability_entry(
        "CON"@,
        s.constitution,
    ) + "  "@ + ability_entry("INT"@, s.intelligence) + "  "@ + ability_entry("WIS"@, s.wisdom) + "  "@
        + ability_entry("CHA"@, s.charisma)
}

/// The six abilities' review entries, separated by two spaces.
pub fn ability_summary_exec(s: &AbilityScores) -> (r: String)
    ensures
        r@ == ability_summary(*s),
{
    let mut out = ability_entry_exec("STR", s.strength);
    out.append("  ");
    out.append(ability_entry_exec("DEX", s.dexterity).as_str());
    out.append("  ");
    out.append(ability_entry_exec("CON", s.constitution).as_str());
    out.append("  ");
    out.append(ability_entry_exec("INT", s.intelligence).as_str());
    out.append("  ");
    out.append(ability_entry_exec("WIS", s.wisdom).as_str());
    out.append("  ");
    out.append(ability_entry_exec("CHA", s.charisma).as_str());
    out
}

/// The languages a character speaks: Common, the two chosen, and a Rogue's extra one.
pub open spec fn language_list(c: Character) -> Seq<Seq<char>> {
    seq!["Common"@, c.selected_languages@[0]@, c.selected_languages@[1]@] + match c.class_choices.additional_language {
        Some(l) => seq![l@],
        None => seq![],
    }
}

/// The languages a character speaks.
pub fn languages(character: &Character) -> (r: Vec<String>)
    ensures
        string_views(r@) == language_list(*character),
{
    let mut values: Vec<String> = Vec::new();
    values.push(owned("Common"));
    values.push(character.selected_languages[0].clone());
    values.push(character.selected_languages[1].clone());
    crate::text::push_opt(&mut values, &character.class_choices.additional_language);
    assert(string_views(values@) =~= language_list(*character));
    values
}

/// The display names of the spells a record refers to, in order.
pub open spec fn spell_names_spec(c: Character, spells: Seq<String>) -> Seq<Seq<char>> {
    spells.map_values(|s: String| c.spell_name_spec(s@))
}

fn spell_names(character: &Character, spells: &Vec<String>) -> (r: Vec<String>)
    ensures
        string_views(r@) == spell_names_spec(*character, spells@),
{
    let mut out: Vec<String> = Vec::new();
    let mut i: usize = 0;
    while i < spells.len()
        invariant
            i <= spells@.len(),
            string_views(out@) == spell_names_spec(*character, spells@.subrange(0, i as int)),
        decreases spells.len() - i,
    {
        let ghost before = out@;
        let name = character.spell_name(spells[i].as_str());
        out.push(name);
        assert(spells@.subrange(0, i as int + 1) =~= spells@.subrange(0, i as int).push(spells@[i as int]));
        assert(string_views(out@) =~= string_views(before).push(name@));
        assert(spell_names_spec(*character, spells@.subrange(0, i as int + 1)) =~= spell_names_spec(
            *character,
            spells@.subrange(0, i as int),
        ).push(character.spell_name_spec(spells@[i as int]@)));
        i = i + 1;
    }
    assert(spells@.subrange(0, spells@.len() as int) =~= spells@);
    out
}

/// How the inventory reads item by item: `N x name` for several, the name alone for one.
pub open spec fn inventory_labels(items: Seq<(Seq<char>, u16)>) -> Seq<Seq<char>> {
    Seq::new(items.len(), |k: int| item_label(items[k].0, items[k].1))
}

/// The review's combat line.
pub open spec fn combat_summary(c: Character) -> Seq<char> {
    "HP "@ + int_text(c.hit_points_spec()) + "  AC "@ + int_text(c.armor_class_spec()) + "  Initiative "@
        + signed_text(c.initiative_spec()) + "  Speed "@ + decimal(c.speed_spec() as nat) + " ft."@
}

/// The review's equipment line: the inventory, or a note that there is none,
/// then the starting gold.
pub open spec fn equipment_line(c: Character) -> Seq<char> {
    let listed = joined(inventory_labels(c.inventory_spec()), ", "@);
    (if listed.len() == 0 {
        "No package items"@
    } else {
        listed
    }) + "; "@ + decimal(c.gold_spec() as nat) + " GP"@
}

fn inventory_labels_exec(items: &Vec<(String, u16)>) -> (r: Vec<String>)
    ensures
        string_views(r@) == inventory_labels(entry_views(items@)),
{
    let mut out: Vec<String> = Vec::new();
    let mut i: usize = 0;
    while i < items.len()
        invariant
            i <= items@.len(),
            string_views(out@) == inventory_labels(entry_views(items@.subrange(0, i as int))),
        decreases items.len() - i,
    {
        let ghost before = out@;
        let label = item_label_exec(items[i].0.as_str(), items[i].1);
        out.push(label);
        assert(string_views(out@) =~= string_views(before).push(label@));
        assert(inventory_labels(entry_views(items@.subrange(0, i as int + 1))) =~= inventory_labels(
            entry_views(items@.subrange(0, i as int)),
        ).push(item_label(items@[i as int].0@, items@[i as int].1)));
        i = i + 1;
    }
    assert(items@.subrange(0, items@.len() as int) =~= items@);
    out
}

fn combat_summary_exec(character: &Character) -> (r: String)
    ensures
        r@ == combat_summary(*character),
{
    let mut out = owned("HP ");
    out.append(int_text_exec(character.hit_points() as i32).as_str());
    out.append("  AC ");
    out.append(int_text_exec(character.armor_class()).as_str());
    out.append("  Initiative ");
    out.append(signed(character.initiative_modifier()).as_str());
    out.append("  Speed ");
    out.append(decimal_exec(character.speed() as u64).as_str());
    out.append(" ft.");
    out
}

fn equipment_line_exec(character: &Character) -> (r: String)
    ensures
        r@ == equipment_line(*character),
{
    let items = character.inventory();
    let mut out = join_with(&inventory_labels_exec(&items), ", ");
    if out.as_str().unicode_len() == 0 {
        out = owned("No package items");
    }
    out.append("; ");
    out.append(decimal_exec(character.gold() as u64).as_str());
    out.append(" GP");
    out
}

/// The review rows of a character: label and value.
///
/// Name, identity, background, alignment, size, abilities, combat values,
/// skills in sorted order without repeats, languages and equipment with
/// starting gold; then the cantrips and the prepared spells by display name,
/// when there are any.
pub fn character_review_rows(character: &Character) -> (r: Vec<(&'static str, String)>)
    ensures
        r@.len() == 10 + (if character.class_choices.cantrips@.len() > 0 { 1int } else { 0int }) + (
        if character.class_choices.prepared_spells@.len() > 0 {
            1int
        } else {
            0int
        }),
        r@[0].0@ == "Name"@ && r@[0].1@ == character.name@,
        r@[1].0@ == "Character"@ && r@[1].1@ == "Level "@ + decimal(character.level as nat) + " "@
            + character.species_display() + " "@ + character.class_display(),
        r@[2].0@ == "Background"@ && r@[2].1@ == character.background_display(),
        r@[3].0@ == "Alignment"@ && r@[3].1@ == character.alignment@,
        r@[4].0@ == "Size"@ && r@[4].1@ == character.size.name(),
        r@[5].0@ == "Abilities"@ && r@[5].1@ == ability_summary(character.abilities),
        r@[6].0@ == "Combat"@ && r@[6].1@ == combat_summary(*character),
        r@[7].0@ == "Skills"@ && exists|s: Seq<String>|
            strictly_sorted(s) && text_set(s) == character.skills_spec().to_set() && r@[7].1@ == joined(
                string_views(s),
                ", "@,
            ),
        r@[8].0@ == "Languages"@ && r@[8].1@ == joined(language_list(*character), ", "@),
        r@[9].0@ == "Equipment"@ && r@[9].1@ == equipment_line(*character),
        character.class_choices.cantrips@.len() > 0 ==> r@[10].0@ == "Cantrips"@ && r@[10].1@ == joined(
            spell_names_spec(*character, character.class_choices.cantrips@),
            ", "@,
        ),
        character.class_choices.prepared_spells@.len() > 0 ==> r@[r@.len() - 1].0@ == "Prepared spells"@
            && r@[r@.len() - 1].1@ == joined(spell_names_spec(*character, character.class_choices.prepared_spells@), ", "@),
{
    let mut identity = owned("Level ");
    identity.append(decimal_exec(character.level as u64).as_str());
    identity.append(" ");
    identity.append(character.species_name().as_str());
    identity.append(" ");
    identity.append(character.class_name().as_str());
    let proficiencies = character.skill_proficiencies();
    proof {
        crate::wizard::lemma_text_set_views(proficiencies@);
    }
    let skills = sorted_set(proficiencies);
    let mut rows: Vec<(&'static str, String)> = Vec::new();
    rows.push(("Name", character.name.clone()));
    rows.push(("Character", identity));
    rows.push(("Background", character.background_name()));
    rows.push(("Alignment", character.alignment.clone()));
    rows.push(("Size", owned(character.size.as_str())));
    rows.push(("Abilities", ability_summary_exec(&character.abilities)));
    rows.push(("Combat", combat_summary_exec(character)));
    rows.push(("Skills", join_with(&skills, ", ")));
    rows.push(("Languages", join_with(&languages(character), ", ")));
    rows.push(("Equipment", equipment_line_exec(character)));
    if character.class_choices.cantrips.len() > 0 {
        rows.push(("Cantrips", join_with(&spell_names(character, &character.class_choices.cantrips), ", ")));
    }
    if character.class_choices.prepared_spells.len() > 0 {
        rows.push(("Prepared spells", join_with(&spell_names(character, &character.class_choices.prepared_spells), ", ")));
    }
    rows
}

/// `label` padded with spaces to eighteen characters, then the value.
fn review_line(label: &str, value: &str) -> (r: String)
{
    let mut line = owned(label);
    let width = crate::text::chars_of(label).len();
    let mut k = width;
    while k < 18
        decreases 18 - k,
    {
        line.append(" ");
        k = k + 1;
    }
    line.append(" ");
    line.append(value);
    line
}

/// Show the review through the prompt port.
pub fn display_character_review<P: PromptPort>(prompts: &mut P, character: &Character)
    ensures
        final(prompts).answered() == old(prompts).answered(),
{
    prompts.display("\nCharacter review");
    let rows = character_review_rows(character);
    let mut i: usize = 0;
    while i < rows.len()
        invariant
            prompts.answered() == old(prompts).answered(),
        decreases rows.len() - i,
    {
        let line = review_line(rows[i].0, rows[i].1.as_str());
        prompts.display(line.as_str());
        i = i + 1;
    }
    prompts.display("\nAccept the character or choose a section to revise.");
}

} // verus!
