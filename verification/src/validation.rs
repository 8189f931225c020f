//! Cross-field validation of the canonical character record.
//!
//! `Character::valid` states every rule a record must satisfy, given the pack
//! mechanics resolved into it; `Character::validate` checks exactly that and
//! reports the first rule it finds broken.

use vstd::prelude::*;

use crate::content::PackClassChoice;
use crate::resolve::{first_where, first_where_from};
use crate::record::{Character, MagicInitiateChoice};
use crate::srd::{
    always_prepared, always_prepared_exec, class_index_exec, class_package, class_package_exec,
    class_skill_options, class_skill_options_exec, is_magic_initiate_list,
    is_magic_initiate_list_exec, is_skill, is_skill_exec, is_tool, is_tool_exec, species_index_exec,
    weapon_index, weapon_index_exec, ALIGNMENTS, ARTISAN_TOOLS, CLASS_CANTRIP_COUNTS,
    CLASS_MASTERY_COUNTS, CLASS_PREPARED_COUNTS, CLASS_SKILL_COUNTS, DIVINE_ORDERS,
    DRACONIC_ANCESTRIES, ELF_LINEAGES, FIENDISH_LEGACIES, FIGHTING_STYLES, GIANT_ANCESTRIES,
    GNOME_LINEAGES, KEEN_SENSES_SKILLS, MUSICAL_INSTRUMENTS, ORIGIN_FEATS, PRIMAL_ORDERS,
    SPECIES_MEDIUM, SPECIES_SMALL, SPELLCASTING_ABILITIES, STANDARD_LANGUAGES, WARLOCK_INVOCATIONS,
    WEAPON_FINESSE_OR_LIGHT, WEAPON_MARTIAL, WEAPON_RANGED, background_index_exec,
};
use crate::ids::Size;
use crate::text::{
    decimal, clone_strings, push_all, strs_to_strings, join4, views_contain, all_ascii_upper_exec, all_among, all_among_exec, all_listed, all_listed_exec, decimal_exec, distinct_strings, in_list,
    in_strings, is_blank, is_blank_exec, join2, join3, lemma_in_strings_views, list_contains,
    none_among, none_among_exec, opt_listed, opt_listed_exec, opt_seq, opt_view, owned, push_opt,
    str_eq, str_views, string_views, strings_contain, strings_distinct,
};

verus! {

/// A value is present exactly when it is required.
pub open spec fn required_only(required: bool, present: bool) -> bool {
    required == present
}

/// Report `missing` when a required value is absent and `extraneous` when an unrequired one is present.
pub fn validate_required_only(required: bool, present: bool, missing: &str, extraneous: &str) -> (r: Result<(), String>)
    ensures
        r is Ok <==> required_only(required, present),
        r matches Err(e) ==> (required && e@ == missing@) || (!required && e@ == extraneous@),
{
    if required && !present {
        Err(owned(missing))
    } else if !required && present {
        Err(owned(extraneous))
    } else {
        Ok(())
    }
}

/// One of the two literal names.
pub open spec fn is_one_of(s: Seq<char>, a: Seq<char>, b: Seq<char>) -> bool {
    s == a || s == b
}

/// Every selected Skilled tool is among the character's tool proficiencies.
pub open spec fn skilled_tools_recorded(picks: Seq<String>, tools: Seq<String>) -> bool {
    forall|k: int| 0 <= k < picks.len() && is_tool(#[trigger] picks[k]@) ==> in_strings(tools, picks[k]@)
}

/// The category a weapon belongs to.
pub open spec fn weapon_category(w: int) -> Seq<char> {
    if WEAPON_MARTIAL@[w] {
        "Martial"@
    } else {
        "Simple"@
    }
}

impl Character {
    /// Values drawn from closed sets are members of them.
    pub open spec fn closed_values_valid(&self) -> bool {
        &&& in_list(ALIGNMENTS@, self.alignment@)
        &&& (self.srd_class() is Some || self.resolved_pack_class is Some || self.data_pack is Some)
        &&& (self.srd_background() is Some || self.resolved_pack_background is Some || self.data_pack is Some)
        &&& (self.srd_species() is Some || self.data_pack is Some)
        &&& in_list(STANDARD_LANGUAGES@, self.selected_languages@[0]@)
        &&& in_list(STANDARD_LANGUAGES@, self.selected_languages@[1]@)
        &&& (self.class_equipment_option@ == "Gold"@ || forall|k: int|
            0 <= k < self.class_equipment_option@.len() ==> 'A' <= #[trigger] self.class_equipment_option@[k]
                <= 'Z')
        &&& is_one_of(self.background_equipment_option@, "A"@, "Gold"@)
    }

    /// The species subchoices fit the species.
    pub open spec fn species_choices_valid(&self) -> bool {
        match self.srd_species() {
            None => {
                &&& self.dragonborn_ancestry is None
                &&& self.elf_lineage is None
                &&& self.elf_spellcasting_ability is None
                &&& self.elf_keen_senses_skill is None
                &&& self.gnome_lineage is None
                &&& self.gnome_spellcasting_ability is None
                &&& self.goliath_ancestry is None
                &&& self.human_skill is None
                &&& self.human_origin_feat is None
                &&& self.tiefling_legacy is None
                &&& self.tiefling_spellcasting_ability is None
            },
            Some(i) => {
                let sp = self.species@;
                &&& (self.size == Size::Small && SPECIES_SMALL@[i]) || (self.size == Size::Medium
                    && SPECIES_MEDIUM@[i])
                &&& required_only(sp == "Dragonborn"@, self.dragonborn_ancestry is Some)
                &&& opt_listed(self.dragonborn_ancestry, DRACONIC_ANCESTRIES@)
                &&& (sp == "Elf"@ ==> self.elf_lineage is Some && self.elf_spellcasting_ability is Some
                    && self.elf_keen_senses_skill is Some)
                &&& (sp != "Elf"@ ==> self.elf_lineage is None && self.elf_spellcasting_ability is None
                    && self.elf_keen_senses_skill is None)
                &&& opt_listed(self.elf_lineage, ELF_LINEAGES@)
                &&& opt_listed(self.elf_keen_senses_skill, KEEN_SENSES_SKILLS@)
                &&& (sp == "Gnome"@ ==> self.gnome_lineage is Some && self.gnome_spellcasting_ability is Some)
                &&& (sp != "Gnome"@ ==> self.gnome_lineage is None && self.gnome_spellcasting_ability is None)
                &&& opt_listed(self.gnome_lineage, GNOME_LINEAGES@)
                &&& required_only(sp == "Goliath"@, self.goliath_ancestry is Some)
                &&& opt_listed(self.goliath_ancestry, GIANT_ANCESTRIES@)
                &&& (sp == "Human"@ ==> self.human_skill is Some && self.human_origin_feat is Some)
                &&& (sp != "Human"@ ==> self.human_skill is None && self.human_origin_feat is None)
                &&& (self.human_skill matches Some(s) ==> is_skill(s@))
                &&& opt_listed(self.human_origin_feat, ORIGIN_FEATS@)
                &&& (sp == "Tiefling"@ ==> self.tiefling_legacy is Some && self.tiefling_spellcasting_ability is Some)
                &&& (sp != "Tiefling"@ ==> self.tiefling_legacy is None && self.tiefling_spellcasting_ability is None)
                &&& opt_listed(self.tiefling_legacy, FIENDISH_LEGACIES@)
                &&& opt_listed(self.elf_spellcasting_ability, SPELLCASTING_ABILITIES@)
                &&& opt_listed(self.gnome_spellcasting_ability, SPELLCASTING_ABILITIES@)
                &&& opt_listed(self.tiefling_spellcasting_ability, SPELLCASTING_ABILITIES@)
            },
        }
    }

    /// The first closed-set rule the record breaks, as the message that reports it.
    pub open spec fn closed_values_error(&self) -> Option<Seq<char>> {
        if !in_list(ALIGNMENTS@, self.alignment@) {
            Some("invalid alignment: "@ + self.alignment@)
        } else if !(self.srd_class() is Some || self.resolved_pack_class is Some || self.data_pack is Some) {
            Some("unknown SRD class: "@ + self.character_class@)
        } else if !(self.srd_background() is Some || self.resolved_pack_background is Some || self.data_pack is Some) {
            Some("unknown SRD background: "@ + self.background@)
        } else if !(self.srd_species() is Some || self.data_pack is Some) {
            Some("unknown SRD species: "@ + self.species@)
        } else if !in_list(STANDARD_LANGUAGES@, self.selected_languages@[0]@) || !in_list(
            STANDARD_LANGUAGES@,
            self.selected_languages@[1]@,
        ) {
            Some("invalid standard language"@)
        } else if !(self.class_equipment_option@ == "Gold"@ || forall|k: int|
            0 <= k < self.class_equipment_option@.len() ==> 'A' <= #[trigger] self.class_equipment_option@[k]
                <= 'Z') {
            Some("invalid class starting-equipment option"@)
        } else if !is_one_of(self.background_equipment_option@, "A"@, "Gold"@) {
            Some("invalid background starting-equipment option"@)
        } else {
            None
        }
    }

    /// The first species rule the record breaks, as the message that reports it.
    pub open spec fn species_choices_error(&self) -> Option<Seq<char>> {
        match self.srd_species() {
            None => if self.dragonborn_ancestry is Some || self.elf_lineage is Some || self.elf_spellcasting_ability is Some
                || self.elf_keen_senses_skill is Some || self.gnome_lineage is Some
                || self.gnome_spellcasting_ability is Some || self.goliath_ancestry is Some || self.human_skill is Some
                || self.human_origin_feat is Some || self.tiefling_legacy is Some
                || self.tiefling_spellcasting_ability is Some {
                Some("SRD species subchoices are invalid for pack species"@)
            } else {
                None
            },
            Some(i) => {
                let sp = self.species@;
                let is_elf = sp == "Elf"@;
                let is_gnome = sp == "Gnome"@;
                let is_human = sp == "Human"@;
                let is_tiefling = sp == "Tiefling"@;
                if !((self.size == Size::Small && SPECIES_SMALL@[i]) || (self.size == Size::Medium && SPECIES_MEDIUM@[i])) {
                    Some("invalid size for "@ + sp + ": "@ + self.size.name())
                } else if sp == "Dragonborn"@ && self.dragonborn_ancestry is None {
                    Some("Dragonborn characters must choose a draconic ancestry"@)
                } else if sp != "Dragonborn"@ && self.dragonborn_ancestry is Some {
                    Some("draconic ancestry is only valid for Dragonborn characters"@)
                } else if !opt_listed(self.dragonborn_ancestry, DRACONIC_ANCESTRIES@) {
                    Some("invalid draconic ancestry"@)
                } else if is_elf && !(self.elf_lineage is Some && self.elf_spellcasting_ability is Some
                    && self.elf_keen_senses_skill is Some) {
                    Some("Elf characters must choose a lineage, spellcasting ability, and Keen Senses skill"@)
                } else if !is_elf && (self.elf_lineage is Some || self.elf_spellcasting_ability is Some
                    || self.elf_keen_senses_skill is Some) {
                    Some("Elf lineage choices are only valid for Elf characters"@)
                } else if !opt_listed(self.elf_lineage, ELF_LINEAGES@) {
                    Some("invalid Elven lineage"@)
                } else if !opt_listed(self.elf_keen_senses_skill, KEEN_SENSES_SKILLS@) {
                    Some("invalid Keen Senses skill"@)
                } else if is_gnome && !(self.gnome_lineage is Some && self.gnome_spellcasting_ability is Some) {
                    Some("Gnome characters must choose a Gnomish Lineage and spellcasting ability"@)
                } else if !is_gnome && (self.gnome_lineage is Some || self.gnome_spellcasting_ability is Some) {
                    Some("Gnomish Lineage choices are only valid for Gnome characters"@)
                } else if !opt_listed(self.gnome_lineage, GNOME_LINEAGES@) {
                    Some("invalid Gnomish Lineage"@)
                } else if sp == "Goliath"@ && self.goliath_ancestry is None {
                    Some("Goliath characters must choose a Giant Ancestry"@)
                } else if sp != "Goliath"@ && self.goliath_ancestry is Some {
                    Some("Giant Ancestry is only valid for Goliath characters"@)
                } else if !opt_listed(self.goliath_ancestry, GIANT_ANCESTRIES@) {
                    Some("invalid Giant Ancestry"@)
                } else if is_human && !(self.human_skill is Some && self.human_origin_feat is Some) {
                    Some("Human characters must choose an additional skill and Origin feat"@)
                } else if !is_human && (self.human_skill is Some || self.human_origin_feat is Some) {
                    Some("Human species choices are only valid for Human characters"@)
                } else if self.human_skill matches Some(h) && !is_skill(h@) {
                    Some("unknown Human Skillful proficiency: "@ + self.human_skill->0@)
                } else if !opt_listed(self.human_origin_feat, ORIGIN_FEATS@) {
                    Some("invalid Human Origin feat"@)
                } else if is_tiefling && !(self.tiefling_legacy is Some && self.tiefling_spellcasting_ability is Some) {
                    Some("Tiefling characters must choose a Fiendish Legacy and spellcasting ability"@)
                } else if !is_tiefling && (self.tiefling_legacy is Some || self.tiefling_spellcasting_ability is Some) {
                    Some("Fiendish Legacy choices are only valid for Tiefling characters"@)
                } else if !opt_listed(self.tiefling_legacy, FIENDISH_LEGACIES@) {
                    Some("invalid Fiendish Legacy"@)
                } else if !opt_listed(self.elf_spellcasting_ability, SPELLCASTING_ABILITIES@) || !opt_listed(
                    self.gnome_spellcasting_ability,
                    SPELLCASTING_ABILITIES@,
                ) || !opt_listed(self.tiefling_spellcasting_ability, SPELLCASTING_ABILITIES@) {
                    Some("invalid species spellcasting ability"@)
                } else {
                    None
                }
            },
        }
    }

    /// One Magic Initiate selection is legal.
    pub open spec fn magic_choice_valid(&self, c: MagicInitiateChoice) -> bool {
        let list = c.spell_list@;
        &&& is_magic_initiate_list(list)
        &&& in_list(SPELLCASTING_ABILITIES@, c.spellcasting_ability@)
        &&& c.cantrips@[0]@ != c.cantrips@[1]@
        &&& forall|j: int| 0 <= j < 2 ==> (self.spell_on_list_spec(#[trigger] c.cantrips@[j]@, list, 0)
            || self.unresolved_spell_spec(c.cantrips@[j]@))
        &&& (self.spell_on_list_spec(c.level_one_spell@, list, 1) || self.unresolved_spell_spec(c.level_one_spell@))
    }

    /// How many Magic Initiate selections the Origin feats call for.
    pub open spec fn expected_magic_choices(&self) -> int {
        (if self.background_magic_list_spec() is Some { 1int } else { 0int }) + (if opt_view(self.human_origin_feat)
            == Some("Magic Initiate"@) {
            1int
        } else {
            0int
        })
    }

    /// How many Skilled feats the character has.
    pub open spec fn skilled_feats(&self) -> int {
        (if self.background_feat_spec() == Some("Skilled"@) { 1int } else { 0int }) + (if opt_view(self.human_origin_feat)
            == Some("Skilled"@) {
            1int
        } else {
            0int
        })
    }

    /// The Origin feats and their selections are consistent.
    pub open spec fn origin_choices_valid(&self) -> bool {
        match self.background_feat_spec() {
            None => true,
            Some(feat) => {
                let bg_skills = self.background_skills_spec();
                let choices = self.magic_initiate_choices@;
                let picks = self.skilled_proficiencies@;
                let existing = bg_skills + opt_seq(self.human_skill) + opt_seq(self.elf_keen_senses_skill);
                &&& !(opt_view(self.human_origin_feat) == Some(feat) && feat != "Magic Initiate"@ && feat
                    != "Skilled"@)
                &&& !(self.human_skill matches Some(h) && bg_skills.contains(h@))
                &&& choices.len() == self.expected_magic_choices()
                &&& forall|k: int| 0 <= k < choices.len() ==> self.magic_choice_valid(#[trigger] choices[k])
                &&& forall|a: int, b: int|
                    0 <= a < b < choices.len() ==> #[trigger] choices[a].spell_list@ != #[trigger] choices[b].spell_list@
                &&& (self.background_magic_list_spec() matches Some(req) ==> exists|k: int|
                    0 <= k < choices.len() && #[trigger] choices[k].spell_list@ == req)
                &&& picks.len() == 3 * self.skilled_feats()
                &&& distinct_strings(picks)
                &&& forall|k: int| 0 <= k < picks.len() ==> is_skill(#[trigger] picks[k]@) || is_tool(picks[k]@)
                &&& none_among(picks, existing)
                &&& skilled_tools_recorded(picks, self.tool_proficiencies@)
            },
        }
    }

    /// The first rule a Magic Initiate selection breaks, as the message that reports it.
    pub open spec fn magic_choice_error(&self, c: MagicInitiateChoice) -> Option<Seq<char>> {
        let list = c.spell_list@;
        if !is_magic_initiate_list(list) {
            Some("invalid Magic Initiate spell list"@)
        } else if !in_list(SPELLCASTING_ABILITIES@, c.spellcasting_ability@) {
            Some("invalid Magic Initiate spellcasting ability"@)
        } else if c.cantrips@[0]@ == c.cantrips@[1]@ {
            Some("Magic Initiate requires two different cantrips"@)
        } else if !(forall|j: int| 0 <= j < 2 ==> (self.spell_on_list_spec(#[trigger] c.cantrips@[j]@, list, 0)
            || self.unresolved_spell_spec(c.cantrips@[j]@))) {
            Some("Magic Initiate cantrips must come from the "@ + list + " list"@)
        } else if !(self.spell_on_list_spec(c.level_one_spell@, list, 1) || self.unresolved_spell_spec(c.level_one_spell@)) {
            Some("Magic Initiate level 1 spell must come from the "@ + list + " list"@)
        } else {
            None
        }
    }

    /// An earlier selection uses the same spell list as selection `k`.
    pub open spec fn repeats_list(choices: Seq<MagicInitiateChoice>, k: int) -> bool {
        exists|a: int| 0 <= a < k && #[trigger] choices[a].spell_list@ == choices[k].spell_list@
    }

    /// The first selection, from `k` on, that is illegal or repeats a spell list.
    pub open spec fn first_bad_magic_from(&self, choices: Seq<MagicInitiateChoice>, k: int) -> Option<int>
        decreases choices.len() - k,
    {
        if k < 0 || k >= choices.len() {
            None
        } else if !self.magic_choice_valid(choices[k]) || Self::repeats_list(choices, k) {
            Some(k)
        } else {
            self.first_bad_magic_from(choices, k + 1)
        }
    }

    /// The first Origin feat rule the record breaks, as the message that reports it.
    pub open spec fn origin_choices_error(&self) -> Option<Seq<char>> {
        match self.background_feat_spec() {
            None => None,
            Some(feat) => {
                let bg_skills = self.background_skills_spec();
                let choices = self.magic_initiate_choices@;
                let picks = self.skilled_proficiencies@;
                let existing = bg_skills + opt_seq(self.human_skill) + opt_seq(self.elf_keen_senses_skill);
                if opt_view(self.human_origin_feat) == Some(feat) && feat != "Magic Initiate"@ && feat != "Skilled"@ {
                    Some("the "@ + feat + " Origin feat can be taken only once"@)
                } else if self.human_skill matches Some(h) && bg_skills.contains(h@) {
                    Some("the Human Skillful proficiency must be additional to background skills"@)
                } else if choices.len() != self.expected_magic_choices() {
                    Some("character requires exactly "@ + decimal(self.expected_magic_choices() as nat)
                        + " Magic Initiate choice(s)"@)
                } else if self.first_bad_magic_from(choices, 0) is Some {
                    let k = self.first_bad_magic_from(choices, 0)->0;
                    if !self.magic_choice_valid(choices[k]) {
                        self.magic_choice_error(choices[k])
                    } else {
                        Some("repeatable Magic Initiate choices must use different spell lists"@)
                    }
                } else if self.background_magic_list_spec() matches Some(req) && !(exists|k: int|
                    0 <= k < choices.len() && #[trigger] choices[k].spell_list@ == req) {
                    Some("the "@ + self.background@ + " background requires Magic Initiate ("@
                        + self.background_magic_list_spec()->0 + ")"@)
                } else if !(picks.len() == 3 * self.skilled_feats() && distinct_strings(picks)) {
                    Some("Skilled requires exactly "@ + decimal((3 * self.skilled_feats()) as nat)
                        + " distinct skill or tool proficiencies"@)
                } else if !(forall|k: int| 0 <= k < picks.len() ==> is_skill(#[trigger] picks[k]@) || is_tool(picks[k]@)) {
                    Some("unknown Skilled proficiencies"@)
                } else if !none_among(picks, existing) {
                    Some("Skilled must grant proficiencies the character does not already have"@)
                } else if !skilled_tools_recorded(picks, self.tool_proficiencies@) {
                    Some("Skilled tool choices must be included in tool proficiencies"@)
                } else {
                    None
                }
            },
        }
    }

    /// Whether the class is the SRD class with the literal name.
    pub open spec fn is_class(&self, name: Seq<char>) -> bool {
        self.character_class@ == name
    }

    /// The number of class skills the class lets the character choose.
    pub open spec fn class_skill_count_spec(&self) -> int {
        match self.resolved_pack_class {
            Some(p) => p.skill_count as int,
            None => CLASS_SKILL_COUNTS@[self.srd_class()->0] as int,
        }
    }

    /// The skills the class offers.
    pub open spec fn class_skill_options_spec(&self) -> Seq<Seq<char>> {
        match self.resolved_pack_class {
            Some(p) => string_views(p.skills@),
            None => str_views(class_skill_options(self.srd_class()->0)),
        }
    }

    /// The number of weapon masteries the class grants.
    pub open spec fn mastery_count_spec(&self) -> int {
        match self.resolved_pack_class {
            Some(p) => p.weapon_mastery_count as int,
            None => CLASS_MASTERY_COUNTS@[self.srd_class()->0] as int,
        }
    }

    /// A weapon mastery selection is legal for the class.
    pub open spec fn mastery_ok(&self, weapon: Seq<char>) -> bool {
        match weapon_index(weapon) {
            None => false,
            Some(w) => match self.resolved_pack_class {
                Some(p) => in_strings(p.weapon_training@, weapon_category(w)),
                None => !(self.is_class("Barbarian"@) && WEAPON_RANGED@[w]) && !(self.is_class("Rogue"@)
                    && WEAPON_MARTIAL@[w] && !WEAPON_FINESSE_OR_LIGHT@[w]),
            },
        }
    }

    /// The pack class choice offers an option with the ID.
    pub open spec fn option_offered(choice: PackClassChoice, id: Seq<char>) -> bool {
        exists|o: int| 0 <= o < choice.options@.len() && #[trigger] choice.options@[o].id@ == id
    }

    /// The selection for one pack class choice is legal.
    pub open spec fn pack_selection_ok(selected: Seq<String>, choice: PackClassChoice) -> bool {
        &&& selected.len() == choice.count
        &&& distinct_strings(selected)
        &&& forall|k: int| 0 <= k < selected.len() ==> Self::option_offered(choice, #[trigger] selected[k]@)
    }

    /// Some entry answers the choice with a legal selection.
    pub open spec fn choice_answered(entries: Seq<(String, Vec<String>)>, choice: PackClassChoice) -> bool {
        exists|k: int|
            0 <= k < entries.len() && #[trigger] entries[k].0@ == choice.id@ && Self::pack_selection_ok(
                entries[k].1@,
                choice,
            )
    }

    /// Some choice of the class has the ID.
    pub open spec fn choice_known(choices: Seq<PackClassChoice>, id: Seq<char>) -> bool {
        exists|c: int| 0 <= c < choices.len() && #[trigger] choices[c].id@ == id
    }

    /// The pack class choices are answered exactly.
    pub open spec fn pack_choices_valid(&self) -> bool {
        let entries = self.class_choices.pack_choices@;
        match self.resolved_pack_class {
            None => entries.len() == 0,
            Some(p) => {
                &&& entries.len() == p.choices@.len()
                &&& forall|a: int, b: int|
                    0 <= a < entries.len() && 0 <= b < entries.len() && a != b ==> #[trigger] entries[a].0@
                        != #[trigger] entries[b].0@
                &&& forall|c: int| 0 <= c < p.choices@.len() ==> Self::choice_answered(entries, #[trigger] p.choices@[c])
                &&& forall|k: int| 0 <= k < entries.len() ==> Self::choice_known(p.choices@, (#[trigger] entries[k]).0@)
            },
        }
    }

    /// Some entry answers the choice with the ID.
    pub open spec fn entry_named(entries: Seq<(String, Vec<String>)>, id: Seq<char>) -> bool {
        exists|y: int| 0 <= y < entries.len() && #[trigger] entries[y].0@ == id
    }

    /// No entry answers the choice with a legal selection.
    pub open spec fn choice_unanswered(entries: Seq<(String, Vec<String>)>, choice: PackClassChoice) -> bool {
        !Self::choice_answered(entries, choice)
    }

    /// The first pack class choice rule the record breaks, as the message that reports it.
    pub open spec fn pack_choices_error(&self) -> Option<Seq<char>> {
        let entries = self.class_choices.pack_choices@;
        match self.resolved_pack_class {
            None => if entries.len() != 0 {
                Some("pack class choices require a resolved pack class"@)
            } else {
                None
            },
            Some(p) => if entries.len() != p.choices@.len() {
                Some(p.name@ + " requires exactly one selection set for each class choice"@)
            } else if !(forall|a: int, b: int|
                0 <= a < entries.len() && 0 <= b < entries.len() && a != b ==> #[trigger] entries[a].0@
                    != #[trigger] entries[b].0@) {
                Some("duplicate pack class choice"@)
            } else {
                match first_where(p.choices@, |c: PackClassChoice| Self::choice_unanswered(entries, c)) {
                    Some(c) => if Self::entry_named(entries, p.choices@[c].id@) {
                        Some("invalid "@ + p.choices@[c].label@ + " choice"@)
                    } else {
                        Some("missing "@ + p.choices@[c].label@ + " choice"@)
                    },
                    None => if !(forall|k: int| 0 <= k < entries.len() ==> Self::choice_known(p.choices@, (#[trigger] entries[k]).0@)) {
                        Some("unknown pack class choice"@)
                    } else {
                        None
                    },
                }
            },
        }
    }

    /// The number of class tool proficiencies the class lets the character choose.
    pub open spec fn expected_tools(&self) -> int {
        if self.is_class("Bard"@) {
            3
        } else if self.is_class("Monk"@) {
            1
        } else {
            0
        }
    }

    /// The cantrips the class grants, before order bonuses.
    pub open spec fn base_cantrips(&self) -> int {
        match self.resolved_pack_class {
            Some(p) => match p.spellcasting {
                Some(sc) => sc.cantrip_count as int,
                None => 0,
            },
            None => CLASS_CANTRIP_COUNTS@[self.srd_class()->0] as int,
        }
    }

    /// The number of class cantrips the character must know.
    pub open spec fn expected_cantrips(&self) -> int {
        self.base_cantrips() + if opt_view(self.class_choices.divine_order) == Some("Thaumaturge"@) || opt_view(
            self.class_choices.primal_order,
        ) == Some("Magician"@) {
            1int
        } else {
            0int
        }
    }

    /// The number of class spells the character must prepare.
    pub open spec fn expected_prepared(&self) -> int {
        match self.resolved_pack_class {
            Some(p) => match p.spellcasting {
                Some(sc) => sc.prepared_spell_count as int,
                None => 0,
            },
            None => CLASS_PREPARED_COUNTS@[self.srd_class()->0] as int,
        }
    }

    /// The list class spells come from.
    pub open spec fn class_spell_list_spec(&self) -> Seq<char> {
        match self.resolved_pack_class {
            Some(p) => match p.spellcasting {
                Some(sc) => sc.spell_list@,
                None => self.character_class@,
            },
            None => self.character_class@,
        }
    }

    /// The class selections are legal.
    pub open spec fn class_choices_valid(&self) -> bool {
        let cc = self.class_choices;
        let granted = self.background_skills_spec() + crate::derived::skill_picks(self.skilled_proficiencies@)
            + opt_seq(self.human_skill) + opt_seq(self.elf_keen_senses_skill);
        let list = self.class_spell_list_spec();
        &&& self.class_skills@.len() == self.class_skill_count_spec()
        &&& distinct_strings(self.class_skills@)
        &&& all_among(self.class_skills@, self.class_skill_options_spec())
        &&& none_among(self.class_skills@, granted)
        &&& cc.weapon_masteries@.len() == self.mastery_count_spec()
        &&& distinct_strings(cc.weapon_masteries@)
        &&& forall|k: int| 0 <= k < cc.weapon_masteries@.len() ==> self.mastery_ok(#[trigger] cc.weapon_masteries@[k]@)
        &&& self.pack_choices_valid()
        &&& cc.tools@.len() == self.expected_tools()
        &&& distinct_strings(cc.tools@)
        &&& (self.is_class("Bard"@) ==> all_listed(cc.tools@, MUSICAL_INSTRUMENTS@))
        &&& (self.is_class("Monk"@) ==> forall|k: int|
            0 <= k < cc.tools@.len() ==> in_list(MUSICAL_INSTRUMENTS@, #[trigger] cc.tools@[k]@) || in_list(
                ARTISAN_TOOLS@,
                cc.tools@[k]@,
            ))
        &&& cc.expertise@.len() == (if self.is_class("Rogue"@) { 2int } else { 0int })
        &&& distinct_strings(cc.expertise@)
        &&& all_among(cc.expertise@, self.skills_spec())
        &&& required_only(self.is_class("Cleric"@), cc.divine_order is Some)
        &&& required_only(self.is_class("Druid"@), cc.primal_order is Some)
        &&& required_only(self.is_class("Fighter"@), cc.fighting_style is Some)
        &&& required_only(self.is_class("Warlock"@), cc.eldritch_invocation is Some)
        &&& required_only(self.is_class("Rogue"@), cc.additional_language is Some)
        &&& opt_listed(cc.divine_order, DIVINE_ORDERS@)
        &&& opt_listed(cc.primal_order, PRIMAL_ORDERS@)
        &&& opt_listed(cc.fighting_style, FIGHTING_STYLES@)
        &&& opt_listed(cc.eldritch_invocation, WARLOCK_INVOCATIONS@)
        &&& cc.cantrips@.len() == self.expected_cantrips()
        &&& distinct_strings(cc.cantrips@)
        &&& forall|k: int|
            0 <= k < cc.cantrips@.len() ==> self.spell_on_list_spec(#[trigger] cc.cantrips@[k]@, list, 0)
                || self.unresolved_spell_spec(cc.cantrips@[k]@)
        &&& cc.prepared_spells@.len() == self.expected_prepared()
        &&& distinct_strings(cc.prepared_spells@)
        &&& forall|k: int|
            0 <= k < cc.prepared_spells@.len() ==> (self.spell_on_list_spec(#[trigger] cc.prepared_spells@[k]@, list, 1)
                || self.unresolved_spell_spec(cc.prepared_spells@[k]@)) && !(self.resolved_pack_class is None
                && in_list(always_prepared(self.character_class@), cc.prepared_spells@[k]@))
        &&& cc.spellbook_spells@.len() == (if self.is_class("Wizard"@) { 6int } else { 0int })
        &&& distinct_strings(cc.spellbook_spells@)
        &&& forall|k: int|
            0 <= k < cc.spellbook_spells@.len() ==> self.spell_on_list_spec(#[trigger] cc.spellbook_spells@[k]@, "Wizard"@, 1)
                || self.unresolved_spell_spec(cc.spellbook_spells@[k]@)
        &&& (self.is_class("Wizard"@) ==> all_among(cc.prepared_spells@, string_views(cc.spellbook_spells@)))
        &&& (cc.additional_language matches Some(l) ==> in_list(STANDARD_LANGUAGES@, l@) && l@
            != self.selected_languages@[0]@ && l@ != self.selected_languages@[1]@)
    }

    /// The cantrips have the class's number and come from its list.
    pub open spec fn cantrips_ok(&self) -> bool {
        let cc = self.class_choices;
        &&& cc.cantrips@.len() == self.expected_cantrips()
        &&& distinct_strings(cc.cantrips@)
        &&& forall|k: int|
            0 <= k < cc.cantrips@.len() ==> self.spell_on_list_spec(#[trigger] cc.cantrips@[k]@, self.class_spell_list_spec(), 0)
                || self.unresolved_spell_spec(cc.cantrips@[k]@)
    }

    /// The prepared spells have the class's number, come from its list, and
    /// leave out the spells an SRD class always has prepared.
    pub open spec fn prepared_ok(&self) -> bool {
        let cc = self.class_choices;
        &&& cc.prepared_spells@.len() == self.expected_prepared()
        &&& distinct_strings(cc.prepared_spells@)
        &&& forall|k: int|
            0 <= k < cc.prepared_spells@.len() ==> (self.spell_on_list_spec(#[trigger] cc.prepared_spells@[k]@, self.class_spell_list_spec(), 1)
                || self.unresolved_spell_spec(cc.prepared_spells@[k]@)) && !(self.resolved_pack_class is None
                && in_list(always_prepared(self.character_class@), cc.prepared_spells@[k]@))
    }

    /// The first class rule the record breaks, as the message that reports it.
    pub open spec fn class_choices_error(&self) -> Option<Seq<char>> {
        let cc = self.class_choices;
        let class = self.character_class@;
        let granted = self.background_skills_spec() + crate::derived::skill_picks(self.skilled_proficiencies@)
            + opt_seq(self.human_skill) + opt_seq(self.elf_keen_senses_skill);
        let expertise = if self.is_class("Rogue"@) { 2int } else { 0int };
        let spellbook = if self.is_class("Wizard"@) { 6int } else { 0int };
        if !(self.class_skills@.len() == self.class_skill_count_spec() && distinct_strings(self.class_skills@)) {
            Some(self.class_display() + " requires exactly "@ + decimal(self.class_skill_count_spec() as nat) + " class skills"@)
        } else if !all_among(self.class_skills@, self.class_skill_options_spec()) {
            Some("invalid "@ + self.class_display() + " class skill choice"@)
        } else if !none_among(self.class_skills@, granted) {
            Some("class skills must not duplicate another granted proficiency"@)
        } else if !(cc.weapon_masteries@.len() == self.mastery_count_spec() && distinct_strings(cc.weapon_masteries@)) {
            Some(class + " requires exactly "@ + decimal(self.mastery_count_spec() as nat) + " weapon masteries"@)
        } else if !(forall|k: int| 0 <= k < cc.weapon_masteries@.len() ==> self.mastery_ok(#[trigger] cc.weapon_masteries@[k]@)) {
            Some("invalid "@ + class + " weapon mastery choice"@)
        } else if self.pack_choices_error() is Some {
            self.pack_choices_error()
        } else if !(cc.tools@.len() == self.expected_tools() && distinct_strings(cc.tools@)) {
            Some(class + " requires exactly "@ + decimal(self.expected_tools() as nat) + " class tool choices"@)
        } else if self.is_class("Bard"@) && !all_listed(cc.tools@, MUSICAL_INSTRUMENTS@) {
            Some("invalid Bard class tool choice"@)
        } else if self.is_class("Monk"@) && !(forall|k: int|
            0 <= k < cc.tools@.len() ==> in_list(MUSICAL_INSTRUMENTS@, #[trigger] cc.tools@[k]@) || in_list(
                ARTISAN_TOOLS@,
                cc.tools@[k]@,
            )) {
            Some("invalid Monk class tool choice"@)
        } else if !(cc.expertise@.len() == expertise && distinct_strings(cc.expertise@)) {
            Some(class + " requires exactly "@ + decimal(expertise as nat) + " Expertise choices"@)
        } else if !all_among(cc.expertise@, self.skills_spec()) {
            Some("Expertise choices must be existing skill proficiencies"@)
        } else if !required_only(self.is_class("Cleric"@), cc.divine_order is Some) {
            Some("Divine Order is required only for Clerics"@)
        } else if !required_only(self.is_class("Druid"@), cc.primal_order is Some) {
            Some("Primal Order is required only for Druids"@)
        } else if !required_only(self.is_class("Fighter"@), cc.fighting_style is Some) {
            Some("Fighting Style is required only for Fighters"@)
        } else if !required_only(self.is_class("Warlock"@), cc.eldritch_invocation is Some) {
            Some("an Eldritch Invocation is required only for Warlocks"@)
        } else if !required_only(self.is_class("Rogue"@), cc.additional_language is Some) {
            Some("an additional language is required only for Rogues"@)
        } else if !opt_listed(cc.divine_order, DIVINE_ORDERS@) {
            Some("invalid Divine Order"@)
        } else if !opt_listed(cc.primal_order, PRIMAL_ORDERS@) {
            Some("invalid Primal Order"@)
        } else if !opt_listed(cc.fighting_style, FIGHTING_STYLES@) {
            Some("invalid Fighter Fighting Style"@)
        } else if !opt_listed(cc.eldritch_invocation, WARLOCK_INVOCATIONS@) {
            Some("invalid level-1 Warlock invocation"@)
        } else if !self.cantrips_ok() {
            Some("invalid number or selection of "@ + class + " cantrips"@)
        } else if !self.prepared_ok() {
            Some("invalid number or selection of "@ + class + " prepared spells"@)
        } else if !(cc.spellbook_spells@.len() == spellbook && distinct_strings(cc.spellbook_spells@)) {
            Some(class + " requires exactly "@ + decimal(spellbook as nat) + " spellbook spells"@)
        } else if !(forall|k: int|
            0 <= k < cc.spellbook_spells@.len() ==> self.spell_on_list_spec(#[trigger] cc.spellbook_spells@[k]@, "Wizard"@, 1)
                || self.unresolved_spell_spec(cc.spellbook_spells@[k]@)) {
            Some("Wizard spellbook spells must be level 1 Wizard spells"@)
        } else if self.is_class("Wizard"@) && !all_among(cc.prepared_spells@, string_views(cc.spellbook_spells@)) {
            Some("Wizard prepared spells must be in the character's spellbook"@)
        } else {
            match cc.additional_language {
                Some(l) => if !in_list(STANDARD_LANGUAGES@, l@) {
                    Some("invalid Rogue additional language"@)
                } else if l@ == self.selected_languages@[0]@ || l@ == self.selected_languages@[1]@ {
                    Some("the Rogue additional language must be a new language"@)
                } else {
                    None
                },
                None => None,
            }
        }
    }

    /// The equipment options exist for the class and the Bard instrument matches.
    pub open spec fn equipment_choices_valid(&self) -> bool {
        let option = self.class_equipment_option@;
        &&& match self.resolved_pack_class {
            Some(_) => is_one_of(option, "A"@, "Gold"@),
            None => option == "Gold"@ || class_package(self.srd_class()->0, option) is Some,
        }
        &&& if self.is_class("Bard"@) && option != "Gold"@ {
            self.bard_starting_instrument matches Some(b) && in_strings(self.class_choices.tools@, b@)
        } else {
            self.bard_starting_instrument is None
        }
    }

    /// The first equipment rule the record breaks, as the message that reports it.
    pub open spec fn equipment_choices_error(&self) -> Option<Seq<char>> {
        let option = self.class_equipment_option@;
        let valid_option = match self.resolved_pack_class {
            Some(_) => is_one_of(option, "A"@, "Gold"@),
            None => option == "Gold"@ || class_package(self.srd_class()->0, option) is Some,
        };
        if !valid_option {
            Some("invalid "@ + self.character_class@ + " starting-equipment option: "@ + option)
        } else if self.is_class("Bard"@) && option != "Gold"@ {
            if self.bard_starting_instrument matches Some(b) && in_strings(self.class_choices.tools@, b@) {
                None
            } else {
                Some("the Bard starting instrument must be one of the chosen proficiencies"@)
            }
        } else if self.bard_starting_instrument is Some {
            Some("a Bard starting instrument requires the Bard equipment package"@)
        } else {
            None
        }
    }

    /// The first rule the record breaks, as the message that reports it; none
    /// for a valid record.
    pub open spec fn validation_error(&self) -> Option<Seq<char>> {
        if is_blank(self.name@) {
            Some("name must not be empty"@)
        } else if !(1 <= self.level <= 20) {
            Some("level must be between 1 and 20"@)
        } else if !self.abilities.valid() {
            Some("ability scores must be between 1 and 20"@)
        } else if self.selected_languages@[0]@ == self.selected_languages@[1]@ {
            Some("choose two different standard languages"@)
        } else if self.closed_values_error() is Some {
            self.closed_values_error()
        } else if self.species_choices_error() is Some {
            self.species_choices_error()
        } else if !(self.srd_background() is Some || self.resolved_pack_background is Some) {
            None
        } else if self.origin_choices_error() is Some {
            self.origin_choices_error()
        } else if !(self.srd_class() is Some || self.resolved_pack_class is Some) {
            None
        } else if self.class_choices_error() is Some {
            self.class_choices_error()
        } else {
            self.equipment_choices_error()
        }
    }

    /// The record satisfies every rule, given the pack mechanics resolved into it.
    ///
    /// Origin rules apply once the background is known (SRD or resolved from a pack),
    /// and class and equipment rules once the class is known as well.
    pub open spec fn valid(&self) -> bool {
        &&& !is_blank(self.name@)
        &&& 1 <= self.level <= 20
        &&& self.abilities.valid()
        &&& self.selected_languages@[0]@ != self.selected_languages@[1]@
        &&& self.closed_values_valid()
        &&& self.species_choices_valid()
        &&& ((self.srd_background() is Some || self.resolved_pack_background is Some) ==> {
            &&& self.origin_choices_valid()
            &&& ((self.srd_class() is Some || self.resolved_pack_class is Some) ==> {
                &&& self.class_choices_valid()
                &&& self.equipment_choices_valid()
            })
        })
    }
}


impl Character {
    fn is_class_exec(&self, name: &str) -> (r: bool)
        ensures
            r == self.is_class(name@),
    {
        str_eq(self.character_class.as_str(), name)
    }

    /// Check that values drawn from closed sets are members of them.
    pub fn validate_closed_values(&self) -> (r: Result<(), String>)
        ensures
            r is Ok <==> self.closed_values_valid(),
            match self.closed_values_error() {
                None => r is Ok,
                Some(m) => r matches Err(e) && e@ == m,
            },
    {
        if !list_contains(ALIGNMENTS.as_slice(), self.alignment.as_str()) {
            return Err(join2("invalid alignment: ", self.alignment.as_str()));
        }
        if class_index_exec(self.character_class.as_str()).is_none() && self.resolved_pack_class.is_none()
            && self.data_pack.is_none() {
            return Err(join2("unknown SRD class: ", self.character_class.as_str()));
        }
        if background_index_exec(self.background.as_str()).is_none()
            && self.resolved_pack_background.is_none() && self.data_pack.is_none() {
            return Err(join2("unknown SRD background: ", self.background.as_str()));
        }
        if species_index_exec(self.species.as_str()).is_none() && self.data_pack.is_none() {
            return Err(join2("unknown SRD species: ", self.species.as_str()));
        }
        if !list_contains(STANDARD_LANGUAGES.as_slice(), self.selected_languages[0].as_str())
            || !list_contains(STANDARD_LANGUAGES.as_slice(), self.selected_languages[1].as_str()) {
            return Err(owned("invalid standard language"));
        }
        if !str_eq(self.class_equipment_option.as_str(), "Gold") && !all_ascii_upper_exec(
            self.class_equipment_option.as_str(),
        ) {
            return Err(owned("invalid class starting-equipment option"));
        }
        if !str_eq(self.background_equipment_option.as_str(), "A") && !str_eq(
            self.background_equipment_option.as_str(),
            "Gold",
        ) {
            return Err(owned("invalid background starting-equipment option"));
        }
        Ok(())
    }

    /// Check that the species subchoices fit the species.
    pub fn validate_species_choices(&self) -> (r: Result<(), String>)
        ensures
            r is Ok <==> self.species_choices_valid(),
            match self.species_choices_error() {
                None => r is Ok,
                Some(m) => r matches Err(e) && e@ == m,
            },
    {
        let i = match species_index_exec(self.species.as_str()) {
            Some(i) => i,
            None => {
                if self.dragonborn_ancestry.is_some() || self.elf_lineage.is_some()
                    || self.elf_spellcasting_ability.is_some() || self.elf_keen_senses_skill.is_some()
                    || self.gnome_lineage.is_some() || self.gnome_spellcasting_ability.is_some()
                    || self.goliath_ancestry.is_some() || self.human_skill.is_some()
                    || self.human_origin_feat.is_some() || self.tiefling_legacy.is_some()
                    || self.tiefling_spellcasting_ability.is_some() {
                    return Err(owned("SRD species subchoices are invalid for pack species"));
                }
                return Ok(());
            },
        };
        let size_ok = match self.size {
            Size::Small => SPECIES_SMALL[i],
            Size::Medium => SPECIES_MEDIUM[i],
        };
        if !size_ok {
            return Err(join3(join2("invalid size for ", self.species.as_str()).as_str(), ": ", self.size.as_str()));
        }
        let sp = self.species.as_str();
        validate_required_only(
            str_eq(sp, "Dragonborn"),
            self.dragonborn_ancestry.is_some(),
            "Dragonborn characters must choose a draconic ancestry",
            "draconic ancestry is only valid for Dragonborn characters",
        )?;
        if !opt_listed_exec(&self.dragonborn_ancestry, DRACONIC_ANCESTRIES.as_slice()) {
            return Err(owned("invalid draconic ancestry"));
        }
        let elf_choices = self.elf_lineage.is_some() && self.elf_spellcasting_ability.is_some()
            && self.elf_keen_senses_skill.is_some();
        let any_elf = self.elf_lineage.is_some() || self.elf_spellcasting_ability.is_some()
            || self.elf_keen_senses_skill.is_some();
        let is_elf = str_eq(sp, "Elf");
        if is_elf && !elf_choices {
            return Err(owned("Elf characters must choose a lineage, spellcasting ability, and Keen Senses skill"));
        }
        if !is_elf && any_elf {
            return Err(owned("Elf lineage choices are only valid for Elf characters"));
        }
        if !opt_listed_exec(&self.elf_lineage, ELF_LINEAGES.as_slice()) {
            return Err(owned("invalid Elven lineage"));
        }
        if !opt_listed_exec(&self.elf_keen_senses_skill, KEEN_SENSES_SKILLS.as_slice()) {
            return Err(owned("invalid Keen Senses skill"));
        }
        let all_gnome = self.gnome_lineage.is_some() && self.gnome_spellcasting_ability.is_some();
        let any_gnome = self.gnome_lineage.is_some() || self.gnome_spellcasting_ability.is_some();
        let is_gnome = str_eq(sp, "Gnome");
        if is_gnome && !all_gnome {
            return Err(owned("Gnome characters must choose a Gnomish Lineage and spellcasting ability"));
        }
        if !is_gnome && any_gnome {
            return Err(owned("Gnomish Lineage choices are only valid for Gnome characters"));
        }
        if !opt_listed_exec(&self.gnome_lineage, GNOME_LINEAGES.as_slice()) {
            return Err(owned("invalid Gnomish Lineage"));
        }
        validate_required_only(
            str_eq(sp, "Goliath"),
            self.goliath_ancestry.is_some(),
            "Goliath characters must choose a Giant Ancestry",
            "Giant Ancestry is only valid for Goliath characters",
        )?;
        if !opt_listed_exec(&self.goliath_ancestry, GIANT_ANCESTRIES.as_slice()) {
            return Err(owned("invalid Giant Ancestry"));
        }
        let all_human = self.human_skill.is_some() && self.human_origin_feat.is_some();
        let any_human = self.human_skill.is_some() || self.human_origin_feat.is_some();
        let is_human = str_eq(sp, "Human");
        if is_human && !all_human {
            return Err(owned("Human characters must choose an additional skill and Origin feat"));
        }
        if !is_human && any_human {
            return Err(owned("Human species choices are only valid for Human characters"));
        }
        if let Some(skill) = &self.human_skill {
            if !is_skill_exec(skill.as_str()) {
                return Err(join2("unknown Human Skillful proficiency: ", skill.as_str()));
            }
        }
        if !opt_listed_exec(&self.human_origin_feat, ORIGIN_FEATS.as_slice()) {
            return Err(owned("invalid Human Origin feat"));
        }
        let all_tiefling = self.tiefling_legacy.is_some() && self.tiefling_spellcasting_ability.is_some();
        let any_tiefling = self.tiefling_legacy.is_some() || self.tiefling_spellcasting_ability.is_some();
        let is_tiefling = str_eq(sp, "Tiefling");
        if is_tiefling && !all_tiefling {
            return Err(owned("Tiefling characters must choose a Fiendish Legacy and spellcasting ability"));
        }
        if !is_tiefling && any_tiefling {
            return Err(owned("Fiendish Legacy choices are only valid for Tiefling characters"));
        }
        if !opt_listed_exec(&self.tiefling_legacy, FIENDISH_LEGACIES.as_slice()) {
            return Err(owned("invalid Fiendish Legacy"));
        }
        if !opt_listed_exec(&self.elf_spellcasting_ability, SPELLCASTING_ABILITIES.as_slice())
            || !opt_listed_exec(&self.gnome_spellcasting_ability, SPELLCASTING_ABILITIES.as_slice())
            || !opt_listed_exec(&self.tiefling_spellcasting_ability, SPELLCASTING_ABILITIES.as_slice()) {
            return Err(owned("invalid species spellcasting ability"));
        }
        Ok(())
    }

    /// Check one Magic Initiate selection.
    pub fn validate_magic_choice(&self, c: &MagicInitiateChoice) -> (r: Result<(), String>)
        ensures
            r is Ok <==> self.magic_choice_valid(*c),
            match self.magic_choice_error(*c) {
                None => r is Ok,
                Some(m) => r matches Err(e) && e@ == m,
            },
    {
        let list = c.spell_list.as_str();
        if !is_magic_initiate_list_exec(list) {
            return Err(owned("invalid Magic Initiate spell list"));
        }
        if !list_contains(SPELLCASTING_ABILITIES.as_slice(), c.spellcasting_ability.as_str()) {
            return Err(owned("invalid Magic Initiate spellcasting ability"));
        }
        if c.cantrips[0] == c.cantrips[1] {
            return Err(owned("Magic Initiate requires two different cantrips"));
        }
        let first_ok = self.spell_is_on_list(c.cantrips[0].as_str(), list, 0) || self.unresolved_pack_spell(
            c.cantrips[0].as_str(),
        );
        let second_ok = self.spell_is_on_list(c.cantrips[1].as_str(), list, 0) || self.unresolved_pack_spell(
            c.cantrips[1].as_str(),
        );
        if !first_ok || !second_ok {
            return Err(join3("Magic Initiate cantrips must come from the ", list, " list"));
        }
        assert(forall|j: int| 0 <= j < 2 ==> (self.spell_on_list_spec(#[trigger] c.cantrips@[j]@, list@, 0)
            || self.unresolved_spell_spec(c.cantrips@[j]@))) by {
            assert(c.cantrips@[0] == c.cantrips[0]);
            assert(c.cantrips@[1] == c.cantrips[1]);
        }
        if !self.spell_is_on_list(c.level_one_spell.as_str(), list, 1) && !self.unresolved_pack_spell(
            c.level_one_spell.as_str(),
        ) {
            return Err(join3("Magic Initiate level 1 spell must come from the ", list, " list"));
        }
        Ok(())
    }

    /// Check that the Origin feats and their selections are consistent.
    #[verifier::loop_isolation(false)]
    pub fn validate_origin_choices(&self) -> (r: Result<(), String>)
        ensures
            r is Ok <==> self.origin_choices_valid(),
            match self.origin_choices_error() {
                None => r is Ok,
                Some(m) => r matches Err(e) && e@ == m,
            },
    {
        let feat = match self.background_feat() {
            Some(f) => f,
            None => return Ok(()),
        };
        let feat = feat.as_str();
        let bg_skills = self.background_skills();
        if let Some(h) = &self.human_origin_feat {
            if str_eq(h.as_str(), feat) && !str_eq(feat, "Magic Initiate") && !str_eq(feat, "Skilled") {
                return Err(join3("the ", feat, " Origin feat can be taken only once"));
            }
        }
        if let Some(h) = &self.human_skill {
            if views_contain(&bg_skills, h.as_str()) {
                return Err(owned("the Human Skillful proficiency must be additional to background skills"));
            }
        }
        let bg_list = self.background_magic_initiate_list();
        let human_magic = match &self.human_origin_feat {
            Some(h) => str_eq(h.as_str(), "Magic Initiate"),
            None => false,
        };
        let human_skilled = match &self.human_origin_feat {
            Some(h) => str_eq(h.as_str(), "Skilled"),
            None => false,
        };
        let expected_magic: usize = (if bg_list.is_some() { 1 } else { 0 }) + (if human_magic { 1 } else { 0 });
        assert(expected_magic == self.expected_magic_choices());
        let choices = &self.magic_initiate_choices;
        if choices.len() != expected_magic {
            return Err(join3(
                "character requires exactly ",
                decimal_exec(expected_magic as u64).as_str(),
                " Magic Initiate choice(s)",
            ));
        }
        let mut k: usize = 0;
        while k < choices.len()
            invariant
                k <= choices.len(),
                *choices == self.magic_initiate_choices,
                forall|a: int| 0 <= a < k ==> self.magic_choice_valid(#[trigger] choices@[a]),
                forall|a: int, b: int|
                    0 <= a < b < k ==> #[trigger] choices@[a].spell_list@ != #[trigger] choices@[b].spell_list@,
                self.first_bad_magic_from(choices@, 0) == self.first_bad_magic_from(choices@, k as int),
            decreases choices.len() - k,
        {
            match self.validate_magic_choice(&choices[k]) {
                Ok(()) => {},
                Err(e) => {
                    return Err(e);
                },
            }
            let mut a: usize = 0;
            while a < k
                invariant
                    k < choices.len(),
                    a <= k,
                    forall|x: int| 0 <= x < a ==> #[trigger] choices@[x].spell_list@ != choices@[k as int].spell_list@,
                decreases k - a,
            {
                if choices[a].spell_list == choices[k].spell_list {
                    assert(Self::repeats_list(choices@, k as int));
                    return Err(owned("repeatable Magic Initiate choices must use different spell lists"));
                }
                a = a + 1;
            }
            k = k + 1;
        }
        if let Some(required) = &bg_list {
            let mut found = false;
            let mut j: usize = 0;
            while j < choices.len()
                invariant
                    j <= choices.len(),
                    found == (exists|x: int| 0 <= x < j && #[trigger] choices@[x].spell_list@ == required@),
                decreases choices.len() - j,
            {
                if choices[j].spell_list == *required {
                    found = true;
                }
                j = j + 1;
            }
            if !found {
                return Err(join4(
                    "the ",
                    self.background.as_str(),
                    " background requires Magic Initiate (",
                    join2(required.as_str(), ")").as_str(),
                ));
            }
        }
        let skilled: usize = (if str_eq(feat, "Skilled") { 1 } else { 0 }) + (if human_skilled { 1 } else { 0 });
        assert(skilled == self.skilled_feats());
        let picks = &self.skilled_proficiencies;
        if picks.len() != skilled * 3 || !strings_distinct(picks) {
            return Err(join3(
                "Skilled requires exactly ",
                decimal_exec((skilled * 3) as u64).as_str(),
                " distinct skill or tool proficiencies",
            ));
        }
        let mut j: usize = 0;
        while j < picks.len()
            invariant
                j <= picks.len(),
                forall|x: int| 0 <= x < j ==> is_skill(#[trigger] picks@[x]@) || is_tool(picks@[x]@),
            decreases picks.len() - j,
        {
            if !is_skill_exec(picks[j].as_str()) && !is_tool_exec(picks[j].as_str()) {
                return Err(owned("unknown Skilled proficiencies"));
            }
            j = j + 1;
        }
        let mut existing = self.background_skills();
        push_opt(&mut existing, &self.human_skill);
        push_opt(&mut existing, &self.elf_keen_senses_skill);
        if !none_among_exec(picks, &existing) {
            return Err(owned("Skilled must grant proficiencies the character does not already have"));
        }
        let mut j: usize = 0;
        while j < picks.len()
            invariant
                j <= picks.len(),
                forall|x: int|
                    0 <= x < j && is_tool(#[trigger] picks@[x]@) ==> in_strings(self.tool_proficiencies@, picks@[x]@),
            decreases picks.len() - j,
        {
            if is_tool_exec(picks[j].as_str()) && !strings_contain(&self.tool_proficiencies, picks[j].as_str()) {
                return Err(owned("Skilled tool choices must be included in tool proficiencies"));
            }
            j = j + 1;
        }
        Ok(())
    }

    fn mastery_ok_exec(&self, weapon: &str) -> (r: bool)
        ensures
            r == self.mastery_ok(weapon@),
    {
        match weapon_index_exec(weapon) {
            None => false,
            Some(w) => match &self.resolved_pack_class {
                Some(p) => {
                    let category = if WEAPON_MARTIAL[w] {
                        "Martial"
                    } else {
                        "Simple"
                    };
                    strings_contain(&p.weapon_training, category)
                },
                None => !(self.is_class_exec("Barbarian") && WEAPON_RANGED[w]) && !(self.is_class_exec("Rogue")
                    && WEAPON_MARTIAL[w] && !WEAPON_FINESSE_OR_LIGHT[w]),
            },
        }
    }

    #[verifier::loop_isolation(false)]
    fn pack_selection_ok_exec(selected: &Vec<String>, choice: &PackClassChoice) -> (r: bool)
        ensures
            r == Self::pack_selection_ok(selected@, *choice),
    {
        if selected.len() != choice.count || !strings_distinct(selected) {
            return false;
        }
        let mut k: usize = 0;
        while k < selected.len()
            invariant
                k <= selected.len(),
                forall|x: int| 0 <= x < k ==> Self::option_offered(*choice, #[trigger] selected@[x]@),
            decreases selected.len() - k,
        {
            let mut found = false;
            let mut o: usize = 0;
            while o < choice.options.len()
                invariant
                    k < selected.len(),
                    o <= choice.options.len(),
                    found == (exists|y: int| 0 <= y < o && #[trigger] choice.options@[y].id@ == selected@[k as int]@),
                decreases choice.options.len() - o,
            {
                if choice.options[o].id == selected[k] {
                    found = true;
                }
                o = o + 1;
            }
            if !found {
                assert(!Self::option_offered(*choice, selected@[k as int]@));
                assert(!Self::pack_selection_ok(selected@, *choice)) by {
                    assert(0 <= k < selected@.len());
                }
                return false;
            }
            k = k + 1;
        }
        true
    }

    /// Check that the pack class choices are answered exactly.
    #[verifier::loop_isolation(false)]
    pub fn validate_pack_choices(&self) -> (r: Result<(), String>)
        ensures
            r is Ok <==> self.pack_choices_valid(),
            match self.pack_choices_error() {
                None => r is Ok,
                Some(m) => r matches Err(e) && e@ == m,
            },
    {
        let entries = &self.class_choices.pack_choices;
        match &self.resolved_pack_class {
            None => {
                if entries.len() != 0 {
                    return Err(owned("pack class choices require a resolved pack class"));
                }
                Ok(())
            },
            Some(p) => {
                if entries.len() != p.choices.len() {
                    return Err(join2(
                        p.name.as_str(),
                        " requires exactly one selection set for each class choice",
                    ));
                }
                let mut a: usize = 0;
                while a < entries.len()
                    invariant
                        a <= entries.len(),
                        forall|x: int, y: int|
                            0 <= x < a && 0 <= y < entries.len() && x != y ==> #[trigger] entries@[x].0@
                                != #[trigger] entries@[y].0@,
                    decreases entries.len() - a,
                {
                    let mut b: usize = 0;
                    while b < entries.len()
                        invariant
                            a < entries.len(),
                            b <= entries.len(),
                            forall|y: int| 0 <= y < b && y != a ==> entries@[a as int].0@ != #[trigger] entries@[y].0@,
                        decreases entries.len() - b,
                    {
                        if b != a && entries[a].0 == entries[b].0 {
                            return Err(owned("duplicate pack class choice"));
                        }
                        b = b + 1;
                    }
                    a = a + 1;
                }
                let ghost unanswered = |x: PackClassChoice| Self::choice_unanswered(entries@, x);
                let mut c: usize = 0;
                while c < p.choices.len()
                    invariant
                        c <= p.choices.len(),
                        forall|x: int| 0 <= x < c ==> Self::choice_answered(entries@, #[trigger] p.choices@[x]),
                        unanswered == (|x: PackClassChoice| Self::choice_unanswered(entries@, x)),
                        first_where(p.choices@, unanswered) == first_where_from(p.choices@, unanswered, c as int),
                    decreases p.choices.len() - c,
                {
                    let choice = &p.choices[c];
                    let mut found: Option<usize> = None;
                    let mut k: usize = 0;
                    while k < entries.len()
                        invariant
                            k <= entries.len(),
                            c < p.choices.len(),
                            *choice == p.choices@[c as int],
                            match found {
                                Some(f) => f < k && entries@[f as int].0@ == choice.id@,
                                None => forall|y: int| 0 <= y < k ==> #[trigger] entries@[y].0@ != choice.id@,
                            },
                        decreases entries.len() - k,
                    {
                        if found.is_none() && entries[k].0 == choice.id {
                            found = Some(k);
                        }
                        k = k + 1;
                    }
                    match found {
                        None => {
                            assert(!Self::choice_answered(entries@, p.choices@[c as int]));
                            assert(Self::choice_unanswered(entries@, p.choices@[c as int]));
                            assert(!Self::entry_named(entries@, p.choices@[c as int].id@));
                            return Err(join3("missing ", choice.label.as_str(), " choice"));
                        },
                        Some(f) => {
                            if !Self::pack_selection_ok_exec(&entries[f].1, choice) {
                                assert(!Self::choice_answered(entries@, p.choices@[c as int])) by {
                                    assert forall|k: int|
                                        0 <= k < entries.len() && #[trigger] entries@[k].0@ == p.choices@[c as int].id@ implies
                                        k == f by {
                                        if k != f {
                                            assert(entries@[k].0@ != entries@[f as int].0@);
                                        }
                                    }
                                }
                                assert(Self::choice_unanswered(entries@, p.choices@[c as int]));
                                assert(Self::entry_named(entries@, p.choices@[c as int].id@));
                                return Err(join3("invalid ", choice.label.as_str(), " choice"));
                            }
                            assert(entries@[f as int].0@ == p.choices@[c as int].id@);
                            assert(Self::choice_answered(entries@, p.choices@[c as int]));
                        },
                    }
                    c = c + 1;
                }
                let mut k: usize = 0;
                while k < entries.len()
                    invariant
                        k <= entries.len(),
                        forall|x: int| 0 <= x < k ==> Self::choice_known(p.choices@, (#[trigger] entries@[x]).0@),
                    decreases entries.len() - k,
                {
                    let mut known = false;
                    let mut c: usize = 0;
                    while c < p.choices.len()
                        invariant
                            k < entries.len(),
                            c <= p.choices.len(),
                            known == (exists|y: int| 0 <= y < c && entries@[k as int].0@ == #[trigger] p.choices@[y].id@),
                        decreases p.choices.len() - c,
                    {
                        if p.choices[c].id == entries[k].0 {
                            known = true;
                        }
                        c = c + 1;
                    }
                    if !known {
                        assert(!Self::choice_known(p.choices@, entries@[k as int].0@));
                        return Err(owned("unknown pack class choice"));
                    }
                    k = k + 1;
                }
                Ok(())
            },
        }
    }

    fn spells_on_list(&self, spells: &Vec<String>, list: &str, level: u8) -> (r: bool)
        ensures
            r == (forall|k: int|
                0 <= k < spells@.len() ==> self.spell_on_list_spec(#[trigger] spells@[k]@, list@, level as int)
                    || self.unresolved_spell_spec(spells@[k]@)),
    {
        let mut k: usize = 0;
        while k < spells.len()
            invariant
                k <= spells.len(),
                forall|x: int|
                    0 <= x < k ==> self.spell_on_list_spec(#[trigger] spells@[x]@, list@, level as int)
                        || self.unresolved_spell_spec(spells@[x]@),
            decreases spells.len() - k,
        {
            if !self.spell_is_on_list(spells[k].as_str(), list, level) && !self.unresolved_pack_spell(
                spells[k].as_str(),
            ) {
                return false;
            }
            k = k + 1;
        }
        true
    }

    /// Check the class selections.
    #[verifier::loop_isolation(false)]
    pub fn validate_class_choices(&self) -> (r: Result<(), String>)
        requires
            self.srd_class() is Some || self.resolved_pack_class is Some,
        ensures
            r is Ok <==> self.class_choices_valid(),
            match self.class_choices_error() {
                None => r is Ok,
                Some(m) => r matches Err(e) && e@ == m,
            },
    {
        let class = self.character_class.as_str();
        let class_name = self.class_name();
        let srd = class_index_exec(class);
        let i: usize = match srd {
            Some(i) => i,
            None => 0,
        };
        let cc = &self.class_choices;
        let (skill_count, options): (usize, Vec<String>) = match &self.resolved_pack_class {
            Some(p) => (p.skill_count, clone_strings(&p.skills)),
            None => (CLASS_SKILL_COUNTS[i], strs_to_strings(class_skill_options_exec(i))),
        };
        assert(string_views(options@) == self.class_skill_options_spec());
        if self.class_skills.len() != skill_count || !strings_distinct(&self.class_skills) {
            return Err(join4(
                class_name.as_str(),
                " requires exactly ",
                decimal_exec(skill_count as u64).as_str(),
                " class skills",
            ));
        }
        if !all_among_exec(&self.class_skills, &options) {
            return Err(join3("invalid ", class_name.as_str(), " class skill choice"));
        }
        let mut granted = self.background_skills();
        let picks = self.skilled_skill_picks();
        push_all(&mut granted, &picks);
        push_opt(&mut granted, &self.human_skill);
        push_opt(&mut granted, &self.elf_keen_senses_skill);
        if !none_among_exec(&self.class_skills, &granted) {
            return Err(owned("class skills must not duplicate another granted proficiency"));
        }
        let mastery_count = match &self.resolved_pack_class {
            Some(p) => p.weapon_mastery_count,
            None => CLASS_MASTERY_COUNTS[i],
        };
        if cc.weapon_masteries.len() != mastery_count || !strings_distinct(&cc.weapon_masteries) {
            return Err(join4(
                class,
                " requires exactly ",
                decimal_exec(mastery_count as u64).as_str(),
                " weapon masteries",
            ));
        }
        let mut k: usize = 0;
        while k < cc.weapon_masteries.len()
            invariant
                k <= cc.weapon_masteries.len(),
                forall|x: int| 0 <= x < k ==> self.mastery_ok(#[trigger] cc.weapon_masteries@[x]@),
            decreases cc.weapon_masteries.len() - k,
        {
            if !self.mastery_ok_exec(cc.weapon_masteries[k].as_str()) {
                return Err(join3("invalid ", class, " weapon mastery choice"));
            }
            k = k + 1;
        }
        self.validate_pack_choices()?;
        let is_bard = self.is_class_exec("Bard");
        let is_monk = self.is_class_exec("Monk");
        let is_rogue = self.is_class_exec("Rogue");
        let is_wizard = self.is_class_exec("Wizard");
        let expected_tools: usize = if is_bard {
            3
        } else if is_monk {
            1
        } else {
            0
        };
        if cc.tools.len() != expected_tools || !strings_distinct(&cc.tools) {
            return Err(join4(
                class,
                " requires exactly ",
                decimal_exec(expected_tools as u64).as_str(),
                " class tool choices",
            ));
        }
        if is_bard && !all_listed_exec(&cc.tools, MUSICAL_INSTRUMENTS.as_slice()) {
            return Err(owned("invalid Bard class tool choice"));
        }
        if is_monk {
            let mut k: usize = 0;
            while k < cc.tools.len()
                invariant
                    k <= cc.tools.len(),
                    forall|x: int|
                        0 <= x < k ==> in_list(MUSICAL_INSTRUMENTS@, #[trigger] cc.tools@[x]@) || in_list(
                            ARTISAN_TOOLS@,
                            cc.tools@[x]@,
                        ),
                decreases cc.tools.len() - k,
            {
                if !list_contains(MUSICAL_INSTRUMENTS.as_slice(), cc.tools[k].as_str()) && !list_contains(
                    ARTISAN_TOOLS.as_slice(),
                    cc.tools[k].as_str(),
                ) {
                    return Err(owned("invalid Monk class tool choice"));
                }
                k = k + 1;
            }
        }
        let expected_expertise: usize = if is_rogue {
            2
        } else {
            0
        };
        if cc.expertise.len() != expected_expertise || !strings_distinct(&cc.expertise) {
            return Err(join4(
                class,
                " requires exactly ",
                decimal_exec(expected_expertise as u64).as_str(),
                " Expertise choices",
            ));
        }
        let skills = self.skill_proficiencies();
        if !all_among_exec(&cc.expertise, &skills) {
            return Err(owned("Expertise choices must be existing skill proficiencies"));
        }
        validate_required_only(
            self.is_class_exec("Cleric"),
            cc.divine_order.is_some(),
            "Divine Order is required only for Clerics",
            "Divine Order is required only for Clerics",
        )?;
        validate_required_only(
            self.is_class_exec("Druid"),
            cc.primal_order.is_some(),
            "Primal Order is required only for Druids",
            "Primal Order is required only for Druids",
        )?;
        validate_required_only(
            self.is_class_exec("Fighter"),
            cc.fighting_style.is_some(),
            "Fighting Style is required only for Fighters",
            "Fighting Style is required only for Fighters",
        )?;
        validate_required_only(
            self.is_class_exec("Warlock"),
            cc.eldritch_invocation.is_some(),
            "an Eldritch Invocation is required only for Warlocks",
            "an Eldritch Invocation is required only for Warlocks",
        )?;
        validate_required_only(
            is_rogue,
            cc.additional_language.is_some(),
            "an additional language is required only for Rogues",
            "an additional language is required only for Rogues",
        )?;
        if !opt_listed_exec(&cc.divine_order, DIVINE_ORDERS.as_slice()) {
            return Err(owned("invalid Divine Order"));
        }
        if !opt_listed_exec(&cc.primal_order, PRIMAL_ORDERS.as_slice()) {
            return Err(owned("invalid Primal Order"));
        }
        if !opt_listed_exec(&cc.fighting_style, FIGHTING_STYLES.as_slice()) {
            return Err(owned("invalid Fighter Fighting Style"));
        }
        if !opt_listed_exec(&cc.eldritch_invocation, WARLOCK_INVOCATIONS.as_slice()) {
            return Err(owned("invalid level-1 Warlock invocation"));
        }
        let (base_cantrips, base_prepared, list): (usize, usize, &str) = match &self.resolved_pack_class {
            Some(p) => match &p.spellcasting {
                Some(sc) => (sc.cantrip_count, sc.prepared_spell_count, sc.spell_list.as_str()),
                None => (0, 0, class),
            },
            None => (CLASS_CANTRIP_COUNTS[i], CLASS_PREPARED_COUNTS[i], class),
        };
        assert(list@ == self.class_spell_list_spec());
        let bonus = match &cc.divine_order {
            Some(o) => str_eq(o.as_str(), "Thaumaturge"),
            None => false,
        } || match &cc.primal_order {
            Some(o) => str_eq(o.as_str(), "Magician"),
            None => false,
        };
        let count_ok = if bonus {
            cc.cantrips.len() >= 1 && cc.cantrips.len() - 1 == base_cantrips
        } else {
            cc.cantrips.len() == base_cantrips
        };
        if !count_ok || !strings_distinct(&cc.cantrips) || !self.spells_on_list(&cc.cantrips, list, 0) {
            return Err(join3("invalid number or selection of ", class, " cantrips"));
        }
        if cc.prepared_spells.len() != base_prepared || !strings_distinct(&cc.prepared_spells)
            || !self.spells_on_list(&cc.prepared_spells, list, 1) {
            return Err(join3("invalid number or selection of ", class, " prepared spells"));
        }
        if self.resolved_pack_class.is_none() {
            let fixed = always_prepared_exec(class);
            let mut k: usize = 0;
            while k < cc.prepared_spells.len()
                invariant
                    k <= cc.prepared_spells.len(),
                    fixed@ == always_prepared(self.character_class@),
                    forall|x: int| 0 <= x < k ==> !in_list(fixed@, #[trigger] cc.prepared_spells@[x]@),
                decreases cc.prepared_spells.len() - k,
            {
                if list_contains(fixed, cc.prepared_spells[k].as_str()) {
                    return Err(join3("invalid number or selection of ", class, " prepared spells"));
                }
                k = k + 1;
            }
        }
        let expected_spellbook: usize = if is_wizard {
            6
        } else {
            0
        };
        if cc.spellbook_spells.len() != expected_spellbook || !strings_distinct(&cc.spellbook_spells) {
            return Err(join4(
                class,
                " requires exactly ",
                decimal_exec(expected_spellbook as u64).as_str(),
                " spellbook spells",
            ));
        }
        if !self.spells_on_list(&cc.spellbook_spells, "Wizard", 1) {
            return Err(owned("Wizard spellbook spells must be level 1 Wizard spells"));
        }
        if is_wizard && !all_among_exec(&cc.prepared_spells, &cc.spellbook_spells) {
            return Err(owned("Wizard prepared spells must be in the character's spellbook"));
        }
        if let Some(language) = &cc.additional_language {
            if !list_contains(STANDARD_LANGUAGES.as_slice(), language.as_str()) {
                return Err(owned("invalid Rogue additional language"));
            }
            if *language == self.selected_languages[0] || *language == self.selected_languages[1] {
                return Err(owned("the Rogue additional language must be a new language"));
            }
        }
        Ok(())
    }

    /// Check that the equipment options exist for the class and the Bard instrument matches.
    pub fn validate_equipment_choices(&self) -> (r: Result<(), String>)
        requires
            self.srd_class() is Some || self.resolved_pack_class is Some,
        ensures
            r is Ok <==> self.equipment_choices_valid(),
            match self.equipment_choices_error() {
                None => r is Ok,
                Some(m) => r matches Err(e) && e@ == m,
            },
    {
        let option = self.class_equipment_option.as_str();
        let class = self.character_class.as_str();
        let valid_option = match &self.resolved_pack_class {
            Some(_) => str_eq(option, "A") || str_eq(option, "Gold"),
            None => match class_index_exec(class) {
                Some(i) => str_eq(option, "Gold") || class_package_exec(i, option).is_some(),
                None => false,
            },
        };
        if !valid_option {
            return Err(join4("invalid ", class, " starting-equipment option: ", option));
        }
        if self.is_class_exec("Bard") && !str_eq(option, "Gold") {
            let ok = match &self.bard_starting_instrument {
                Some(b) => strings_contain(&self.class_choices.tools, b.as_str()),
                None => false,
            };
            if !ok {
                return Err(owned("the Bard starting instrument must be one of the chosen proficiencies"));
            }
        } else if self.bard_starting_instrument.is_some() {
            return Err(owned("a Bard starting instrument requires the Bard equipment package"));
        }
        Ok(())
    }

    /// Check the record against every rule, using the pack mechanics resolved into it.
    ///
    /// Returns the first broken rule.
    pub fn validate(&self) -> (r: Result<(), String>)
        ensures
            r is Ok <==> self.valid(),
            match self.validation_error() {
                None => r is Ok,
                Some(m) => r matches Err(e) && e@ == m,
            },
    {
        if is_blank_exec(self.name.as_str()) {
            return Err(owned("name must not be empty"));
        }
        if self.level < 1 || self.level > 20 {
            return Err(owned("level must be between 1 and 20"));
        }
        self.abilities.validate()?;
        if self.selected_languages[0] == self.selected_languages[1] {
            return Err(owned("choose two different standard languages"));
        }
        self.validate_closed_values()?;
        self.validate_species_choices()?;
        if background_index_exec(self.background.as_str()).is_none() && self.resolved_pack_background.is_none() {
            return Ok(());
        }
        self.validate_origin_choices()?;
        if class_index_exec(self.character_class.as_str()).is_none() && self.resolved_pack_class.is_none() {
            return Ok(());
        }
        self.validate_class_choices()?;
        self.validate_equipment_choices()
    }
}

/// The rules a record must satisfy do not depend on the pack equipment or the
/// pack species resolved into it.
pub proof fn lemma_valid_ignores_equipment_and_species(a: Character, b: Character)
    requires
        b == (Character { resolved_pack_equipment: b.resolved_pack_equipment, resolved_pack_species: b.resolved_pack_species, ..a }),
    ensures
        a.valid() == b.valid(),
{
    assert(a.closed_values_valid() == b.closed_values_valid());
    assert(a.species_choices_valid() == b.species_choices_valid());
    assert forall|c: MagicInitiateChoice| #[trigger] a.magic_choice_valid(c) == b.magic_choice_valid(c) by {
        assert forall|sp: Seq<char>, list: Seq<char>, level: int|
            #[trigger] a.spell_on_list_spec(sp, list, level) == b.spell_on_list_spec(sp, list, level) by {}
        assert forall|sp: Seq<char>| #[trigger] a.unresolved_spell_spec(sp) == b.unresolved_spell_spec(sp) by {}
    }
    assert(a.origin_choices_valid() == b.origin_choices_valid());
    assert(a.class_choices_valid() == b.class_choices_valid());
    assert(a.equipment_choices_valid() == b.equipment_choices_valid());
}

proof fn lemma_first_bad_magic_ignores_equipment_and_species(a: Character, b: Character, choices: Seq<MagicInitiateChoice>, k: int)
    requires
        forall|c: MagicInitiateChoice| #[trigger] a.magic_choice_valid(c) == b.magic_choice_valid(c),
    ensures
        a.first_bad_magic_from(choices, k) == b.first_bad_magic_from(choices, k),
    decreases choices.len() - k,
{
    if 0 <= k < choices.len() {
        lemma_first_bad_magic_ignores_equipment_and_species(a, b, choices, k + 1);
    }
}

/// The first broken rule of a record, like its validity, does not depend on
/// the pack equipment or the pack species resolved into it.
pub proof fn lemma_validation_error_ignores_equipment_and_species(a: Character, b: Character)
    requires
        b == (Character { resolved_pack_equipment: b.resolved_pack_equipment, resolved_pack_species: b.resolved_pack_species, ..a }),
    ensures
        a.valid() == b.valid(),
        a.validation_error() == b.validation_error(),
{
    lemma_valid_ignores_equipment_and_species(a, b);
    assert(a.closed_values_error() == b.closed_values_error());
    assert(a.species_choices_error() == b.species_choices_error());
    assert forall|c: MagicInitiateChoice| #[trigger] a.magic_choice_valid(c) == b.magic_choice_valid(c) by {
        assert forall|sp: Seq<char>, list: Seq<char>, level: int|
            #[trigger] a.spell_on_list_spec(sp, list, level) == b.spell_on_list_spec(sp, list, level) by {}
        assert forall|sp: Seq<char>| #[trigger] a.unresolved_spell_spec(sp) == b.unresolved_spell_spec(sp) by {}
    }
    assert forall|c: MagicInitiateChoice| #[trigger] a.magic_choice_error(c) == b.magic_choice_error(c) by {
        assert forall|sp: Seq<char>, list: Seq<char>, level: int|
            #[trigger] a.spell_on_list_spec(sp, list, level) == b.spell_on_list_spec(sp, list, level) by {}
        assert forall|sp: Seq<char>| #[trigger] a.unresolved_spell_spec(sp) == b.unresolved_spell_spec(sp) by {}
    }
    lemma_first_bad_magic_ignores_equipment_and_species(a, b, a.magic_initiate_choices@, 0);
    assert(a.origin_choices_error() == b.origin_choices_error());
    assert(a.pack_choices_error() == b.pack_choices_error());
    assert(a.cantrips_ok() == b.cantrips_ok());
    assert(a.prepared_ok() == b.prepared_ok());
    assert(a.class_choices_error() == b.class_choices_error());
    assert(a.equipment_choices_error() == b.equipment_choices_error());
}

} // verus!
