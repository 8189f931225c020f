//! Values derived from a character record and the rules it was resolved against.

use vstd::prelude::*;

use crate::content::{PackSpell, PackSpellModel};
use crate::record::Character;
use crate::srd::{
    background_index, background_index_exec, class_index, is_skill, is_skill_exec, is_srd_spell,
    is_srd_spell_exec, species_index, srd_spell_on_list, srd_spell_on_list_exec,
    BACKGROUND_FEATS, BACKGROUND_FIRST_SKILLS, BACKGROUND_MAGIC_LISTS, BACKGROUND_SECOND_SKILLS,
    BACKGROUND_TOOLS,
};
use crate::text::{
    in_strings, opt_seq, owned, push_all, push_opt, str_eq, string_views, strings_contain,
};

verus! {

/// `spells` holds a spell with the given ID, of the given level, on the named list.
pub open spec fn pack_spell_on_list(spells: Seq<PackSpellModel>, spell: Seq<char>, list: Seq<char>, level: int) -> bool {
    exists|k: int|
        0 <= k < spells.len() && #[trigger] spells[k].id == spell && spells[k].level == level
            && in_strings(spells[k].lists, list)
}

/// The skill proficiencies among Skilled selections.
pub open spec fn skill_picks(picks: Seq<String>) -> Seq<Seq<char>>
    decreases picks.len(),
{
    if picks.len() == 0 {
        seq![]
    } else {
        skill_picks(picks.drop_last()) + if is_skill(picks.last()@) {
            seq![picks.last()@]
        } else {
            seq![]
        }
    }
}

impl Character {
    /// Index of the character's class in the SRD tables.
    pub open spec fn srd_class(&self) -> Option<int> {
        class_index(self.character_class@)
    }

    /// Index of the character's background in the SRD tables.
    pub open spec fn srd_background(&self) -> Option<int> {
        background_index(self.background@)
    }

    /// Index of the character's species in the SRD tables.
    pub open spec fn srd_species(&self) -> Option<int> {
        species_index(self.species@)
    }

    /// The Origin feat the background grants, when the background is known.
    pub open spec fn background_feat_spec(&self) -> Option<Seq<char>> {
        match self.srd_background() {
            Some(i) => Some(BACKGROUND_FEATS@[i]@),
            None => match self.resolved_pack_background {
                Some(b) => Some(b.feat@),
                None => None,
            },
        }
    }

    /// The skills the background grants.
    pub open spec fn background_skills_spec(&self) -> Seq<Seq<char>> {
        match self.srd_background() {
            Some(i) => seq![BACKGROUND_FIRST_SKILLS@[i]@, BACKGROUND_SECOND_SKILLS@[i]@],
            None => match self.resolved_pack_background {
                Some(b) => string_views(b.skills@),
                None => seq![],
            },
        }
    }

    /// The spell list the background's Magic Initiate feat uses, if it has one.
    pub open spec fn background_magic_list_spec(&self) -> Option<Seq<char>> {
        match self.srd_background() {
            Some(i) => if BACKGROUND_MAGIC_LISTS@[i]@.len() > 0 {
                Some(BACKGROUND_MAGIC_LISTS@[i]@)
            } else {
                None
            },
            None => match self.resolved_pack_background {
                Some(b) => match b.magic_initiate_list {
                    Some(l) => Some(l@),
                    None => None,
                },
                None => None,
            },
        }
    }

    /// The tool the background grants.
    pub open spec fn background_tool_spec(&self) -> Option<Seq<char>> {
        match self.srd_background() {
            Some(i) => Some(BACKGROUND_TOOLS@[i]@),
            None => match self.resolved_pack_background {
                Some(b) => Some(b.tool@),
                None => None,
            },
        }
    }

    /// The spell is on the list at the level, among SRD spells or the resolved pack spells.
    pub open spec fn spell_on_list_spec(&self, spell: Seq<char>, list: Seq<char>, level: int) -> bool {
        ||| srd_spell_on_list(spell, list, level)
        ||| match self.resolved_pack_spells {
            Some(spells) => pack_spell_on_list(spells@.map_values(|s: PackSpell| s@), spell, list, level),
            None => false,
        }
    }

    /// A spell reference that waits for the pack's spell catalog to be resolved.
    pub open spec fn unresolved_spell_spec(&self, spell: Seq<char>) -> bool {
        self.data_pack is Some && self.resolved_pack_spells is None && !is_srd_spell(spell)
    }

    /// Every skill proficiency the character has, possibly with repetitions.
    pub open spec fn skills_spec(&self) -> Seq<Seq<char>> {
        self.background_skills_spec() + string_views(self.class_skills@) + opt_seq(self.human_skill)
            + opt_seq(self.elf_keen_senses_skill) + skill_picks(self.skilled_proficiencies@)
    }

    /// The Origin feat the background grants.
    pub fn background_feat(&self) -> (r: Option<String>)
        ensures
            match r {
                Some(f) => self.background_feat_spec() == Some(f@),
                None => self.background_feat_spec() is None,
            },
    {
        match background_index_exec(self.background.as_str()) {
            Some(i) => Some(owned(BACKGROUND_FEATS[i])),
            None => match &self.resolved_pack_background {
                Some(b) => Some(b.feat.clone()),
                None => None,
            },
        }
    }

    /// The skills the background grants.
    pub fn background_skills(&self) -> (r: Vec<String>)
        ensures
            string_views(r@) == self.background_skills_spec(),
    {
        match background_index_exec(self.background.as_str()) {
            Some(i) => {
                let v = vec![owned(BACKGROUND_FIRST_SKILLS[i]), owned(BACKGROUND_SECOND_SKILLS[i])];
                assert(string_views(v@) =~= self.background_skills_spec());
                v
            },
            None => match &self.resolved_pack_background {
                Some(b) => crate::text::clone_strings(&b.skills),
                None => {
                    let v: Vec<String> = Vec::new();
                    assert(string_views(v@) =~= self.background_skills_spec());
                    v
                },
            },
        }
    }

    /// The list the background's Magic Initiate feat uses.
    pub fn background_magic_initiate_list(&self) -> (r: Option<String>)
        ensures
            match r {
                Some(l) => self.background_magic_list_spec() == Some(l@),
                None => self.background_magic_list_spec() is None,
            },
    {
        match background_index_exec(self.background.as_str()) {
            Some(i) => {
                let l = BACKGROUND_MAGIC_LISTS[i];
                if l.is_empty() {
                    None
                } else {
                    Some(owned(l))
                }
            },
            None => match &self.resolved_pack_background {
                Some(b) => crate::text::clone_opt_string(&b.magic_initiate_list),
                None => None,
            },
        }
    }

    /// The tool the background grants.
    pub fn background_tool(&self) -> (r: Option<String>)
        ensures
            match r {
                Some(t) => self.background_tool_spec() == Some(t@),
                None => self.background_tool_spec() is None,
            },
    {
        match background_index_exec(self.background.as_str()) {
            Some(i) => Some(owned(BACKGROUND_TOOLS[i])),
            None => match &self.resolved_pack_background {
                Some(b) => Some(b.tool.clone()),
                None => None,
            },
        }
    }

    /// Whether the spell is on the list at the level.
    pub fn spell_is_on_list(&self, spell: &str, list: &str, level: u8) -> (r: bool)
        ensures
            r == self.spell_on_list_spec(spell@, list@, level as int),
    {
        if srd_spell_on_list_exec(spell, list, level) {
            return true;
        }
        match &self.resolved_pack_spells {
            Some(spells) => {
                let ghost models = spells@.map_values(|s: PackSpell| s@);
                let mut k: usize = 0;
                while k < spells.len()
                    invariant
                        k <= spells.len(),
                        self.resolved_pack_spells == Some(*spells),
                        models == spells@.map_values(|s: PackSpell| s@),
                        forall|j: int|
                            0 <= j < k ==> !(#[trigger] models[j].id == spell@ && models[j].level == level
                                && in_strings(models[j].lists, list@)),
                    decreases spells.len() - k,
                {
                    if str_eq(spells[k].id.as_str(), spell) && spells[k].level == level
                        && strings_contain(&spells[k].lists, list) {
                        assert(models[k as int] == spells@[k as int]@);
                        assert(models[k as int].id == spell@ && models[k as int].level == level
                            && in_strings(models[k as int].lists, list@));
                        return true;
                    }
                    k = k + 1;
                }
                false
            },
            None => false,
        }
    }

    /// Whether a spell reference waits for the pack's spell catalog.
    pub fn unresolved_pack_spell(&self, spell: &str) -> (r: bool)
        ensures
            r == self.unresolved_spell_spec(spell@),
    {
        self.data_pack.is_some() && self.resolved_pack_spells.is_none() && !is_srd_spell_exec(spell)
    }

    /// The skill proficiencies among the Skilled selections.
    pub fn skilled_skill_picks(&self) -> (r: Vec<String>)
        ensures
            string_views(r@) == skill_picks(self.skilled_proficiencies@),
    {
        let mut out: Vec<String> = Vec::new();
        let mut i: usize = 0;
        assert(self.skilled_proficiencies@.subrange(0, 0) =~= Seq::<String>::empty());
        assert(string_views(out@) =~= seq![]);
        while i < self.skilled_proficiencies.len()
            invariant
                i <= self.skilled_proficiencies.len(),
                string_views(out@) == skill_picks(self.skilled_proficiencies@.subrange(0, i as int)),
            decreases self.skilled_proficiencies.len() - i,
        {
            let ghost prev = out@;
            assert(self.skilled_proficiencies@.subrange(0, i as int + 1).drop_last()
                =~= self.skilled_proficiencies@.subrange(0, i as int));
            if is_skill_exec(self.skilled_proficiencies[i].as_str()) {
                out.push(self.skilled_proficiencies[i].clone());
                assert(string_views(out@) =~= string_views(prev).push(self.skilled_proficiencies@[i as int]@));
            }
            assert(string_views(out@) =~= skill_picks(self.skilled_proficiencies@.subrange(0, i as int + 1)));
            i = i + 1;
        }
        assert(self.skilled_proficiencies@.subrange(0, self.skilled_proficiencies@.len() as int)
            =~= self.skilled_proficiencies@);
        out
    }

    /// Every skill proficiency the character has, in grant order, possibly with repetitions.
    pub fn skill_proficiencies(&self) -> (r: Vec<String>)
        ensures
            string_views(r@) == self.skills_spec(),
    {
        let mut out = self.background_skills();
        push_all(&mut out, &self.class_skills);
        push_opt(&mut out, &self.human_skill);
        push_opt(&mut out, &self.elf_keen_senses_skill);
        let picks = self.skilled_skill_picks();
        push_all(&mut out, &picks);
        out
    }

    /// The display name of a spell the record refers to: the name of the
    /// first resolved pack spell with that ID, or the reference itself.
    pub open spec fn spell_name_spec(&self, spell: Seq<char>) -> Seq<char> {
        match self.resolved_pack_spells {
            Some(spells) => match crate::resolve::first_where(spells@, |s: PackSpell| s.id@ == spell) {
                Some(k) => spells@[k].name@,
                None => spell,
            },
            None => spell,
        }
    }

    /// The display name of a spell the record refers to.
    pub fn spell_name(&self, spell: &str) -> (r: String)
        ensures
            r@ == self.spell_name_spec(spell@),
    {
        match &self.resolved_pack_spells {
            Some(spells) => {
                let ghost p = |s: PackSpell| s.id@ == spell@;
                proof {
                    crate::resolve::lemma_first_where(spells@, p, 0);
                }
                let mut k: usize = 0;
                while k < spells.len()
                    invariant
                        k <= spells@.len(),
                        self.resolved_pack_spells == Some(*spells),
                        p == (|s: PackSpell| s.id@ == spell@),
                        crate::resolve::first_where(spells@, p) == crate::resolve::first_where_from(spells@, p, k as int),
                    decreases spells.len() - k,
                {
                    if str_eq(spells[k].id.as_str(), spell) {
                        assert(p(spells@[k as int]));
                        return spells[k].name.clone();
                    }
                    k = k + 1;
                }
                owned(spell)
            },
            None => owned(spell),
        }
    }

    /// The class's display name: the pack class name, or the SRD class name.
    pub open spec fn class_display(&self) -> Seq<char> {
        match self.resolved_pack_class {
            Some(c) => c.name@,
            None => self.character_class@,
        }
    }

    /// The background's display name: the pack background name, or the SRD name.
    pub open spec fn background_display(&self) -> Seq<char> {
        match self.resolved_pack_background {
            Some(b) => b.name@,
            None => self.background@,
        }
    }

    /// The species' display name: the pack species name, or the SRD name.
    pub open spec fn species_display(&self) -> Seq<char> {
        match self.resolved_pack_species {
            Some(s) => s.name@,
            None => self.species@,
        }
    }

    /// The class's display name: the pack class name, or the SRD class name.
    pub fn class_name(&self) -> (r: String)
        ensures
            r@ == self.class_display(),
    {
        match &self.resolved_pack_class {
            Some(c) => c.name.clone(),
            None => owned(self.character_class.as_str()),
        }
    }

    /// The background's display name.
    pub fn background_name(&self) -> (r: String)
        ensures
            r@ == self.background_display(),
    {
        match &self.resolved_pack_background {
            Some(b) => b.name.clone(),
            None => owned(self.background.as_str()),
        }
    }

    /// The species' display name.
    pub fn species_name(&self) -> (r: String)
        ensures
            r@ == self.species_display(),
    {
        match &self.resolved_pack_species {
            Some(s) => s.name.clone(),
            None => owned(self.species.as_str()),
        }
    }
}

} // verus!
