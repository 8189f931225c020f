//! Attaching the exact pack mechanics a character record refers to.

use vstd::prelude::*;

use crate::content::{
    PackEquipmentGrant, clone_pack_equipment, clone_pack_spells, views, PackBackground, PackClass, PackEquipment,
    PackSpecies, PackSpell,
};
use crate::record::Character;
use crate::srd::{background_index_exec, class_index_exec, species_index_exec};
use crate::text::{join2, join4, str_eq};

verus! {

/// The index of the first element of `s`, from `from` on, that satisfies `p`.
pub open spec fn first_where_from<T>(s: Seq<T>, p: spec_fn(T) -> bool, from: int) -> Option<int>
    decreases s.len() - from,
{
    if from < 0 || from >= s.len() {
        None
    } else if p(s[from]) {
        Some(from)
    } else {
        first_where_from(s, p, from + 1)
    }
}

/// The index of the first element of `s` that satisfies `p`.
pub open spec fn first_where<T>(s: Seq<T>, p: spec_fn(T) -> bool) -> Option<int> {
    first_where_from(s, p, 0)
}

pub proof fn lemma_first_where<T>(s: Seq<T>, p: spec_fn(T) -> bool, from: int)
    requires
        0 <= from,
    ensures
        match first_where_from(s, p, from) {
            Some(i) => from <= i < s.len() && p(s[i]) && forall|j: int| from <= j < i ==> !p(s[j]),
            None => forall|j: int| from <= j < s.len() ==> !p(s[j]),
        },
    decreases s.len() - from,
{
    if from < s.len() && !p(s[from]) {
        lemma_first_where(s, p, from + 1);
    }
}

/// The first pack class whose ID is `id`.
pub open spec fn class_with_id(classes: Seq<PackClass>, id: Seq<char>) -> Option<int> {
    first_where(classes, |c: PackClass| c.id@ == id)
}

/// The first pack background whose ID is `id`.
pub open spec fn background_with_id(backgrounds: Seq<PackBackground>, id: Seq<char>) -> Option<int> {
    first_where(backgrounds, |b: PackBackground| b.id@ == id)
}

/// The first pack species whose ID is `id`.
pub open spec fn species_with_id(species: Seq<PackSpecies>, id: Seq<char>) -> Option<int> {
    first_where(species, |s: PackSpecies| s.id@ == id)
}

/// Some pack equipment has the ID.
pub open spec fn equipment_has_id(equipment: Seq<PackEquipment>, id: Seq<char>) -> bool {
    exists|k: int| 0 <= k < equipment.len() && #[trigger] equipment[k].id@ == id
}

/// The first grant whose equipment ID is not among the pack equipment.
pub open spec fn first_unresolved_grant(grants: Seq<PackEquipmentGrant>, equipment: Seq<PackEquipment>) -> Option<int> {
    first_where(grants, |g: PackEquipmentGrant| grant_unresolved(g, equipment))
}

/// The grant names an equipment ID that is not among the pack equipment.
pub open spec fn grant_unresolved(g: PackEquipmentGrant, equipment: Seq<PackEquipment>) -> bool {
    match g.equipment_id {
        Some(id) => !equipment_has_id(equipment, id@),
        None => false,
    }
}

/// Every equipment ID the background grants is among the pack equipment.
pub open spec fn grants_resolve(background: PackBackground, equipment: Seq<PackEquipment>) -> bool {
    forall|g: int|
        0 <= g < background.equipment@.len() ==> match (#[trigger] background.equipment@[g]).equipment_id {
            Some(id) => equipment_has_id(equipment, id@),
            None => true,
        }
}

fn find_class(classes: &[PackClass], id: &str) -> (r: Option<usize>)
    ensures
        match r {
            Some(i) => class_with_id(classes@, id@) == Some(i as int) && i < classes@.len(),
            None => class_with_id(classes@, id@) is None,
        },
{
    let ghost p = |c: PackClass| c.id@ == id@;
    proof {
        lemma_first_where(classes@, p, 0);
    }
    let mut i: usize = 0;
    while i < classes.len()
        invariant
            i <= classes.len(),
            p == |c: PackClass| c.id@ == id@,
            first_where(classes@, p) == first_where_from(classes@, p, i as int),
        decreases classes.len() - i,
    {
        if str_eq(classes[i].id.as_str(), id) {
            return Some(i);
        }
        i = i + 1;
    }
    None
}

fn find_background(backgrounds: &[PackBackground], id: &str) -> (r: Option<usize>)
    ensures
        match r {
            Some(i) => background_with_id(backgrounds@, id@) == Some(i as int) && i < backgrounds@.len(),
            None => background_with_id(backgrounds@, id@) is None,
        },
{
    let ghost p = |b: PackBackground| b.id@ == id@;
    let mut i: usize = 0;
    while i < backgrounds.len()
        invariant
            i <= backgrounds.len(),
            p == |b: PackBackground| b.id@ == id@,
            first_where(backgrounds@, p) == first_where_from(backgrounds@, p, i as int),
        decreases backgrounds.len() - i,
    {
        if str_eq(backgrounds[i].id.as_str(), id) {
            return Some(i);
        }
        i = i + 1;
    }
    None
}

fn find_species(species: &[PackSpecies], id: &str) -> (r: Option<usize>)
    ensures
        match r {
            Some(i) => species_with_id(species@, id@) == Some(i as int) && i < species@.len(),
            None => species_with_id(species@, id@) is None,
        },
{
    let ghost p = |s: PackSpecies| s.id@ == id@;
    let mut i: usize = 0;
    while i < species.len()
        invariant
            i <= species.len(),
            p == |s: PackSpecies| s.id@ == id@,
            first_where(species@, p) == first_where_from(species@, p, i as int),
        decreases species.len() - i,
    {
        if str_eq(species[i].id.as_str(), id) {
            return Some(i);
        }
        i = i + 1;
    }
    None
}

pub fn equipment_contains(equipment: &[PackEquipment], id: &str) -> (r: bool)
    ensures
        r == equipment_has_id(equipment@, id@),
{
    let mut k: usize = 0;
    while k < equipment.len()
        invariant
            k <= equipment.len(),
            forall|j: int| 0 <= j < k ==> #[trigger] equipment@[j].id@ != id@,
        decreases equipment.len() - k,
    {
        if str_eq(equipment[k].id.as_str(), id) {
            return true;
        }
        k = k + 1;
    }
    false
}

impl Character {
    /// Resolve the exact custom class referenced by this character.
    ///
    /// An SRD class clears any resolved pack class; another class must be
    /// found by ID among `classes`. The record is then validated.
    pub fn resolve_pack_class(&mut self, classes: &[PackClass]) -> (r: Result<(), String>)
        ensures
            match (old(self).srd_class(), class_with_id(classes@, old(self).character_class@)) {
                (Some(_), _) => *final(self) == (Character { resolved_pack_class: None, ..*old(self) })
                    && (r is Ok <==> final(self).valid()),
                (None, None) => *final(self) == *old(self) && match r {
                    Err(e) => e@ == "unknown class in data pack: "@ + old(self).character_class@,
                    Ok(_) => false,
                },
                (None, Some(i)) => match final(self).resolved_pack_class {
                    Some(c) => c@ == classes@[i]@ && *final(self) == (Character {
                        resolved_pack_class: final(self).resolved_pack_class,
                        ..*old(self)
                    }) && (r is Ok <==> final(self).valid()),
                    None => false,
                },
            },
            old(self).srd_class() is Some || class_with_id(classes@, old(self).character_class@) is Some
                ==> match final(self).validation_error() {
                None => r is Ok,
                Some(m) => r matches Err(e) && e@ == m,
            },
    {
        if class_index_exec(self.character_class.as_str()).is_some() {
            self.resolved_pack_class = None;
        } else {
            match find_class(classes, self.character_class.as_str()) {
                Some(i) => {
                    self.resolved_pack_class = Some(classes[i].clone());
                },
                None => {
                    return Err(join2("unknown class in data pack: ", self.character_class.as_str()));
                },
            }
        }
        self.validate()
    }

    /// Resolve the custom spells used by class and Origin-feat choices.
    ///
    /// A character tied to a pack records the pack's spell catalog; a
    /// character without a pack records none. The record is then validated.
    pub fn resolve_pack_spells(&mut self, spells: &[PackSpell]) -> (r: Result<(), String>)
        ensures
            old(self).data_pack is Some ==> (final(self).resolved_pack_spells matches Some(v) && views(v@)
                == views(spells@)),
            old(self).data_pack is None ==> final(self).resolved_pack_spells is None,
            *final(self) == (Character { resolved_pack_spells: final(self).resolved_pack_spells, ..*old(self) }),
            r is Ok <==> final(self).valid(),
            match final(self).validation_error() {
                None => r is Ok,
                Some(m) => r matches Err(e) && e@ == m,
            },
    {
        self.resolved_pack_spells = match &self.data_pack {
            Some(_) => Some(clone_pack_spells(spells)),
            None => None,
        };
        self.validate()
    }

    /// Resolve the exact custom-equipment catalog referenced by this character.
    ///
    /// Every equipment ID granted by a resolved pack background must be present.
    #[verifier::loop_isolation(false)]
    pub fn resolve_pack_equipment(&mut self, equipment: &[PackEquipment]) -> (r: Result<(), String>)
        ensures
            match old(self).resolved_pack_background {
                Some(b) => !grants_resolve(b, equipment@),
                None => false,
            } ==> *final(self) == *old(self) && r is Err,
            match old(self).resolved_pack_background {
                Some(b) => grants_resolve(b, equipment@),
                None => true,
            } ==> views(final(self).resolved_pack_equipment@) == views(equipment@) && *final(self) == (
            Character { resolved_pack_equipment: final(self).resolved_pack_equipment, ..*old(self) }) && (r is Ok
                <==> final(self).valid()) && (final(self).validation_error() matches Some(m) ==> r matches Err(e)
                && e@ == m),
    {
        if let Some(background) = &self.resolved_pack_background {
            let mut g: usize = 0;
            while g < background.equipment.len()
                invariant
                    g <= background.equipment.len(),
                    forall|x: int|
                        0 <= x < g ==> match (#[trigger] background.equipment@[x]).equipment_id {
                            Some(id) => equipment_has_id(equipment@, id@),
                            None => true,
                        },
                decreases background.equipment.len() - g,
            {
                if let Some(id) = &background.equipment[g].equipment_id {
                    if !equipment_contains(equipment, id.as_str()) {
                        assert(background.equipment@[g as int].equipment_id == Some(*id));
                        assert(grant_unresolved(background.equipment@[g as int], equipment@));
                        return Err(join2("unknown equipment in data pack: ", id.as_str()));
                    }
                }
                g = g + 1;
            }
        }
        self.resolved_pack_equipment = clone_pack_equipment(equipment);
        self.validate()
    }

    /// Resolve the external background mechanics for this character.
    pub fn resolve_pack_background(&mut self, backgrounds: &[PackBackground]) -> (r: Result<(), String>)
        ensures
            match (old(self).srd_background(), background_with_id(backgrounds@, old(self).background@)) {
                (Some(_), _) => *final(self) == (Character { resolved_pack_background: None, ..*old(self) })
                    && (r is Ok <==> final(self).valid()),
                (None, None) => *final(self) == *old(self) && match r {
                    Err(e) => e@ == "unknown background in data pack: "@ + old(self).background@,
                    Ok(_) => false,
                },
                (None, Some(i)) => match final(self).resolved_pack_background {
                    Some(b) => b@ == backgrounds@[i]@ && *final(self) == (Character {
                        resolved_pack_background: final(self).resolved_pack_background,
                        ..*old(self)
                    }) && (r is Ok <==> final(self).valid()),
                    None => false,
                },
            },
            old(self).srd_background() is Some || background_with_id(backgrounds@, old(self).background@) is Some
                ==> match final(self).validation_error() {
                None => r is Ok,
                Some(m) => r matches Err(e) && e@ == m,
            },
    {
        if background_index_exec(self.background.as_str()).is_some() {
            self.resolved_pack_background = None;
        } else {
            match find_background(backgrounds, self.background.as_str()) {
                Some(i) => {
                    self.resolved_pack_background = Some(backgrounds[i].clone());
                },
                None => {
                    return Err(join2("unknown background in data pack: ", self.background.as_str()));
                },
            }
        }
        self.validate()
    }

    /// Resolve and check the external species mechanics for this character.
    ///
    /// An SRD species clears any resolved pack species; another species must be
    /// found by ID and must allow the character's size.
    pub fn resolve_pack_species(&mut self, species: &[PackSpecies]) -> (r: Result<(), String>)
        ensures
            match (old(self).srd_species(), species_with_id(species@, old(self).species@)) {
                (Some(_), _) => *final(self) == (Character { resolved_pack_species: None, ..*old(self) })
                    && r is Ok,
                (None, None) => *final(self) == *old(self) && match r {
                    Err(e) => e@ == "unknown species in data pack: "@ + old(self).species@,
                    Ok(_) => false,
                },
                (None, Some(i)) => if species@[i].sizes@.contains(old(self).size) {
                    match final(self).resolved_pack_species {
                        Some(s) => s@ == species@[i]@ && *final(self) == (Character {
                            resolved_pack_species: final(self).resolved_pack_species,
                            ..*old(self)
                        }) && r is Ok,
                        None => false,
                    }
                } else {
                    *final(self) == *old(self) && match r {
                        Err(e) => e@ == "invalid size for pack species "@ + species@[i].id@ + ": "@
                            + old(self).size.name(),
                        Ok(_) => false,
                    }
                },
            },
    {
        if species_index_exec(self.species.as_str()).is_some() {
            self.resolved_pack_species = None;
            return Ok(());
        }
        let i = match find_species(species, self.species.as_str()) {
            Some(i) => i,
            None => {
                return Err(join2("unknown species in data pack: ", self.species.as_str()));
            },
        };
        let rule = &species[i];
        let mut allowed = false;
        let mut k: usize = 0;
        while k < rule.sizes.len()
            invariant
                k <= rule.sizes.len(),
                allowed == exists|j: int| 0 <= j < k && rule.sizes@[j] == self.size,
            decreases rule.sizes.len() - k,
        {
            if rule.sizes[k] == self.size {
                allowed = true;
            }
            k = k + 1;
        }
        if !allowed {
            return Err(join4("invalid size for pack species ", rule.id.as_str(), ": ", self.size.as_str()));
        }
        self.resolved_pack_species = Some(rule.clone());
        Ok(())
    }
}

} // verus!
