//! Unified access to the built-in SRD rules and optional validated campaign content.

use vstd::prelude::*;

use crate::content::{views, PackBackground, PackClass, PackEquipment, PackSpecies, PackSpell};
use crate::app_error::{AppError, ErrorKind};
use crate::record::{Character, DataPackReference};
use crate::resolve::{background_with_id, class_with_id, species_with_id, first_where};
use crate::text::{decimal, decimal_exec, eq_ignore_case, eq_ignore_case_exec};

verus! {

/// A character whose pack mechanics were attached and validated.
#[derive(Debug)]
pub struct ResolvedCharacter(pub Character);

impl ResolvedCharacter {
    /// The resolved character.
    pub fn character(&self) -> (r: &Character)
        ensures
            *r == self.0,
    {
        &self.0
    }

    /// Give up the wrapper and keep the character.
    pub fn into_character(self) -> (r: Character)
        ensures
            r == self.0,
    {
        self.0
    }
}

/// Immutable rule catalog used by creation, validation, and rendering.
#[derive(Debug, Clone, Copy)]
pub struct RulesContext<'a> {
    reference: Option<&'a DataPackReference>,
    name: Option<&'a str>,
    classes: &'a [PackClass],
    species: &'a [PackSpecies],
    backgrounds: &'a [PackBackground],
    equipment: &'a [PackEquipment],
    spells: &'a [PackSpell],
}

/// The first pack class whose ID or display name matches `value`, ignoring ASCII case.
pub open spec fn class_named(classes: Seq<PackClass>, value: Seq<char>) -> Option<int> {
    first_where(classes, |rule: PackClass| eq_ignore_case(rule.id@, value) || eq_ignore_case(rule.name@, value))
}

/// The first pack background whose ID or display name matches `value`, ignoring ASCII case.
pub open spec fn background_named(backgrounds: Seq<PackBackground>, value: Seq<char>) -> Option<int> {
    first_where(backgrounds, |rule: PackBackground| eq_ignore_case(rule.id@, value) || eq_ignore_case(rule.name@, value))
}

/// The first pack species whose ID or display name matches `value`, ignoring ASCII case.
pub open spec fn species_named(species: Seq<PackSpecies>, value: Seq<char>) -> Option<int> {
    first_where(species, |rule: PackSpecies| eq_ignore_case(rule.id@, value) || eq_ignore_case(rule.name@, value))
}

/// The message for a character whose pack provenance the context cannot serve.
pub open spec fn provenance_error(required: Option<DataPackReference>, actual: Option<DataPackReference>) -> Option<Seq<char>> {
    match (required, actual) {
        (None, _) => None,
        (Some(req), Some(act)) => if req.same(act) {
            None
        } else {
            Some("character requires data pack "@ + req.id@ + " version "@ + decimal(req.version as nat)
                + " (format version "@ + decimal(req.format_version as nat) + ")"@)
        },
        (Some(req), None) => Some("character requires data pack "@ + req.id@ + "; pass --data <directory>"@),
    }
}

/// What resolving `before` against the context attaches: each field other than the
/// resolved pack mechanics is kept, and each resolved field holds the exact pack
/// rule that the record refers to.
pub open spec fn resolution_of(before: Character, after: Character, rules: RulesContext) -> bool {
    &&& after == Character {
        resolved_pack_class: after.resolved_pack_class,
        resolved_pack_background: after.resolved_pack_background,
        resolved_pack_equipment: after.resolved_pack_equipment,
        resolved_pack_spells: after.resolved_pack_spells,
        resolved_pack_species: after.resolved_pack_species,
        ..before
    }
    &&& match before.srd_class() {
        Some(_) => after.resolved_pack_class is None,
        None => match (class_with_id(rules.classes_spec(), before.character_class@), after.resolved_pack_class) {
            (Some(i), Some(c)) => c@ == rules.classes_spec()[i]@,
            _ => false,
        },
    }
    &&& match before.srd_background() {
        Some(_) => after.resolved_pack_background is None,
        None => match (background_with_id(rules.backgrounds_spec(), before.background@), after.resolved_pack_background) {
            (Some(i), Some(b)) => b@ == rules.backgrounds_spec()[i]@,
            _ => false,
        },
    }
    &&& views(after.resolved_pack_equipment@) == views(rules.equipment_spec())
    &&& match (before.data_pack, after.resolved_pack_spells) {
        (Some(_), Some(v)) => views(v@) == views(rules.spells_spec()),
        (None, None) => true,
        _ => false,
    }
    &&& match before.srd_species() {
        Some(_) => after.resolved_pack_species is None,
        None => match (species_with_id(rules.species_spec(), before.species@), after.resolved_pack_species) {
            (Some(i), Some(sp)) => sp@ == rules.species_spec()[i]@ && rules.species_spec()[i].sizes@.contains(before.size),
            _ => false,
        },
    }
}

impl RulesContext<'static> {
    /// The context of the built-in SRD rules alone.
    pub fn srd() -> (r: Self)
        ensures
            r.reference_spec() is None,
            r.name_spec() is None,
            r.classes_spec().len() == 0,
            r.species_spec().len() == 0,
            r.backgrounds_spec().len() == 0,
            r.equipment_spec().len() == 0,
            r.spells_spec().len() == 0,
    {
        RulesContext {
            reference: None,
            name: None,
            classes: &[],
            species: &[],
            backgrounds: &[],
            equipment: &[],
            spells: &[],
        }
    }
}

impl<'a> RulesContext<'a> {
    pub closed spec fn reference_spec(self) -> Option<DataPackReference> {
        match self.reference {
            Some(r) => Some(*r),
            None => None,
        }
    }

    pub closed spec fn name_spec(self) -> Option<Seq<char>> {
        match self.name {
            Some(n) => Some(n@),
            None => None,
        }
    }

    pub closed spec fn classes_spec(self) -> Seq<PackClass> {
        self.classes@
    }

    pub closed spec fn species_spec(self) -> Seq<PackSpecies> {
        self.species@
    }

    pub closed spec fn backgrounds_spec(self) -> Seq<PackBackground> {
        self.backgrounds@
    }

    pub closed spec fn equipment_spec(self) -> Seq<PackEquipment> {
        self.equipment@
    }

    pub closed spec fn spells_spec(self) -> Seq<PackSpell> {
        self.spells@
    }

    /// The context of a pack revision with its validated content.
    pub fn with_pack(
        reference: &'a DataPackReference,
        name: &'a str,
        classes: &'a [PackClass],
        species: &'a [PackSpecies],
        backgrounds: &'a [PackBackground],
        equipment: &'a [PackEquipment],
        spells: &'a [PackSpell],
    ) -> (r: Self)
        ensures
            r.reference_spec() == Some(*reference),
            r.name_spec() == Some(name@),
            r.classes_spec() == classes@,
            r.species_spec() == species@,
            r.backgrounds_spec() == backgrounds@,
            r.equipment_spec() == equipment@,
            r.spells_spec() == spells@,
    {
        RulesContext {
            reference: Some(reference),
            name: Some(name),
            classes,
            species,
            backgrounds,
            equipment,
            spells,
        }
    }

    /// The pack revision this context serves, if any.
    pub fn reference(self) -> (r: Option<&'a DataPackReference>)
        ensures
            match r {
                Some(x) => self.reference_spec() == Some(*x),
                None => self.reference_spec() is None,
            },
    {
        self.reference
    }

    /// The pack's display name, if any.
    pub fn name(self) -> (r: Option<&'a str>)
        ensures
            match r {
                Some(x) => self.name_spec() == Some(x@),
                None => self.name_spec() is None,
            },
    {
        self.name
    }

    /// The pack classes.
    pub fn classes(self) -> (r: &'a [PackClass])
        ensures
            r@ == self.classes_spec(),
    {
        self.classes
    }

    /// The pack species.
    pub fn species(self) -> (r: &'a [PackSpecies])
        ensures
            r@ == self.species_spec(),
    {
        self.species
    }

    /// The pack backgrounds.
    pub fn backgrounds(self) -> (r: &'a [PackBackground])
        ensures
            r@ == self.backgrounds_spec(),
    {
        self.backgrounds
    }

    /// The pack equipment.
    pub fn equipment(self) -> (r: &'a [PackEquipment])
        ensures
            r@ == self.equipment_spec(),
    {
        self.equipment
    }

    /// The pack spells.
    pub fn spells(self) -> (r: &'a [PackSpell])
        ensures
            r@ == self.spells_spec(),
    {
        self.spells
    }

    /// Attach the exact custom mechanics a canonical character refers to.
    ///
    /// A character tied to a pack must be served by that exact revision. The
    /// pack class, background, equipment, spells and species are then attached
    /// in turn, each step validating the record, and the result is validated.
    pub fn resolve(self, character: Character) -> (r: Result<ResolvedCharacter, String>)
        ensures
            match provenance_error(character.data_pack, self.reference_spec()) {
                Some(message) => match r {
                    Err(e) => e@ == message,
                    Ok(_) => false,
                },
                None => match r {
                    Ok(resolved) => resolved.0.valid() && resolution_of(character, resolved.0, self),
                    Err(e) => character.srd_class() is None && class_with_id(self.classes_spec(), character.character_class@) is None
                        ==> e@ == "unknown class in data pack: "@ + character.character_class@,
                },
            },
            plain_srd_record(character) ==> match character.validation_error() {
                None => r is Ok,
                Some(m) => r matches Err(e) && e@ == m,
            },
    {
        let ghost start = character;
        let mut character = character;
        match (&character.data_pack, self.reference) {
            (None, _) => {},
            (Some(required), Some(actual)) => {
                if !required.same_as(actual) {
                    let mut message = String::new();
                    message.append("character requires data pack ");
                    message.append(required.id.as_str());
                    message.append(" version ");
                    message.append(decimal_exec(required.version as u64).as_str());
                    message.append(" (format version ");
                    message.append(decimal_exec(required.format_version as u64).as_str());
                    message.append(")");
                    return Err(message);
                }
            },
            (Some(required), None) => {
                let mut message = String::new();
                message.append("character requires data pack ");
                message.append(required.id.as_str());
                message.append("; pass --data <directory>");
                return Err(message);
            },
        }
        character.resolve_pack_class(self.classes)?;
        character.resolve_pack_background(self.backgrounds)?;
        let ghost before_equipment = character;
        let equipment_result = character.resolve_pack_equipment(self.equipment);
        proof {
            if plain_srd_record(start) {
                assert(before_equipment == start);
                crate::validation::lemma_validation_error_ignores_equipment_and_species(start, character);
            }
        }
        equipment_result?;
        character.resolve_pack_spells(self.spells)?;
        let empty: &[PackSpecies] = &[];
        let species = if crate::srd::species_index_exec(character.species.as_str()).is_some() {
            empty
        } else {
            self.species
        };
        character.resolve_pack_species(species)?;
        proof {
            if plain_srd_record(start) {
                crate::validation::lemma_validation_error_ignores_equipment_and_species(start, character);
            }
        }
        character.validate()?;
        Ok(ResolvedCharacter(character))
    }

    /// The first pack class whose ID or name matches `value`, ignoring ASCII case.
    pub fn custom_class(self, value: &str) -> (r: Option<&'a PackClass>)
        ensures
            match class_named(self.classes_spec(), value@) {
                Some(i) => r == Some(&self.classes_spec()[i]),
                None => r is None,
            },
    {
        let ghost p = |rule: PackClass|
            eq_ignore_case(rule.id@, value@) || eq_ignore_case(rule.name@, value@);
        proof {
            crate::resolve::lemma_first_where(self.classes@, p, 0);
        }
        let mut i: usize = 0;
        while i < self.classes.len()
            invariant
                i <= self.classes.len(),
                p == (|rule: PackClass| eq_ignore_case(rule.id@, value@) || eq_ignore_case(rule.name@, value@)),
                first_where(self.classes@, p) == crate::resolve::first_where_from(self.classes@, p, i as int),
            decreases self.classes.len() - i,
        {
            let rule = &self.classes[i];
            if eq_ignore_case_exec(rule.id.as_str(), value) || eq_ignore_case_exec(rule.name.as_str(), value) {
                return Some(rule);
            }
            i = i + 1;
        }
        None
    }

    /// The first pack background whose ID or name matches `value`, ignoring ASCII case.
    pub fn custom_background(self, value: &str) -> (r: Option<&'a PackBackground>)
        ensures
            match background_named(self.backgrounds_spec(), value@) {
                Some(i) => r == Some(&self.backgrounds_spec()[i]),
                None => r is None,
            },
    {
        let ghost p = |rule: PackBackground|
            eq_ignore_case(rule.id@, value@) || eq_ignore_case(rule.name@, value@);
        proof {
            crate::resolve::lemma_first_where(self.backgrounds@, p, 0);
        }
        let mut i: usize = 0;
        while i < self.backgrounds.len()
            invariant
                i <= self.backgrounds.len(),
                p == (|rule: PackBackground| eq_ignore_case(rule.id@, value@) || eq_ignore_case(rule.name@, value@)),
                first_where(self.backgrounds@, p) == crate::resolve::first_where_from(self.backgrounds@, p, i as int),
            decreases self.backgrounds.len() - i,
        {
            let rule = &self.backgrounds[i];
            if eq_ignore_case_exec(rule.id.as_str(), value) || eq_ignore_case_exec(rule.name.as_str(), value) {
                return Some(rule);
            }
            i = i + 1;
        }
        None
    }

    /// The first pack species whose ID or name matches `value`, ignoring ASCII case.
    pub fn custom_species(self, value: &str) -> (r: Option<&'a PackSpecies>)
        ensures
            match species_named(self.species_spec(), value@) {
                Some(i) => r == Some(&self.species_spec()[i]),
                None => r is None,
            },
    {
        let ghost p = |rule: PackSpecies|
            eq_ignore_case(rule.id@, value@) || eq_ignore_case(rule.name@, value@);
        proof {
            crate::resolve::lemma_first_where(self.species@, p, 0);
        }
        let mut i: usize = 0;
        while i < self.species.len()
            invariant
                i <= self.species.len(),
                p == (|rule: PackSpecies| eq_ignore_case(rule.id@, value@) || eq_ignore_case(rule.name@, value@)),
                first_where(self.species@, p) == crate::resolve::first_where_from(self.species@, p, i as int),
            decreases self.species.len() - i,
        {
            let rule = &self.species[i];
            if eq_ignore_case_exec(rule.id.as_str(), value) || eq_ignore_case_exec(rule.name.as_str(), value) {
                return Some(rule);
            }
            i = i + 1;
        }
        None
    }
}


/// An SRD record that carries no pack and no attached pack mechanics: the
/// rules resolve it to itself.
pub open spec fn plain_srd_record(c: Character) -> bool {
    &&& c.data_pack is None
    &&& c.srd_class() is Some
    &&& c.srd_background() is Some
    &&& c.srd_species() is Some
    &&& c.resolved_pack_class is None
    &&& c.resolved_pack_background is None
    &&& c.resolved_pack_spells is None
    &&& c.resolved_pack_species is None
}

/// A resolution failure as the user sees it: the message names the pack the
/// context serves, when it serves one.
pub open spec fn named_in_pack(error: Seq<char>, reference: Option<DataPackReference>) -> Seq<char> {
    match reference {
        Some(r) => error + " in data pack "@ + r.id@,
        None => error,
    }
}

/// Resolve a loaded character against the rules, reporting a failure as a
/// rules error that names the data pack in use.
pub fn resolve_rules(character: Character, rules: RulesContext) -> (r: Result<ResolvedCharacter, AppError>)
    ensures
        match provenance_error(character.data_pack, rules.reference_spec()) {
            Some(message) => match r {
                Err(e) => e.kind_spec() == ErrorKind::Rules && e.message_spec() == named_in_pack(
                    message,
                    rules.reference_spec(),
                ),
                Ok(_) => false,
            },
            None => match r {
                Ok(resolved) => resolved.0.valid() && resolution_of(character, resolved.0, rules),
                Err(e) => e.kind_spec() == ErrorKind::Rules,
            },
        },
        plain_srd_record(character) ==> match character.validation_error() {
            None => r is Ok,
            Some(m) => r matches Err(e) && e.message_spec() == named_in_pack(m, rules.reference_spec()),
        },
{
    match rules.resolve(character) {
        Ok(resolved) => Ok(resolved),
        Err(error) => {
            let message = match rules.reference() {
                Some(reference) => crate::text::join3(error.as_str(), " in data pack ", reference.id.as_str()),
                None => error,
            };
            Err(AppError::new(ErrorKind::Rules, message))
        },
    }
}

/// Pack content is looked up by stable ID or by display name, ignoring ASCII
/// case: the first species whose ID or name matches is found, and none is
/// found only when no species matches either way.
pub proof fn lemma_species_found_by_id_or_name(species: Seq<PackSpecies>, value: Seq<char>)
    ensures
        match species_named(species, value) {
            Some(i) => 0 <= i < species.len() && (eq_ignore_case(species[i].id@, value) || eq_ignore_case(
                species[i].name@,
                value,
            )) && forall|j: int|
                0 <= j < i ==> !eq_ignore_case(#[trigger] species[j].id@, value) && !eq_ignore_case(species[j].name@, value),
            None => forall|j: int|
                0 <= j < species.len() ==> !eq_ignore_case(#[trigger] species[j].id@, value) && !eq_ignore_case(
                    species[j].name@,
                    value,
                ),
        },
{
    crate::resolve::lemma_first_where(
        species,
        |rule: PackSpecies| eq_ignore_case(rule.id@, value) || eq_ignore_case(rule.name@, value),
        0,
    );
}

/// Pack classes are looked up by stable ID or by display name, ignoring ASCII case.
pub proof fn lemma_class_found_by_id_or_name(classes: Seq<PackClass>, value: Seq<char>)
    ensures
        match class_named(classes, value) {
            Some(i) => 0 <= i < classes.len() && (eq_ignore_case(classes[i].id@, value) || eq_ignore_case(
                classes[i].name@,
                value,
            )) && forall|j: int|
                0 <= j < i ==> !eq_ignore_case(#[trigger] classes[j].id@, value) && !eq_ignore_case(classes[j].name@, value),
            None => forall|j: int|
                0 <= j < classes.len() ==> !eq_ignore_case(#[trigger] classes[j].id@, value) && !eq_ignore_case(
                    classes[j].name@,
                    value,
                ),
        },
{
    crate::resolve::lemma_first_where(
        classes,
        |rule: PackClass| eq_ignore_case(rule.id@, value) || eq_ignore_case(rule.name@, value),
        0,
    );
}

/// Pack backgrounds are looked up by stable ID or by display name, ignoring ASCII case.
pub proof fn lemma_background_found_by_id_or_name(backgrounds: Seq<PackBackground>, value: Seq<char>)
    ensures
        match background_named(backgrounds, value) {
            Some(i) => 0 <= i < backgrounds.len() && (eq_ignore_case(backgrounds[i].id@, value) || eq_ignore_case(
                backgrounds[i].name@,
                value,
            )) && forall|j: int|
                0 <= j < i ==> !eq_ignore_case(#[trigger] backgrounds[j].id@, value) && !eq_ignore_case(
                    backgrounds[j].name@,
                    value,
                ),
            None => forall|j: int|
                0 <= j < backgrounds.len() ==> !eq_ignore_case(#[trigger] backgrounds[j].id@, value) && !eq_ignore_case(
                    backgrounds[j].name@,
                    value,
                ),
        },
{
    crate::resolve::lemma_first_where(
        backgrounds,
        |rule: PackBackground| eq_ignore_case(rule.id@, value) || eq_ignore_case(rule.name@, value),
        0,
    );
}

} // verus!
