//! Tying a character record to the campaign data pack it was made with.

use vstd::prelude::*;

use crate::content::{views, PackBackground, PackClass, PackEquipment, PackSpecies, PackSpell};
use crate::data_pack::DataPackManifest;
use crate::record::{Character, DataPackReference};
use crate::resolve::{background_with_id, class_with_id, species_with_id};
use crate::srd::species_index_exec;
use crate::text::{decimal, decimal_exec, join3, join4};

verus! {

/// The provenance recorded for characters made with `pack`.
pub open spec fn reference_of(pack: DataPackManifest) -> DataPackReference {
    DataPackReference { id: pack.id, format_version: pack.format_version, version: pack.version }
}

/// The pack a caller handed in, by value.
pub open spec fn loaded(pack: Option<&DataPackManifest>) -> Option<DataPackManifest> {
    match pack {
        Some(p) => Some(*p),
        None => None,
    }
}

/// The provenance of a loaded pack.
pub fn data_pack_reference(pack: &DataPackManifest) -> (r: DataPackReference)
    ensures
        r == reference_of(*pack),
{
    DataPackReference { id: pack.id.clone(), format_version: pack.format_version, version: pack.version }
}

/// Record the loaded pack, or the absence of one, as the character's provenance.
pub fn set_data_pack(character: &mut Character, pack: Option<&DataPackManifest>)
    ensures
        *final(character) == (Character {
            data_pack: match pack {
                Some(p) => Some(reference_of(*p)),
                None => None,
            },
            ..*old(character)
        }),
{
    character.data_pack = match pack {
        Some(p) => Some(data_pack_reference(p)),
        None => None,
    };
}

/// Why a character that names `required` cannot be used with `pack`, if it cannot.
pub open spec fn pack_requirement_issue(
    required: Option<DataPackReference>,
    pack: Option<DataPackManifest>,
) -> Option<Seq<char>> {
    match required {
        None => None,
        Some(r) => match pack {
            None => Some("character requires data pack "@ + r.id@ + "; pass --data <directory>"@),
            Some(p) => if r.same(reference_of(p)) {
                None
            } else {
                Some(
                    "character requires data pack "@ + r.id@ + " version "@ + decimal(r.version as nat)
                        + " (format version "@ + decimal(r.format_version as nat) + ")"@,
                )
            },
        },
    }
}

/// Check that the loaded pack is exactly the revision the character was made with.
pub fn ensure_data_pack(character: &Character, pack: Option<&DataPackManifest>) -> (r: Result<(), String>)
    ensures
        match pack_requirement_issue(character.data_pack, loaded(pack)) {
            None => r is Ok,
            Some(m) => r matches Err(e) && e@ == m,
        },
{
    let reference = match &character.data_pack {
        None => {
            return Ok(());
        },
        Some(reference) => reference,
    };
    let pack = match pack {
        None => {
            return Err(join3("character requires data pack ", reference.id.as_str(), "; pass --data <directory>"));
        },
        Some(pack) => pack,
    };
    if reference.id != pack.id || reference.format_version != pack.format_version || reference.version
        != pack.version {
        let version = decimal_exec(reference.version as u64);
        let format_version = decimal_exec(reference.format_version as u64);
        let head = join4("character requires data pack ", reference.id.as_str(), " version ", version.as_str());
        return Err(join4(head.as_str(), " (format version ", format_version.as_str(), ")"));
    }
    Ok(())
}

/// An error from resolving pack content, naming the pack when there is one.
pub open spec fn in_pack(error: Seq<char>, pack: Option<DataPackManifest>) -> Seq<char> {
    match pack {
        Some(p) => error + " in data pack "@ + p.id@,
        None => error,
    }
}

fn name_pack(error: String, pack: Option<&DataPackManifest>) -> (r: String)
    ensures
        r@ == in_pack(error@, loaded(pack)),
{
    match pack {
        Some(p) => join3(error.as_str(), " in data pack ", p.id.as_str()),
        None => error,
    }
}

/// The classes a pack offers; none without a pack.
pub open spec fn classes_of(pack: Option<DataPackManifest>) -> Seq<PackClass> {
    match pack {
        Some(p) => p.classes@,
        None => seq![],
    }
}

/// The backgrounds a pack offers; none without a pack.
pub open spec fn backgrounds_of(pack: Option<DataPackManifest>) -> Seq<PackBackground> {
    match pack {
        Some(p) => p.backgrounds@,
        None => seq![],
    }
}

/// The equipment a pack offers; none without a pack.
pub open spec fn equipment_of(pack: Option<DataPackManifest>) -> Seq<PackEquipment> {
    match pack {
        Some(p) => p.equipment@,
        None => seq![],
    }
}

/// The spells a pack offers; none without a pack.
pub open spec fn spells_of(pack: Option<DataPackManifest>) -> Seq<PackSpell> {
    match pack {
        Some(p) => p.spells@,
        None => seq![],
    }
}

/// The species a pack offers; none without a pack.
pub open spec fn species_of(pack: Option<DataPackManifest>) -> Seq<PackSpecies> {
    match pack {
        Some(p) => p.species@,
        None => seq![],
    }
}

/// Only the resolved-content fields of `after` differ from `before`.
pub open spec fn only_content_changed(before: Character, after: Character) -> bool {
    after == (Character {
        resolved_pack_class: after.resolved_pack_class,
        resolved_pack_background: after.resolved_pack_background,
        resolved_pack_equipment: after.resolved_pack_equipment,
        resolved_pack_spells: after.resolved_pack_spells,
        resolved_pack_species: after.resolved_pack_species,
        ..before
    })
}

/// After a successful resolution, each content field holds exactly what `pack` defines for it.
pub open spec fn content_resolved(before: Character, after: Character, pack: Option<DataPackManifest>) -> bool {
    &&& match (before.srd_class(), class_with_id(classes_of(pack), before.character_class@)) {
        (Some(_), _) => after.resolved_pack_class is None,
        (None, Some(i)) => after.resolved_pack_class matches Some(c) && c@ == classes_of(pack)[i]@,
        (None, None) => false,
    }
    &&& match (before.srd_background(), background_with_id(backgrounds_of(pack), before.background@)) {
        (Some(_), _) => after.resolved_pack_background is None,
        (None, Some(i)) => after.resolved_pack_background matches Some(b) && b@ == backgrounds_of(pack)[i]@,
        (None, None) => false,
    }
    &&& views(after.resolved_pack_equipment@) == views(equipment_of(pack))
    &&& match before.data_pack {
        Some(_) => after.resolved_pack_spells matches Some(v) && views(v@) == views(spells_of(pack)),
        None => after.resolved_pack_spells is None,
    }
    &&& match (before.srd_species(), species_with_id(species_of(pack), before.species@)) {
        (Some(_), _) => after.resolved_pack_species is None,
        (None, Some(i)) => after.resolved_pack_species matches Some(s) && s@ == species_of(pack)[i]@,
        (None, None) => false,
    }
}

/// Validity does not depend on the attached pack species rule.
proof fn lemma_valid_ignores_species_rule(a: Character, b: Character)
    requires
        a.valid(),
        b == (Character { resolved_pack_species: b.resolved_pack_species, ..a }),
    ensures
        b.valid(),
{
}

/// Attach the class, background, equipment, spell and species mechanics that
/// `pack` defines for a loaded character, in that order, stopping at the first
/// failure.
pub fn resolve_pack_content(character: &mut Character, pack: Option<&DataPackManifest>) -> (r: Result<
    (),
    String,
>)
    ensures
        only_content_changed(*old(character), *final(character)),
        r is Ok ==> content_resolved(*old(character), *final(character), loaded(pack)) && final(character).valid(),
        old(character).srd_class() is None && class_with_id(
            classes_of(loaded(pack)),
            old(character).character_class@,
        ) is None ==> (r matches Err(e) && e@ == in_pack(
            "unknown class in data pack: "@ + old(character).character_class@,
            loaded(pack),
        )),
        pack is None && old(character).srd_species() is None ==> r is Err,
{
    let empty_classes: Vec<PackClass> = Vec::new();
    let empty_backgrounds: Vec<PackBackground> = Vec::new();
    let empty_equipment: Vec<PackEquipment> = Vec::new();
    let empty_spells: Vec<PackSpell> = Vec::new();
    let empty_species: Vec<PackSpecies> = Vec::new();
    let classes: &[PackClass] = match pack {
        Some(p) => p.classes.as_slice(),
        None => empty_classes.as_slice(),
    };
    let backgrounds: &[PackBackground] = match pack {
        Some(p) => p.backgrounds.as_slice(),
        None => empty_backgrounds.as_slice(),
    };
    let equipment: &[PackEquipment] = match pack {
        Some(p) => p.equipment.as_slice(),
        None => empty_equipment.as_slice(),
    };
    let spells: &[PackSpell] = match pack {
        Some(p) => p.spells.as_slice(),
        None => empty_spells.as_slice(),
    };
    assert(classes@ == classes_of(loaded(pack)));
    assert(backgrounds@ == backgrounds_of(loaded(pack)));
    assert(equipment@ == equipment_of(loaded(pack)));
    assert(spells@ == spells_of(loaded(pack)));
    if let Err(error) = character.resolve_pack_class(classes) {
        return Err(name_pack(error, pack));
    }
    if let Err(error) = character.resolve_pack_background(backgrounds) {
        return Err(name_pack(error, pack));
    }
    if let Err(error) = character.resolve_pack_equipment(equipment) {
        return Err(name_pack(error, pack));
    }
    if let Err(error) = character.resolve_pack_spells(spells) {
        return Err(name_pack(error, pack));
    }
    let ghost before_species = *character;
    if species_index_exec(character.species.as_str()).is_some() {
        let r = character.resolve_pack_species(empty_species.as_slice());
        proof {
            lemma_valid_ignores_species_rule(before_species, *character);
        }
        return r;
    }
    match pack {
        None => Err(join3("pack species ", character.species.as_str(), " requires --data <directory>")),
        Some(p) => {
            let r = character.resolve_pack_species(p.species.as_slice());
            match r {
                Ok(()) => {
                    proof {
                        lemma_valid_ignores_species_rule(before_species, *character);
                    }
                    Ok(())
                },
                Err(error) => Err(name_pack(error, pack)),
            }
        },
    }
}


/// A character made with a pack is accepted with exactly that pack loaded,
/// refused without one, and refused with any other revision of it; a
/// character made without a pack is accepted whatever is loaded.
pub proof fn lemma_pack_requirement(made_with: DataPackManifest, loaded_pack: DataPackManifest)
    ensures
        pack_requirement_issue(Some(reference_of(made_with)), Some(made_with)) is None,
        pack_requirement_issue(Some(reference_of(made_with)), None) is Some,
        loaded_pack.version != made_with.version ==> pack_requirement_issue(
            Some(reference_of(made_with)),
            Some(loaded_pack),
        ) is Some,
        pack_requirement_issue(None, Some(loaded_pack)) is None,
        pack_requirement_issue(None, None) is None,
{
}

} // verus!
