//! Completing a freshly parsed canonical character record.

use vstd::prelude::*;

use crate::record::Character;
use crate::text::{is_blank, is_blank_exec, opt_view, trim, trim_exec};

verus! {

/// A free-text detail as the canonical record keeps it: trimmed, and absent when blank.
pub open spec fn normalized_detail(detail: Option<String>) -> Option<Seq<char>> {
    match detail {
        Some(text) => if is_blank(text@) {
            None
        } else {
            Some(trim(text@))
        },
        None => None,
    }
}

/// Trim a free-text detail, dropping it when blank.
pub fn normalize_detail(detail: Option<String>) -> (r: Option<String>)
    ensures
        opt_view(r) == normalized_detail(detail),
{
    match detail {
        Some(text) => if is_blank_exec(text.as_str()) {
            None
        } else {
            Some(trim_exec(text.as_str()))
        },
        None => None,
    }
}

/// `after` is `before` with its free-text details normalized.
pub open spec fn details_normalized(before: Character, after: Character) -> bool {
    &&& opt_view(after.backstory) == normalized_detail(before.backstory)
    &&& opt_view(after.appearance) == normalized_detail(before.appearance)
    &&& opt_view(after.personality) == normalized_detail(before.personality)
    &&& after == Character {
        backstory: after.backstory,
        appearance: after.appearance,
        personality: after.personality,
        ..before
    }
}

impl Character {
    /// Normalize the free-text details of a parsed record and validate it.
    ///
    /// Blank backstory, appearance and personality become absent; the others
    /// are trimmed. The record is then validated with the pack mechanics it
    /// carries, and a broken rule is reported by the message of the first one.
    pub fn from_parsed(self) -> (r: Result<Character, String>)
        ensures
            match r {
                Ok(c) => details_normalized(self, c) && c.valid(),
                Err(e) => exists|c: Character| details_normalized(self, c) && !c.valid() && c.validation_error() == Some(e@),
            },
    {
        let mut character = self;
        let backstory = normalize_detail(character.backstory);
        let appearance = normalize_detail(character.appearance);
        let personality = normalize_detail(character.personality);
        character.backstory = backstory;
        character.appearance = appearance;
        character.personality = personality;
        match character.validate() {
            Ok(()) => Ok(character),
            Err(e) => Err(e),
        }
    }
}

} // verus!
