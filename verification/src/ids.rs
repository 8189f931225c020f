//! Identifiers used by the canonical character record.

use vstd::prelude::*;

use crate::text::{is_blank, is_blank_exec, join2, owned, str_eq, trim};

verus! {

/// Built-in SRD class names and stable external pack class IDs.
#[derive(Debug, PartialEq, Eq)]
pub struct ClassId(String);

/// Built-in SRD background names and stable external pack background IDs.
#[derive(Debug, PartialEq, Eq)]
pub struct BackgroundId(String);

/// Built-in SRD species names and stable external pack species IDs.
#[derive(Debug, PartialEq, Eq)]
pub struct SpeciesId(String);

impl View for ClassId {
    type V = Seq<char>;

    closed spec fn view(&self) -> Seq<char> {
        self.0@
    }
}

impl View for BackgroundId {
    type V = Seq<char>;

    closed spec fn view(&self) -> Seq<char> {
        self.0@
    }
}

impl View for SpeciesId {
    type V = Seq<char>;

    closed spec fn view(&self) -> Seq<char> {
        self.0@
    }
}

/// An identifier is accepted when something other than whitespace remains.
pub open spec fn valid_identifier_text(value: Seq<char>) -> bool {
    !is_blank(value)
}

impl ClassId {
    /// The identifier's text.
    pub fn as_str(&self) -> (r: &str)
        ensures
            r@ == self@,
    {
        self.0.as_str()
    }

    /// Parse a class identifier; it must not be empty after trimming.
    pub fn parse(value: &str) -> (r: Result<ClassId, String>)
        ensures
            match r {
                Ok(id) => valid_identifier_text(value@) && id@ == value@,
                Err(e) => !valid_identifier_text(value@) && e@ == "class identifier must not be empty"@,
            },
    {
        if is_blank_exec(value) {
            Err(owned("class identifier must not be empty"))
        } else {
            Ok(ClassId(owned(value)))
        }
    }
}

impl BackgroundId {
    /// The identifier's text.
    pub fn as_str(&self) -> (r: &str)
        ensures
            r@ == self@,
    {
        self.0.as_str()
    }

    /// Parse a background identifier; it must not be empty after trimming.
    pub fn parse(value: &str) -> (r: Result<BackgroundId, String>)
        ensures
            match r {
                Ok(id) => valid_identifier_text(value@) && id@ == value@,
                Err(e) => !valid_identifier_text(value@) && e@ == "background identifier must not be empty"@,
            },
    {
        if is_blank_exec(value) {
            Err(owned("background identifier must not be empty"))
        } else {
            Ok(BackgroundId(owned(value)))
        }
    }
}

impl SpeciesId {
    /// The identifier's text.
    pub fn as_str(&self) -> (r: &str)
        ensures
            r@ == self@,
    {
        self.0.as_str()
    }

    /// Parse a species identifier; it must not be empty after trimming.
    pub fn parse(value: &str) -> (r: Result<SpeciesId, String>)
        ensures
            match r {
                Ok(id) => valid_identifier_text(value@) && id@ == value@,
                Err(e) => !valid_identifier_text(value@) && e@ == "species identifier must not be empty"@,
            },
    {
        if is_blank_exec(value) {
            Err(owned("species identifier must not be empty"))
        } else {
            Ok(SpeciesId(owned(value)))
        }
    }
}

impl Clone for ClassId {
    fn clone(&self) -> (r: Self)
        ensures
            r == *self,
    {
        ClassId(self.0.clone())
    }
}

impl Clone for BackgroundId {
    fn clone(&self) -> (r: Self)
        ensures
            r == *self,
    {
        BackgroundId(self.0.clone())
    }
}

impl Clone for SpeciesId {
    fn clone(&self) -> (r: Self)
        ensures
            r == *self,
    {
        SpeciesId(self.0.clone())
    }
}

/// Creature size.
#[derive(Debug, Clone, Copy, PartialEq, Eq, Structural)]
pub enum Size {
    Small,
    Medium,
}

impl Size {
    /// The size's name.
    pub open spec fn name(self) -> Seq<char> {
        match self {
            Size::Small => "Small"@,
            Size::Medium => "Medium"@,
        }
    }

    /// The size's name.
    pub fn as_str(self) -> (r: &'static str)
        ensures
            r@ == self.name(),
    {
        match self {
            Size::Small => "Small",
            Size::Medium => "Medium",
        }
    }

    /// Parse a size from its exact name.
    pub fn parse(value: &str) -> (r: Result<Size, String>)
        ensures
            match r {
                Ok(size) => size.name() == value@,
                Err(e) => value@ != "Small"@ && value@ != "Medium"@ && e@ == "unknown SRD Size: "@ + value@,
            },
    {
        if str_eq(value, "Small") {
            Ok(Size::Small)
        } else if str_eq(value, "Medium") {
            Ok(Size::Medium)
        } else {
            Err(join2("unknown SRD Size: ", value))
        }
    }
}

} // verus!
