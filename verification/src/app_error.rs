//! Typed application errors and their exit codes.

use vstd::prelude::*;

verus! {

/// What kind of step failed.
#[derive(Debug, Clone, Copy, PartialEq, Eq, Structural)]
pub enum ErrorKind {
    Input,
    Persistence,
    Rules,
    Rendering,
}

/// An error reported to the user, with the kind of step that failed.
#[derive(Debug)]
pub struct AppError {
    kind: ErrorKind,
    message: String,
}

impl AppError {
    pub closed spec fn kind_spec(&self) -> ErrorKind {
        self.kind
    }

    pub closed spec fn message_spec(&self) -> Seq<char> {
        self.message@
    }

    /// An error of the given kind.
    pub fn new(kind: ErrorKind, message: String) -> (r: AppError)
        ensures
            r.kind_spec() == kind,
            r.message_spec() == message@,
    {
        AppError { kind, message }
    }

    /// The process exit code: every kind of failure exits with 1.
    pub fn exit_code(&self) -> (r: u8)
        ensures
            r == 1,
    {
        match self.kind {
            ErrorKind::Input | ErrorKind::Persistence | ErrorKind::Rules | ErrorKind::Rendering => 1,
        }
    }

    /// The message shown to the user.
    pub fn message(&self) -> (r: &str)
        ensures
            r@ == self.message_spec(),
    {
        self.message.as_str()
    }

    /// The kind of step that failed.
    pub fn kind(&self) -> (r: ErrorKind)
        ensures
            r == self.kind_spec(),
    {
        self.kind
    }
}

} // verus!
