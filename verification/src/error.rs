//! The errors of ship, each with the message it is shown with.

use vstd::prelude::*;
use crate::text::{push_str, string_of};

verus! {

/// What can go wrong in a ship command. The last three carry the text of an
/// I/O, TOML or JSON error.
#[derive(Debug, Clone)]
pub enum ShipError {
    Config(String),
    Git(String),
    TestFailed(String),
    DocsGateFailed(String),
    PushFailed(String),
    PrFailed(String),
    CommandNotFound(String),
    ProtectedBranch(String),
    Io(String),
    TomlParse(String),
    Json(String),
}

/// The message of an error: a label for its kind, then its detail.
pub open spec fn error_text(e: ShipError) -> Seq<char> {
    match e {
        ShipError::Config(s) => "Config error: "@ + s@,
        ShipError::Git(s) => "Git error: "@ + s@,
        ShipError::TestFailed(s) => "Test failure: "@ + s@,
        ShipError::DocsGateFailed(s) => "Docs gate failure: "@ + s@,
        ShipError::PushFailed(s) => "Push failed: "@ + s@,
        ShipError::PrFailed(s) => "PR creation failed: "@ + s@,
        ShipError::CommandNotFound(s) => "Command not found: "@ + s@,
        ShipError::ProtectedBranch(s) => "On protected branch: "@ + s@,
        ShipError::Io(s) => "IO error: "@ + s@,
        ShipError::TomlParse(s) => "TOML parse error: "@ + s@,
        ShipError::Json(s) => "JSON error: "@ + s@,
    }
}

impl ShipError {
    /// The message the error is shown with.
    pub fn message(&self) -> (r: String)
        ensures
            r@ == error_text(*self),
    {
        let (label, detail) = match self {
            ShipError::Config(s) => ("Config error: ", s),
            ShipError::Git(s) => ("Git error: ", s),
            ShipError::TestFailed(s) => ("Test failure: ", s),
            ShipError::DocsGateFailed(s) => ("Docs gate failure: ", s),
            ShipError::PushFailed(s) => ("Push failed: ", s),
            ShipError::PrFailed(s) => ("PR creation failed: ", s),
            ShipError::CommandNotFound(s) => ("Command not found: ", s),
            ShipError::ProtectedBranch(s) => ("On protected branch: ", s),
            ShipError::Io(s) => ("IO error: ", s),
            ShipError::TomlParse(s) => ("TOML parse error: ", s),
            ShipError::Json(s) => ("JSON error: ", s),
        };
        let mut r = string_of(label);
        push_str(&mut r, detail.as_str());
        r
    }
}

} // verus!
