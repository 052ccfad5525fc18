//! The ways a run can end early, with the exit status and the line shown to
//! the user for each.

use vstd::prelude::*;

verus! {

/// Why a run ended before every member was handled.
#[derive(Clone, Copy, Debug, PartialEq, Eq, Structural)]
pub enum Failure {
    /// No operation, or an unknown one, was selected.
    Usage,
    /// The manifest file could not be read.
    Unreadable,
    /// The manifest text is not valid TOML.
    Malformed,
    /// The manifest has no `workspace` entry.
    NoWorkspace,
    /// The `workspace` entry is not a table, or has no `members` entry.
    NoMembers,
    /// The `members` entry is not an array.
    MembersNotArray,
    /// An element of `members` is not a string.
    MemberNotString,
}

impl Failure {
    /// The process exit status: 2 for an unreadable manifest, 1 otherwise.
    pub open spec fn status(self) -> int {
        if self == Failure::Unreadable {
            2
        } else {
            1
        }
    }

    /// The one-line description of the failure.
    pub open spec fn description(self) -> Seq<char> {
        match self {
            Failure::Usage => "No operation selected"@,
            Failure::Unreadable => "Error reading Cargo.toml file:"@,
            Failure::Malformed => "Error parsing Cargo.toml file:"@,
            Failure::NoWorkspace => "No workspace section found in Cargo.toml"@,
            Failure::NoMembers => "No members found in workspace section of Cargo.toml"@,
            Failure::MembersNotArray => "Can not decode members as array, check your Cargo.toml file for errors"@,
            Failure::MemberNotString => "Member is not a valid string, check your Cargo.toml file for errors"@,
        }
    }

    /// Returns the process exit status for this failure.
    pub fn exit_code(&self) -> (code: i32)
        ensures
            code == self.status(),
            code == 1 || code == 2,
    {
        match self {
            Failure::Unreadable => 2,
            _ => 1,
        }
    }

    /// Returns the line to show on the error stream. For `Unreadable` and
    /// `Malformed` the underlying error's own text follows on the next line.
    pub fn message(&self) -> (line: String)
        ensures
            line@ == self.description(),
    {
        match self {
            Failure::Usage => "No operation selected".to_owned(),
            Failure::Unreadable => "Error reading Cargo.toml file:".to_owned(),
            Failure::Malformed => "Error parsing Cargo.toml file:".to_owned(),
            Failure::NoWorkspace => "No workspace section found in Cargo.toml".to_owned(),
            Failure::NoMembers => "No members found in workspace section of Cargo.toml".to_owned(),
            Failure::MembersNotArray => "Can not decode members as array, check your Cargo.toml file for errors".to_owned(),
            Failure::MemberNotString => "Member is not a valid string, check your Cargo.toml file for errors".to_owned(),
        }
    }
}

} // verus!
