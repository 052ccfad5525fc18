//! The two operations and the `cargo` invocation that each makes for one
//! workspace member.

use vstd::prelude::*;
use crate::failure::Failure;

verus! {

/// The package manager that does the work.
pub const PROGRAM: &'static str = "cargo";

/// What to do with every member of the workspace.
#[derive(Clone, Copy, Debug, PartialEq, Eq, Structural)]
pub enum Operation {
    /// Install the member as a binary; `force` overwrites what is installed.
    Install { force: bool },
    /// Uninstall the member.
    Uninstall,
}

/// One run of an external program.
#[derive(Clone, Debug, PartialEq, Eq)]
pub struct Invocation {
    /// The program to start.
    pub program: String,
    /// Its arguments, in order.
    pub args: Vec<String>,
}

/// An [`Invocation`] as plain sequences of characters.
pub struct InvocationView {
    pub program: Seq<char>,
    pub args: Seq<Seq<char>>,
}

impl View for Invocation {
    type V = InvocationView;

    open spec fn view(&self) -> InvocationView {
        InvocationView { program: self.program@, args: self.args.deep_view() }
    }
}

/// The operation that a subcommand name selects, if any. The force flag
/// only matters to `install`.
pub open spec fn selected(name: Option<Seq<char>>, force: bool) -> Option<Operation> {
    match name {
        Some(name) => if name == "install"@ {
            Some(Operation::Install { force })
        } else if name == "uninstall"@ {
            Some(Operation::Uninstall)
        } else {
            None
        },
        None => None,
    }
}

/// The arguments handed to `cargo` for one member.
pub open spec fn arguments(operation: Operation, member: Seq<char>) -> Seq<Seq<char>> {
    match operation {
        Operation::Install { force } => if force {
            seq!["install"@, "--path"@, member, "--force"@]
        } else {
            seq!["install"@, "--path"@, member]
        },
        Operation::Uninstall => seq!["uninstall"@, "-p"@, member],
    }
}

/// The invocation that handles one member.
pub open spec fn invocation_for(operation: Operation, member: Seq<char>) -> InvocationView {
    InvocationView { program: PROGRAM@, args: arguments(operation, member) }
}

impl Operation {
    /// Selects the operation named by a subcommand. Any other name, or none,
    /// is a usage failure.
    pub fn from_subcommand(name: Option<&str>, force: bool) -> (r: Result<Operation, Failure>)
        ensures
            match r {
                Ok(operation) => selected(
                    match name {
                        Some(text) => Some(text@),
                        None => None,
                    },
                    force,
                ) == Some(operation),
                Err(failure) => failure == Failure::Usage && selected(
                    match name {
                        Some(text) => Some(text@),
                        None => None,
                    },
                    force,
                ) is None,
            },
            r matches Err(failure) ==> failure.status() == 1,
    {
        match name {
            Some(text) => {
                let given = text.to_owned();
                if given == "install".to_owned() {
                    Ok(Operation::Install { force })
                } else if given == "uninstall".to_owned() {
                    Ok(Operation::Uninstall)
                } else {
                    Err(Failure::Usage)
                }
            },
            None => Err(Failure::Usage),
        }
    }

    /// Builds the `cargo` invocation that applies this operation to `member`.
    pub fn invocation(&self, member: &str) -> (r: Invocation)
        ensures
            r@ == invocation_for(*self, member@),
    {
        let mut args: Vec<String> = Vec::new();
        match self {
            Operation::Install { force } => {
                args.push("install".to_owned());
                args.push("--path".to_owned());
                args.push(member.to_owned());
                if *force {
                    args.push("--force".to_owned());
                }
            },
            Operation::Uninstall => {
                args.push("uninstall".to_owned());
                args.push("-p".to_owned());
                args.push(member.to_owned());
            },
        }
        assert(args.deep_view() =~= arguments(*self, member@));
        Invocation { program: PROGRAM.to_owned(), args }
    }
}

} // verus!
