//! Top-level command dispatch: a subcommand name resolves to the one
//! implemented command or to a typed error.

use vstd::prelude::*;
use crate::text::str_eq;

verus! {

/// Errors of the top-level dispatch.
#[derive(Debug, PartialEq, Eq, Clone, Copy)]
pub enum CommandError {
    /// A subcommand was named that this tool does not implement.
    CommandNotImplemented,
    /// No subcommand was given at all.
    NoCommandProvided,
}

/// The commands this tool implements.
#[derive(Debug, PartialEq, Eq, Clone, Copy)]
pub enum CliCommand {
    /// Scaffold a new mod skeleton.
    New,
}

/// Resolves a subcommand name to the command to run: `new` scaffolds a
/// mod skeleton, any other name is not implemented, and a missing
/// subcommand is reported as such.
pub fn run(subcommand: Option<&str>) -> (r: Result<CliCommand, CommandError>)
    ensures
        subcommand is None ==> r == Err::<CliCommand, CommandError>(
            CommandError::NoCommandProvided,
        ),
        (subcommand matches Some(s) && s@ == "new"@) ==> r == Ok::<CliCommand, CommandError>(
            CliCommand::New,
        ),
        (subcommand matches Some(s) && s@ != "new"@) ==> r == Err::<CliCommand, CommandError>(
            CommandError::CommandNotImplemented,
        ),
{
    match subcommand {
        Some(name) => {
            if str_eq(name, "new") {
                Ok(CliCommand::New)
            } else {
                Err(CommandError::CommandNotImplemented)
            }
        },
        None => Err(CommandError::NoCommandProvided),
    }
}

} // verus!
