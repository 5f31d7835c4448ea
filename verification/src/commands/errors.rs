//! Error types for command running and argument parsing.
//!
//! [`CommandError`] is either an argument error or an error raised while running a command;
//! [`ArgumentError`] tells why an argument could not be parsed.

use vstd::prelude::*;

verus! {

/// A type-erased error raised by user code (a handler, a custom argument parser, a
/// permission check or a prefix getter).
///
/// The error's concrete type is kept by name so that error handlers can pick out the
/// errors of the type they handle.
#[derive(Debug, PartialEq, Eq)]
pub struct RuntimeError {
    /// The name of the error's concrete type, by which handlers tell errors apart.
    pub kind: String,
    /// The error's rendered message.
    pub message: String,
}

/// An error that occurred when a command was called.
#[derive(Debug, PartialEq, Eq)]
pub enum CommandError {
    /// An error occurred while parsing a command's arguments.
    Arguments(ArgumentError),
    /// The command's handler returned an error.
    Runtime(RuntimeError),
    /// A permission check refused to run the command.
    Permissions(RuntimeError),
    /// The prefixes of a message could not be computed.
    Prefixes(RuntimeError),
}

/// An error that occurred while parsing a command's argument.
#[derive(Debug, PartialEq, Eq)]
pub enum ArgumentError {
    /// An argument was required, but it was missing.
    Missing,
    /// An argument did not have its own metadata (a bug on the library's side).
    MissingMeta,
    /// The argument referred to something Discord did not resolve.
    MissingResolved,
    /// An argument was received, but it was improperly formatted.
    Misformatted,
    /// An argument was received with an incorrect type.
    Mistyped,
    /// The argument cannot be used where the command was run (e.g. a role outside a server).
    WrongContext,
    /// A custom argument parser failed.
    Runtime(RuntimeError),
}

impl CommandError {
    /// Wraps an argument error, as `From<ArgumentError>` does.
    pub fn from_argument_error(error: ArgumentError) -> (r: CommandError)
        ensures
            r == CommandError::Arguments(error),
    {
        CommandError::Arguments(error)
    }
}

impl Clone for RuntimeError {
    fn clone(&self) -> (r: Self)
        ensures
            r == *self,
    {
        RuntimeError { kind: self.kind.clone(), message: self.message.clone() }
    }
}

impl Clone for ArgumentError {
    fn clone(&self) -> (r: Self)
        ensures
            r == *self,
    {
        match self {
            ArgumentError::Missing => ArgumentError::Missing,
            ArgumentError::MissingMeta => ArgumentError::MissingMeta,
            ArgumentError::MissingResolved => ArgumentError::MissingResolved,
            ArgumentError::Misformatted => ArgumentError::Misformatted,
            ArgumentError::Mistyped => ArgumentError::Mistyped,
            ArgumentError::WrongContext => ArgumentError::WrongContext,
            ArgumentError::Runtime(e) => ArgumentError::Runtime(e.clone()),
        }
    }
}

impl Clone for CommandError {
    fn clone(&self) -> (r: Self)
        ensures
            r == *self,
    {
        match self {
            CommandError::Arguments(e) => CommandError::Arguments(e.clone()),
            CommandError::Runtime(e) => CommandError::Runtime(e.clone()),
            CommandError::Permissions(e) => CommandError::Permissions(e.clone()),
            CommandError::Prefixes(e) => CommandError::Prefixes(e.clone()),
        }
    }
}

} // verus!
