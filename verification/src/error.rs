//! Error vocabulary of the service.
//!
//! Protocol errors (a malformed command line) are recovered locally: the
//! connection answers with one `ERR ...` line and stays open. Transport
//! failures are fatal to the connection; the protocol engine never retries
//! them. The engine itself does no I/O, so the `Io` variant carries no
//! payload: the surrounding program owns the underlying stream error.

use vstd::prelude::*;

verus! {

/// Abstract form of a [`ProtocolError`], over character sequences.
pub enum ProtocolErrorV {
    UnknownCommand,
    WrongArity { command: Seq<char>, given: nat, expected: nat },
}

/// A command line that could not be parsed into a command.
///
/// `WrongArity` names the recognized command (in its canonical upper-case
/// spelling), the number of arguments given, and the number expected.
#[derive(Debug, PartialEq, Eq)]
pub enum ProtocolError {
    UnknownCommand,
    WrongArity { command: String, given: usize, expected: usize },
}

impl View for ProtocolError {
    type V = ProtocolErrorV;

    open spec fn view(&self) -> ProtocolErrorV {
        match self {
            ProtocolError::UnknownCommand => ProtocolErrorV::UnknownCommand,
            ProtocolError::WrongArity { command, given, expected } => ProtocolErrorV::WrongArity {
                command: command@,
                given: *given as nat,
                expected: *expected as nat,
            },
        }
    }
}

/// A command that was well-formed but could not be satisfied.
///
/// The current protocol reports an absent key as an empty reply rather than
/// an error, so no processor path produces this today; it is kept as the
/// designated vocabulary for command-level failures.
#[derive(Debug, PartialEq, Eq)]
pub enum CommandError {
    KeyNotFound,
}

/// Any failure a connection can meet: a fatal transport fault, a recoverable
/// protocol error, or a command-level failure.
#[derive(Debug, PartialEq, Eq)]
pub enum Error {
    Io,
    Protocol(ProtocolError),
    Command(CommandError),
}

} // verus!
