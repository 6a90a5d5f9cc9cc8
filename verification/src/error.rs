//! The errors that the host's native functions hand to the interpreter.

use crate::value::ScriptValue;
use vstd::prelude::*;

verus! {

/// The kind of value that a native function wanted at some position.
#[derive(Clone, Copy, Debug, PartialEq, Eq)]
pub enum ExpectedType {
    String,
    Number,
}

/// Why a native function failed.
#[derive(Debug, PartialEq, Eq)]
pub enum RuntimeError {
    /// Something outside the script went wrong: the store could not be read
    /// or written.
    Unknown,
    /// An argument was of the wrong kind.
    TypeError { expected: ExpectedType, found: ScriptValue },
    /// The operation does not exist for the values it was given.
    OperationNotSupported,
    /// The function takes the first number of arguments and got the second.
    IncorrectParameterCount(u8, usize),
}

} // verus!
