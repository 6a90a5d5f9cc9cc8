//! The native functions that tell the time and write a date. The host reads
//! the clock and does the formatting; what is decided here is whether the
//! arguments are in order.

use crate::error::{ExpectedType, RuntimeError};
use crate::value::{models_of, ScriptValue, ValueModel};
use vstd::prelude::*;

verus! {

/// What `format_date` asks the host to format.
#[derive(Debug, PartialEq, Eq)]
pub struct DateRequest {
    /// The format, in the formatter's own syntax.
    pub format: String,
    /// The moment, in seconds since the Unix epoch: the bits of the number
    /// that the script gave.
    pub timestamp: u64,
}

/// What `format_date` is asked to format, for the arguments it was called
/// with: there is a request where it got exactly two arguments, a string and
/// a number.
pub open spec fn date_requested(params: Seq<ValueModel>) -> Option<(Seq<char>, u64)> {
    if params.len() == 2 && params[0] is String && params[1] is Number {
        Some((params[0]->String_0, params[1]->Number_0))
    } else {
        None
    }
}

/// The native function `epoch`: the present moment as a number, `now` being
/// that number's bits as the host read them off the clock. It takes no
/// argument.
pub fn epoch(params: &[ScriptValue], now: u64) -> (result: Result<ScriptValue, RuntimeError>)
    ensures
        params@.len() == 0 ==> result is Ok && result->Ok_0@ == ValueModel::Number(now),
        params@.len() != 0 ==> result == Err::<ScriptValue, RuntimeError>(
            RuntimeError::IncorrectParameterCount(0, params@.len() as usize),
        ),
{
    if params.len() != 0 {
        return Err(RuntimeError::IncorrectParameterCount(0, params.len()));
    }
    Ok(ScriptValue::Number(now))
}

/// The native function `format_date`, up to the formatting: checks that it
/// got a format and a moment, and hands both to the host. The first argument
/// that is of the wrong kind comes back in the error.
pub fn format_date(params: &[ScriptValue]) -> (request: Result<DateRequest, RuntimeError>)
    ensures
        request is Ok <==> date_requested(models_of(params@)) is Some,
        request is Ok ==> Some((request->Ok_0.format@, request->Ok_0.timestamp))
            == date_requested(models_of(params@)),
        params@.len() != 2 ==> request == Err::<DateRequest, RuntimeError>(
            RuntimeError::IncorrectParameterCount(2, params@.len() as usize),
        ),
        params@.len() == 2 && !(params@[0]@ is String) ==> (request matches Err(
            RuntimeError::TypeError { expected, found },
        ) && expected == ExpectedType::String && found@ == params@[0]@),
        params@.len() == 2 && params@[0]@ is String && !(params@[1]@ is Number) ==> (
        request matches Err(RuntimeError::TypeError { expected, found }) && expected
            == ExpectedType::Number && found@ == params@[1]@),
{
    if params.len() != 2 {
        return Err(RuntimeError::IncorrectParameterCount(2, params.len()));
    }
    let format = match &params[0] {
        ScriptValue::String(text) => text.clone(),
        other => {
            return Err(
                RuntimeError::TypeError { expected: ExpectedType::String, found: other.clone() },
            );
        },
    };
    let timestamp = match &params[1] {
        ScriptValue::Number(bits) => *bits,
        other => {
            return Err(
                RuntimeError::TypeError { expected: ExpectedType::Number, found: other.clone() },
            );
        },
    };
    Ok(DateRequest { format, timestamp })
}

} // verus!
