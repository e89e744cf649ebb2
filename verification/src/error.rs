//! Errors of the engine, and how a status of the engine becomes one.

use vstd::prelude::*;
use vstd::string::StringExecFns;
use crate::decimal::{push_signed_decimal, signed_decimal};

verus! {

/// The status with which the engine reports success.
pub const PJ_SUCCESS: i32 = 0;

/// The code of an error that this layer raises itself, without the engine.
pub const LOCAL_ERROR: i32 = -1;

/// An operation that failed: the engine's status code, or [`LOCAL_ERROR`],
/// and a message for people.
#[derive(Debug, Clone)]
pub struct PjsuaError {
    pub code: i32,
    pub message: String,
}

/// The text in the first `slen` bytes of a buffer, each byte a character; the
/// whole buffer where `slen` is negative or beyond its end.
pub open spec fn status_message(buffer: Seq<u8>, slen: int) -> Seq<char> {
    let taken = if 0 <= slen < buffer.len() {
        slen
    } else {
        buffer.len() as int
    };
    Seq::new(taken as nat, |i: int| buffer[i] as char)
}

/// `String::push`: appends one character to the string.
#[verifier::external_body]
fn string_push(text: &mut String, c: char)
    ensures
        final(text)@ == old(text)@.push(c),
{
    text.push(c)
}

impl PjsuaError {
    /// The error for a status of the engine, with the text that the engine
    /// wrote for it: the first `slen` bytes of `buffer`.
    pub fn from(code: i32, buffer: &[u8], slen: isize) -> (error: PjsuaError)
        ensures
            error.code == code,
            error.message@ == status_message(buffer@, slen as int),
    {
        let taken: usize = if slen >= 0 && (slen as usize) < buffer.len() {
            slen as usize
        } else {
            buffer.len()
        };
        let mut message = String::new();
        let mut i: usize = 0;
        while i < taken
            invariant
                i <= taken <= buffer@.len(),
                message@ == Seq::new(i as nat, |j: int| buffer@[j] as char),
            decreases taken - i,
        {
            string_push(&mut message, buffer[i] as char);
            i = i + 1;
            assert(message@ =~= Seq::new(i as nat, |j: int| buffer@[j] as char));
        }
        PjsuaError { code, message }
    }

    /// An error with the given code and message.
    pub fn new(code: i32, message: String) -> (error: PjsuaError)
        ensures
            error.code == code,
            error.message@ == message@,
    {
        PjsuaError { code, message }
    }

    /// An error of this layer's own, with code [`LOCAL_ERROR`].
    pub fn local(message: &str) -> (error: PjsuaError)
        ensures
            error.code == LOCAL_ERROR,
            error.message@ == message@,
    {
        PjsuaError { code: LOCAL_ERROR, message: String::from_str(message) }
    }

    /// What [`PjsuaError::to_string`] returns for an error with these parts.
    pub open spec fn text(code: i32, message: Seq<char>) -> Seq<char> {
        "PjsuaError: code: "@ + signed_decimal(code as int) + ", message: "@ + message
    }

    /// The error as one line of text.
    pub fn to_string(&self) -> (line: String)
        ensures
            line@ == Self::text(self.code, self.message@),
    {
        let mut line = String::from_str("PjsuaError: code: ");
        push_signed_decimal(&mut line, self.code);
        line.append(", message: ");
        line.append(self.message.as_str());
        line
    }
}

/// The error that a status stands for: none for [`PJ_SUCCESS`], else an error
/// with the status as its code and `message`, the engine's own text for it.
pub fn get_error_as_option(code: i32, message: String) -> (error: Option<PjsuaError>)
    ensures
        code == PJ_SUCCESS <==> error is None,
        error matches Some(e) ==> e.code == code && e.message@ == message@,
{
    if code == PJ_SUCCESS {
        None
    } else {
        Some(PjsuaError::new(code, message))
    }
}

/// A status as a result: `Ok` for [`PJ_SUCCESS`], else the error with the
/// status as its code and `message`, the engine's own text for it.
pub fn get_error_as_result(code: i32, message: String) -> (result: Result<(), PjsuaError>)
    ensures
        code == PJ_SUCCESS <==> result is Ok,
        result matches Err(e) ==> e.code == code && e.message@ == message@,
{
    if code == PJ_SUCCESS {
        Ok(())
    } else {
        Err(PjsuaError::new(code, message))
    }
}

/// An optional error as a result: the error, if there is one, else `Ok`.
pub fn map_option_to_result(error: Option<PjsuaError>) -> (result: Result<(), PjsuaError>)
    ensures
        result == match error {
            Some(e) => Err::<(), PjsuaError>(e),
            None => Ok(()),
        },
{
    match error {
        Some(error) => Err(error),
        None => Ok(()),
    }
}

/// The value of a result that is known to be `Ok`.
pub fn ffi_assert_res<T: core::fmt::Debug, E: core::fmt::Debug>(res: Result<T, E>) -> (value: T)
    requires
        res is Ok,
    ensures
        res == Ok::<T, E>(value),
{
    res.unwrap()
}

} // verus!
