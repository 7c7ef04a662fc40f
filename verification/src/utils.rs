//! Small helpers: the plain result type of the host, and text from bytes
//! that were fetched.

use vstd::prelude::*;
use vstd::utf8::{decode_utf8, valid_utf8};

verus! {

/// A failure.
pub fn err<T>() -> (r: Result<T, ()>)
    ensures
        r == Err::<T, ()>(()),
{
    Err(())
}

/// A success with the value `t`.
pub fn ok<T>(t: T) -> (r: Result<T, ()>)
    ensures
        r == Ok::<T, ()>(t),
{
    Ok(t)
}

/// `String::from_utf8`: the string that the bytes encode, or `None` where
/// they are not valid UTF-8.
#[verifier::external_body]
fn string_from_utf8(bytes: Vec<u8>) -> (r: Option<String>)
    ensures
        r is Some <==> valid_utf8(bytes@),
        r matches Some(s) ==> s@ == decode_utf8(bytes@),
{
    match String::from_utf8(bytes) {
        Ok(s) => Some(s),
        Err(_) => None,
    }
}

/// The text of a document that was fetched as bytes: the string that the
/// bytes encode, and a failure where they are not valid UTF-8.
pub fn get_string(data: Vec<u8>) -> (r: Result<String, ()>)
    ensures
        r is Ok <==> valid_utf8(data@),
        r matches Ok(s) ==> s@ == decode_utf8(data@),
{
    match string_from_utf8(data) {
        Some(s) => ok(s),
        None => err(),
    }
}

} // verus!
