//! The game side of the stream connection: received bytes become text.
use vstd::prelude::*;
use vstd::utf8::{valid_utf8, decode_utf8, encode_utf8};

verus! {

/// The most bytes taken from the connection in one read.
pub const RECEIVE_BUFFER_SIZE: usize = 1024;

/// Why received bytes were refused.
#[derive(Clone, Copy, Debug, PartialEq, Eq, Structural)]
pub enum ReceiveError {
    /// The bytes are not valid UTF-8.
    InvalidUtf8,
}

impl ReceiveError {
    /// The message reported with the error.
    pub fn message(&self) -> (m: &'static str)
        ensures
            m@ == "Invalid UTF-8 sequence"@,
    {
        match self {
            ReceiveError::InvalidUtf8 => "Invalid UTF-8 sequence",
        }
    }
}

/// Reads bytes as UTF-8 with `std::str::from_utf8`, which, as its
/// documentation says, returns the text exactly when the bytes are valid
/// UTF-8, and then the text whose encoding they are.
#[verifier::external_body]
fn utf8_text(bytes: &[u8]) -> (r: Option<&str>)
    ensures
        r is Some <==> valid_utf8(bytes@),
        r is Some ==> r->Some_0@ == decode_utf8(bytes@),
{
    match std::str::from_utf8(bytes) {
        Ok(text) => Some(text),
        Err(_) => None,
    }
}

/// Turns the bytes of one read into text: valid UTF-8 is accepted as the text
/// it encodes, anything else is refused.
pub fn decode_received(bytes: &[u8]) -> (r: Result<String, ReceiveError>)
    ensures
        valid_utf8(bytes@) ==> r is Ok && r->Ok_0@ == decode_utf8(bytes@),
        !valid_utf8(bytes@) ==> r == Err::<String, ReceiveError>(ReceiveError::InvalidUtf8),
        r is Ok ==> encode_utf8(r->Ok_0@) == bytes@,
{
    match utf8_text(bytes) {
        Some(text) => {
            proof {
                vstd::utf8::decode_utf8_encode_utf8(bytes@);
            }
            Ok(text.to_owned())
        },
        None => Err(ReceiveError::InvalidUtf8),
    }
}

} // verus!
