//! The lines the two sides show for wire bytes.
//!
//! Payloads are decoded permissively: invalid sequences are replaced,
//! never rejected, so any byte payload can be shown.  The server shows
//! a received request as `Received Request: <decoded payload>`; the
//! client shows a reply as `Received response: <decoded reply>`.

use vstd::prelude::*;
use vstd::string::StringExecFns;

verus! {

/// The characters the permissive decoding yields for a byte sequence.
pub uninterp spec fn lossy_of(bytes: Seq<u8>) -> Seq<char>;

/// Every byte is plain ASCII.
pub open spec fn all_ascii(bytes: Seq<u8>) -> bool {
    forall|i: int| 0 <= i < bytes.len() ==> bytes[i] < 128
}

/// The byte sequence read as characters, one per byte.
pub open spec fn ascii_chars(bytes: Seq<u8>) -> Seq<char> {
    Seq::new(bytes.len(), |i: int| bytes[i] as char)
}

/// Relies on String::from_utf8_lossy: the decoding is a function of
/// the bytes alone; valid UTF-8 input, and so all-ASCII input, passes
/// through unchanged, with each ASCII byte read as its character.
#[verifier::external_body]
fn decode_lossy(bytes: &[u8]) -> (r: String)
    ensures
        r@ == lossy_of(bytes@),
        all_ascii(bytes@) ==> r@ == ascii_chars(bytes@),
        bytes@.len() == 0 ==> r@.len() == 0,
{
    String::from_utf8_lossy(bytes).into_owned()
}

/// The line the server shows for a request payload.
pub open spec fn request_line(payload: Seq<u8>) -> Seq<char> {
    "Received Request: "@ + lossy_of(payload)
}

/// The line the client shows for a reply.
pub open spec fn response_line(reply: Seq<u8>) -> Seq<char> {
    "Received response: "@ + lossy_of(reply)
}

/// The server's display line for a request payload: the fixed caption
/// followed by the permissively decoded payload.
pub fn request_display(payload: &[u8]) -> (r: String)
    ensures
        r@ == request_line(payload@),
        all_ascii(payload@) ==> r@ == "Received Request: "@ + ascii_chars(payload@),
{
    let mut s = String::from_str("Received Request: ");
    let decoded = decode_lossy(payload);
    s.append(decoded.as_str());
    s
}

/// The client's display line for a reply: the fixed caption followed
/// by the permissively decoded reply.
pub fn response_display(reply: &[u8]) -> (r: String)
    ensures
        r@ == response_line(reply@),
        all_ascii(reply@) ==> r@ == "Received response: "@ + ascii_chars(reply@),
{
    let mut s = String::from_str("Received response: ");
    let decoded = decode_lossy(reply);
    s.append(decoded.as_str());
    s
}

} // verus!
