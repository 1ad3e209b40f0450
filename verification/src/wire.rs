//! The wire format of the exchange: an unstructured byte stream with
//! two fixed literal texts.  The server's reply to any non-empty
//! request is the bytes of `Hello, World!`; the client's request wraps
//! the operator's message in the bytes of
//! `Hello from the client!. Message <message>`.  Neither side uses a
//! terminator or a length prefix.

use vstd::prelude::*;

verus! {

/// The bytes of the fixed reply text `Hello, World!`.
pub open spec fn reply_bytes() -> Seq<u8> {
    seq![
        72u8, 101u8, 108u8, 108u8, 111u8, 44u8, 32u8, 87u8, 111u8, 114u8, 108u8, 100u8, 33u8,
    ]
}

/// The bytes of the request prefix text `Hello from the client!. Message `
/// (trailing space included).
pub open spec fn request_prefix() -> Seq<u8> {
    seq![
        72u8, 101u8, 108u8, 108u8, 111u8, 32u8, 102u8, 114u8, 111u8, 109u8, 32u8, 116u8, 104u8,
        101u8, 32u8, 99u8, 108u8, 105u8, 101u8, 110u8, 116u8, 33u8, 46u8, 32u8, 77u8, 101u8,
        115u8, 115u8, 97u8, 103u8, 101u8, 32u8,
    ]
}

/// The full request payload for an operator message: the fixed prefix
/// followed by the message bytes.
pub open spec fn request_bytes(msg: Seq<u8>) -> Seq<u8> {
    request_prefix() + msg
}

/// The fixed reply the server writes back for any non-empty request.
pub fn server_reply() -> (r: Vec<u8>)
    ensures
        r@ == reply_bytes(),
{
    let mut r: Vec<u8> = Vec::new();
    r.push(72u8);
    r.push(101u8);
    r.push(108u8);
    r.push(108u8);
    r.push(111u8);
    r.push(44u8);
    r.push(32u8);
    r.push(87u8);
    r.push(111u8);
    r.push(114u8);
    r.push(108u8);
    r.push(100u8);
    r.push(33u8);
    proof {
        assert(r@ =~= reply_bytes());
    }
    r
}

/// The request payload the client sends for the operator message `msg`:
/// exactly the fixed prefix followed by `msg`.
pub fn build_request(msg: &[u8]) -> (r: Vec<u8>)
    ensures
        r@ == request_bytes(msg@),
{
    let mut r: Vec<u8> = Vec::new();
    r.push(72u8);
    r.push(101u8);
    r.push(108u8);
    r.push(108u8);
    r.push(111u8);
    r.push(32u8);
    r.push(102u8);
    r.push(114u8);
    r.push(111u8);
    r.push(109u8);
    r.push(32u8);
    r.push(116u8);
    r.push(104u8);
    r.push(101u8);
    r.push(32u8);
    r.push(99u8);
    r.push(108u8);
    r.push(105u8);
    r.push(101u8);
    r.push(110u8);
    r.push(116u8);
    r.push(33u8);
    r.push(46u8);
    r.push(32u8);
    r.push(77u8);
    r.push(101u8);
    r.push(115u8);
    r.push(115u8);
    r.push(97u8);
    r.push(103u8);
    r.push(101u8);
    r.push(32u8);
    proof {
        assert(r@ =~= request_prefix());
    }
    let mut i: usize = 0;
    while i < msg.len()
        invariant
            0 <= i <= msg@.len(),
            r@ == request_prefix() + msg@.subrange(0, i as int),
        decreases msg@.len() - i,
    {
        r.push(msg[i]);
        proof {
            assert(r@ =~= request_prefix() + msg@.subrange(0, i + 1));
        }
        i = i + 1;
    }
    proof {
        assert(msg@.subrange(0, msg@.len() as int) =~= msg@);
    }
    r
}

} // verus!
