//! The per-connection handler's decision.
//!
//! A handler owns one accepted connection for one exchange: a single
//! read into a fixed-size buffer, then at most one write.  A read of
//! zero bytes means the peer closed before sending, and the handler
//! ends without writing; a read error likewise ends the handler
//! without a write.  A read of one or more bytes draws exactly the
//! fixed reply, whatever the bytes say.

use vstd::prelude::*;

use crate::RECV_BUFFER_LEN;
use crate::wire::reply_bytes;
use crate::wire::server_reply;

verus! {

/// What the single read on an accepted connection yielded.
pub enum ReadOutcome {
    /// Zero bytes: the peer closed the connection before sending.
    Closed,
    /// One or more bytes, at most a buffer-full: the request payload.
    Data(Vec<u8>),
    /// The read itself failed.
    Failed,
}

impl ReadOutcome {
    /// What a single read into the fixed-size buffer can yield: a
    /// payload holds at least one byte and at most a buffer-full.
    pub open spec fn wf(self) -> bool {
        self matches ReadOutcome::Data(d) ==> 1 <= d@.len() <= RECV_BUFFER_LEN
    }
}

/// What the handler does after its read.
pub enum HandlerAction {
    /// End without writing.
    NoReply,
    /// Write these bytes back, then end.
    Reply(Vec<u8>),
}

/// The bytes a handler action writes, if any.
pub open spec fn written_of(a: HandlerAction) -> Option<Seq<u8>> {
    match a {
        HandlerAction::NoReply => None,
        HandlerAction::Reply(r) => Some(r@),
    }
}

/// The bytes the handler writes for a read outcome: the fixed reply
/// for any payload, nothing for a closed peer or a failed read.
pub open spec fn reply_for(o: ReadOutcome) -> Option<Seq<u8>> {
    match o {
        ReadOutcome::Data(_) => Some(reply_bytes()),
        _ => None,
    }
}

/// The handler's one decision: reply with the fixed bytes if and only
/// if the read yielded a payload.  No write happens for a closed peer
/// or a failed read, and the reply never depends on the payload.
pub fn handle_connection(outcome: &ReadOutcome) -> (a: HandlerAction)
    requires
        outcome.wf(),
    ensures
        written_of(a) == reply_for(*outcome),
        *outcome is Closed ==> a is NoReply,
        *outcome is Failed ==> a is NoReply,
        *outcome matches ReadOutcome::Data(_) ==> (a matches HandlerAction::Reply(r)
            && r@ == reply_bytes()),
{
    match outcome {
        ReadOutcome::Data(_) => HandlerAction::Reply(server_reply()),
        _ => HandlerAction::NoReply,
    }
}

/// Law: every non-empty request draws one and the same fixed reply.
/// Any two connections' payloads, however they differ, are answered
/// with identical bytes, so no client's reply is affected by another
/// client's payload.
pub proof fn lemma_reply_independent_of_payload(d1: Vec<u8>, d2: Vec<u8>)
    ensures
        reply_for(ReadOutcome::Data(d1)) == reply_for(ReadOutcome::Data(d2)),
        reply_for(ReadOutcome::Data(d1)) == Some(reply_bytes()),
{
}

/// Law: a request payload of any length from one byte up to a full
/// buffer is answered with exactly the fixed reply bytes.
pub proof fn lemma_nonempty_request_fixed_reply(d: Vec<u8>)
    requires
        1 <= d@.len() <= RECV_BUFFER_LEN,
    ensures
        reply_for(ReadOutcome::Data(d)) == Some(reply_bytes()),
{
}

} // verus!
