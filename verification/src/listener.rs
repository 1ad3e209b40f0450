//! The accept loop's decisions.
//!
//! The listener binds the fixed endpoint once and then accepts
//! connections indefinitely.  Each accepted connection is handed to a
//! freshly spawned handler so the loop can keep accepting at once; a
//! failure of the accept mechanism itself is fatal.  A handler's end,
//! however it went, asks nothing of the loop: one failing connection
//! never stops the listener.

use vstd::prelude::*;

verus! {

/// How one spawned handler's exchange ended.
#[derive(Clone, Copy, Debug, PartialEq, Eq, Structural)]
pub enum HandlerOutcome {
    /// The peer closed before sending; the handler ended cleanly.
    PeerClosed,
    /// The fixed reply was written.
    Replied,
    /// The read failed; the handler was abandoned.
    ReadFailed,
    /// The write failed; the handler was abandoned.
    WriteFailed,
}

/// An event the accept loop reacts to.
#[derive(Clone, Copy, Debug, PartialEq, Eq, Structural)]
pub enum ListenerEvent {
    /// A connection was accepted.
    Accepted,
    /// The accept mechanism itself failed.
    AcceptFailed,
    /// Some previously spawned handler ran to its end.
    HandlerFinished(HandlerOutcome),
}

/// What the accept loop does next.
#[derive(Clone, Copy, Debug, PartialEq, Eq, Structural)]
pub struct ListenerDecision {
    /// Hand the new connection to a freshly spawned handler.
    pub spawn_handler: bool,
    /// Keep accepting further connections.
    pub keep_accepting: bool,
}

/// The loop's reaction to an event: spawn a handler and keep accepting
/// on every accepted connection, stop on an accept failure, and carry
/// on unchanged when any handler finishes.
pub open spec fn listener_decision(ev: ListenerEvent) -> ListenerDecision {
    match ev {
        ListenerEvent::Accepted => ListenerDecision { spawn_handler: true, keep_accepting: true },
        ListenerEvent::AcceptFailed => ListenerDecision {
            spawn_handler: false,
            keep_accepting: false,
        },
        ListenerEvent::HandlerFinished(_) => ListenerDecision {
            spawn_handler: false,
            keep_accepting: true,
        },
    }
}

/// One step of the accept loop.  An accepted connection is handed off
/// and the loop keeps accepting; an accept failure is fatal; a
/// finished handler, whatever its outcome, leaves the loop accepting.
pub fn listener_step(ev: &ListenerEvent) -> (d: ListenerDecision)
    ensures
        d == listener_decision(*ev),
        *ev is Accepted ==> d.spawn_handler && d.keep_accepting,
        *ev is AcceptFailed ==> !d.keep_accepting,
        *ev matches ListenerEvent::HandlerFinished(_) ==> d.keep_accepting,
{
    match ev {
        ListenerEvent::Accepted => ListenerDecision { spawn_handler: true, keep_accepting: true },
        ListenerEvent::AcceptFailed => ListenerDecision {
            spawn_handler: false,
            keep_accepting: false,
        },
        ListenerEvent::HandlerFinished(_) => ListenerDecision {
            spawn_handler: false,
            keep_accepting: true,
        },
    }
}

/// Law: the listener survives every individual handler, failed ones
/// included.  Whatever way a handler's exchange ended, the accept
/// loop's decision is to keep accepting further connections.
pub proof fn lemma_handler_end_never_stops_listener(o: HandlerOutcome)
    ensures
        listener_decision(ListenerEvent::HandlerFinished(o)).keep_accepting,
        !listener_decision(ListenerEvent::HandlerFinished(o)).spawn_handler,
{
}

} // verus!
