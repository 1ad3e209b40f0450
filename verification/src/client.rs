//! The client's single-exchange session.
//!
//! Each iteration of the client loop takes one operator message
//! through one fresh connection: connect, send the formatted request,
//! read one reply buffer, show the decoded reply.  The session runs
//! `Init`, `Connected`, `Sent`, `Closed` in that order; any failure to
//! connect, send or receive is fatal and closes the session with no
//! retry.  The connection is never reused across iterations.

use vstd::prelude::*;

use crate::wire::build_request;
use crate::wire::request_bytes;

verus! {

/// Where a session stands, per the single exchange a connection sees.
#[derive(Clone, Copy, Debug, PartialEq, Eq, Structural)]
pub enum ClientPhase {
    /// No connection yet.
    Init,
    /// Connected; the request is not yet sent.
    Connected,
    /// The request is sent; no reply read yet.
    Sent,
    /// The exchange is over, completed or abandoned.
    Closed,
}

/// What the last I/O the session asked for came to.
pub enum ClientEvent {
    /// The connection to the server endpoint was opened.
    ConnectOk,
    /// Connecting failed.
    ConnectFailed,
    /// The request bytes were written.
    SendOk,
    /// Writing the request failed.
    SendFailed,
    /// One reply buffer was read: these bytes.
    RecvOk(Vec<u8>),
    /// Reading the reply failed.
    RecvFailed,
}

/// What the session asks for next.
pub enum ClientAction {
    /// Write these bytes on the connection.
    Send(Vec<u8>),
    /// Read one reply buffer.
    Recv,
    /// Show these reply bytes; the exchange is complete.
    Report(Vec<u8>),
    /// Fatal: end the client loop.
    Abort,
}

/// The event answers the I/O the phase is waiting on: a connect
/// outcome in `Init`, a send outcome in `Connected`, a receive outcome
/// in `Sent`.  A closed session waits on nothing.
pub open spec fn event_fits(p: ClientPhase, ev: ClientEvent) -> bool {
    match ev {
        ClientEvent::ConnectOk | ClientEvent::ConnectFailed => p is Init,
        ClientEvent::SendOk | ClientEvent::SendFailed => p is Connected,
        ClientEvent::RecvOk(_) | ClientEvent::RecvFailed => p is Sent,
    }
}

/// The event reports a failed connect, send or receive.
pub open spec fn is_failure(ev: ClientEvent) -> bool {
    ev is ConnectFailed || ev is SendFailed || ev is RecvFailed
}

/// One client iteration's session: one operator message, one fresh
/// connection, one exchange.
pub struct ClientSession {
    /// Where the exchange stands.
    pub phase: ClientPhase,
    /// The operator message this iteration sends.
    pub msg: Vec<u8>,
}

impl ClientSession {
    /// A fresh session for one operator message, before connecting.
    pub fn new(msg: Vec<u8>) -> (s: Self)
        ensures
            s.phase is Init,
            s.msg@ == msg@,
    {
        ClientSession { phase: ClientPhase::Init, msg }
    }

    /// Whether an event answers the I/O this session is waiting on.
    pub fn fits(&self, ev: &ClientEvent) -> (b: bool)
        ensures
            b == event_fits(self.phase, *ev),
    {
        match ev {
            ClientEvent::ConnectOk | ClientEvent::ConnectFailed => self.phase
                == ClientPhase::Init,
            ClientEvent::SendOk | ClientEvent::SendFailed => self.phase == ClientPhase::Connected,
            ClientEvent::RecvOk(_) | ClientEvent::RecvFailed => self.phase == ClientPhase::Sent,
        }
    }

    /// The session's one decision step.  A successful connect asks to
    /// send exactly the formatted request for this session's message; a
    /// successful send asks to read one reply buffer; a received reply
    /// closes the exchange and is handed on unchanged to be shown; any
    /// failure closes the session fatally.  The message never changes.
    pub fn step(&mut self, ev: ClientEvent) -> (a: ClientAction)
        requires
            event_fits(old(self).phase, ev),
        ensures
            final(self).msg@ == old(self).msg@,
            ev is ConnectOk ==> final(self).phase is Connected && (a matches ClientAction::Send(
                req,
            ) && req@ == request_bytes(old(self).msg@)),
            ev is SendOk ==> final(self).phase is Sent && a is Recv,
            ev matches ClientEvent::RecvOk(r) ==> final(self).phase is Closed && (
            a matches ClientAction::Report(b) && b@ == r@),
            is_failure(ev) ==> final(self).phase is Closed && a is Abort,
    {
        match ev {
            ClientEvent::ConnectOk => {
                self.phase = ClientPhase::Connected;
                ClientAction::Send(build_request(self.msg.as_slice()))
            },
            ClientEvent::SendOk => {
                self.phase = ClientPhase::Sent;
                ClientAction::Recv
            },
            ClientEvent::RecvOk(r) => {
                self.phase = ClientPhase::Closed;
                ClientAction::Report(r)
            },
            ClientEvent::ConnectFailed | ClientEvent::SendFailed | ClientEvent::RecvFailed => {
                self.phase = ClientPhase::Closed;
                ClientAction::Abort
            },
        }
    }
}

} // verus!
