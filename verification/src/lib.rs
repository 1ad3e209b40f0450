//! A minimal TCP echo interaction, split into its decision logic.
//!
//! One process either listens on a fixed endpoint and answers every
//! non-empty request with a fixed greeting, or connects to such a
//! listener and sends one line of operator input per iteration.  The
//! verified library holds everything the process decides or computes:
//! the startup mode choice, the wire payloads, the per-connection
//! handler's reply decision, the accept loop's reaction to events, and
//! the client's single-exchange session.  The surrounding binary only
//! performs the I/O those decisions call for.

use vstd::prelude::*;

pub mod client;
pub mod display;
pub mod handler;
pub mod listener;
pub mod mode;
pub mod wire;

verus! {

/// The capacity of the per-connection receive buffer, on both sides.
pub const RECV_BUFFER_LEN: usize = 1024;

/// The fixed loopback endpoint the listener binds and the client
/// connects to.  Nothing makes it configurable.
pub fn server_endpoint() -> (r: &'static str)
    ensures
        r@ == "127.0.0.1:3000"@,
{
    "127.0.0.1:3000"
}

} // verus!
