//! Defaults of the server.

use vstd::prelude::*;

verus! {

/// The port that the server listens on.
pub const PORT: u16 = 9339;

/// Milliseconds between two pings of a client. A client that has sent no pong
/// for more than twice this long is closed.
pub const PING_INTERVAL: u64 = 120000;

/// How many commands an actor's queue holds before senders have to wait.
pub const QUEUE_CAPACITY: usize = 30;

} // verus!
