//! A verified core for a shared web terminal bridge.
//!
//! The bridge exposes one persistent multiplexer session to remote clients
//! over a socket-upgrade protocol.  This crate holds the parts of the bridge
//! that decide and compute: credential checking, the inline resize
//! sub-protocol, configuration validation, the attach-or-create session
//! command, the bounded transfer queue between the terminal reader and the
//! network sender, and the per-connection state machine.  The surrounding
//! process (sockets, the pseudo-terminal, tasks and threads) drives these
//! functions and performs the actions they decide on.

use vstd::prelude::*;

pub mod auth;
pub mod config;
pub mod conn;
pub mod frames;
pub mod launch;
pub mod numbers;
pub mod queue;
pub mod resize;

verus! {

/// Capacity of the transfer queue between the terminal reader and the
/// network sender: the reader blocks once this many chunks are waiting.
pub const TRANSFER_QUEUE_CAPACITY: usize = 100;

/// Size of the buffer used for a single read from the pseudo-terminal;
/// outbound frames are chunked by at most this many bytes.
pub const READ_CHUNK_SIZE: usize = 4096;

} // verus!
