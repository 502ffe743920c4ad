//! A verified core for a line-oriented music-player control server.
//!
//! The crate models the playback queue, the transport state machine, the
//! player-bridge decision logic (including the logarithmic volume curve),
//! and the per-connection protocol handler (command framing, the idle
//! long-poll mode, and atomic command-list batches).  All I/O — sockets,
//! threads, the streaming session, the catalog client — lives outside the
//! library and talks to it through plain values.

pub mod config;
pub mod mpd;
pub mod queue;
pub mod respot;
pub mod track;
pub mod strutil;

use vstd::prelude::*;

verus! {

/// The protocol's error marker: a response line beginning with this text
/// aborts the rest of a command batch.
pub open spec fn spec_is_error_line(s: Seq<char>) -> bool {
    s.len() >= 3 && s.subrange(0, 3) == "ACK"@
}

} // verus!
