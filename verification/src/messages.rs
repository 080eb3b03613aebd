//! The message envelope spoken over a player's connection, in both
//! directions: a closed sum type with one variant per message kind. The
//! transport shell encodes and decodes it; the engine only decides which
//! values go to whom.

use vstd::prelude::*;

use crate::player::PlayerStats;

verus! {

/// One frame of the client/server protocol.
#[derive(Debug)]
pub enum WsMessage {
    /// Server to client, once, when the countdown begins: the race text and
    /// the moment the race starts.
    Start { text: Vec<char>, start_time: u64 },
    /// Client to server: one key event (more than one character if the
    /// client coalesced echo of rapid mistaken input).
    Keystroke { key: Vec<char>, timestamp: u64 },
    /// Server to the typing player after each processed keystroke.
    Update { progress: u32, mistakes: u64, speed_wpm: u64 },
    /// Server to the finishing player, exactly once per player.
    Finished { total_time_ms: u64, mistakes: u64, accuracy: u64, speed_wpm: u64 },
    /// Broadcast when a player disconnects.
    UserLeft { user_id: u128 },
    /// Broadcast when a player completes the race.
    UserFinished { user_id: u128 },
    /// Broadcast roster snapshot.
    RoomUpdate { users: Vec<PlayerStats> },
    /// Unicast on malformed or unexpected client input.
    Error { message: String },
}

} // verus!
