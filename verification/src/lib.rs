//! Core engine of a multiplayer typing race.
//!
//! Users join a shared room, a synchronized countdown starts a race against a
//! fixed text, and each keystroke is scored for correctness, progress, speed
//! and mistakes until every participant finishes.
//!
//! The engine is a value-level state machine: a [`registry::RoomsManager`]
//! owns the set of live rooms, each room owns its player sessions, and every
//! mutation is an ordinary function from the old state to the new state plus
//! the outbound messages and persistence records it produces. An asynchronous
//! shell around the library performs the waiting, the message delivery and
//! the persistence; the decisions themselves are all made — and verified —
//! here.

pub mod chars;
pub mod custom_types;
pub mod error;
mod ext;
pub mod keystroke;
pub mod laws;
pub mod leaderboard;
pub mod messages;
pub mod metrics;
pub mod player;
pub mod records;
pub mod registry;
pub mod room;
pub mod texts;
pub mod users;

use vstd::prelude::*;

verus! {

/// Delay between the start command and the actual race start, in milliseconds.
pub const COUNTDOWN_DELAY_MS: u64 = 10_000;

/// Interval at which a room's roster snapshot is broadcast, in milliseconds.
pub const STATS_POLL_INTERVAL_MS: u64 = 3_000;

} // verus!
