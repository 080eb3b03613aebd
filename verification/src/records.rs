//! Rows handed to the persistence collaborator. The engine builds each row
//! exactly once at the prescribed moment — room creation, countdown start,
//! player finish, room close — and the shell writes it; a failed write is
//! logged by the shell and never disturbs the in-memory race.

use vstd::prelude::*;

use crate::custom_types::Leagues;
use crate::player::{log_model, Keystroke};

verus! {

/// The persisted room row.
#[derive(Debug)]
pub struct RoomRecord {
    pub id: u128,
    pub text_id: u128,
    pub created_at: u64,
    pub started_at: u64,
    pub ended_at: u64,
}

/// The persisted room-membership row: one user's participation in one room.
#[derive(Debug)]
pub struct RoomUser {
    pub id: u128,
    pub room_id: u128,
    pub user_id: u128,
    pub joined_at: u64,
    pub left_at: u64,
    pub league: Leagues,
}

/// The full keystroke log attached to a result row.
#[derive(Debug)]
pub struct ResultStats {
    pub keystrokes: Vec<Keystroke>,
}

/// The persisted, immutable outcome of one player's completed race:
/// created when the typed text equals the target, written exactly once,
/// never mutated afterward.
#[derive(Debug)]
pub struct Results {
    pub id: u128,
    pub start_time: u64,
    pub end_time: u64,
    pub mistakes: u64,
    pub wpm: u64,
    pub cpm: u64,
    pub stats: ResultStats,
    pub room_user_id: u128,
}

/// Copies a keystroke log for a result row, preserving every record.
pub fn clone_log(v: &Vec<Keystroke>) -> (r: Vec<Keystroke>)
    ensures
        log_model(r@) == log_model(v@),
{
    let mut out: Vec<Keystroke> = Vec::new();
    let mut i: usize = 0;
    while i < v.len()
        invariant
            i <= v@.len(),
            out@.len() == i,
            forall|j: int| 0 <= j < i ==> out@[j]@ == v@[j]@,
        decreases v@.len() - i,
    {
        let k = &v[i];
        let copied = Keystroke {
            key: crate::chars::copy_chars(&k.key),
            mistake: k.mistake,
            expected: k.expected,
            timestamp: k.timestamp,
        };
        out.push(copied);
        i = i + 1;
    }
    proof {
        assert(log_model(out@) =~= log_model(v@));
    }
    out
}

} // verus!
