//! Leaderboard query parameters and the pure decisions behind them. The
//! query itself runs in the persistence collaborator; what is verified here
//! is which dictionary it filters by and how a period turns into a cutoff
//! moment.

use vstd::prelude::*;

use crate::custom_types::Leagues;

verus! {

/// Milliseconds in one day.
pub const DAY_MS: u64 = 86_400_000;

/// Milliseconds in seven days.
pub const WEEK_MS: u64 = 604_800_000;

/// Milliseconds in thirty days.
pub const MONTH_MS: u64 = 2_592_000_000;

/// How far back a leaderboard query reaches.
#[derive(PartialEq, Eq, Structural, Clone, Copy, Debug)]
pub enum Period {
    Day,
    Week,
    Month,
    AllTime,
}

impl Default for Period {
    /// An unspecified period means the all-time leaderboard.
    fn default() -> (r: Period)
        ensures
            r == Period::AllTime,
    {
        Period::AllTime
    }
}

/// Filters of a leaderboard query; a missing dictionary means the default
/// one, a missing league means no league filter.
#[derive(Debug)]
pub struct TopQuery {
    pub dictionary_id: Option<u128>,
    pub league: Option<Leagues>,
    pub period: Period,
}

/// One leaderboard row: a user's best persisted result.
#[derive(Debug)]
pub struct TopUser {
    pub user_id: u128,
    pub username: String,
    pub room_id: u128,
    pub id: u128,
    pub wpm: u64,
    pub cpm: u64,
    pub mistakes: u64,
    pub achieved_at: u64,
}

/// The oldest end time a result may carry to count for `period` at `now`:
/// one day, week or month back (clamped at the epoch), or no bound at all.
pub open spec fn cutoff_spec(period: Period, now: int) -> Option<int> {
    match period {
        Period::Day => Some(if now >= DAY_MS { now - DAY_MS } else { 0 }),
        Period::Week => Some(if now >= WEEK_MS { now - WEEK_MS } else { 0 }),
        Period::Month => Some(if now >= MONTH_MS { now - MONTH_MS } else { 0 }),
        Period::AllTime => None,
    }
}

/// Exec counterpart of [`cutoff_spec`].
pub fn period_cutoff(period: Period, now_ms: u64) -> (r: Option<u64>)
    ensures
        match r {
            Some(c) => cutoff_spec(period, now_ms as int) == Some(c as int),
            None => cutoff_spec(period, now_ms as int) is None,
        },
{
    match period {
        Period::Day => Some(if now_ms >= DAY_MS { now_ms - DAY_MS } else { 0 }),
        Period::Week => Some(if now_ms >= WEEK_MS { now_ms - WEEK_MS } else { 0 }),
        Period::Month => Some(if now_ms >= MONTH_MS { now_ms - MONTH_MS } else { 0 }),
        Period::AllTime => None,
    }
}

/// The dictionary a leaderboard query filters by: the requested one, or
/// the instance's default where none was given.
pub fn resolve_dictionary_id(q: &TopQuery, default_dictionary_id: u128) -> (r: u128)
    ensures
        r == match q.dictionary_id {
            Some(d) => d,
            None => default_dictionary_id,
        },
{
    match q.dictionary_id {
        Some(d) => d,
        None => default_dictionary_id,
    }
}

} // verus!
