//! A room: one race instance with a shared target text and a set of
//! participants.

use vstd::prelude::*;

use crate::keystroke::{keystroke_transition, process_keystroke};
use crate::metrics::{
    count_words, elapsed_ms, elapsed_spec, per_minute, per_minute_sat, word_count,
};
use crate::player::{player_wf, stats_like, Player, PlayerStats, PlayerStatus};
use crate::texts::{Dictionary, Text};

verus! {

/// Aggregate lobby information about one live room.
#[derive(Debug)]
pub struct RoomStats {
    pub room_id: u128,
    pub players: usize,
    pub started: bool,
    pub dictionary: Dictionary,
}

/// One race instance. The start signal the shell exposes to connections
/// mirrors the `started` flag, which flips to true exactly once.
#[derive(Debug)]
pub struct Room {
    pub id: u128,
    pub text: Text,
    pub dictionary: Dictionary,
    pub players: Vec<Player>,
    pub started: bool,
    pub start_time: u64,
}

/// Player ids are unique within a room.
pub open spec fn unique_player_ids(s: Seq<Player>) -> bool {
    forall|i: int, j: int| 0 <= i < j < s.len() ==> s[i].id != s[j].id
}

/// Whether some session in `s` belongs to user `id`.
pub open spec fn has_player(s: Seq<Player>, id: u128) -> bool {
    exists|i: int| 0 <= i < s.len() && s[i].id == id
}

/// The user ids of all sessions, in join order.
pub open spec fn ids_of(s: Seq<Player>) -> Seq<u128> {
    s.map_values(|p: Player| p.id)
}

/// The user ids of the connected sessions, in join order.
pub open spec fn connected_ids_spec(s: Seq<Player>) -> Seq<u128>
    decreases s.len(),
{
    if s.len() == 0 {
        Seq::empty()
    } else {
        let rest = connected_ids_spec(s.drop_last());
        if s.last().connected {
            rest.push(s.last().id)
        } else {
            rest
        }
    }
}

/// Every session that ever joined is marked disconnected.
pub open spec fn all_disconnected(s: Seq<Player>) -> bool {
    forall|i: int| 0 <= i < s.len() ==> !(#[trigger] s[i]).connected
}

/// Every session has finished the race.
pub open spec fn all_finished(s: Seq<Player>) -> bool {
    forall|i: int| 0 <= i < s.len() ==> (#[trigger] s[i]).status == PlayerStatus::Finished
}

/// Well-formedness of a room: player ids are unique and every session is
/// well-formed against the room's target text.
pub open spec fn room_wf(r: Room) -> bool {
    &&& unique_player_ids(r.players@)
    &&& forall|i: int|
        0 <= i < r.players@.len() ==> player_wf(#[trigger] r.players@[i], r.text.content@)
}

/// How a lobby snapshot relates to the room it describes.
pub open spec fn stats_of(rs: RoomStats, r: Room) -> bool {
    &&& rs.room_id == r.id
    &&& rs.players == r.players@.len()
    &&& rs.started == r.started
    &&& rs.dictionary == r.dictionary
}

/// Live scoring of one processed keystroke, for the `Update` unicast and,
/// on completion, the result record.
#[derive(Debug)]
pub struct KeystrokeScore {
    pub progress: u32,
    pub mistakes: u64,
    pub speed_wpm: u64,
    pub speed_cpm: u64,
    pub typed_count: u64,
    /// Whether this keystroke completed the race for the player.
    pub finished_now: bool,
}

/// Outcome of handing one keystroke to a room.
#[derive(Debug)]
pub enum KeyOutcome {
    /// The typing user has no session in this room.
    PlayerNotFound,
    /// The player already finished; input is no longer consumed.
    AlreadyFinished,
    /// The keystroke was scored.
    Scored(KeystrokeScore),
}

/// `n` is `o` after scoring one keystroke from `user_id`: exactly that
/// user's session moved, by [`keystroke_transition`], and `score` carries
/// the live metrics of the new position.
pub open spec fn scored_key(
    o: Room,
    n: Room,
    user_id: u128,
    key: Seq<char>,
    now_ms: u64,
    score: KeystrokeScore,
) -> bool {
    &&& n.id == o.id
    &&& n.text == o.text
    &&& n.dictionary == o.dictionary
    &&& n.started == o.started
    &&& n.start_time == o.start_time
    &&& exists|i: int|
        {
            &&& 0 <= i < o.players@.len()
            &&& (#[trigger] o.players@[i]).id == user_id
            &&& o.players@[i].status != PlayerStatus::Finished
            &&& n.players@ == o.players@.update(i, n.players@[i])
            &&& keystroke_transition(o.players@[i], n.players@[i], o.text.content@, key, now_ms)
            &&& {
                let np = n.players@[i];
                let el = elapsed_spec(o.start_time as int, now_ms as int);
                &&& score.progress == np.progress
                &&& score.mistakes == np.mistakes
                &&& score.typed_count == np.typed_text@.len()
                &&& score.speed_wpm == per_minute_sat(word_count(np.typed_text@), el)
                &&& score.speed_cpm == per_minute_sat(np.typed_text@.len() as int, el)
                &&& score.finished_now == (np.status == PlayerStatus::Finished)
            }
        }
}

impl Room {
    /// A fresh idle room: nobody joined, the race has not started.
    pub fn new(id: u128, text: Text, dictionary: Dictionary, now_ms: u64) -> (r: Room)
        ensures
            r.id == id,
            r.text == text,
            r.dictionary == dictionary,
            r.players@ == Seq::<Player>::empty(),
            !r.started,
            r.start_time == now_ms,
            room_wf(r),
    {
        Room { id, text, dictionary, players: Vec::new(), started: false, start_time: now_ms }
    }

    /// Position of user `user_id`'s session, if any.
    pub fn find_player(&self, user_id: u128) -> (r: Option<usize>)
        ensures
            match r {
                Some(i) => i < self.players@.len() && self.players@[i as int].id == user_id,
                None => !has_player(self.players@, user_id),
            },
    {
        let mut i: usize = 0;
        while i < self.players.len()
            invariant
                i <= self.players@.len(),
                forall|j: int| 0 <= j < i ==> self.players@[j].id != user_id,
            decreases self.players@.len() - i,
        {
            if self.players[i].id == user_id {
                return Some(i);
            }
            i = i + 1;
        }
        None
    }

    /// A roster snapshot: one entry per session, in join order.
    pub fn roster(&self) -> (r: Vec<PlayerStats>)
        ensures
            r@.len() == self.players@.len(),
            forall|i: int| 0 <= i < r@.len() ==> stats_like(#[trigger] r@[i], self.players@[i]),
    {
        let mut out: Vec<PlayerStats> = Vec::new();
        let mut i: usize = 0;
        while i < self.players.len()
            invariant
                i <= self.players@.len(),
                out@.len() == i,
                forall|j: int| 0 <= j < i ==> stats_like(#[trigger] out@[j], self.players@[j]),
            decreases self.players@.len() - i,
        {
            out.push(self.players[i].make_stats());
            i = i + 1;
        }
        out
    }

    /// The ids of the connected sessions, the targets of a broadcast.
    pub fn connected_ids(&self) -> (r: Vec<u128>)
        ensures
            r@ == connected_ids_spec(self.players@),
    {
        let mut out: Vec<u128> = Vec::new();
        let mut i: usize = 0;
        while i < self.players.len()
            invariant
                i <= self.players@.len(),
                out@ == connected_ids_spec(self.players@.take(i as int)),
            decreases self.players@.len() - i,
        {
            proof {
                assert(self.players@.take(i + 1 as int).drop_last() == self.players@.take(i as int));
                assert(self.players@.take(i + 1 as int).last() == self.players@[i as int]);
            }
            if self.players[i].connected {
                out.push(self.players[i].id);
            }
            i = i + 1;
        }
        proof {
            assert(self.players@.take(self.players@.len() as int) == self.players@);
        }
        out
    }

    /// The ids of every session that ever joined, the targets of a close
    /// signal.
    pub fn all_ids(&self) -> (r: Vec<u128>)
        ensures
            r@ == ids_of(self.players@),
    {
        let mut out: Vec<u128> = Vec::new();
        let mut i: usize = 0;
        while i < self.players.len()
            invariant
                i <= self.players@.len(),
                out@.len() == i,
                forall|j: int| 0 <= j < i ==> out@[j] == self.players@[j].id,
            decreases self.players@.len() - i,
        {
            out.push(self.players[i].id);
            i = i + 1;
        }
        proof {
            assert(out@ =~= ids_of(self.players@));
        }
        out
    }

    /// Whether every session that ever joined is marked disconnected.
    pub fn none_connected(&self) -> (r: bool)
        ensures
            r == all_disconnected(self.players@),
    {
        let mut i: usize = 0;
        while i < self.players.len()
            invariant
                i <= self.players@.len(),
                forall|j: int| 0 <= j < i ==> !(#[trigger] self.players@[j]).connected,
            decreases self.players@.len() - i,
        {
            if self.players[i].connected {
                return false;
            }
            i = i + 1;
        }
        true
    }

    /// Whether every session has finished the race.
    pub fn everyone_finished(&self) -> (r: bool)
        ensures
            r == all_finished(self.players@),
    {
        let mut i: usize = 0;
        while i < self.players.len()
            invariant
                i <= self.players@.len(),
                forall|j: int|
                    0 <= j < i ==> (#[trigger] self.players@[j]).status == PlayerStatus::Finished,
            decreases self.players@.len() - i,
        {
            if !(self.players[i].status == PlayerStatus::Finished) {
                return false;
            }
            i = i + 1;
        }
        true
    }

    /// A lobby snapshot of this room.
    pub fn snapshot_stats(&self) -> (r: RoomStats)
        ensures
            stats_of(r, *self),
    {
        RoomStats {
            room_id: self.id,
            players: self.players.len(),
            started: self.started,
            dictionary: self.dictionary.snapshot(),
        }
    }

    /// Scores one keystroke from user `user_id` against this room's target.
    ///
    /// A session that already finished no longer consumes input, so a second
    /// completion — and with it a second `Finished` unicast — cannot occur.
    pub fn handle_key(&mut self, user_id: u128, key: Vec<char>, now_ms: u64) -> (out: KeyOutcome)
        requires
            room_wf(*old(self)),
        ensures
            room_wf(*final(self)),
            final(self).id == old(self).id,
            final(self).text == old(self).text,
            final(self).dictionary == old(self).dictionary,
            final(self).started == old(self).started,
            final(self).start_time == old(self).start_time,
            match out {
                KeyOutcome::PlayerNotFound => *final(self) == *old(self) && !has_player(
                    old(self).players@,
                    user_id,
                ),
                KeyOutcome::AlreadyFinished => *final(self) == *old(self) && exists|i: int|
                    0 <= i < old(self).players@.len() && old(self).players@[i].id == user_id && old(
                        self,
                    ).players@[i].status == PlayerStatus::Finished,
                KeyOutcome::Scored(score) => scored_key(
                    *old(self),
                    *final(self),
                    user_id,
                    key@,
                    now_ms,
                    score,
                ),
            },
    {
        let pi = match self.find_player(user_id) {
            None => {
                return KeyOutcome::PlayerNotFound;
            },
            Some(i) => i,
        };
        if self.players[pi].status == PlayerStatus::Finished {
            return KeyOutcome::AlreadyFinished;
        }
        let mut p = self.players.remove(pi);
        process_keystroke(&mut p, &self.text.content, key, now_ms);
        let typed_count = p.typed_text.len();
        let words = count_words(&p.typed_text);
        let el = elapsed_ms(self.start_time, now_ms);
        let speed_wpm = per_minute(words as u64, el);
        let speed_cpm = per_minute(typed_count as u64, el);
        let finished_now = p.status == PlayerStatus::Finished;
        let score = KeystrokeScore {
            progress: p.progress,
            mistakes: p.mistakes,
            speed_wpm,
            speed_cpm,
            typed_count: typed_count as u64,
            finished_now,
        };
        self.players.insert(pi, p);
        proof {
            assert(self.players@ =~= old(self).players@.update(
                pi as int,
                self.players@[pi as int],
            ));
        }
        KeyOutcome::Scored(score)
    }
}

} // verus!
