//! The room registry: the process-wide table of active rooms, and the
//! operations the connection shell drives against it.
//!
//! Every operation is a single atomic step on the registry value; the shell
//! serializes the steps behind its lock and performs the returned effects
//! (messages to deliver, rows to persist) afterward, so that delivery to N
//! players never blocks a concurrent mutation. Where an operation both
//! persists and closes, the returned effects list the result row beside the
//! close decision and the shell persists the row first.

use vstd::prelude::*;

use crate::chars::copy_chars;
use crate::error::MyError;
use crate::messages::WsMessage;
use crate::metrics::{accuracy_percent, accuracy_spec, elapsed_ms, elapsed_spec};
use crate::player::{
    same_but_disconnected, stats_like, Keystroke, Player, PlayerStats, PlayerStatus, UserInfo,
};
use crate::records::{clone_log, RoomRecord, RoomUser, ResultStats, Results};
use crate::room::{
    all_disconnected, all_finished, connected_ids_spec, has_player, ids_of, room_wf, scored_key,
    stats_of, KeyOutcome, Room, RoomStats,
};
use crate::texts::{Dictionary, Text};
use crate::users::User;
use crate::COUNTDOWN_DELAY_MS;
use crate::custom_types::Leagues;
use crate::room::KeystrokeScore;

verus! {

/// Room ids are unique within the registry.
pub open spec fn unique_room_ids(s: Seq<Room>) -> bool {
    forall|i: int, j: int| 0 <= i < j < s.len() ==> s[i].id != s[j].id
}

/// Whether some room in `s` carries id `id`.
pub open spec fn has_room(s: Seq<Room>, id: u128) -> bool {
    exists|i: int| 0 <= i < s.len() && s[i].id == id
}

/// `a + b`, saturating at `u64::MAX`.
pub open spec fn sat_add_u64(a: int, b: int) -> int {
    if a + b > u64::MAX as int {
        u64::MAX as int
    } else {
        a + b
    }
}

/// A freshly joined session for `user`: idle, connected, nothing typed.
pub open spec fn joined_session(p: Player, user: User, room_user_id: u128) -> bool {
    &&& p.id == user.id
    &&& p.user.username == user.username
    &&& p.user.created_at == user.created_at
    &&& p.user.role == user.role
    &&& p.room_user_id == room_user_id
    &&& p.typed_text@ == Seq::<char>::empty()
    &&& p.mistakes == 0
    &&& !p.last_is_mistake
    &&& p.progress == 0
    &&& p.status == PlayerStatus::Idle
    &&& p.connected
    &&& p.keystrokes@ == Seq::<Keystroke>::empty()
}

/// `r1` is `or` after one departure: the departing user's session is marked
/// disconnected with every other field frozen, and nothing else changes.
pub open spec fn departed_room(or: Room, r1: Room, player_id: u128) -> bool {
    &&& r1.id == or.id
    &&& r1.text == or.text
    &&& r1.dictionary == or.dictionary
    &&& r1.started == or.started
    &&& r1.start_time == or.start_time
    &&& exists|j: int|
        {
            &&& 0 <= j < or.players@.len()
            &&& (#[trigger] or.players@[j]).id == player_id
            &&& r1.players@ == or.players@.update(j, r1.players@[j])
            &&& same_but_disconnected(or.players@[j], r1.players@[j])
        }
}

/// The global lookup table of active rooms. The shell guards it with a
/// reader/writer lock; each operation below is one critical section.
#[derive(Debug)]
pub struct RoomsManager {
    pub rooms: Vec<Room>,
}

/// `n` is `o` plus one fresh idle room under `id`, created at `now_ms`,
/// and `rec` is the room row persisted for it.
pub open spec fn created_room(
    o: Seq<Room>,
    n: Seq<Room>,
    id: u128,
    text: Text,
    dictionary: Dictionary,
    now_ms: u64,
    rec: RoomRecord,
) -> bool {
    &&& !has_room(o, id)
    &&& n.len() == o.len() + 1
    &&& n == o.push(n.last())
    &&& {
        let nr = n.last();
        &&& nr.id == id
        &&& nr.text == text
        &&& nr.dictionary == dictionary
        &&& nr.players@.len() == 0
        &&& !nr.started
        &&& nr.start_time == now_ms
    }
    &&& rec == (RoomRecord {
        id,
        text_id: text.id,
        created_at: now_ms,
        started_at: now_ms,
        ended_at: now_ms,
    })
}

/// [`created_room`] at some moment: what a caller who did not pick the
/// clock reading knows of a successful creation.
pub open spec fn created_room_sometime(
    o: Seq<Room>,
    n: Seq<Room>,
    id: u128,
    text: Text,
    dictionary: Dictionary,
    rec: RoomRecord,
) -> bool {
    exists|now_ms: u64| created_room(o, n, id, text, dictionary, now_ms, rec)
}

/// `n` is `o` with a fresh session for `user` joined into room `room_id`
/// (replacing any previous session of that user), and `eff` carries the
/// membership row and the roster broadcast owed for it.
pub open spec fn joined_room(
    o: Seq<Room>,
    n: Seq<Room>,
    room_id: u128,
    user: User,
    room_user_id: u128,
    now_ms: u64,
    eff: JoinEffects,
) -> bool {
    exists|i: int|
        {
            &&& 0 <= i < o.len()
            &&& (#[trigger] o[i]).id == room_id
            &&& n == o.update(i, n[i])
            &&& {
                let or = o[i];
                let nr = n[i];
                &&& nr.id == or.id
                &&& nr.text == or.text
                &&& nr.dictionary == or.dictionary
                &&& nr.started == or.started
                &&& nr.start_time == or.start_time
                &&& (if has_player(or.players@, user.id) {
                    exists|j: int|
                        {
                            &&& 0 <= j < or.players@.len()
                            &&& (#[trigger] or.players@[j]).id == user.id
                            &&& nr.players@ == or.players@.update(j, nr.players@[j])
                            &&& joined_session(nr.players@[j], user, room_user_id)
                        }
                } else {
                    &&& nr.players@.len() == or.players@.len() + 1
                    &&& nr.players@ == or.players@.push(nr.players@.last())
                    &&& joined_session(nr.players@.last(), user, room_user_id)
                })
                &&& eff.membership == (RoomUser {
                    id: room_user_id,
                    room_id,
                    user_id: user.id,
                    joined_at: now_ms,
                    left_at: now_ms,
                    league: Leagues::Web,
                })
                &&& eff.roster@.len() == nr.players@.len()
                &&& (forall|k: int|
                    0 <= k < eff.roster@.len() ==> stats_like(
                        #[trigger] eff.roster@[k],
                        nr.players@[k],
                    ))
                &&& eff.recipients@ == connected_ids_spec(nr.players@)
            }
        }
}

/// How one inbound keystroke moves the registry from `o` to `n` and what
/// outcome it reports: nothing changes unless the room, the session and an
/// unfinished race are all in place; a scored key moves exactly the typing
/// player's session; a completing key is owed its finish effects; and the
/// room leaves the registry exactly when every player has finished.
pub open spec fn keystroke_step(
    o: Seq<Room>,
    n: Seq<Room>,
    room_id: u128,
    user_id: u128,
    key: Seq<char>,
    now_ms: u64,
    result_id: u128,
    out: KeystrokeOutcome,
) -> bool {
    match out {
        KeystrokeOutcome::RoomNotFound => {
            &&& n == o
            &&& !has_room(o, room_id)
        },
        KeystrokeOutcome::PlayerNotFound => {
            &&& n == o
            &&& exists|i: int|
                0 <= i < o.len() && (#[trigger] o[i]).id == room_id && !has_player(
                    o[i].players@,
                    user_id,
                )
        },
        KeystrokeOutcome::AlreadyFinished => {
            &&& n == o
            &&& exists|i: int, j: int|
                {
                    &&& 0 <= i < o.len()
                    &&& (#[trigger] o[i]).id == room_id
                    &&& 0 <= j < o[i].players@.len()
                    &&& (#[trigger] o[i].players@[j]).id == user_id
                    &&& o[i].players@[j].status == PlayerStatus::Finished
                }
        },
        KeystrokeOutcome::Processed { update, finish } => exists|
            i: int,
            r1: Room,
            score: KeystrokeScore,
        |
            {
                &&& 0 <= i < o.len()
                &&& o[i].id == room_id
                &&& #[trigger] scored_key(o[i], r1, user_id, key, now_ms, score)
                &&& update == (WsMessage::Update {
                    progress: score.progress,
                    mistakes: score.mistakes,
                    speed_wpm: score.speed_wpm,
                })
                &&& (finish is Some <==> score.finished_now)
                &&& match finish {
                    Some(f) => {
                        &&& finish_effects_ok(r1, user_id, now_ms, result_id, score, f)
                        &&& (f.close is Some ==> n == o.remove(i))
                        &&& (f.close is None ==> n == o.update(i, r1))
                    },
                    None => n == o.update(i, r1),
                }
            },
    }
}

/// Everything a successful join produces besides the new session itself:
/// the membership row to persist and the roster broadcast.
#[derive(Debug)]
pub struct JoinEffects {
    /// Membership row, persisted once at join.
    pub membership: RoomUser,
    /// Fresh roster snapshot to broadcast as a `RoomUpdate`.
    pub roster: Vec<PlayerStats>,
    /// The connected sessions that receive it.
    pub recipients: Vec<u128>,
}

/// What a departure produced.
#[derive(Debug)]
pub enum LeaveOutcome {
    /// No room with that id: the call is a no-op.
    RoomNotFound,
    /// The room exists but the user has no session in it: a no-op.
    PlayerNotFound,
    /// The session was marked disconnected.
    Left {
        /// Whether this departure was the last and removed the room.
        removed_room: bool,
        /// Connected sessions to receive the `UserLeft` broadcast.
        recipients: Vec<u128>,
    },
}

/// What beginning a countdown produced: the `Start` broadcast and the
/// scheduled start moment.
#[derive(Debug)]
pub struct StartEffects {
    pub start_time: u64,
    /// The race text carried by the `Start` message.
    pub text: Vec<char>,
    /// Connected sessions to receive it.
    pub recipients: Vec<u128>,
}

/// What completing a countdown produced.
#[derive(Debug)]
pub struct StartCompleted {
    /// Whether this call flipped the start signal (false if the room had
    /// already been started).
    pub flipped: bool,
    /// The moment to persist as the room's `started_at`.
    pub started_at: u64,
}

/// Response to the start command once the countdown has been kicked off.
#[derive(Debug)]
pub struct StartRoomResponse {
    pub message: String,
}

/// What one inbound protocol message produced.
#[derive(Debug)]
pub enum MessageOutcome {
    /// The message was a keystroke and went through the keystroke path.
    Key(KeystrokeOutcome),
    /// Any other message type is unexpected from a client: the sender is
    /// owed this `Error` unicast — if their session still exists.
    Unexpected(Option<WsMessage>),
}

/// What a roster poll decided.
#[derive(Debug)]
pub enum PollOutcome {
    /// The room is gone; the poller terminates.
    RoomGone,
    /// The race has not started; nothing is broadcast this tick.
    NotStarted,
    /// Broadcast this roster snapshot.
    Broadcast { roster: Vec<PlayerStats>, recipients: Vec<u128> },
}

/// What a player's completed race produced: the personal `Finished`
/// unicast, the roster broadcast, the rows to stamp, and — when this was
/// the last unfinished player — the close of the room. The shell persists
/// the result row before acting on the close.
#[derive(Debug)]
pub struct FinishEffects {
    /// `Finished` unicast to the finishing player, exactly once.
    pub finished_msg: WsMessage,
    /// Fresh roster snapshot to broadcast as a `RoomUpdate`.
    pub roster: Vec<PlayerStats>,
    /// The connected sessions that receive it.
    pub roster_recipients: Vec<u128>,
    /// Result row to insert, exactly once per finishing player.
    pub result: Results,
    /// The membership row whose departure moment is updated.
    pub membership_id: u128,
    /// The departure moment to stamp on it.
    pub left_at: u64,
    /// Present exactly when every player has now finished.
    pub close: Option<CloseEffects>,
}

/// What one inbound keystroke produced.
#[derive(Debug)]
pub enum KeystrokeOutcome {
    /// No room with that id: nothing changes.
    RoomNotFound,
    /// The room exists but the user has no session in it: nothing changes.
    PlayerNotFound,
    /// The player already finished; input is not consumed and the session
    /// stays frozen, so `Finished` cannot be produced twice.
    AlreadyFinished,
    /// The keystroke was scored: `update` goes to the typing player, and
    /// `finish` is present exactly when this keystroke completed the race.
    Processed { update: WsMessage, finish: Option<FinishEffects> },
}

/// What the effects of a finish must look like, given `r1`, the room right
/// after the completing keystroke, and `score`, that keystroke's metrics.
pub open spec fn finish_effects_ok(
    r1: Room,
    user_id: u128,
    now_ms: u64,
    result_id: u128,
    score: KeystrokeScore,
    f: FinishEffects,
) -> bool {
    &&& f.finished_msg == (WsMessage::Finished {
        total_time_ms: elapsed_spec(r1.start_time as int, now_ms as int) as u64,
        mistakes: score.mistakes,
        accuracy: accuracy_spec(score.typed_count as int, score.mistakes as int) as u64,
        speed_wpm: score.speed_wpm,
    })
    &&& f.roster@.len() == r1.players@.len()
    &&& (forall|k: int|
        0 <= k < f.roster@.len() ==> stats_like(#[trigger] f.roster@[k], r1.players@[k]))
    &&& f.roster_recipients@ == connected_ids_spec(r1.players@)
    &&& exists|j: int|
        {
            &&& 0 <= j < r1.players@.len()
            &&& (#[trigger] r1.players@[j]).id == user_id
            &&& f.result.room_user_id == r1.players@[j].room_user_id
            &&& f.membership_id == r1.players@[j].room_user_id
            &&& crate::player::log_model(f.result.stats.keystrokes@) == crate::player::log_model(
                r1.players@[j].keystrokes@,
            )
        }
    &&& f.result.id == result_id
    &&& f.result.start_time == r1.start_time
    &&& f.result.end_time == now_ms
    &&& f.result.mistakes == score.mistakes
    &&& f.result.wpm == score.speed_wpm
    &&& f.result.cpm == score.speed_cpm
    &&& f.left_at == now_ms
    &&& match f.close {
        Some(c) => {
            &&& all_finished(r1.players@)
            &&& c.recipients@ == ids_of(r1.players@)
            &&& c.ended_at == now_ms
        },
        None => !all_finished(r1.players@),
    }
}

/// What closing a room produced.
#[derive(Debug)]
pub struct CloseEffects {
    /// Every session that ever joined; each of their outbound handles gets
    /// a close signal.
    pub recipients: Vec<u128>,
    /// The moment to persist as the room's `ended_at`, exactly once.
    pub ended_at: u64,
}

impl RoomsManager {
    /// Registry well-formedness: room ids unique, every room well-formed.
    pub open spec fn wf(&self) -> bool {
        &&& unique_room_ids(self.rooms@)
        &&& forall|i: int| 0 <= i < self.rooms@.len() ==> room_wf(#[trigger] self.rooms@[i])
    }

    /// An empty registry.
    pub fn new() -> (m: RoomsManager)
        ensures
            m.rooms@ == Seq::<Room>::empty(),
            m.wf(),
    {
        RoomsManager { rooms: Vec::new() }
    }

    /// Position of the room carrying `room_id`, if any.
    pub fn find_room(&self, room_id: u128) -> (r: Option<usize>)
        ensures
            match r {
                Some(i) => i < self.rooms@.len() && self.rooms@[i as int].id == room_id,
                None => !has_room(self.rooms@, room_id),
            },
    {
        let mut i: usize = 0;
        while i < self.rooms.len()
            invariant
                i <= self.rooms@.len(),
                forall|j: int| 0 <= j < i ==> self.rooms@[j].id != room_id,
            decreases self.rooms@.len() - i,
        {
            if self.rooms[i].id == room_id {
                return Some(i);
            }
            i = i + 1;
        }
        None
    }

    /// A handle to the room carrying `room_id`, if it is still live.
    pub fn get_room(&self, room_id: u128) -> (r: Option<&Room>)
        ensures
            match r {
                Some(room) => exists|i: int|
                    0 <= i < self.rooms@.len() && (#[trigger] self.rooms@[i]).id == room_id
                        && *room == self.rooms@[i],
                None => !has_room(self.rooms@, room_id),
            },
    {
        match self.find_room(room_id) {
            Some(i) => Some(&self.rooms[i]),
            None => None,
        }
    }

    /// Lobby statistics for every live room, in registry order.
    pub fn get_stats(&self) -> (r: Vec<RoomStats>)
        ensures
            r@.len() == self.rooms@.len(),
            forall|i: int| 0 <= i < r@.len() ==> stats_of(#[trigger] r@[i], self.rooms@[i]),
    {
        let mut out: Vec<RoomStats> = Vec::new();
        let mut i: usize = 0;
        while i < self.rooms.len()
            invariant
                i <= self.rooms@.len(),
                out@.len() == i,
                forall|j: int| 0 <= j < i ==> stats_of(#[trigger] out@[j], self.rooms@[j]),
            decreases self.rooms@.len() - i,
        {
            out.push(self.rooms[i].snapshot_stats());
            i = i + 1;
        }
        out
    }

    /// Whether the room's race has started, or `None` once the room is
    /// gone. A session waiting for the start signal stops waiting as soon
    /// as this is no longer `Some(false)`.
    pub fn room_started(&self, room_id: u128) -> (r: Option<bool>)
        ensures
            match r {
                Some(b) => exists|i: int|
                    0 <= i < self.rooms@.len() && self.rooms@[i].id == room_id && (#[trigger] self.rooms@[i]).started == b,
                None => !has_room(self.rooms@, room_id),
            },
    {
        match self.find_room(room_id) {
            Some(i) => Some(self.rooms[i].started),
            None => None,
        }
    }

    /// Registers a fresh idle room under `id` and reports the room row to
    /// persist. Fails — leaving the registry unchanged — exactly when `id`
    /// is already taken.
    pub fn create_room_at(
        &mut self,
        id: u128,
        text: Text,
        dictionary: Dictionary,
        now_ms: u64,
    ) -> (r: Result<RoomRecord, MyError>)
        requires
            old(self).wf(),
        ensures
            final(self).wf(),
            match r {
                Ok(rec) => created_room(
                    old(self).rooms@,
                    final(self).rooms@,
                    id,
                    text,
                    dictionary,
                    now_ms,
                    rec,
                ),
                Err(e) => {
                    &&& e == MyError::InternalError
                    &&& has_room(old(self).rooms@, id)
                    &&& *final(self) == *old(self)
                },
            },
    {
        match self.find_room(id) {
            Some(_) => Err(MyError::InternalError),
            None => {
                let text_id = text.id;
                let room = Room::new(id, text, dictionary, now_ms);
                self.rooms.push(room);
                Ok(
                    RoomRecord {
                        id,
                        text_id,
                        created_at: now_ms,
                        started_at: now_ms,
                        ended_at: now_ms,
                    },
                )
            },
        }
    }

    /// Schedules the race start one countdown from `now_ms` and reports the
    /// `Start` broadcast. Succeeds exactly when the room exists and has not
    /// started; an absent or already-started room is rejected with
    /// [`MyError::NotFound`], the caller's check before any coordinator runs.
    pub fn begin_countdown(&mut self, room_id: u128, now_ms: u64) -> (r: Result<
        StartEffects,
        MyError,
    >)
        requires
            old(self).wf(),
        ensures
            final(self).wf(),
            match r {
                Ok(e) => exists|i: int|
                    {
                        &&& 0 <= i < old(self).rooms@.len()
                        &&& (#[trigger] old(self).rooms@[i]).id == room_id
                        &&& !old(self).rooms@[i].started
                        &&& e.start_time == sat_add_u64(now_ms as int, COUNTDOWN_DELAY_MS as int)
                        &&& e.text@ == old(self).rooms@[i].text.content@
                        &&& e.recipients@ == connected_ids_spec(old(self).rooms@[i].players@)
                        &&& final(self).rooms@ == old(self).rooms@.update(
                            i,
                            final(self).rooms@[i],
                        )
                        &&& {
                            let nr = final(self).rooms@[i];
                            let or = old(self).rooms@[i];
                            &&& nr.id == or.id
                            &&& nr.text == or.text
                            &&& nr.dictionary == or.dictionary
                            &&& nr.players@ == or.players@
                            &&& nr.started == or.started
                            &&& nr.start_time == e.start_time
                        }
                    },
                Err(e) => {
                    &&& e == MyError::NotFound
                    &&& *final(self) == *old(self)
                    &&& (!has_room(old(self).rooms@, room_id) || exists|i: int|
                        0 <= i < old(self).rooms@.len() && (#[trigger] old(self).rooms@[i]).id
                            == room_id && old(self).rooms@[i].started)
                },
            },
    {
        let ri = match self.find_room(room_id) {
            None => {
                return Err(MyError::NotFound);
            },
            Some(i) => i,
        };
        if self.rooms[ri].started {
            return Err(MyError::NotFound);
        }
        let start_time = if now_ms <= u64::MAX - COUNTDOWN_DELAY_MS {
            now_ms + COUNTDOWN_DELAY_MS
        } else {
            u64::MAX
        };
        let mut room = self.rooms.remove(ri);
        room.start_time = start_time;
        let text = copy_chars(&room.text.content);
        let recipients = room.connected_ids();
        self.rooms.insert(ri, room);
        proof {
            assert(self.rooms@ =~= old(self).rooms@.update(ri as int, self.rooms@[ri as int]));
        }
        Ok(StartEffects { start_time, text, recipients })
    }

    /// Ends the countdown: marks the room started (the shell then flips the
    /// start signal) and reports the `started_at` moment to persist. A room
    /// deleted mid-countdown yields `None` and the coordinator simply
    /// exits; the registry is never disturbed in that case.
    pub fn complete_start(&mut self, room_id: u128, now_ms: u64) -> (r: Option<StartCompleted>)
        requires
            old(self).wf(),
        ensures
            final(self).wf(),
            match r {
                Some(c) => exists|i: int|
                    {
                        &&& 0 <= i < old(self).rooms@.len()
                        &&& (#[trigger] old(self).rooms@[i]).id == room_id
                        &&& c.flipped == !old(self).rooms@[i].started
                        &&& c.started_at == now_ms
                        &&& final(self).rooms@ == old(self).rooms@.update(
                            i,
                            final(self).rooms@[i],
                        )
                        &&& {
                            let nr = final(self).rooms@[i];
                            let or = old(self).rooms@[i];
                            &&& nr.id == or.id
                            &&& nr.text == or.text
                            &&& nr.dictionary == or.dictionary
                            &&& nr.players@ == or.players@
                            &&& nr.started
                            &&& nr.start_time == or.start_time
                        }
                    },
                None => {
                    &&& !has_room(old(self).rooms@, room_id)
                    &&& *final(self) == *old(self)
                },
            },
    {
        let ri = match self.find_room(room_id) {
            None => {
                return None;
            },
            Some(i) => i,
        };
        let mut room = self.rooms.remove(ri);
        let flipped = !room.started;
        room.started = true;
        self.rooms.insert(ri, room);
        proof {
            assert(self.rooms@ =~= old(self).rooms@.update(ri as int, self.rooms@[ri as int]));
        }
        Some(StartCompleted { flipped, started_at: now_ms })
    }

    /// One tick of a room's stats poller: a roster broadcast while the room
    /// exists and is started, nothing before the start, and the command to
    /// terminate once the room is gone — absence is the termination
    /// condition.
    pub fn poll_roster(&self, room_id: u128) -> (r: PollOutcome)
        ensures
            match r {
                PollOutcome::RoomGone => !has_room(self.rooms@, room_id),
                PollOutcome::NotStarted => exists|i: int|
                    0 <= i < self.rooms@.len() && (#[trigger] self.rooms@[i]).id == room_id
                        && !self.rooms@[i].started,
                PollOutcome::Broadcast { roster, recipients } => exists|i: int|
                    {
                        &&& 0 <= i < self.rooms@.len()
                        &&& (#[trigger] self.rooms@[i]).id == room_id
                        &&& self.rooms@[i].started
                        &&& roster@.len() == self.rooms@[i].players@.len()
                        &&& (forall|j: int|
                            0 <= j < roster@.len() ==> stats_like(
                                #[trigger] roster@[j],
                                self.rooms@[i].players@[j],
                            ))
                        &&& recipients@ == connected_ids_spec(self.rooms@[i].players@)
                    },
            },
    {
        let ri = match self.find_room(room_id) {
            None => {
                return PollOutcome::RoomGone;
            },
            Some(i) => i,
        };
        if !self.rooms[ri].started {
            return PollOutcome::NotStarted;
        }
        let roster = self.rooms[ri].roster();
        let recipients = self.rooms[ri].connected_ids();
        PollOutcome::Broadcast { roster, recipients }
    }

    /// Inserts a fresh idle session for `user` — replacing any previous
    /// session of the same user — persists a membership row, and reports
    /// the roster broadcast. Fails with [`MyError::NotFound`] exactly when
    /// the room is absent.
    pub fn join_room_at(
        &mut self,
        room_id: u128,
        user: User,
        room_user_id: u128,
        now_ms: u64,
    ) -> (r: Result<JoinEffects, MyError>)
        requires
            old(self).wf(),
        ensures
            final(self).wf(),
            match r {
                Err(e) => {
                    &&& e == MyError::NotFound
                    &&& *final(self) == *old(self)
                    &&& !has_room(old(self).rooms@, room_id)
                },
                Ok(eff) => joined_room(
                    old(self).rooms@,
                    final(self).rooms@,
                    room_id,
                    user,
                    room_user_id,
                    now_ms,
                    eff,
                ),
            },
    {
        let ri = match self.find_room(room_id) {
            None => {
                return Err(MyError::NotFound);
            },
            Some(i) => i,
        };
        let mut room = self.rooms.remove(ri);
        let User { id: uid, username, email: _, password_hash: _, created_at, role } = user;
        let info = UserInfo { username, created_at, role };
        let fresh = Player::new(uid, info, room_user_id);
        match room.find_player(uid) {
            Some(j) => {
                let _previous = room.players.remove(j);
                room.players.insert(j, fresh);
                proof {
                    assert(room.players@ =~= old(self).rooms@[ri as int].players@.update(
                        j as int,
                        room.players@[j as int],
                    ));
                }
            },
            None => {
                room.players.push(fresh);
            },
        }
        let roster = room.roster();
        let recipients = room.connected_ids();
        let membership = RoomUser {
            id: room_user_id,
            room_id,
            user_id: uid,
            joined_at: now_ms,
            left_at: now_ms,
            league: Leagues::Web,
        };
        self.rooms.insert(ri, room);
        proof {
            assert(self.rooms@ =~= old(self).rooms@.update(ri as int, self.rooms@[ri as int]));
        }
        Ok(JoinEffects { membership, roster, recipients })
    }

    /// Marks the departing user's session disconnected — its race state is
    /// frozen at its last values, never removed — broadcasts `UserLeft`,
    /// and, exactly when no session remains connected, removes the room.
    /// The check and the removal are one atomic step of the registry, so
    /// two concurrent departures cannot both conclude they were last. A
    /// room already gone, or a user without a session, is a no-op.
    pub fn leave_room(&mut self, room_id: u128, player_id: u128) -> (r: LeaveOutcome)
        requires
            old(self).wf(),
        ensures
            final(self).wf(),
            match r {
                LeaveOutcome::RoomNotFound => {
                    &&& final(self).rooms@ == old(self).rooms@
                    &&& !has_room(old(self).rooms@, room_id)
                },
                LeaveOutcome::PlayerNotFound => {
                    &&& final(self).rooms@ == old(self).rooms@
                    &&& exists|i: int|
                        0 <= i < old(self).rooms@.len() && (#[trigger] old(self).rooms@[i]).id
                            == room_id && !has_player(old(self).rooms@[i].players@, player_id)
                },
                LeaveOutcome::Left { removed_room, recipients } => exists|i: int, r1: Room|
                    {
                        &&& 0 <= i < old(self).rooms@.len()
                        &&& old(self).rooms@[i].id == room_id
                        &&& #[trigger] departed_room(old(self).rooms@[i], r1, player_id)
                        &&& recipients@ == connected_ids_spec(r1.players@)
                        &&& removed_room == all_disconnected(r1.players@)
                        &&& (removed_room ==> final(self).rooms@ == old(self).rooms@.remove(i))
                        &&& (!removed_room ==> final(self).rooms@ == old(self).rooms@.update(
                            i,
                            r1,
                        ))
                    },
            },
    {
        let ri = match self.find_room(room_id) {
            None => {
                return LeaveOutcome::RoomNotFound;
            },
            Some(i) => i,
        };
        let mut room = self.rooms.remove(ri);
        let pi = match room.find_player(player_id) {
            None => {
                self.rooms.insert(ri, room);
                proof {
                    assert(self.rooms@ =~= old(self).rooms@);
                }
                return LeaveOutcome::PlayerNotFound;
            },
            Some(j) => j,
        };
        let mut p = room.players.remove(pi);
        p.connected = false;
        room.players.insert(pi, p);
        proof {
            assert(room.players@ =~= old(self).rooms@[ri as int].players@.update(
                pi as int,
                room.players@[pi as int],
            ));
        }
        let recipients = room.connected_ids();
        let removed_room = room.none_connected();
        if removed_room {
            proof {
                assert(departed_room(old(self).rooms@[ri as int], room, player_id));
            }
            return LeaveOutcome::Left { removed_room: true, recipients };
        }
        self.rooms.insert(ri, room);
        proof {
            assert(self.rooms@ =~= old(self).rooms@.update(ri as int, self.rooms@[ri as int]));
            assert(departed_room(
                old(self).rooms@[ri as int],
                self.rooms@[ri as int],
                player_id,
            ));
        }
        LeaveOutcome::Left { removed_room: false, recipients }
    }

    /// Scores one keystroke from `user_id` in room `room_id`.
    ///
    /// On a scored key the typing player is owed an `Update` unicast. When
    /// the key completes the race, the finish effects carry the `Finished`
    /// unicast, the roster broadcast, the result row (under `result_id`)
    /// and the membership stamp; and exactly when every player has now
    /// finished, the room closes and leaves the registry. A missing room or
    /// session, or a player that already finished, changes nothing.
    pub fn handle_keystroke_at(
        &mut self,
        room_id: u128,
        user_id: u128,
        key: Vec<char>,
        now_ms: u64,
        result_id: u128,
    ) -> (out: KeystrokeOutcome)
        requires
            old(self).wf(),
        ensures
            final(self).wf(),
            keystroke_step(
                old(self).rooms@,
                final(self).rooms@,
                room_id,
                user_id,
                key@,
                now_ms,
                result_id,
                out,
            ),
    {
        let ri = match self.find_room(room_id) {
            None => {
                return KeystrokeOutcome::RoomNotFound;
            },
            Some(i) => i,
        };
        let mut room = self.rooms.remove(ri);
        let outcome = room.handle_key(user_id, key, now_ms);
        match outcome {
            KeyOutcome::PlayerNotFound => {
                self.rooms.insert(ri, room);
                proof {
                    assert(self.rooms@ =~= old(self).rooms@);
                }
                KeystrokeOutcome::PlayerNotFound
            },
            KeyOutcome::AlreadyFinished => {
                self.rooms.insert(ri, room);
                proof {
                    assert(self.rooms@ =~= old(self).rooms@);
                }
                KeystrokeOutcome::AlreadyFinished
            },
            KeyOutcome::Scored(score) => {
                let ghost r1 = room;
                let update = WsMessage::Update {
                    progress: score.progress,
                    mistakes: score.mistakes,
                    speed_wpm: score.speed_wpm,
                };
                if !score.finished_now {
                    self.rooms.insert(ri, room);
                    proof {
                        assert(self.rooms@ =~= old(self).rooms@.update(ri as int, r1));
                    }
                    return KeystrokeOutcome::Processed { update, finish: None };
                }
                let total_time_ms = elapsed_ms(room.start_time, now_ms);
                let accuracy = accuracy_percent(score.typed_count, score.mistakes);
                let finished_msg = WsMessage::Finished {
                    total_time_ms,
                    mistakes: score.mistakes,
                    accuracy,
                    speed_wpm: score.speed_wpm,
                };
                let roster = room.roster();
                let roster_recipients = room.connected_ids();
                let pj = match room.find_player(user_id) {
                    Some(j) => j,
                    // a scored key always has a session behind it
                    None => vstd::pervasive::unreached(),
                };
                let finisher = &room.players[pj];
                let result = Results {
                    id: result_id,
                    start_time: room.start_time,
                    end_time: now_ms,
                    mistakes: score.mistakes,
                    wpm: score.speed_wpm,
                    cpm: score.speed_cpm,
                    stats: ResultStats { keystrokes: clone_log(&finisher.keystrokes) },
                    room_user_id: finisher.room_user_id,
                };
                let membership_id = finisher.room_user_id;
                let all_done = room.everyone_finished();
                let close = if all_done {
                    let recipients = room.all_ids();
                    Some(CloseEffects { recipients, ended_at: now_ms })
                } else {
                    None
                };
                let finish = Some(
                    FinishEffects {
                        finished_msg,
                        roster,
                        roster_recipients,
                        result,
                        membership_id,
                        left_at: now_ms,
                        close,
                    },
                );
                if !all_done {
                    self.rooms.insert(ri, room);
                    proof {
                        assert(self.rooms@ =~= old(self).rooms@.update(ri as int, r1));
                    }
                }
                KeystrokeOutcome::Processed { update, finish }
            },
        }
    }

    /// Whether user `user_id` has a session in room `room_id`.
    pub fn player_known(&self, room_id: u128, user_id: u128) -> (r: bool)
        requires
            self.wf(),
        ensures
            r == exists|i: int|
                0 <= i < self.rooms@.len() && (#[trigger] self.rooms@[i]).id == room_id
                    && has_player(self.rooms@[i].players@, user_id),
    {
        match self.find_room(room_id) {
            None => {
                proof {
                    assert forall|i: int|
                        0 <= i < self.rooms@.len() implies !((#[trigger] self.rooms@[i]).id
                        == room_id) by {
                        assert(!has_room(self.rooms@, room_id));
                    }
                }
                false
            },
            Some(i) => {
                let found = self.rooms[i].find_player(user_id);
                proof {
                    if found is None {
                        assert forall|k: int|
                            0 <= k < self.rooms@.len() && (#[trigger] self.rooms@[k]).id
                                == room_id implies !has_player(
                            self.rooms@[k].players@,
                            user_id,
                        ) by {
                            assert(self.rooms@[k].id == self.rooms@[i as int].id);
                            if k != i as int {
                                assert(false);
                            }
                        }
                    }
                }
                found.is_some()
            },
        }
    }

    /// Answers a frame that could not be parsed: the sender is owed an
    /// `Error` unicast saying the input was malformed — exactly when their
    /// session still exists. The connection stays open; nothing changes.
    pub fn handle_error(&self, room_id: u128, user_id: u128) -> (r: Option<WsMessage>)
        requires
            self.wf(),
        ensures
            match r {
                Some(m) => {
                    &&& exists|i: int|
                        0 <= i < self.rooms@.len() && (#[trigger] self.rooms@[i]).id == room_id
                            && has_player(self.rooms@[i].players@, user_id)
                    &&& m matches WsMessage::Error { message } && message@
                        == "Invalid JSON format"@
                },
                None => !exists|i: int|
                    0 <= i < self.rooms@.len() && (#[trigger] self.rooms@[i]).id == room_id
                        && has_player(self.rooms@[i].players@, user_id),
            },
    {
        if self.player_known(room_id, user_id) {
            Some(WsMessage::Error { message: "Invalid JSON format".to_owned() })
        } else {
            None
        }
    }

    /// Routes one inbound message. A keystroke is scored at the current
    /// time under a fresh result id; every other message type is unexpected
    /// from a client and earns the sender an `Error` unicast instead of
    /// being silently ignored.
    pub fn handle_message(&mut self, room_id: u128, user_id: u128, msg: WsMessage) -> (out:
        MessageOutcome)
        requires
            old(self).wf(),
        ensures
            final(self).wf(),
            match out {
                MessageOutcome::Key(k) => {
                    &&& msg matches WsMessage::Keystroke { key, timestamp: _ }
                    &&& exists|now_ms: u64, result_id: u128|
                        #[trigger] keystroke_step(
                            old(self).rooms@,
                            final(self).rooms@,
                            room_id,
                            user_id,
                            key@,
                            now_ms,
                            result_id,
                            k,
                        )
                },
                MessageOutcome::Unexpected(r) => {
                    &&& !(msg is Keystroke)
                    &&& final(self).rooms@ == old(self).rooms@
                    &&& match r {
                        Some(m) => {
                            &&& exists|i: int|
                                0 <= i < old(self).rooms@.len() && (#[trigger] old(
                                    self,
                                ).rooms@[i]).id == room_id && has_player(
                                    old(self).rooms@[i].players@,
                                    user_id,
                                )
                            &&& m matches WsMessage::Error { message } && message@
                                == "Unexpected message type"@
                        },
                        None => !exists|i: int|
                            0 <= i < old(self).rooms@.len() && (#[trigger] old(self).rooms@[i]).id
                                == room_id && has_player(old(self).rooms@[i].players@, user_id),
                    }
                },
            },
    {
        match msg {
            WsMessage::Keystroke { key, timestamp: _ } => {
                let now_ms = crate::ext::now_ms_clamped();
                let result_id = crate::ext::fresh_id();
                MessageOutcome::Key(
                    self.handle_keystroke_at(room_id, user_id, key, now_ms, result_id),
                )
            },
            _ => {
                if self.player_known(room_id, user_id) {
                    MessageOutcome::Unexpected(
                        Some(WsMessage::Error { message: "Unexpected message type".to_owned() }),
                    )
                } else {
                    MessageOutcome::Unexpected(None)
                }
            },
        }
    }

    /// Registers a fresh idle room for `text` under a random identifier at
    /// the current time. `None` means the drawn identifier was already
    /// taken — the registry is then unchanged and the caller may retry.
    pub fn create_room(&mut self, text: Text, dictionary: Dictionary) -> (r: Option<
        (u128, RoomRecord),
    >)
        requires
            old(self).wf(),
        ensures
            final(self).wf(),
            match r {
                Some((id, rec)) => created_room_sometime(
                    old(self).rooms@,
                    final(self).rooms@,
                    id,
                    text,
                    dictionary,
                    rec,
                ),
                None => final(self).rooms@ == old(self).rooms@,
            },
    {
        let id = crate::ext::fresh_id();
        let now_ms = crate::ext::now_ms_clamped();
        match self.create_room_at(id, text, dictionary, now_ms) {
            Ok(rec) => {
                proof {
                    assert(created_room(
                        old(self).rooms@,
                        self.rooms@,
                        id,
                        text,
                        dictionary,
                        now_ms,
                        rec,
                    ));
                    assert(created_room_sometime(
                        old(self).rooms@,
                        self.rooms@,
                        id,
                        text,
                        dictionary,
                        rec,
                    ));
                }
                Some((id, rec))
            },
            Err(_) => None,
        }
    }

    /// Joins `user` into room `room_id` under a fresh membership id at the
    /// current time.
    pub fn join_room(&mut self, room_id: u128, user: User) -> (r: Result<JoinEffects, MyError>)
        requires
            old(self).wf(),
        ensures
            final(self).wf(),
            match r {
                Err(e) => {
                    &&& e == MyError::NotFound
                    &&& *final(self) == *old(self)
                    &&& !has_room(old(self).rooms@, room_id)
                },
                Ok(eff) => exists|room_user_id: u128, now_ms: u64|
                    joined_room(
                        old(self).rooms@,
                        final(self).rooms@,
                        room_id,
                        user,
                        room_user_id,
                        now_ms,
                        eff,
                    ),
            },
    {
        let room_user_id = crate::ext::fresh_id();
        let now_ms = crate::ext::now_ms_clamped();
        self.join_room_at(room_id, user, room_user_id, now_ms)
    }

    /// Begins the countdown at the current time. The shell broadcasts the
    /// `Start` message, sleeps until `start_time`, then calls
    /// [`Self::finish_countdown`].
    pub fn start_countdown(&mut self, room_id: u128) -> (r: Result<StartEffects, MyError>)
        requires
            old(self).wf(),
        ensures
            final(self).wf(),
            match r {
                Ok(e) => exists|now_ms: u64, i: int|
                    #![trigger old(self).rooms@[i], sat_add_u64(now_ms as int, COUNTDOWN_DELAY_MS as int)]
                    {
                        &&& 0 <= i < old(self).rooms@.len()
                        &&& old(self).rooms@[i].id == room_id
                        &&& !old(self).rooms@[i].started
                        &&& e.start_time == sat_add_u64(now_ms as int, COUNTDOWN_DELAY_MS as int)
                        &&& e.text@ == old(self).rooms@[i].text.content@
                        &&& e.recipients@ == connected_ids_spec(old(self).rooms@[i].players@)
                        &&& final(self).rooms@ == old(self).rooms@.update(
                            i,
                            final(self).rooms@[i],
                        )
                        &&& {
                            let nr = final(self).rooms@[i];
                            let or = old(self).rooms@[i];
                            &&& nr.id == or.id
                            &&& nr.text == or.text
                            &&& nr.dictionary == or.dictionary
                            &&& nr.players@ == or.players@
                            &&& nr.started == or.started
                            &&& nr.start_time == e.start_time
                        }
                    },
                Err(e) => {
                    &&& e == MyError::NotFound
                    &&& *final(self) == *old(self)
                    &&& (!has_room(old(self).rooms@, room_id) || exists|i: int|
                        0 <= i < old(self).rooms@.len() && (#[trigger] old(self).rooms@[i]).id
                            == room_id && old(self).rooms@[i].started)
                },
            },
    {
        let now_ms = crate::ext::now_ms_clamped();
        self.begin_countdown(room_id, now_ms)
    }

    /// Ends a countdown at the current time: see [`Self::complete_start`].
    pub fn finish_countdown(&mut self, room_id: u128) -> (r: Option<StartCompleted>)
        requires
            old(self).wf(),
        ensures
            final(self).wf(),
            match r {
                Some(c) => exists|i: int|
                    {
                        &&& 0 <= i < old(self).rooms@.len()
                        &&& (#[trigger] old(self).rooms@[i]).id == room_id
                        &&& c.flipped == !old(self).rooms@[i].started
                        &&& final(self).rooms@ == old(self).rooms@.update(
                            i,
                            final(self).rooms@[i],
                        )
                        &&& {
                            let nr = final(self).rooms@[i];
                            let or = old(self).rooms@[i];
                            &&& nr.id == or.id
                            &&& nr.text == or.text
                            &&& nr.dictionary == or.dictionary
                            &&& nr.players@ == or.players@
                            &&& nr.started
                            &&& nr.start_time == or.start_time
                        }
                    },
                None => {
                    &&& !has_room(old(self).rooms@, room_id)
                    &&& *final(self) == *old(self)
                },
            },
    {
        let now_ms = crate::ext::now_ms_clamped();
        self.complete_start(room_id, now_ms)
    }

    /// Removes a room outright: every session's outbound handle is to get a
    /// close signal, and `ended_at` is to be persisted, exactly once — a
    /// second close of the same room finds nothing and does nothing.
    pub fn close_room(&mut self, room_id: u128, now_ms: u64) -> (r: Option<CloseEffects>)
        requires
            old(self).wf(),
        ensures
            final(self).wf(),
            match r {
                Some(c) => exists|i: int|
                    {
                        &&& 0 <= i < old(self).rooms@.len()
                        &&& (#[trigger] old(self).rooms@[i]).id == room_id
                        &&& c.recipients@ == ids_of(old(self).rooms@[i].players@)
                        &&& c.ended_at == now_ms
                        &&& final(self).rooms@ == old(self).rooms@.remove(i)
                    },
                None => {
                    &&& !has_room(old(self).rooms@, room_id)
                    &&& *final(self) == *old(self)
                },
            },
    {
        let ri = match self.find_room(room_id) {
            None => {
                return None;
            },
            Some(i) => i,
        };
        let room = self.rooms.remove(ri);
        let recipients = room.all_ids();
        Some(CloseEffects { recipients, ended_at: now_ms })
    }
}

} // verus!
