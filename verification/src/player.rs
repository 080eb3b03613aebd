//! A player session: one connected participant's live race state.

use vstd::prelude::*;

use crate::custom_types::UserRoles;

verus! {

/// Lifecycle state of a player session.
#[derive(PartialEq, Eq, Structural, Clone, Copy, Debug)]
pub enum PlayerStatus {
    Idle,
    Started,
    Dropped,
    Finished,
    Spectator,
}

/// One logged keystroke event. During a mistake streak the `key` field
/// grows instead of a new record being appended, so it may hold more than
/// one character.
#[derive(Debug)]
pub struct Keystroke {
    /// What the player pressed (coalesced over a mistake streak).
    pub key: Vec<char>,
    /// Whether this record began as a mistake.
    pub mistake: bool,
    /// The character the target expected, if the target was not exhausted.
    pub expected: Option<char>,
    /// When the record was created, in milliseconds.
    pub timestamp: u64,
}

/// Mathematical image of a [`Keystroke`].
pub ghost struct KeystrokeModel {
    pub key: Seq<char>,
    pub mistake: bool,
    pub expected: Option<char>,
    pub timestamp: u64,
}

impl View for Keystroke {
    type V = KeystrokeModel;

    open spec fn view(&self) -> KeystrokeModel {
        KeystrokeModel {
            key: self.key@,
            mistake: self.mistake,
            expected: self.expected,
            timestamp: self.timestamp,
        }
    }
}

/// The models of a whole keystroke log.
pub open spec fn log_model(s: Seq<Keystroke>) -> Seq<KeystrokeModel> {
    s.map_values(|k: Keystroke| k@)
}

/// Identity of the user behind a session, as the authentication
/// collaborator verified it.
#[derive(Debug)]
pub struct UserInfo {
    pub username: String,
    pub created_at: u64,
    pub role: UserRoles,
}

/// Per-player roster entry broadcast in room updates.
#[derive(Debug)]
pub struct PlayerStats {
    pub username: String,
    pub mistakes: u64,
    pub progress: u32,
    pub status: PlayerStatus,
}

/// One connected participant's live race state. The session does not own
/// its connection: the shell keeps the outbound handle and delivers what
/// the engine decides.
#[derive(Debug)]
pub struct Player {
    /// The user's id; unique within a room.
    pub id: u128,
    pub user: UserInfo,
    /// Id of the persisted room-membership record.
    pub room_user_id: u128,
    /// The prefix of the target text typed correctly so far.
    pub typed_text: Vec<char>,
    /// Number of correct-to-incorrect transitions.
    pub mistakes: u64,
    /// Whether the latest keystroke was a mistake (suppresses
    /// double-counting of a sustained wrong keystroke).
    pub last_is_mistake: bool,
    /// Progress through the target, in per-mille.
    pub progress: u32,
    pub status: PlayerStatus,
    pub connected: bool,
    /// Ordered log of keystroke events.
    pub keystrokes: Vec<Keystroke>,
}

/// Well-formedness of a session racing against `target`: the typed text is
/// a prefix of the target, the mistake counter never exceeds the log, a
/// live mistake streak has a record to extend, and a finished session has
/// typed the whole target.
pub open spec fn player_wf(p: Player, target: Seq<char>) -> bool {
    &&& p.typed_text@.len() <= target.len()
    &&& p.typed_text@ == target.take(p.typed_text@.len() as int)
    &&& p.mistakes <= p.keystrokes@.len()
    &&& (p.last_is_mistake ==> p.keystrokes@.len() > 0)
    &&& (p.status == PlayerStatus::Finished ==> p.typed_text@ == target)
}

/// `n` is `o` marked disconnected, with every other field frozen at its
/// last value.
pub open spec fn same_but_disconnected(o: Player, n: Player) -> bool {
    &&& n.id == o.id
    &&& n.user == o.user
    &&& n.room_user_id == o.room_user_id
    &&& n.typed_text@ == o.typed_text@
    &&& n.mistakes == o.mistakes
    &&& n.last_is_mistake == o.last_is_mistake
    &&& n.progress == o.progress
    &&& n.status == o.status
    &&& !n.connected
    &&& n.keystrokes@ == o.keystrokes@
}

/// How a roster entry relates to the session it snapshots.
pub open spec fn stats_like(s: PlayerStats, p: Player) -> bool {
    &&& s.username == p.user.username
    &&& s.mistakes == p.mistakes
    &&& s.progress == p.progress
    &&& s.status == p.status
}

impl Player {
    /// A fresh idle session for `user`, not yet racing.
    pub fn new(id: u128, user: UserInfo, room_user_id: u128) -> (p: Player)
        ensures
            p.id == id,
            p.user == user,
            p.room_user_id == room_user_id,
            p.typed_text@ == Seq::<char>::empty(),
            p.mistakes == 0,
            !p.last_is_mistake,
            p.progress == 0,
            p.status == PlayerStatus::Idle,
            p.connected,
            p.keystrokes@ == Seq::<Keystroke>::empty(),
            forall|target: Seq<char>| player_wf(p, target),
    {
        let p = Player {
            id,
            user,
            room_user_id,
            typed_text: Vec::new(),
            mistakes: 0,
            last_is_mistake: false,
            progress: 0,
            status: PlayerStatus::Idle,
            connected: true,
            keystrokes: Vec::new(),
        };
        proof {
            assert forall|target: Seq<char>| player_wf(p, target) by {
                assert(p.typed_text@ == target.take(0));
            }
        }
        p
    }

    /// A roster snapshot of this session.
    pub fn make_stats(&self) -> (s: PlayerStats)
        ensures
            stats_like(s, *self),
    {
        PlayerStats {
            username: self.user.username.clone(),
            mistakes: self.mistakes,
            progress: self.progress,
            status: self.status,
        }
    }
}

} // verus!
