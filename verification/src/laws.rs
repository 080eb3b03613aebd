//! The guarantees the race engine gives across its operations, each proved
//! from what the operations themselves state.

use vstd::prelude::*;

use crate::keystroke::{key_advances, keystroke_transition};
use crate::metrics::accuracy_spec;
use crate::player::{Player, PlayerStatus};
use crate::registry::{keystroke_step, KeystrokeOutcome};
use crate::room::{room_wf, Room};
use crate::registry::unique_room_ids;

verus! {

/// A player's typed text never shrinks: one scored keystroke keeps or
/// grows it, so over any run of keystrokes its length is non-decreasing.
pub proof fn lemma_typed_text_monotone(
    o: Player,
    n: Player,
    target: Seq<char>,
    key: Seq<char>,
    now_ms: u64,
)
    requires
        keystroke_transition(o, n, target, key, now_ms),
    ensures
        n.typed_text@.len() >= o.typed_text@.len(),
{
}

/// Along any chain of scored keystrokes, the typed text's length is
/// non-decreasing from every earlier point to every later one.
pub proof fn lemma_typed_text_monotone_trace(
    trace: Seq<Player>,
    target: Seq<char>,
    keys: Seq<Seq<char>>,
    times: Seq<u64>,
    a: int,
    b: int,
)
    requires
        trace.len() == keys.len() + 1,
        keys.len() == times.len(),
        forall|k: int|
            0 <= k < keys.len() ==> keystroke_transition(
                trace[k],
                trace[k + 1],
                target,
                #[trigger] keys[k],
                times[k],
            ),
        0 <= a <= b < trace.len(),
    ensures
        trace[a].typed_text@.len() <= trace[b].typed_text@.len(),
    decreases b - a,
{
    if a < b {
        lemma_typed_text_monotone_trace(trace, target, keys, times, a, b - 1);
        assert(keystroke_transition(trace[b - 1], trace[b], target, keys[b - 1], times[b - 1]));
    }
}

/// How many keystrokes of a chain opened a new mistake streak — were wrong
/// while the previous key (if any) was right — among the first `k`.
pub open spec fn streak_openings(
    trace: Seq<Player>,
    target: Seq<char>,
    keys: Seq<Seq<char>>,
    k: int,
) -> int
    decreases k,
{
    if k <= 0 {
        0
    } else {
        streak_openings(trace, target, keys, k - 1) + if !key_advances(
            trace[k - 1].typed_text@,
            target,
            keys[k - 1],
        ) && !trace[k - 1].last_is_mistake {
            1int
        } else {
            0int
        }
    }
}

/// Over any chain of scored keystrokes, the mistake counter grows by
/// exactly the number of correct-to-incorrect transitions: sustained wrong
/// input at one position never adds a second increment.
pub proof fn lemma_mistakes_count_over_trace(
    trace: Seq<Player>,
    target: Seq<char>,
    keys: Seq<Seq<char>>,
    times: Seq<u64>,
    b: int,
)
    requires
        trace.len() == keys.len() + 1,
        keys.len() == times.len(),
        forall|k: int|
            0 <= k < keys.len() ==> keystroke_transition(
                trace[k],
                trace[k + 1],
                target,
                #[trigger] keys[k],
                times[k],
            ),
        0 <= b < trace.len(),
    ensures
        trace[b].mistakes == trace[0].mistakes + streak_openings(trace, target, keys, b),
    decreases b,
{
    if b > 0 {
        lemma_mistakes_count_over_trace(trace, target, keys, times, b - 1);
        assert(keystroke_transition(trace[b - 1], trace[b], target, keys[b - 1], times[b - 1]));
    }
}

/// The mistake counter moves exactly on a correct-to-incorrect transition:
/// one more on a wrong key that opens a streak, unchanged otherwise — in
/// particular, sustained wrong input at one position counts once, though it
/// may extend the latest keystroke log record.
pub proof fn lemma_mistakes_count_transitions(
    o: Player,
    n: Player,
    target: Seq<char>,
    key: Seq<char>,
    now_ms: u64,
)
    requires
        keystroke_transition(o, n, target, key, now_ms),
    ensures
        n.mistakes == o.mistakes + (if !key_advances(o.typed_text@, target, key)
            && !o.last_is_mistake {
            1int
        } else {
            0int
        }),
        !key_advances(o.typed_text@, target, key) && o.last_is_mistake ==> n.keystrokes@.len()
            == o.keystrokes@.len(),
{
}

/// A player stands `Finished` after a scored keystroke exactly when the
/// typed text equals the target text.
pub proof fn lemma_finished_iff_target_typed(
    o: Player,
    n: Player,
    target: Seq<char>,
    key: Seq<char>,
    now_ms: u64,
)
    requires
        keystroke_transition(o, n, target, key, now_ms),
    ensures
        n.status == PlayerStatus::Finished <==> n.typed_text@ == target,
{
}

/// `Finished` is an absorbing state: a well-formed session that finished
/// stays finished under any further scored keystroke — its typed text can
/// no longer change, so the completion predicate keeps holding.
pub proof fn lemma_finished_is_absorbing(
    o: Player,
    n: Player,
    target: Seq<char>,
    key: Seq<char>,
    now_ms: u64,
)
    requires
        keystroke_transition(o, n, target, key, now_ms),
        crate::player::player_wf(o, target),
        o.status == PlayerStatus::Finished,
    ensures
        n.status == PlayerStatus::Finished,
        n.typed_text@ == o.typed_text@,
{
    assert(o.typed_text@ == target);
    assert(!key_advances(o.typed_text@, target, key));
}

/// `Finished` is produced at most once per player: once a player's session
/// stands `Finished`, a further keystroke from that player changes nothing
/// and carries no finish effects — so no second `Finished` unicast, no
/// second result row.
pub proof fn lemma_no_second_finish(
    o: Seq<Room>,
    n: Seq<Room>,
    room_id: u128,
    user_id: u128,
    key: Seq<char>,
    now_ms: u64,
    result_id: u128,
    out: KeystrokeOutcome,
)
    requires
        unique_room_ids(o),
        forall|i: int| 0 <= i < o.len() ==> room_wf(#[trigger] o[i]),
        keystroke_step(o, n, room_id, user_id, key, now_ms, result_id, out),
        exists|i: int, j: int|
            {
                &&& 0 <= i < o.len()
                &&& (#[trigger] o[i]).id == room_id
                &&& 0 <= j < o[i].players@.len()
                &&& (#[trigger] o[i].players@[j]).id == user_id
                &&& o[i].players@[j].status == PlayerStatus::Finished
            },
    ensures
        out is AlreadyFinished,
        n == o,
{
    let (i0, j0) = choose|i: int, j: int|
        {
            &&& 0 <= i < o.len()
            &&& (#[trigger] o[i]).id == room_id
            &&& 0 <= j < o[i].players@.len()
            &&& (#[trigger] o[i].players@[j]).id == user_id
            &&& o[i].players@[j].status == PlayerStatus::Finished
        };
    match out {
        KeystrokeOutcome::RoomNotFound => {
            assert(false);
        },
        KeystrokeOutcome::PlayerNotFound => {
            let i1 = choose|i: int|
                0 <= i < o.len() && (#[trigger] o[i]).id == room_id && !crate::room::has_player(
                    o[i].players@,
                    user_id,
                );
            assert(i1 == i0);
            assert(false);
        },
        KeystrokeOutcome::AlreadyFinished => {
        },
        KeystrokeOutcome::Processed { update, finish } => {
            let (i1, r1, score) = choose|i: int, r1: Room, score: crate::room::KeystrokeScore|
                {
                    &&& 0 <= i < o.len()
                    &&& o[i].id == room_id
                    &&& #[trigger] crate::room::scored_key(o[i], r1, user_id, key, now_ms, score)
                };
            assert(i1 == i0);
            let j1 = choose|j: int|
                {
                    &&& 0 <= j < o[i1].players@.len()
                    &&& (#[trigger] o[i1].players@[j]).id == user_id
                    &&& o[i1].players@[j].status != PlayerStatus::Finished
                    &&& r1.players@ == o[i1].players@.update(j, r1.players@[j])
                    &&& keystroke_transition(
                        o[i1].players@[j],
                        r1.players@[j],
                        o[i1].text.content@,
                        key,
                        now_ms,
                    )
                };
            assert(j1 == j0);
            assert(false);
        },
    }
}

/// Removal happens exactly once: room ids are unique, so once a room is
/// removed from the registry no room under its id remains, and every later
/// operation on that id reports it absent and leaves the registry
/// unchanged.
pub proof fn lemma_removed_room_is_gone(o: Seq<Room>, i: int, room_id: u128)
    requires
        unique_room_ids(o),
        0 <= i < o.len(),
        o[i].id == room_id,
    ensures
        !crate::registry::has_room(o.remove(i), room_id),
{
    let r = o.remove(i);
    assert forall|k: int| 0 <= k < r.len() implies (#[trigger] r[k]).id != room_id by {
        if k < i {
            assert(r[k] == o[k]);
        } else {
            assert(r[k] == o[k + 1]);
        }
    }
}

/// A race typed with zero mistakes is fully accurate — in particular, a
/// finished race whose typed count equals the target length and whose
/// mistake counter never moved scores an accuracy of exactly 100.
pub proof fn lemma_perfect_race_full_accuracy(typed: int)
    requires
        typed >= 0,
    ensures
        accuracy_spec(typed, 0) == 100,
{
    crate::metrics::lemma_no_mistakes_full_accuracy(typed);
}

} // verus!
