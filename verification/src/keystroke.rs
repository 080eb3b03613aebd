//! The keystroke processor: pure per-keystroke scoring.
//!
//! Each incoming key either advances the typed prefix, opens a new mistake
//! streak, or extends the current streak. The mistake counter moves only on
//! a correct-to-incorrect transition; sustained wrong input merely grows the
//! latest log record. Progress is recomputed after every key, and the
//! session turns `Finished` exactly when the typed text equals the target.

use vstd::prelude::*;

use crate::chars::{chars_equal, extend_chars};
use crate::metrics::{progress_permille, progress_permille_spec};
use crate::player::{log_model, KeystrokeModel, Keystroke, Player, PlayerStatus, player_wf};

verus! {

/// Whether `key` is exactly the character the target expects next.
pub open spec fn key_advances(typed: Seq<char>, target: Seq<char>, key: Seq<char>) -> bool {
    &&& typed.len() < target.len()
    &&& key.len() == 1
    &&& key[0] == target[typed.len() as int]
}

/// The character the target expects at the current position, if any.
pub open spec fn expected_at(typed: Seq<char>, target: Seq<char>) -> Option<char> {
    if typed.len() < target.len() {
        Some(target[typed.len() as int])
    } else {
        None
    }
}

/// How one scored keystroke turns session `o` into session `n`.
///
/// A correct key appends to the typed prefix and closes any mistake streak;
/// a wrong key after a correct one counts one mistake and opens a streak,
/// recording the expected character (or none past the end of the target);
/// a wrong key inside a streak only extends the latest log record. Identity
/// and connection state never change, the typed text never shrinks, progress
/// always reflects the new position, and the session is `Finished` afterward
/// exactly when the typed text equals the target.
pub open spec fn keystroke_transition(
    o: Player,
    n: Player,
    target: Seq<char>,
    key: Seq<char>,
    now_ms: u64,
) -> bool {
    &&& n.id == o.id
    &&& n.user == o.user
    &&& n.room_user_id == o.room_user_id
    &&& n.connected == o.connected
    &&& n.typed_text@.len() >= o.typed_text@.len()
    &&& (key_advances(o.typed_text@, target, key) ==> {
        &&& n.typed_text@ == o.typed_text@.push(key[0])
        &&& !n.last_is_mistake
        &&& n.mistakes == o.mistakes
        &&& log_model(n.keystrokes@) == log_model(o.keystrokes@).push(
            (KeystrokeModel { key: key, mistake: false, expected: None, timestamp: now_ms }),
        )
    })
    &&& (!key_advances(o.typed_text@, target, key) && !o.last_is_mistake ==> {
        &&& n.typed_text@ == o.typed_text@
        &&& n.last_is_mistake
        &&& n.mistakes == o.mistakes + 1
        &&& log_model(n.keystrokes@) == log_model(o.keystrokes@).push(
            (KeystrokeModel {
                key: key,
                mistake: true,
                expected: expected_at(o.typed_text@, target),
                timestamp: now_ms,
            }),
        )
    })
    &&& (!key_advances(o.typed_text@, target, key) && o.last_is_mistake ==> {
        &&& n.typed_text@ == o.typed_text@
        &&& n.last_is_mistake
        &&& n.mistakes == o.mistakes
        &&& n.keystrokes@.len() == o.keystrokes@.len()
        &&& {
            let last = o.keystrokes@.len() - 1;
            log_model(n.keystrokes@) == log_model(o.keystrokes@).update(
                last,
                (KeystrokeModel {
                    key: o.keystrokes@[last]@.key + key,
                    mistake: o.keystrokes@[last]@.mistake,
                    expected: o.keystrokes@[last]@.expected,
                    timestamp: o.keystrokes@[last]@.timestamp,
                }),
            )
        }
    })
    &&& n.progress == progress_permille_spec(n.typed_text@.len() as int, target.len() as int)
    &&& (n.status == PlayerStatus::Finished <==> n.typed_text@ == target)
    &&& (n.status != PlayerStatus::Finished ==> n.status == o.status)
}

/// Scores one keystroke against `target`, updating the session in place
/// exactly as [`keystroke_transition`] describes.
pub fn process_keystroke(p: &mut Player, target: &Vec<char>, key: Vec<char>, now_ms: u64)
    requires
        player_wf(*old(p), target@),
    ensures
        player_wf(*final(p), target@),
        keystroke_transition(*old(p), *final(p), target@, key@, now_ms),
{
    let typed_len = p.typed_text.len();
    let advances = typed_len < target.len() && key.len() == 1 && key[0] == target[typed_len];
    if advances {
        p.typed_text.push(key[0]);
        p.last_is_mistake = false;
        p.keystrokes.push(Keystroke { key, mistake: false, expected: None, timestamp: now_ms });
        proof {
            assert(log_model(p.keystrokes@) =~= log_model(old(p).keystrokes@).push(
                (KeystrokeModel {
                    key: p.keystrokes@.last()@.key,
                    mistake: false,
                    expected: None,
                    timestamp: now_ms,
                }),
            ));
            assert(p.typed_text@ =~= target@.take(p.typed_text@.len() as int));
        }
    } else if !p.last_is_mistake {
        let expected = if typed_len < target.len() {
            Some(target[typed_len])
        } else {
            None
        };
        p.keystrokes.push(Keystroke { key, mistake: true, expected, timestamp: now_ms });
        p.last_is_mistake = true;
        let log_len = p.keystrokes.len();
        proof {
            assert(p.mistakes < log_len as u64);
        }
        p.mistakes = p.mistakes + 1;
        proof {
            assert(log_model(p.keystrokes@) =~= log_model(old(p).keystrokes@).push(
                p.keystrokes@.last()@,
            ));
        }
    } else {
        let last = p.keystrokes.len() - 1;
        let entry = &mut p.keystrokes[last];
        extend_chars(&mut entry.key, &key);
        proof {
            assert(log_model(p.keystrokes@) =~= log_model(old(p).keystrokes@).update(
                last as int,
                p.keystrokes@[last as int]@,
            ));
        }
    }
    let typed_count = p.typed_text.len();
    p.progress = progress_permille(typed_count, target.len());
    if chars_equal(&p.typed_text, target) {
        p.status = PlayerStatus::Finished;
    }
}

} // verus!
