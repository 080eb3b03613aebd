use typerace_core::custom_types::UserRoles;
use typerace_core::keystroke::process_keystroke;
use typerace_core::player::{Player, PlayerStatus, UserInfo};

fn chars(s: &str) -> Vec<char> {
    s.chars().collect()
}

fn new_player() -> Player {
    Player::new(
        7,
        UserInfo { username: "ada".to_owned(), created_at: 0, role: UserRoles::User },
        77,
    )
}

#[test]
fn correct_keys_advance_and_finish() {
    // target "cat": typing c, a, t gives progress 333, 666, 1000 and finishes
    let target = chars("cat");
    let mut p = new_player();

    process_keystroke(&mut p, &target, chars("c"), 10);
    assert_eq!(p.typed_text, chars("c"));
    assert_eq!(p.progress, 333);
    assert_eq!(p.mistakes, 0);
    assert_eq!(p.status, PlayerStatus::Idle);

    process_keystroke(&mut p, &target, chars("a"), 20);
    assert_eq!(p.typed_text, chars("ca"));
    assert_eq!(p.progress, 666);
    assert_eq!(p.status, PlayerStatus::Idle);

    process_keystroke(&mut p, &target, chars("t"), 30);
    assert_eq!(p.typed_text, chars("cat"));
    assert_eq!(p.progress, 1000);
    assert_eq!(p.mistakes, 0);
    assert_eq!(p.status, PlayerStatus::Finished);
    assert_eq!(p.keystrokes.len(), 3);
    assert!(!p.keystrokes[0].mistake);
}

#[test]
fn wrong_then_right_counts_one_mistake() {
    // target "cat": x (wrong) then c (correct) leaves exactly one mistake
    let target = chars("cat");
    let mut p = new_player();

    process_keystroke(&mut p, &target, chars("x"), 10);
    assert_eq!(p.mistakes, 1);
    assert!(p.last_is_mistake);
    assert_eq!(p.typed_text, chars(""));
    assert_eq!(p.progress, 0);

    process_keystroke(&mut p, &target, chars("c"), 20);
    assert_eq!(p.mistakes, 1);
    assert!(!p.last_is_mistake);
    assert_eq!(p.typed_text, chars("c"));
    assert_eq!(p.progress, 333);
    assert_eq!(p.status, PlayerStatus::Idle);
}

#[test]
fn mistake_streak_coalesces_into_one_record() {
    let target = chars("cat");
    let mut p = new_player();

    process_keystroke(&mut p, &target, chars("x"), 10);
    process_keystroke(&mut p, &target, chars("y"), 11);
    process_keystroke(&mut p, &target, chars("z"), 12);

    assert_eq!(p.mistakes, 1);
    assert_eq!(p.keystrokes.len(), 1);
    assert_eq!(p.keystrokes[0].key, chars("xyz"));
    assert!(p.keystrokes[0].mistake);
    assert_eq!(p.keystrokes[0].expected, Some('c'));
    assert_eq!(p.keystrokes[0].timestamp, 10);
}

#[test]
fn new_streak_after_correct_key_counts_again() {
    let target = chars("cat");
    let mut p = new_player();

    process_keystroke(&mut p, &target, chars("x"), 1);
    process_keystroke(&mut p, &target, chars("c"), 2);
    process_keystroke(&mut p, &target, chars("q"), 3);
    assert_eq!(p.mistakes, 2);
    assert_eq!(p.keystrokes.len(), 3);
    assert_eq!(p.keystrokes[2].expected, Some('a'));
}

#[test]
fn keys_past_target_end_are_mistakes_without_expected() {
    let target = chars("a");
    let mut p = new_player();

    process_keystroke(&mut p, &target, chars("a"), 1);
    assert_eq!(p.status, PlayerStatus::Finished);

    process_keystroke(&mut p, &target, chars("b"), 2);
    assert_eq!(p.mistakes, 1);
    assert_eq!(p.keystrokes.len(), 2);
    assert!(p.keystrokes[1].mistake);
    assert_eq!(p.keystrokes[1].expected, None);
    assert_eq!(p.typed_text, chars("a"));
}

#[test]
fn multi_char_key_never_advances() {
    let target = chars("cat");
    let mut p = new_player();

    process_keystroke(&mut p, &target, chars("ca"), 1);
    assert_eq!(p.typed_text, chars(""));
    assert_eq!(p.mistakes, 1);
}
