use typerace_core::custom_types::{Leagues, UserRoles};
use typerace_core::error::MyError;
use typerace_core::messages::WsMessage;
use typerace_core::player::PlayerStatus;
use typerace_core::registry::{
    KeystrokeOutcome, LeaveOutcome, MessageOutcome, PollOutcome, RoomsManager,
};
use typerace_core::texts::{Dictionary, Text};
use typerace_core::users::User;
use typerace_core::COUNTDOWN_DELAY_MS;

fn chars(s: &str) -> Vec<char> {
    s.chars().collect()
}

fn sample_text(content: &str) -> Text {
    Text {
        id: 1,
        dictionary_id: 2,
        title: "sample".to_owned(),
        content: chars(content),
        created_at: 0,
        author_id: 3,
    }
}

fn sample_dictionary() -> Dictionary {
    Dictionary { id: 2, name: "english".to_owned(), user_id: 3, created_at: 0 }
}

fn sample_user(id: u128, name: &str) -> User {
    User {
        id,
        username: name.to_owned(),
        email: format!("{}@example.com", name),
        password_hash: "hashed-password".to_owned(),
        created_at: 0,
        role: UserRoles::User,
    }
}

fn race_room(m: &mut RoomsManager, room_id: u128, content: &str) {
    m.create_room_at(room_id, sample_text(content), sample_dictionary(), 0).unwrap();
}

#[test]
fn create_room_registers_and_persists_record() {
    let mut m = RoomsManager::new();
    let rec = m.create_room_at(42, sample_text("cat"), sample_dictionary(), 5).unwrap();
    assert_eq!(rec.id, 42);
    assert_eq!(rec.text_id, 1);
    assert_eq!(rec.created_at, 5);
    assert_eq!(m.rooms.len(), 1);
    assert!(!m.rooms[0].started);

    // a second room under the same id is refused
    let err = m.create_room_at(42, sample_text("dog"), sample_dictionary(), 6);
    assert_eq!(err.unwrap_err(), MyError::InternalError);
    assert_eq!(m.rooms.len(), 1);
}

#[test]
fn create_room_with_random_id() {
    let mut m = RoomsManager::new();
    let (id, rec) = m.create_room(sample_text("cat"), sample_dictionary()).unwrap();
    assert_eq!(rec.id, id);
    assert_eq!(m.rooms.len(), 1);
    assert_eq!(m.rooms[0].id, id);
}

#[test]
fn join_absent_room_is_not_found() {
    let mut m = RoomsManager::new();
    let err = m.join_room_at(9, sample_user(1, "ada"), 100, 0);
    assert_eq!(err.unwrap_err(), MyError::NotFound);
}

#[test]
fn join_inserts_idle_session_and_broadcasts_roster() {
    let mut m = RoomsManager::new();
    race_room(&mut m, 9, "cat");
    let eff = m.join_room_at(9, sample_user(1, "ada"), 100, 50).unwrap();
    assert_eq!(eff.membership.id, 100);
    assert_eq!(eff.membership.room_id, 9);
    assert_eq!(eff.membership.user_id, 1);
    assert_eq!(eff.membership.joined_at, 50);
    assert_eq!(eff.membership.league, Leagues::Web);
    assert_eq!(eff.roster.len(), 1);
    assert_eq!(eff.roster[0].username, "ada");
    assert_eq!(eff.roster[0].status, PlayerStatus::Idle);
    assert_eq!(eff.recipients, vec![1u128]);

    let p = &m.rooms[0].players[0];
    assert_eq!(p.id, 1);
    assert!(p.connected);
    assert_eq!(p.typed_text, chars(""));
    assert_eq!(p.mistakes, 0);
}

#[test]
fn countdown_start_and_signal_flip() {
    let mut m = RoomsManager::new();
    race_room(&mut m, 9, "cat");
    m.join_room_at(9, sample_user(1, "ada"), 100, 0).unwrap();

    let eff = m.begin_countdown(9, 1_000).unwrap();
    assert_eq!(eff.start_time, 1_000 + COUNTDOWN_DELAY_MS);
    assert_eq!(eff.text, chars("cat"));
    assert_eq!(eff.recipients, vec![1u128]);
    assert!(!m.rooms[0].started);
    assert_eq!(m.rooms[0].start_time, 11_000);

    // an already started room is rejected by the caller's check
    let done = m.complete_start(9, 11_000).unwrap();
    assert!(done.flipped);
    assert_eq!(done.started_at, 11_000);
    assert!(m.rooms[0].started);
    assert_eq!(m.begin_countdown(9, 20_000).unwrap_err(), MyError::NotFound);

    // completing twice does not flip twice
    let again = m.complete_start(9, 12_000).unwrap();
    assert!(!again.flipped);
}

#[test]
fn countdown_tolerates_room_deleted_midway() {
    // a player disconnecting before start_time deletes the room;
    // the coordinator then simply exits
    let mut m = RoomsManager::new();
    race_room(&mut m, 9, "cat");
    m.join_room_at(9, sample_user(1, "ada"), 100, 0).unwrap();
    m.begin_countdown(9, 1_000).unwrap();
    match m.leave_room(9, 1) {
        LeaveOutcome::Left { removed_room, .. } => assert!(removed_room),
        _ => panic!("expected a departure"),
    }
    assert!(m.complete_start(9, 11_000).is_none());
    assert!(m.rooms.is_empty());
}

#[test]
fn countdown_still_flips_for_remaining_players() {
    // one of two players disconnects before start_time: the signal still
    // flips on schedule, and the leaver's session is frozen at its last
    // values
    let mut m = RoomsManager::new();
    race_room(&mut m, 9, "cat");
    m.join_room_at(9, sample_user(1, "ada"), 100, 0).unwrap();
    m.join_room_at(9, sample_user(2, "bob"), 200, 0).unwrap();
    m.begin_countdown(9, 1_000).unwrap();

    match m.leave_room(9, 2) {
        LeaveOutcome::Left { removed_room, recipients } => {
            assert!(!removed_room);
            assert_eq!(recipients, vec![1u128]);
        },
        _ => panic!("expected a departure"),
    }

    let done = m.complete_start(9, 11_000).unwrap();
    assert!(done.flipped);
    assert!(m.rooms[0].started);

    let frozen = &m.rooms[0].players[1];
    assert_eq!(frozen.id, 2);
    assert!(!frozen.connected);
    assert_eq!(frozen.status, PlayerStatus::Idle);
    assert_eq!(frozen.typed_text, chars(""));
    assert_eq!(frozen.mistakes, 0);
}

#[test]
fn leave_marks_disconnected_and_last_leave_removes_room() {
    let mut m = RoomsManager::new();
    race_room(&mut m, 9, "cat");
    m.join_room_at(9, sample_user(1, "ada"), 100, 0).unwrap();
    m.join_room_at(9, sample_user(2, "bob"), 200, 0).unwrap();

    match m.leave_room(9, 1) {
        LeaveOutcome::Left { removed_room, recipients } => {
            assert!(!removed_room);
            assert_eq!(recipients, vec![2u128]);
        },
        _ => panic!("expected a departure"),
    }
    assert_eq!(m.rooms[0].players[0].connected, false);

    match m.leave_room(9, 2) {
        LeaveOutcome::Left { removed_room, recipients } => {
            assert!(removed_room);
            assert!(recipients.is_empty());
        },
        _ => panic!("expected a departure"),
    }
    assert!(m.rooms.is_empty());

    // the room is gone: further departures are no-ops
    assert!(matches!(m.leave_room(9, 1), LeaveOutcome::RoomNotFound));
}

#[test]
fn leave_unknown_player_is_noop() {
    let mut m = RoomsManager::new();
    race_room(&mut m, 9, "cat");
    m.join_room_at(9, sample_user(1, "ada"), 100, 0).unwrap();
    assert!(matches!(m.leave_room(9, 55), LeaveOutcome::PlayerNotFound));
    assert_eq!(m.rooms.len(), 1);
}

#[test]
fn keystrokes_score_progress_and_update_message() {
    let mut m = RoomsManager::new();
    race_room(&mut m, 9, "cat");
    m.join_room_at(9, sample_user(1, "ada"), 100, 0).unwrap();

    // typing "c" one minute in: progress 333, one word, 1 wpm
    match m.handle_keystroke_at(9, 1, chars("c"), 60_000, 500) {
        KeystrokeOutcome::Processed { update, finish } => {
            match update {
                WsMessage::Update { progress, mistakes, speed_wpm } => {
                    assert_eq!(progress, 333);
                    assert_eq!(mistakes, 0);
                    assert_eq!(speed_wpm, 1);
                },
                _ => panic!("expected an Update"),
            }
            assert!(finish.is_none());
        },
        _ => panic!("expected a processed keystroke"),
    }
    assert_eq!(m.rooms[0].players[0].typed_text, chars("c"));
}

#[test]
fn wrong_key_then_right_key_updates_once() {
    let mut m = RoomsManager::new();
    race_room(&mut m, 9, "cat");
    m.join_room_at(9, sample_user(1, "ada"), 100, 0).unwrap();

    match m.handle_keystroke_at(9, 1, chars("x"), 1_000, 500) {
        KeystrokeOutcome::Processed { update, .. } => match update {
            WsMessage::Update { progress, mistakes, .. } => {
                assert_eq!(progress, 0);
                assert_eq!(mistakes, 1);
            },
            _ => panic!("expected an Update"),
        },
        _ => panic!("expected a processed keystroke"),
    }
    match m.handle_keystroke_at(9, 1, chars("c"), 2_000, 501) {
        KeystrokeOutcome::Processed { update, .. } => match update {
            WsMessage::Update { progress, mistakes, .. } => {
                assert_eq!(progress, 333);
                assert_eq!(mistakes, 1);
            },
            _ => panic!("expected an Update"),
        },
        _ => panic!("expected a processed keystroke"),
    }
    assert_eq!(m.rooms[0].players[0].typed_text, chars("c"));
    assert_eq!(m.rooms[0].players[0].mistakes, 1);
}

#[test]
fn finishing_alone_closes_room_and_persists_once() {
    let mut m = RoomsManager::new();
    race_room(&mut m, 9, "cat");
    m.join_room_at(9, sample_user(1, "ada"), 100, 0).unwrap();

    m.handle_keystroke_at(9, 1, chars("c"), 10_000, 500);
    m.handle_keystroke_at(9, 1, chars("a"), 20_000, 501);
    match m.handle_keystroke_at(9, 1, chars("t"), 60_000, 502) {
        KeystrokeOutcome::Processed { finish, .. } => {
            let f = finish.expect("the race is complete");
            match f.finished_msg {
                WsMessage::Finished { total_time_ms, mistakes, accuracy, speed_wpm } => {
                    assert_eq!(total_time_ms, 60_000);
                    assert_eq!(mistakes, 0);
                    assert_eq!(accuracy, 100);
                    assert_eq!(speed_wpm, 1);
                },
                _ => panic!("expected a Finished message"),
            }
            assert_eq!(f.result.id, 502);
            assert_eq!(f.result.room_user_id, 100);
            assert_eq!(f.result.start_time, 0);
            assert_eq!(f.result.end_time, 60_000);
            assert_eq!(f.result.mistakes, 0);
            assert_eq!(f.result.stats.keystrokes.len(), 3);
            assert_eq!(f.membership_id, 100);
            assert_eq!(f.left_at, 60_000);
            let close = f.close.expect("everyone has finished");
            assert_eq!(close.ended_at, 60_000);
            assert_eq!(close.recipients, vec![1u128]);
        },
        _ => panic!("expected a processed keystroke"),
    }
    assert!(m.rooms.is_empty());
}

#[test]
fn two_players_room_closes_when_both_finish() {
    let mut m = RoomsManager::new();
    race_room(&mut m, 9, "ab");
    m.join_room_at(9, sample_user(1, "ada"), 100, 0).unwrap();
    m.join_room_at(9, sample_user(2, "bob"), 200, 0).unwrap();

    m.handle_keystroke_at(9, 1, chars("a"), 1_000, 500);
    match m.handle_keystroke_at(9, 1, chars("b"), 2_000, 501) {
        KeystrokeOutcome::Processed { finish, .. } => {
            let f = finish.expect("ada finished");
            assert!(f.close.is_none(), "bob is still racing");
        },
        _ => panic!("expected a processed keystroke"),
    }
    assert_eq!(m.rooms.len(), 1);

    m.handle_keystroke_at(9, 2, chars("a"), 3_000, 502);
    match m.handle_keystroke_at(9, 2, chars("b"), 4_000, 503) {
        KeystrokeOutcome::Processed { finish, .. } => {
            let f = finish.expect("bob finished");
            let close = f.close.expect("both finished: the room closes");
            assert_eq!(close.ended_at, 4_000);
            assert_eq!(close.recipients, vec![1u128, 2u128]);
        },
        _ => panic!("expected a processed keystroke"),
    }
    assert!(m.rooms.is_empty());

    // ended_at was reported exactly once: the room is gone, so a second
    // close finds nothing and later departures are no-ops
    assert!(m.close_room(9, 5_000).is_none());
    assert!(matches!(m.leave_room(9, 1), LeaveOutcome::RoomNotFound));
}

#[test]
fn finished_player_input_is_ignored() {
    let mut m = RoomsManager::new();
    race_room(&mut m, 9, "ab");
    m.join_room_at(9, sample_user(1, "ada"), 100, 0).unwrap();
    m.join_room_at(9, sample_user(2, "bob"), 200, 0).unwrap();

    m.handle_keystroke_at(9, 1, chars("a"), 1_000, 500);
    m.handle_keystroke_at(9, 1, chars("b"), 2_000, 501);

    // ada finished; her further keystrokes produce nothing
    assert!(matches!(
        m.handle_keystroke_at(9, 1, chars("x"), 3_000, 502),
        KeystrokeOutcome::AlreadyFinished
    ));
    assert_eq!(m.rooms[0].players[0].mistakes, 0);
    assert_eq!(m.rooms[0].players[0].typed_text, chars("ab"));
}

#[test]
fn keystroke_in_absent_room_or_for_unknown_player() {
    let mut m = RoomsManager::new();
    assert!(matches!(
        m.handle_keystroke_at(9, 1, chars("a"), 0, 500),
        KeystrokeOutcome::RoomNotFound
    ));
    race_room(&mut m, 9, "ab");
    assert!(matches!(
        m.handle_keystroke_at(9, 1, chars("a"), 0, 500),
        KeystrokeOutcome::PlayerNotFound
    ));
}

#[test]
fn unexpected_message_earns_error_unicast() {
    let mut m = RoomsManager::new();
    race_room(&mut m, 9, "ab");
    m.join_room_at(9, sample_user(1, "ada"), 100, 0).unwrap();

    match m.handle_message(9, 1, WsMessage::UserLeft { user_id: 5 }) {
        MessageOutcome::Unexpected(Some(WsMessage::Error { message })) => {
            assert_eq!(message, "Unexpected message type");
        },
        _ => panic!("expected an Error unicast"),
    }

    // nobody to answer once the session is gone
    match m.handle_message(9, 55, WsMessage::UserLeft { user_id: 5 }) {
        MessageOutcome::Unexpected(None) => {},
        _ => panic!("expected no unicast"),
    }
}

#[test]
fn keystroke_message_routes_to_processor() {
    let mut m = RoomsManager::new();
    race_room(&mut m, 9, "ab");
    m.join_room_at(9, sample_user(1, "ada"), 100, 0).unwrap();

    match m.handle_message(9, 1, WsMessage::Keystroke { key: chars("a"), timestamp: 123 }) {
        MessageOutcome::Key(KeystrokeOutcome::Processed { .. }) => {},
        _ => panic!("expected the keystroke path"),
    }
    assert_eq!(m.rooms[0].players[0].typed_text, chars("a"));
}

#[test]
fn malformed_input_earns_error_unicast() {
    let mut m = RoomsManager::new();
    race_room(&mut m, 9, "ab");
    m.join_room_at(9, sample_user(1, "ada"), 100, 0).unwrap();

    match m.handle_error(9, 1) {
        Some(WsMessage::Error { message }) => assert_eq!(message, "Invalid JSON format"),
        _ => panic!("expected an Error unicast"),
    }
    assert!(m.handle_error(9, 55).is_none());
    assert!(m.handle_error(77, 1).is_none());
}

#[test]
fn poller_stops_when_room_is_gone() {
    let mut m = RoomsManager::new();
    race_room(&mut m, 9, "ab");
    m.join_room_at(9, sample_user(1, "ada"), 100, 0).unwrap();

    assert!(matches!(m.poll_roster(9), PollOutcome::NotStarted));

    m.begin_countdown(9, 0).unwrap();
    m.complete_start(9, COUNTDOWN_DELAY_MS).unwrap();
    match m.poll_roster(9) {
        PollOutcome::Broadcast { roster, recipients } => {
            assert_eq!(roster.len(), 1);
            assert_eq!(roster[0].username, "ada");
            assert_eq!(recipients, vec![1u128]);
        },
        _ => panic!("expected a roster broadcast"),
    }

    m.leave_room(9, 1);
    assert!(matches!(m.poll_roster(9), PollOutcome::RoomGone));
}

#[test]
fn lobby_stats_reflect_rooms() {
    let mut m = RoomsManager::new();
    race_room(&mut m, 9, "ab");
    m.create_room_at(10, sample_text("cd"), sample_dictionary(), 1).unwrap();
    m.join_room_at(9, sample_user(1, "ada"), 100, 0).unwrap();

    let stats = m.get_stats();
    assert_eq!(stats.len(), 2);
    assert_eq!(stats[0].room_id, 9);
    assert_eq!(stats[0].players, 1);
    assert!(!stats[0].started);
    assert_eq!(stats[0].dictionary.name, "english");
    assert_eq!(stats[1].room_id, 10);
    assert_eq!(stats[1].players, 0);

    assert_eq!(m.room_started(9), Some(false));
    assert_eq!(m.room_started(404), None);
}

#[test]
fn rejoining_replaces_the_session() {
    let mut m = RoomsManager::new();
    race_room(&mut m, 9, "cat");
    m.join_room_at(9, sample_user(1, "ada"), 100, 0).unwrap();
    m.handle_keystroke_at(9, 1, chars("c"), 1_000, 500);
    assert_eq!(m.rooms[0].players[0].typed_text, chars("c"));

    let eff = m.join_room_at(9, sample_user(1, "ada"), 101, 2_000).unwrap();
    assert_eq!(eff.roster.len(), 1);
    assert_eq!(m.rooms[0].players.len(), 1);
    assert_eq!(m.rooms[0].players[0].typed_text, chars(""));
    assert_eq!(m.rooms[0].players[0].room_user_id, 101);
}

#[test]
fn join_with_random_ids_runs() {
    let mut m = RoomsManager::new();
    let (id, _rec) = m.create_room(sample_text("hi"), sample_dictionary()).unwrap();
    let eff = m.join_room(id, sample_user(1, "ada")).unwrap();
    assert_eq!(eff.membership.room_id, id);
    let eff2 = m.start_countdown(id).unwrap();
    assert_eq!(eff2.text, chars("hi"));
    assert!(m.finish_countdown(id).unwrap().flipped);
}

#[test]
fn get_room_finds_live_rooms_only() {
    let mut m = RoomsManager::new();
    race_room(&mut m, 9, "cat");
    let room = m.get_room(9).expect("the room is live");
    assert_eq!(room.id, 9);
    assert_eq!(room.text.content, chars("cat"));
    assert!(m.get_room(10).is_none());
}
