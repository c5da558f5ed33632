use pool_server::balls::{fresh_rack, Ball, Group};
use pool_server::error::{ErrorKind, PoolError};
use pool_server::game::Legality;
use pool_server::room::{ServerPlayer, ServerRoom, DEFAULT_PLAYER_NAME, DEFAULT_ROOM_NAME};
use pool_server::win::{Outcome, WinState};

fn room_rack_without(off: &[u8]) -> Vec<Ball> {
    (0u8..16).map(|id| Ball { id, in_play: !off.contains(&id) }).collect()
}

fn room_with_two_seats() -> ServerRoom {
    let mut room = ServerRoom::new("AB12CD".to_string());
    room.join_with_token("token-zero".to_string()).unwrap();
    room.join_with_token("token-one".to_string()).unwrap();
    room
}

#[test]
fn default_names() {
    assert_eq!(DEFAULT_PLAYER_NAME, "Guest");
    assert_eq!(DEFAULT_ROOM_NAME, "Game Panda Pool");
}

#[test]
fn new_room_is_empty_and_not_started() {
    let room = ServerRoom::new("AB12CD".to_string());
    assert_eq!(room.room_code(), "AB12CD");
    assert_eq!(room.seat_count(), 0);
    assert!(!room.game_started());
    let shown = room.get_room();
    assert_eq!(shown.room_code, "AB12CD");
    assert_eq!(shown.room_name, "Game Panda Pool");
    assert!(!shown.game_started);
    assert!(shown.players.is_empty());
    assert_eq!(room.get_game_state().err(), Some(PoolError::NotStarted));
    assert_eq!(room.check_win_state(), Err(PoolError::NotStarted));
    assert_eq!(room.get_previous_turn().err(), Some(PoolError::NoPreviousTurn));
}

#[test]
fn player_with_token_is_a_guest() {
    let player = ServerPlayer::with_token(1, "secret".to_string());
    assert_eq!(player.token, "secret");
    assert_eq!(player.player.name, "Guest");
    assert_eq!(player.player.player_id, 1);
    let copy = player.duplicate();
    assert_eq!(copy.token, "secret");
    assert_eq!(copy.player.name, "Guest");
    assert_eq!(copy.player.player_id, 1);
}

#[test]
fn new_player_has_a_fresh_token_of_ten_letters_and_digits() {
    let player = ServerPlayer::new(1);
    assert_eq!(player.token.len(), 10);
    assert!(player.token.chars().all(|c| c.is_ascii_alphanumeric()));
    assert_eq!(player.player.name, "Guest");
    assert_eq!(player.player.player_id, 1);
    assert_ne!(ServerPlayer::new(1).token, player.token);
}

#[test]
fn seats_fill_in_order_and_third_join_is_refused() {
    let mut room = ServerRoom::new("AB12CD".to_string());
    assert_eq!(room.join_with_token("a".to_string()), Ok(()));
    assert_eq!(room.seat_count(), 1);
    assert_eq!(room.join_with_token("b".to_string()), Ok(()));
    assert_eq!(room.seat_count(), 2);
    assert_eq!(room.join_with_token("c".to_string()), Err(PoolError::RoomFull));
    assert_eq!(room.seat_count(), 2);
    let shown = room.get_room();
    assert_eq!(shown.players.len(), 2);
    assert_eq!(shown.players[0].player_id, 0);
    assert_eq!(shown.players[1].player_id, 1);
    assert_eq!(shown.players[0].name, "Guest");
    assert_eq!(shown.players[1].name, "Guest");
    assert_eq!(room.authorize(0, "a"), Ok(0));
    assert_eq!(room.authorize(1, "b"), Ok(1));
    assert_eq!(room.authorize(1, "c"), Err(PoolError::TokenMismatch));
}

#[test]
fn join_with_fresh_token_returns_the_stored_token() {
    let mut room = ServerRoom::new("AB12CD".to_string());
    let t0 = room.join().unwrap();
    let t1 = room.join().unwrap();
    assert_eq!(t0.len(), 10);
    assert_eq!(t1.len(), 10);
    assert_eq!(room.authorize(0, &t0), Ok(0));
    assert_eq!(room.authorize(1, &t1), Ok(1));
    assert_eq!(room.join().err(), Some(PoolError::RoomFull));
    assert_eq!(room.seat_count(), 2);
}

#[test]
fn authorization_checks_index_then_seat_then_token() {
    let mut room = ServerRoom::new("AB12CD".to_string());
    room.join_with_token("token-zero".to_string()).unwrap();
    assert_eq!(room.authorize(2, "token-zero"), Err(PoolError::BadSeatIndex));
    assert_eq!(room.authorize(-1, "token-zero"), Err(PoolError::BadSeatIndex));
    assert_eq!(room.authorize(i32::MAX, "token-zero"), Err(PoolError::BadSeatIndex));
    assert_eq!(room.authorize(i32::MIN, "token-zero"), Err(PoolError::BadSeatIndex));
    assert_eq!(room.authorize(1, "token-zero"), Err(PoolError::SeatNotFound));
    assert_eq!(room.authorize(0, "token-one"), Err(PoolError::TokenMismatch));
    assert_eq!(room.authorize(0, ""), Err(PoolError::TokenMismatch));
    assert_eq!(room.authorize(0, "token-zer"), Err(PoolError::TokenMismatch));
    assert_eq!(room.authorize(0, "token-zero!"), Err(PoolError::TokenMismatch));
    assert_eq!(room.authorize(0, "token-zero"), Ok(0));
}

#[test]
fn set_player_info_succeeds_only_with_the_seats_token() {
    let mut room = room_with_two_seats();
    assert_eq!(
        room.set_player_info(0, "token-one", "Mallory".to_string()),
        Err(PoolError::TokenMismatch)
    );
    assert_eq!(room.get_room().players[0].name, "Guest");
    assert_eq!(room.set_player_info(0, "token-zero", "Alice".to_string()), Ok(()));
    assert_eq!(room.set_player_info(1, "token-one", "Bob".to_string()), Ok(()));
    let shown = room.get_room();
    assert_eq!(shown.players[0].name, "Alice");
    assert_eq!(shown.players[1].name, "Bob");
    assert_eq!(shown.players[0].player_id, 0);
    assert_eq!(shown.players[1].player_id, 1);
    assert_eq!(room.authorize(0, "token-zero"), Ok(0));
    assert_eq!(room.authorize(1, "token-one"), Ok(1));
}

#[test]
fn set_player_info_does_not_depend_on_the_phase() {
    let mut room = room_with_two_seats();
    room.start_game(0, "token-zero").unwrap();
    assert_eq!(room.set_player_info(1, "token-one", "Bob".to_string()), Ok(()));
    assert_eq!(
        room.set_player_info(1, "token-zero", "Eve".to_string()),
        Err(PoolError::TokenMismatch)
    );
    room.post_turn(0, "token-zero", room_rack_without(&[8])).unwrap();
    assert_eq!(room.set_player_info(0, "token-zero", "Alice".to_string()), Ok(()));
    assert_eq!(
        room.set_player_info(0, "nope", "Eve".to_string()),
        Err(PoolError::TokenMismatch)
    );
    let shown = room.get_room();
    assert_eq!(shown.players[0].name, "Alice");
    assert_eq!(shown.players[1].name, "Bob");
    assert!(shown.game_started);
}

#[test]
fn set_player_info_rejects_bad_and_vacant_seats() {
    let mut room = ServerRoom::new("AB12CD".to_string());
    room.join_with_token("token-zero".to_string()).unwrap();
    assert_eq!(
        room.set_player_info(2, "token-zero", "x".to_string()),
        Err(PoolError::BadSeatIndex)
    );
    assert_eq!(
        room.set_player_info(-3, "token-zero", "x".to_string()),
        Err(PoolError::BadSeatIndex)
    );
    assert_eq!(
        room.set_player_info(1, "token-zero", "x".to_string()),
        Err(PoolError::SeatNotFound)
    );
    assert_eq!(room.get_room().players[0].name, "Guest");
}

#[test]
fn start_game_once_by_an_authorized_seat() {
    let mut room = room_with_two_seats();
    assert_eq!(room.start_game(0, "token-one"), Err(PoolError::TokenMismatch));
    assert_eq!(room.start_game(5, "token-one"), Err(PoolError::BadSeatIndex));
    assert!(!room.game_started());
    assert_eq!(room.start_game(1, "token-one"), Ok(()));
    assert!(room.game_started());
    assert!(room.get_room().game_started);
    let gs = room.get_game_state().unwrap();
    assert_eq!(gs.turn_owner(), 0);
    assert_eq!(gs.group_of_seat0(), Group::Undetermined);
    assert_eq!(gs.scores(), (0, 0));
    assert!(gs.balls().iter().all(|b| b.in_play));
    assert_eq!(room.start_game(0, "token-zero"), Err(PoolError::AlreadyStarted));
    assert_eq!(room.start_game(1, "token-one"), Err(PoolError::AlreadyStarted));
    assert_eq!(room.start_game(0, "wrong"), Err(PoolError::TokenMismatch));
}

#[test]
fn start_game_with_one_seat_taken() {
    let mut room = ServerRoom::new("AB12CD".to_string());
    room.join_with_token("token-zero".to_string()).unwrap();
    assert_eq!(room.start_game(1, "token-zero"), Err(PoolError::SeatNotFound));
    assert_eq!(room.start_game(0, "token-zero"), Ok(()));
    assert_eq!(room.post_turn(1, "anything", fresh_rack()), Err(PoolError::SeatNotFound));
}

#[test]
fn reads_are_unavailable_before_their_event() {
    let mut room = room_with_two_seats();
    assert_eq!(room.get_game_state().err(), Some(PoolError::NotStarted));
    assert_eq!(room.check_win_state(), Err(PoolError::NotStarted));
    assert_eq!(room.get_previous_turn().err(), Some(PoolError::NoPreviousTurn));
    assert_eq!(PoolError::NotStarted.kind(), ErrorKind::Unavailable);
    assert_eq!(PoolError::NoPreviousTurn.kind(), ErrorKind::Unavailable);
    room.start_game(0, "token-zero").unwrap();
    assert!(room.get_game_state().is_ok());
    assert_eq!(room.check_win_state(), Ok(WinState { outcome: Outcome::Ongoing }));
    assert_eq!(room.get_previous_turn().err(), Some(PoolError::NoPreviousTurn));
    assert_eq!(room.post_turn(1, "token-one", fresh_rack()), Err(PoolError::NotYourTurn));
    assert_eq!(room.get_previous_turn().err(), Some(PoolError::NoPreviousTurn));
    room.post_turn(0, "token-zero", fresh_rack()).unwrap();
    assert!(room.get_previous_turn().is_ok());
}

#[test]
fn post_turn_before_start_is_unavailable() {
    let mut room = room_with_two_seats();
    assert_eq!(room.post_turn(0, "token-zero", fresh_rack()), Err(PoolError::NotStarted));
    assert_eq!(room.post_turn(0, "wrong", fresh_rack()), Err(PoolError::TokenMismatch));
    assert_eq!(room.post_turn(7, "token-zero", fresh_rack()), Err(PoolError::BadSeatIndex));
    assert!(!room.game_started());
}

#[test]
fn post_turn_records_the_previous_turn() {
    let mut room = room_with_two_seats();
    room.start_game(0, "token-zero").unwrap();
    room.post_turn(0, "token-zero", room_rack_without(&[3])).unwrap();
    let turn = room.get_previous_turn().unwrap();
    assert_eq!(turn.submitting_seat, 0);
    assert_eq!(turn.legality_outcome, Legality::Legal);
    assert_eq!(turn.resulting_ball_states, room_rack_without(&[3]));
    room.post_turn(0, "token-zero", room_rack_without(&[0, 3])).unwrap();
    let turn = room.get_previous_turn().unwrap();
    assert_eq!(turn.submitting_seat, 0);
    assert_eq!(turn.legality_outcome, Legality::Foul);
    assert_eq!(turn.resulting_ball_states, room_rack_without(&[0, 3]));
    room.post_turn(1, "token-one", room_rack_without(&[3, 9])).unwrap();
    let turn = room.get_previous_turn().unwrap();
    assert_eq!(turn.submitting_seat, 1);
    assert_eq!(turn.legality_outcome, Legality::Legal);
    let copy = turn.duplicate();
    assert_eq!(copy.submitting_seat, 1);
    assert_eq!(copy.resulting_ball_states, room_rack_without(&[3, 9]));
}

#[test]
fn refused_turn_keeps_previous_turn_and_state() {
    let mut room = room_with_two_seats();
    room.start_game(0, "token-zero").unwrap();
    room.post_turn(0, "token-zero", room_rack_without(&[3])).unwrap();
    assert_eq!(
        room.post_turn(1, "token-one", room_rack_without(&[3, 9])),
        Err(PoolError::NotYourTurn)
    );
    assert_eq!(
        room.post_turn(0, "token-one", room_rack_without(&[3, 4])),
        Err(PoolError::TokenMismatch)
    );
    assert_eq!(room.post_turn(0, "token-zero", fresh_rack()), Err(PoolError::MalformedTurn));
    let turn = room.get_previous_turn().unwrap();
    assert_eq!(turn.resulting_ball_states, room_rack_without(&[3]));
    let gs = room.get_game_state().unwrap();
    assert_eq!(gs.turn_owner(), 0);
    assert_eq!(gs.scores(), (1, 0));
    assert_eq!(gs.balls(), &room_rack_without(&[3]));
}

#[test]
fn win_is_reported_through_the_room() {
    let mut room = room_with_two_seats();
    room.start_game(0, "token-zero").unwrap();
    room.post_turn(0, "token-zero", room_rack_without(&[1, 2, 3, 4, 5, 6, 7])).unwrap();
    assert_eq!(room.check_win_state(), Ok(WinState { outcome: Outcome::Ongoing }));
    room.post_turn(0, "token-zero", room_rack_without(&[1, 2, 3, 4, 5, 6, 7, 8])).unwrap();
    assert_eq!(room.check_win_state(), Ok(WinState { outcome: Outcome::Seat0Wins }));
    assert_eq!(
        room.post_turn(1, "token-one", room_rack_without(&[1, 2, 3, 4, 5, 6, 7, 8])),
        Err(PoolError::GameOver)
    );
    assert_eq!(room.check_win_state(), Ok(WinState { outcome: Outcome::Seat0Wins }));
}

#[test]
fn duplicate_is_an_independent_copy() {
    let mut room = room_with_two_seats();
    room.start_game(0, "token-zero").unwrap();
    let mut copy = room.duplicate();
    copy.set_player_info(0, "token-zero", "Alice".to_string()).unwrap();
    copy.post_turn(0, "token-zero", room_rack_without(&[3])).unwrap();
    assert_eq!(room.get_room().players[0].name, "Guest");
    assert_eq!(room.get_previous_turn().err(), Some(PoolError::NoPreviousTurn));
    assert_eq!(copy.get_room().players[0].name, "Alice");
    assert_eq!(copy.room_code(), "AB12CD");
    assert!(copy.game_started());
    assert_eq!(copy.get_game_state().unwrap().scores(), (1, 0));
}
