use pool_server::room::ServerPlayer;
use pool_server::server::PoolServer;
use pool_server::token::{random_alphanumeric, ROOM_CODE_LEN, TOKEN_LEN};
use std::collections::HashSet;

#[test]
fn lengths_of_codes_and_tokens() {
    assert_eq!(ROOM_CODE_LEN, 6);
    assert_eq!(TOKEN_LEN, 10);
}

#[test]
fn random_string_has_the_asked_length_and_alphabet() {
    for len in [0usize, 1, 6, 10, 64] {
        let s = random_alphanumeric(len);
        assert_eq!(s.chars().count(), len);
        assert_eq!(s.len(), len);
        assert!(s.chars().all(|c| c.is_ascii_alphanumeric()));
    }
}

#[test]
fn random_strings_differ_from_call_to_call() {
    let a = random_alphanumeric(32);
    let b = random_alphanumeric(32);
    assert_ne!(a, b);
}

#[test]
fn ten_thousand_tokens_without_collision() {
    let mut seen = HashSet::new();
    for _ in 0..10_000 {
        assert!(seen.insert(random_alphanumeric(TOKEN_LEN)));
    }
    assert_eq!(seen.len(), 10_000);
}

#[test]
fn seat_tokens_of_new_players_are_unique() {
    let mut seen = HashSet::new();
    for _ in 0..10_000 {
        let player = ServerPlayer::new(0);
        assert_eq!(player.token.len(), 10);
        assert!(seen.insert(player.token));
    }
}

#[test]
fn room_codes_of_created_rooms_are_unique() {
    let mut server = PoolServer::new();
    let mut codes = HashSet::new();
    for _ in 0..2_000 {
        let creation = server.create_room().unwrap();
        assert_eq!(creation.room_code.len(), 6);
        assert!(creation.room_code.chars().all(|c| c.is_ascii_alphanumeric()));
        assert_eq!(creation.player_token.len(), 10);
        assert!(creation.player_token.chars().all(|c| c.is_ascii_alphanumeric()));
        assert!(codes.insert(creation.room_code));
    }
    assert_eq!(server.room_count(), 2_000);
}
