use crate::balls::{
    group_cleared, legal_transition, lemma_pocketed_between_positive, newly_pocketed,
    off_table_count, table_of, well_formed_rack, Ball, Group,
};
use crate::error::{ErrorKind, PoolError};
use crate::game::{
    group_of_seat, legality_of, lemma_after_turn_valid, other_seat, GameStateView, Legality,
};
use crate::room::RoomView;
use crate::server::RegistryView;
use crate::win::{eight_ball_pocketer, seat_wins, win_state_of, Outcome, WinState};
use vstd::prelude::*;

verus! {

/// Creating a room never disturbs the validity of the registry, and the new room
/// has exactly one occupied seat, seat 0, and its game is not started.
pub proof fn created_room_has_one_seat(reg: RegistryView, code: Seq<char>, token: Seq<char>)
    requires
        reg.valid(),
        reg.create_room(code, token) is Ok,
    ensures
        reg.create_room(code, token).unwrap().valid(),
        reg.create_room(code, token).unwrap().rooms.contains_key(code),
        reg.create_room(code, token).unwrap().rooms[code].seats.len() == 1,
        reg.create_room(code, token).unwrap().rooms[code].seats[0].token == token,
        !reg.create_room(code, token).unwrap().rooms[code].game_started,
        forall|other: Seq<char>|
            other != code ==> (#[trigger] reg.create_room(code, token).unwrap().rooms.contains_key(
                other,
            ) == reg.rooms.contains_key(other)),
{
}

/// Creating a room adds exactly one room: the number of rooms grows by one, and
/// every room that was there stays filed under its code as it was.
pub proof fn create_room_adds_one_room(reg: RegistryView, code: Seq<char>, token: Seq<char>)
    requires
        reg.valid(),
        reg.create_room(code, token) is Ok,
    ensures
        reg.create_room(code, token).unwrap().rooms.len() == reg.rooms.len() + 1,
        reg.create_room(code, token).unwrap().rooms.dom() == reg.rooms.dom().insert(code),
        !reg.rooms.contains_key(code),
        forall|other: Seq<char>| #[trigger]
            reg.rooms.contains_key(other) ==> reg.create_room(code, token).unwrap().rooms[other]
                == reg.rooms[other],
{
    let next = reg.create_room(code, token).unwrap();
    assert(next.rooms.dom() =~= reg.rooms.dom().insert(code));
}

/// A call on one room changes neither the number of rooms nor any other room.
pub proof fn room_calls_keep_other_rooms(
    reg: RegistryView,
    code: Seq<char>,
    seat_index: int,
    token: Seq<char>,
    name: Seq<char>,
    balls: Seq<Ball>,
    next: RegistryView,
)
    requires
        reg.valid(),
        reg.join_room(code, token) == Ok::<RegistryView, PoolError>(next) || reg.set_player_info(
            code,
            seat_index,
            token,
            name,
        ) == Ok::<RegistryView, PoolError>(next) || reg.start_game(code, seat_index, token) == Ok::<
            RegistryView,
            PoolError,
        >(next) || reg.post_turn(code, seat_index, token, balls) == Ok::<RegistryView, PoolError>(
            next,
        ),
    ensures
        next.valid(),
        next.rooms.dom() == reg.rooms.dom(),
        next.rooms.len() == reg.rooms.len(),
        forall|other: Seq<char>|
            other != code && #[trigger] reg.rooms.contains_key(other) ==> next.rooms[other]
                == reg.rooms[other],
{
    assert(reg.rooms.contains_key(code));
    assert(next.rooms.dom() =~= reg.rooms.dom());
    room_calls_keep_room_valid(
        reg.rooms[code],
        seat_index,
        token,
        name,
        balls,
        next.rooms[code],
    );
    assert forall|c: Seq<char>| #[trigger] next.rooms.contains_key(c) implies {
        &&& next.rooms[c].valid()
        &&& next.rooms[c].room_code == c
        &&& next.rooms[c].seats.len() >= 1
    } by {
        if c != code {
            assert(reg.rooms.contains_key(c));
        }
    }
}

/// Creating a room fails exactly when its code is already in use, and then with a conflict.
pub proof fn create_room_fails_on_duplicate_only(
    reg: RegistryView,
    code: Seq<char>,
    token: Seq<char>,
)
    ensures
        reg.create_room(code, token) is Err <==> reg.rooms.contains_key(code),
        reg.create_room(code, token) matches Err(e) ==> e.kind() == ErrorKind::Conflict,
{
}

/// Joining a room whose two seats are taken fails with a conflict. Joining a room
/// with one seat taken succeeds and leaves it with two, so that any further join fails.
pub proof fn join_fills_room_once(
    reg: RegistryView,
    code: Seq<char>,
    token: Seq<char>,
    later_token: Seq<char>,
)
    requires
        reg.valid(),
        reg.rooms.contains_key(code),
    ensures
        reg.rooms[code].seats.len() == 2 ==> reg.join_room(code, token) == Err::<
            RegistryView,
            PoolError,
        >(PoolError::RoomFull) && PoolError::RoomFull.kind() == ErrorKind::Conflict,
        reg.rooms[code].seats.len() == 1 ==> {
            &&& reg.join_room(code, token) matches Ok(joined)
            &&& joined.valid()
            &&& joined.rooms[code].seats.len() == 2
            &&& joined.rooms[code].seats[0] == reg.rooms[code].seats[0]
            &&& joined.rooms[code].seats[1].token == token
            &&& joined.join_room(code, later_token) == Err::<RegistryView, PoolError>(
                PoolError::RoomFull,
            )
        },
{
    if reg.rooms[code].seats.len() == 1 {
        let joined = reg.join_room(code, token).unwrap();
        assert(joined.rooms[code].valid());
        assert forall|c: Seq<char>| #[trigger] joined.rooms.contains_key(c) implies {
            &&& joined.rooms[c].valid()
            &&& joined.rooms[c].room_code == c
            &&& joined.rooms[c].seats.len() >= 1
        } by {
            if c != code {
                assert(reg.rooms.contains_key(c));
            }
        }
    }
}

/// Joining an unknown room fails with a not-found error.
pub proof fn join_unknown_room_not_found(reg: RegistryView, code: Seq<char>, token: Seq<char>)
    requires
        !reg.rooms.contains_key(code),
    ensures
        reg.join_room(code, token) == Err::<RegistryView, PoolError>(PoolError::RoomNotFound),
        PoolError::RoomNotFound.kind() == ErrorKind::NotFound,
{
}

/// Setting the display name of a seat succeeds if and only if the seat is
/// occupied and the supplied token is the one stored for it. Neither the phase
/// of the game nor the name plays a part. On success only the name of that seat changes.
pub proof fn set_player_info_iff_token(
    room: RoomView,
    seat_index: int,
    token: Seq<char>,
    name: Seq<char>,
)
    requires
        room.valid(),
    ensures
        room.set_player_info(seat_index, token, name) is Ok <==> (0 <= seat_index
            < room.seats.len() && room.seats[seat_index].token == token),
        room.set_player_info(seat_index, token, name) matches Ok(next) ==> {
            &&& next.valid()
            &&& next.seats[seat_index].display_name == name
            &&& next.seats[seat_index].token == token
            &&& next.game_started == room.game_started
            &&& next.game_state == room.game_state
            &&& next.previous_turn == room.previous_turn
            &&& forall|other: int|
                0 <= other < room.seats.len() && other != seat_index ==> #[trigger] next.seats[other]
                    == room.seats[other]
        },
{
}

/// In a started game, a turn submitted for an occupied seat that does not own
/// the turn is refused with a permission error, whatever token and balls come
/// with it. (A refused call leaves the room as it was: a failure carries no next state.)
pub proof fn turn_by_non_owner_denied(
    room: RoomView,
    seat_index: int,
    token: Seq<char>,
    balls: Seq<Ball>,
)
    requires
        room.valid(),
        room.game_state is Some,
        0 <= seat_index < room.seats.len(),
        seat_index != room.game_state.unwrap().turn_owner,
    ensures
        room.post_turn(seat_index, token, balls) matches Err(e) && e.kind()
            == ErrorKind::PermissionDenied,
{
}

/// The same through the registry: such a turn is refused with a permission error.
pub proof fn turn_by_non_owner_denied_in_registry(
    reg: RegistryView,
    code: Seq<char>,
    seat_index: int,
    token: Seq<char>,
    balls: Seq<Ball>,
)
    requires
        reg.valid(),
        reg.rooms.contains_key(code),
        reg.rooms[code].game_state is Some,
        0 <= seat_index < reg.rooms[code].seats.len(),
        seat_index != reg.rooms[code].game_state.unwrap().turn_owner,
    ensures
        reg.post_turn(code, seat_index, token, balls) matches Err(e) && e.kind()
            == ErrorKind::PermissionDenied,
{
    turn_by_non_owner_denied(reg.rooms[code], seat_index, token, balls);
}

/// A wrong token is refused with a permission error before anything else about
/// the turn is looked at.
pub proof fn turn_with_wrong_token_denied(
    room: RoomView,
    seat_index: int,
    token: Seq<char>,
    balls: Seq<Ball>,
)
    requires
        room.valid(),
        0 <= seat_index < room.seats.len(),
        room.seats[seat_index].token != token,
    ensures
        room.post_turn(seat_index, token, balls) == Err::<RoomView, PoolError>(
            PoolError::TokenMismatch,
        ),
        room.start_game(seat_index, token) == Err::<RoomView, PoolError>(PoolError::TokenMismatch),
        PoolError::TokenMismatch.kind() == ErrorKind::PermissionDenied,
{
}

/// An accepted turn without foul that leaves the eight-ball where it was and
/// pockets a ball of the submitting seat's own group keeps the turn with that seat.
/// The seat's group is the one it holds once the turn is applied, so the turn that
/// settles an open table counts.
pub proof fn own_ball_keeps_turn(gs: GameStateView, seat: int, balls: Seq<Ball>, id: int)
    requires
        gs.valid(),
        gs.post_turn(seat, balls) is Ok,
        legality_of(table_of(balls)) == Legality::Legal,
        !newly_pocketed(gs.table, table_of(balls), 8),
        group_of_seat(gs.post_turn(seat, balls).unwrap().group_of_seat0, seat).contains(id),
        newly_pocketed(gs.table, table_of(balls), id),
    ensures
        gs.post_turn(seat, balls).unwrap().turn_owner == seat,
        gs.post_turn(seat, balls).unwrap().turn_owner == gs.turn_owner,
{
    let after = table_of(balls);
    let own = group_of_seat(gs.next_group_of_seat0(seat, after), seat);
    lemma_pocketed_between_positive(gs.table, after, own.lo(), own.hi());
}

/// An accepted turn that pockets no ball of the submitting seat's own group
/// passes the turn to the other seat.
pub proof fn no_own_ball_passes_turn(gs: GameStateView, seat: int, balls: Seq<Ball>)
    requires
        gs.valid(),
        gs.post_turn(seat, balls) is Ok,
        forall|id: int|
            group_of_seat(gs.post_turn(seat, balls).unwrap().group_of_seat0, seat).contains(id)
                ==> !newly_pocketed(gs.table, table_of(balls), id),
    ensures
        gs.post_turn(seat, balls).unwrap().turn_owner == other_seat(seat),
        gs.post_turn(seat, balls).unwrap().turn_owner != gs.turn_owner,
{
    let after = table_of(balls);
    let own = group_of_seat(gs.next_group_of_seat0(seat, after), seat);
    lemma_pocketed_between_positive(gs.table, after, own.lo(), own.hi());
}

/// A foul, and a turn that pockets the eight-ball, pass the turn to the other
/// seat whatever else was pocketed.
pub proof fn foul_or_eight_ball_passes_turn(gs: GameStateView, seat: int, balls: Seq<Ball>)
    requires
        gs.valid(),
        gs.post_turn(seat, balls) is Ok,
        legality_of(table_of(balls)) == Legality::Foul || newly_pocketed(
            gs.table,
            table_of(balls),
            8,
        ),
    ensures
        gs.post_turn(seat, balls).unwrap().turn_owner == other_seat(seat),
{
}

/// A turn on an open table without foul that pockets a group ball gives the
/// submitting seat the group of the lowest such ball and the other seat the
/// complement; a foul, or a turn that pockets no group ball, leaves the table
/// open; a settled assignment never changes.
pub proof fn group_assignment_settles_once(gs: GameStateView, seat: int, balls: Seq<Ball>)
    requires
        gs.valid(),
        gs.post_turn(seat, balls) is Ok,
    ensures
        ({
            let next = gs.post_turn(seat, balls).unwrap();
            let after = table_of(balls);
            let solid = exists|id: int| 1 <= id < 8 && newly_pocketed(gs.table, after, id);
            let stripe = exists|id: int| 9 <= id < 16 && newly_pocketed(gs.table, after, id);
            &&& gs.group_of_seat0 != Group::Undetermined ==> next.group_of_seat0
                == gs.group_of_seat0
            &&& gs.group_of_seat0 == Group::Undetermined && legality_of(after) == Legality::Foul
                ==> next.group_of_seat0 == Group::Undetermined
            &&& gs.group_of_seat0 == Group::Undetermined && legality_of(after) == Legality::Legal
                ==> group_of_seat(next.group_of_seat0, seat) == (if solid {
                Group::Solids
            } else if stripe {
                Group::Stripes
            } else {
                Group::Undetermined
            })
            &&& group_of_seat(next.group_of_seat0, other_seat(seat)) == group_of_seat(
                next.group_of_seat0,
                seat,
            ).complement()
        }),
{
    let after = table_of(balls);
    lemma_pocketed_between_positive(gs.table, after, 1, 8);
    lemma_pocketed_between_positive(gs.table, after, 9, 16);
}

/// Once all seven balls of a seat's group are off the table, an accepted turn in
/// which that seat pockets the eight-ball without foul makes it the winner.
pub proof fn eight_ball_after_clearance_wins(gs: GameStateView, seat: int, balls: Seq<Ball>)
    requires
        gs.valid(),
        gs.post_turn(seat, balls) is Ok,
        group_cleared(gs.table, group_of_seat(gs.group_of_seat0, seat)),
        !table_of(balls)[8],
        legality_of(table_of(balls)) == Legality::Legal,
    ensures
        win_state_of(gs.post_turn(seat, balls).unwrap()) == seat_wins(seat),
{
    let after = table_of(balls);
    let own = group_of_seat(gs.group_of_seat0, seat);
    assert forall|id: int| own.contains(id) implies !(#[trigger] after[id]) by {
        assert(!gs.table[id]);
    }
}

/// An accepted turn that pockets the eight-ball while balls of the submitting
/// seat's group remain on the resulting table, or while the table is still open,
/// or together with the cue ball, makes the other seat the winner at once.
pub proof fn early_eight_ball_loses(gs: GameStateView, seat: int, balls: Seq<Ball>)
    requires
        gs.valid(),
        gs.post_turn(seat, balls) is Ok,
        !table_of(balls)[8],
        legality_of(table_of(balls)) == Legality::Foul || !group_cleared(
            table_of(balls),
            group_of_seat(gs.post_turn(seat, balls).unwrap().group_of_seat0, seat),
        ),
    ensures
        win_state_of(gs.post_turn(seat, balls).unwrap()) == seat_wins(other_seat(seat)),
{
}

/// The verdict on a turn that pockets the eight-ball goes by the table that the
/// turn leaves: the submitting seat wins exactly when the cue ball is on that
/// table and none of the seat's group balls is. So a seat that pockets its last
/// group balls and the eight-ball in one and the same turn without foul wins,
/// though its group was not yet cleared when the turn began.
pub proof fn eight_ball_verdict_goes_by_resulting_table(
    gs: GameStateView,
    seat: int,
    balls: Seq<Ball>,
)
    requires
        gs.valid(),
        gs.post_turn(seat, balls) is Ok,
        !table_of(balls)[8],
    ensures
        ({
            let next = gs.post_turn(seat, balls).unwrap();
            let own = group_of_seat(next.group_of_seat0, seat);
            let wins = legality_of(table_of(balls)) == Legality::Legal && group_cleared(
                table_of(balls),
                own,
            );
            &&& wins ==> win_state_of(next) == seat_wins(seat)
            &&& !wins ==> win_state_of(next) == seat_wins(other_seat(seat))
            &&& wins && !group_cleared(gs.table, own) ==> win_state_of(next) == seat_wins(seat)
        }),
{
}

/// The verdict does not look at the scores: it is the same for any two states
/// that agree on table, group assignment and turn owner. A ball that went down
/// on a foul is credited to nobody and stays off the table, so it counts
/// towards the clearance of its group like any other ball off the table.
pub proof fn verdict_ignores_scores(gs: GameStateView, scores: Seq<nat>)
    ensures
        win_state_of(GameStateView { scores, ..gs }) == win_state_of(gs),
{
}

/// A foul credits nobody and still takes the pocketed balls off the table: the
/// scores stay as they were, every ball that the submitted table shows off is
/// off, and a group that the submitted table shows cleared is cleared.
pub proof fn balls_pocketed_on_foul_stay_off(
    gs: GameStateView,
    seat: int,
    balls: Seq<Ball>,
    g: Group,
)
    requires
        gs.valid(),
        gs.post_turn(seat, balls) is Ok,
        legality_of(table_of(balls)) == Legality::Foul,
    ensures
        gs.post_turn(seat, balls).unwrap().scores == gs.scores,
        gs.post_turn(seat, balls).unwrap().group_of_seat0 == gs.group_of_seat0,
        forall|id: int|
            0 <= id < 16 && newly_pocketed(gs.table, table_of(balls), id) ==> !(
            #[trigger] gs.post_turn(seat, balls).unwrap().table[id]),
        group_cleared(table_of(balls), g) ==> group_cleared(
            gs.post_turn(seat, balls).unwrap().table,
            g,
        ),
{
    let next = gs.post_turn(seat, balls).unwrap();
    assert(next.scores =~= gs.scores);
}

/// With the eight-ball down on an open table the match is decided against the
/// seat that pocketed it: the seat that owns the turn is the winner.
pub proof fn eight_ball_on_open_table_gives_other_seat_the_win(gs: GameStateView)
    requires
        gs.valid(),
        gs.is_over(),
        gs.group_of_seat0 == Group::Undetermined,
    ensures
        win_state_of(gs) == seat_wins(gs.turn_owner),
        win_state_of(gs) == seat_wins(other_seat(eight_ball_pocketer(gs))),
{
}

/// While the match is open, a submission by the turn owner that is no
/// well-formed rack, or that puts a ball other than the cue ball back on the
/// table, is refused as an invalid argument. Once the eight-ball is down the
/// owner's submission is refused as unavailable before its balls are looked at.
pub proof fn malformed_turn_is_invalid_argument(gs: GameStateView, balls: Seq<Ball>)
    requires
        gs.valid(),
        !well_formed_rack(balls) || !legal_transition(gs.table, table_of(balls)),
    ensures
        !gs.is_over() ==> gs.post_turn(gs.turn_owner, balls) == Err::<GameStateView, PoolError>(
            PoolError::MalformedTurn,
        ),
        gs.is_over() ==> gs.post_turn(gs.turn_owner, balls) == Err::<GameStateView, PoolError>(
            PoolError::GameOver,
        ),
        PoolError::MalformedTurn.kind() == ErrorKind::InvalidArgument,
        PoolError::GameOver.kind() == ErrorKind::Unavailable,
{
}

/// While the eight-ball is on the table nobody has won; and while the groups are
/// undetermined the seat that pocketed the eight-ball is never the winner.
pub proof fn no_win_without_eight_ball_and_group(gs: GameStateView)
    requires
        gs.valid(),
    ensures
        gs.table[8] ==> win_state_of(gs).outcome == Outcome::Ongoing,
        gs.group_of_seat0 == Group::Undetermined ==> win_state_of(gs) != seat_wins(
            eight_ball_pocketer(gs),
        ),
{
}

/// A decided match takes no more turns, so its verdict stands.
pub proof fn decided_match_takes_no_turn(gs: GameStateView, seat: int, balls: Seq<Ball>)
    requires
        gs.valid(),
        gs.is_over(),
    ensures
        gs.post_turn(seat, balls) is Err,
        gs.post_turn(seat, balls) matches Err(e) ==> e == PoolError::NotYourTurn || e
            == PoolError::GameOver,
{
}

/// Every accepted turn leads from a valid state to a valid state, replaces the
/// table by the submitted one and never lowers a score.
pub proof fn accepted_turn_keeps_state_valid(gs: GameStateView, seat: int, balls: Seq<Ball>)
    requires
        gs.valid(),
        gs.post_turn(seat, balls) is Ok,
    ensures
        gs.post_turn(seat, balls).unwrap().valid(),
        gs.post_turn(seat, balls).unwrap().table == table_of(balls),
        legal_transition(gs.table, table_of(balls)),
        forall|s: int|
            0 <= s < 2 ==> gs.scores[s] <= #[trigger] gs.post_turn(seat, balls).unwrap().scores[s],
        legality_of(table_of(balls)) == Legality::Foul ==> gs.post_turn(
            seat,
            balls,
        ).unwrap().scores == gs.scores,
{
    lemma_after_turn_valid(gs, seat, table_of(balls));
    let next = gs.post_turn(seat, balls).unwrap();
    if legality_of(table_of(balls)) == Legality::Foul {
        assert(next.scores =~= gs.scores);
    }
}

/// Until the game is started, the game state and the verdict are unavailable;
/// until a turn was applied, so is the previous turn. A room is created in that
/// phase, and starting the game makes state and verdict available while the
/// previous turn stays unavailable.
pub proof fn reads_unavailable_before_their_event(room: RoomView, seat_index: int, token: Seq<char>)
    requires
        room.valid(),
    ensures
        !room.game_started ==> {
            &&& room.get_game_state() matches Err(e) && e.kind() == ErrorKind::Unavailable
            &&& room.check_win_state() matches Err(e) && e.kind() == ErrorKind::Unavailable
            &&& room.get_previous_turn() matches Err(e) && e.kind() == ErrorKind::Unavailable
        },
        room.previous_turn is None ==> (room.get_previous_turn() matches Err(e) && e.kind()
            == ErrorKind::Unavailable),
        room.start_game(seat_index, token) matches Ok(started) ==> {
            &&& started.valid()
            &&& started.game_started
            &&& started.get_game_state() == Ok::<GameStateView, PoolError>(GameStateView::initial())
            &&& started.check_win_state() == Ok::<WinState, PoolError>(
                WinState { outcome: Outcome::Ongoing },
            )
            &&& started.get_previous_turn() matches Err(e) && e.kind() == ErrorKind::Unavailable
        },
{
    if room.start_game(seat_index, token) is Ok {
        let started = room.start_game(seat_index, token).unwrap();
        let gs = GameStateView::initial();
        assert(gs.table[8]);
        assert forall|s: int| 0 <= s < 2 implies #[trigger] gs.scores[s]
            <= off_table_count(gs.table, group_of_seat(gs.group_of_seat0, s)) by {}
        assert(gs.valid());
    }
}

/// The same for rooms in the registry: right after its creation a room offers
/// neither game state, nor verdict, nor previous turn; of an unknown room
/// nothing can be read at all.
pub proof fn reads_unavailable_in_new_room(
    reg: RegistryView,
    code: Seq<char>,
    token: Seq<char>,
    unknown: Seq<char>,
)
    requires
        reg.valid(),
        reg.create_room(code, token) is Ok,
        !reg.rooms.contains_key(unknown),
    ensures
        ({
            let next = reg.create_room(code, token).unwrap();
            &&& next.get_game_state(code) == Err::<GameStateView, PoolError>(PoolError::NotStarted)
            &&& next.check_win_state(code) == Err::<WinState, PoolError>(PoolError::NotStarted)
            &&& next.get_previous_turn(code) matches Err(e) && e == PoolError::NoPreviousTurn
            &&& PoolError::NotStarted.kind() == ErrorKind::Unavailable
            &&& PoolError::NoPreviousTurn.kind() == ErrorKind::Unavailable
        }),
        reg.get_game_state(unknown) matches Err(e) && e.kind() == ErrorKind::NotFound,
        reg.check_win_state(unknown) matches Err(e) && e.kind() == ErrorKind::NotFound,
        reg.get_previous_turn(unknown) matches Err(e) && e.kind() == ErrorKind::NotFound,
        reg.get_room(unknown) matches Err(e) && e.kind() == ErrorKind::NotFound,
{
}

/// Every call on a room leads from a valid room to a valid room and never
/// touches the room's code, its name or the tokens of seats already taken.
pub proof fn room_calls_keep_room_valid(
    room: RoomView,
    seat_index: int,
    token: Seq<char>,
    name: Seq<char>,
    balls: Seq<Ball>,
    next: RoomView,
)
    requires
        room.valid(),
        room.join(token) == Ok::<RoomView, PoolError>(next) || room.set_player_info(
            seat_index,
            token,
            name,
        ) == Ok::<RoomView, PoolError>(next) || room.start_game(seat_index, token) == Ok::<
            RoomView,
            PoolError,
        >(next) || room.post_turn(seat_index, token, balls) == Ok::<RoomView, PoolError>(next),
    ensures
        next.valid(),
        next.room_code == room.room_code,
        next.room_name == room.room_name,
        next.seats.len() >= room.seats.len(),
        forall|i: int|
            0 <= i < room.seats.len() ==> (#[trigger] next.seats[i]).token == room.seats[i].token,
{
    if room.start_game(seat_index, token) == Ok::<RoomView, PoolError>(next) {
        reads_unavailable_before_their_event(room, seat_index, token);
    }
    if room.post_turn(seat_index, token, balls) == Ok::<RoomView, PoolError>(next) {
        accepted_turn_keeps_state_valid(room.game_state.unwrap(), seat_index, balls);
    }
}

/// One submitted turn: the seat it is submitted for, the token that comes with
/// it and the balls it leaves.
pub struct Submission {
    pub seat_index: int,
    pub token: Seq<char>,
    pub balls: Seq<Ball>,
}

/// The room after one submission is served: the next room if the turn is
/// accepted, the same room if it is refused.
pub open spec fn serve(room: RoomView, s: Submission) -> RoomView {
    match room.post_turn(s.seat_index, s.token, s.balls) {
        Ok(next) => next,
        Err(_) => room,
    }
}

/// The room after the submissions are served one after another, in their order.
pub open spec fn serve_all(room: RoomView, subs: Seq<Submission>) -> RoomView
    decreases subs.len(),
{
    if subs.len() == 0 {
        room
    } else {
        serve(serve_all(room, subs.drop_last()), subs.last())
    }
}

/// A submission that is refused when its time comes leaves no trace: the room
/// ends as if it had never been made, whatever is served before and after it.
pub proof fn refused_submission_leaves_no_trace(
    room: RoomView,
    earlier: Seq<Submission>,
    refused: Submission,
    later: Seq<Submission>,
)
    requires
        serve_all(room, earlier).post_turn(refused.seat_index, refused.token, refused.balls) is Err,
    ensures
        serve_all(room, earlier.push(refused) + later) == serve_all(room, earlier + later),
    decreases later.len(),
{
    if later.len() == 0 {
        assert(earlier.push(refused) + later =~= earlier.push(refused));
        assert(earlier + later =~= earlier);
        assert(earlier.push(refused).drop_last() =~= earlier);
    } else {
        refused_submission_leaves_no_trace(room, earlier, refused, later.drop_last());
        assert((earlier.push(refused) + later).drop_last() =~= earlier.push(refused)
            + later.drop_last());
        assert((earlier + later).drop_last() =~= earlier + later.drop_last());
    }
}

/// Serving submissions keeps a valid room valid and touches neither its seats
/// nor its phase.
pub proof fn serving_keeps_room_valid(room: RoomView, subs: Seq<Submission>)
    requires
        room.valid(),
    ensures
        serve_all(room, subs).valid(),
        serve_all(room, subs).seats == room.seats,
        serve_all(room, subs).game_started == room.game_started,
    decreases subs.len(),
{
    if subs.len() > 0 {
        serving_keeps_room_valid(room, subs.drop_last());
        let before = serve_all(room, subs.drop_last());
        let s = subs.last();
        if before.post_turn(s.seat_index, s.token, s.balls) is Ok {
            accepted_turn_keeps_state_valid(before.game_state.unwrap(), s.seat_index, s.balls);
        }
    }
}

} // verus!
