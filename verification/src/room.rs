use crate::balls::Ball;
use crate::error::PoolError;
use crate::game::{legality_of, GameState, GameStateView, Turn, TurnView};
use crate::balls::table_of;
use crate::token::{is_alphanumeric_string, random_alphanumeric, TOKEN_LEN};
use crate::win::{evaluate, win_state_of, WinState};
use vstd::prelude::*;

verus! {

/// Display name of a seat until its holder sets another.
pub const DEFAULT_PLAYER_NAME: &'static str = "Guest";

/// Name of every new room.
pub const DEFAULT_ROOM_NAME: &'static str = "Game Panda Pool";

/// What everybody may know of a seat.
#[derive(Debug)]
pub struct Player {
    pub name: String,
    pub player_id: i32,
}

/// Mathematical model of a [`Player`].
pub struct PlayerView {
    pub name: Seq<char>,
    pub player_id: int,
}

impl View for Player {
    type V = PlayerView;

    open spec fn view(&self) -> PlayerView {
        PlayerView { name: self.name@, player_id: self.player_id as int }
    }
}

/// Mathematical model of a seat: its index, its secret token and its display name.
pub struct SeatView {
    pub seat_index: int,
    pub token: Seq<char>,
    pub display_name: Seq<char>,
}

impl SeatView {
    /// A seat as it is when its holder has just taken it.
    pub open spec fn guest(seat_index: int, token: Seq<char>) -> SeatView {
        SeatView { seat_index, token, display_name: DEFAULT_PLAYER_NAME@ }
    }

    /// The seat without its token.
    pub open spec fn public(self) -> PlayerView {
        PlayerView { name: self.display_name, player_id: self.seat_index }
    }
}

/// A seat: the public player record and the bearer token that proves control of it.
#[derive(Debug)]
pub struct ServerPlayer {
    pub token: String,
    pub player: Player,
}

impl View for ServerPlayer {
    type V = SeatView;

    open spec fn view(&self) -> SeatView {
        SeatView {
            seat_index: self.player.player_id as int,
            token: self.token@,
            display_name: self.player.name@,
        }
    }
}

impl ServerPlayer {
    /// The seat `player_id` held under `token`, with the default display name.
    pub fn with_token(player_id: i32, token: String) -> (seat: ServerPlayer)
        ensures
            seat@ == SeatView::guest(player_id as int, token@),
    {
        ServerPlayer {
            token,
            player: Player { name: DEFAULT_PLAYER_NAME.to_owned(), player_id },
        }
    }

    /// The seat `player_id` with a freshly drawn token of ten letters and digits.
    pub fn new(player_id: i32) -> (seat: ServerPlayer)
        ensures
            is_alphanumeric_string(seat@.token, TOKEN_LEN as int),
            seat@ == SeatView::guest(player_id as int, seat@.token),
    {
        ServerPlayer::with_token(player_id, random_alphanumeric(TOKEN_LEN))
    }

    /// A copy of this seat.
    pub fn duplicate(&self) -> (copy: ServerPlayer)
        ensures
            copy@ == self@,
    {
        ServerPlayer {
            token: self.token.clone(),
            player: Player { name: self.player.name.clone(), player_id: self.player.player_id },
        }
    }
}

/// Mathematical model of a room.
pub struct RoomView {
    pub room_code: Seq<char>,
    pub room_name: Seq<char>,
    /// The occupied seats, seat 0 first.
    pub seats: Seq<SeatView>,
    pub game_started: bool,
    pub game_state: Option<GameStateView>,
    pub previous_turn: Option<TurnView>,
}

/// Mathematical model of what [`ServerRoom::get_room`] shows of a room.
pub struct PublicRoomView {
    pub room_code: Seq<char>,
    pub room_name: Seq<char>,
    pub game_started: bool,
    pub players: Seq<PlayerView>,
}

impl RoomView {
    /// At most two seats, each at its own index; a game state exactly when the
    /// game is started; a previous turn only once it is.
    pub open spec fn valid(self) -> bool {
        &&& self.seats.len() <= 2
        &&& forall|i: int| 0 <= i < self.seats.len() ==> (#[trigger] self.seats[i]).seat_index == i
        &&& self.game_started == self.game_state.is_some()
        &&& (self.game_state matches Some(gs) ==> gs.valid())
        &&& (self.previous_turn.is_some() ==> self.game_started)
    }

    /// A new room: no seat taken, no game.
    pub open spec fn fresh(room_code: Seq<char>) -> RoomView {
        RoomView {
            room_code,
            room_name: DEFAULT_ROOM_NAME@,
            seats: Seq::empty(),
            game_started: false,
            game_state: None,
            previous_turn: None,
        }
    }

    /// Whether `token` proves control of seat `seat_index`. The index must be 0
    /// or 1, the seat must be occupied, and the token must be the stored one.
    pub open spec fn authorize(self, seat_index: int, token: Seq<char>) -> Result<(), PoolError> {
        if seat_index != 0 && seat_index != 1 {
            Err(PoolError::BadSeatIndex)
        } else if seat_index >= self.seats.len() {
            Err(PoolError::SeatNotFound)
        } else if self.seats[seat_index].token != token {
            Err(PoolError::TokenMismatch)
        } else {
            Ok(())
        }
    }

    /// The room after one more player takes the next free seat under `token`.
    pub open spec fn join(self, token: Seq<char>) -> Result<RoomView, PoolError> {
        if self.seats.len() >= 2 {
            Err(PoolError::RoomFull)
        } else {
            Ok(
                RoomView {
                    seats: self.seats.push(SeatView::guest(self.seats.len() as int, token)),
                    ..self
                },
            )
        }
    }

    /// The room after the holder of seat `seat_index` names itself `name`.
    pub open spec fn set_player_info(
        self,
        seat_index: int,
        token: Seq<char>,
        name: Seq<char>,
    ) -> Result<RoomView, PoolError> {
        match self.authorize(seat_index, token) {
            Err(e) => Err(e),
            Ok(_) => Ok(
                RoomView {
                    seats: self.seats.update(
                        seat_index,
                        SeatView { display_name: name, ..self.seats[seat_index] },
                    ),
                    ..self
                },
            ),
        }
    }

    /// The room after the holder of seat `seat_index` starts the game.
    pub open spec fn start_game(self, seat_index: int, token: Seq<char>) -> Result<
        RoomView,
        PoolError,
    > {
        match self.authorize(seat_index, token) {
            Err(e) => Err(e),
            Ok(_) => if self.game_started {
                Err(PoolError::AlreadyStarted)
            } else {
                Ok(
                    RoomView {
                        game_started: true,
                        game_state: Some(GameStateView::initial()),
                        ..self
                    },
                )
            },
        }
    }

    /// The room after the holder of seat `seat_index` submits `balls`. The token
    /// is checked first, then that the game is started, then what
    /// [`GameStateView::post_turn`] checks.
    pub open spec fn post_turn(self, seat_index: int, token: Seq<char>, balls: Seq<Ball>) -> Result<
        RoomView,
        PoolError,
    > {
        match self.authorize(seat_index, token) {
            Err(e) => Err(e),
            Ok(_) => match self.game_state {
                None => Err(PoolError::NotStarted),
                Some(gs) => match gs.post_turn(seat_index, balls) {
                    Err(e) => Err(e),
                    Ok(next) => Ok(
                        RoomView {
                            game_state: Some(next),
                            previous_turn: Some(
                                TurnView {
                                    submitting_seat: seat_index,
                                    balls,
                                    legality_outcome: legality_of(table_of(balls)),
                                },
                            ),
                            ..self
                        },
                    ),
                },
            },
        }
    }

    /// The game state, once the game is started.
    pub open spec fn get_game_state(self) -> Result<GameStateView, PoolError> {
        match self.game_state {
            None => Err(PoolError::NotStarted),
            Some(gs) => Ok(gs),
        }
    }

    /// The verdict on the game, once it is started.
    pub open spec fn check_win_state(self) -> Result<WinState, PoolError> {
        match self.game_state {
            None => Err(PoolError::NotStarted),
            Some(gs) => Ok(win_state_of(gs)),
        }
    }

    /// The last applied turn, once there is one.
    pub open spec fn get_previous_turn(self) -> Result<TurnView, PoolError> {
        match self.previous_turn {
            None => Err(PoolError::NoPreviousTurn),
            Some(turn) => Ok(turn),
        }
    }

    /// What everybody may see of the room: no tokens.
    pub open spec fn get_room(self) -> PublicRoomView {
        PublicRoomView {
            room_code: self.room_code,
            room_name: self.room_name,
            game_started: self.game_started,
            players: self.seats.map_values(|s: SeatView| s.public()),
        }
    }
}

/// The result `res` of a call that changes a room agrees with `expected`: on
/// success the room became the expected one, on failure the reason is the
/// expected one and the room kept its value.
pub open spec fn room_outcome(
    res: Result<(), PoolError>,
    before: RoomView,
    after: RoomView,
    expected: Result<RoomView, PoolError>,
) -> bool {
    match res {
        Ok(_) => expected == Ok::<RoomView, PoolError>(after),
        Err(e) => expected == Err::<RoomView, PoolError>(e) && after == before,
    }
}

/// What everybody may see of a room.
#[derive(Debug)]
pub struct Room {
    pub room_code: String,
    pub room_name: String,
    pub game_started: bool,
    pub players: Vec<Player>,
}

impl View for Room {
    type V = PublicRoomView;

    open spec fn view(&self) -> PublicRoomView {
        PublicRoomView {
            room_code: self.room_code@,
            room_name: self.room_name@,
            game_started: self.game_started,
            players: self.players@.map_values(|p: Player| p@),
        }
    }
}

/// One match between two seats.
#[derive(Debug)]
pub struct ServerRoom {
    players: Vec<ServerPlayer>,
    room_id: String,
    room_name: String,
    game_started: bool,
    game_state: Option<GameState>,
    previous_turn: Option<Turn>,
}

impl View for ServerRoom {
    type V = RoomView;

    closed spec fn view(&self) -> RoomView {
        RoomView {
            room_code: self.room_id@,
            room_name: self.room_name@,
            seats: self.players@.map_values(|p: ServerPlayer| p@),
            game_started: self.game_started,
            game_state: match self.game_state {
                Some(gs) => Some(gs@),
                None => None,
            },
            previous_turn: match self.previous_turn {
                Some(turn) => Some(turn@),
                None => None,
            },
        }
    }
}

impl ServerRoom {
    /// The model is valid and the game state, if any, is well formed.
    pub closed spec fn wf(&self) -> bool {
        &&& self@.valid()
        &&& (self.game_state matches Some(gs) ==> gs.wf())
    }

    /// A well-formed room has a valid model.
    pub proof fn lemma_wf_valid(&self)
        requires
            self.wf(),
        ensures
            self@.valid(),
    {
    }

    /// A new room under the code `room_id`: no seat taken, game not started.
    pub fn new(room_id: String) -> (room: ServerRoom)
        ensures
            room.wf(),
            room@ == RoomView::fresh(room_id@),
    {
        let room = ServerRoom {
            players: Vec::new(),
            room_id,
            room_name: DEFAULT_ROOM_NAME.to_owned(),
            game_started: false,
            game_state: None,
            previous_turn: None,
        };
        assert(room@.seats =~= Seq::empty());
        room
    }

    /// The code under which the room is known.
    pub fn room_code(&self) -> (code: &String)
        ensures
            code@ == self@.room_code,
    {
        &self.room_id
    }

    /// Number of occupied seats.
    pub fn seat_count(&self) -> (n: usize)
        ensures
            n == self@.seats.len(),
    {
        self.players.len()
    }

    /// Whether the game is started.
    pub fn game_started(&self) -> (started: bool)
        ensures
            started == self@.game_started,
    {
        self.game_started
    }

    /// A copy of this room.
    pub fn duplicate(&self) -> (copy: ServerRoom)
        ensures
            copy@ == self@,
            copy.wf() == self.wf(),
    {
        let mut players: Vec<ServerPlayer> = Vec::new();
        let mut i: usize = 0;
        while i < self.players.len()
            invariant
                i <= self.players@.len(),
                players@.len() == i,
                forall|j: int| 0 <= j < i ==> (#[trigger] players@[j])@ == self.players@[j]@,
            decreases self.players@.len() - i,
        {
            players.push(self.players[i].duplicate());
            i = i + 1;
        }
        let game_state = match &self.game_state {
            Some(gs) => Some(gs.snapshot()),
            None => None,
        };
        let previous_turn = match &self.previous_turn {
            Some(turn) => Some(turn.duplicate()),
            None => None,
        };
        let copy = ServerRoom {
            players,
            room_id: self.room_id.clone(),
            room_name: self.room_name.clone(),
            game_started: self.game_started,
            game_state,
            previous_turn,
        };
        assert(copy@.seats =~= self@.seats);
        copy
    }

    /// Checks that `token` proves control of seat `seat_index`, and returns the
    /// seat's position.
    pub fn authorize(&self, seat_index: i32, token: &str) -> (res: Result<usize, PoolError>)
        requires
            self.wf(),
        ensures
            match res {
                Ok(seat) => self@.authorize(seat_index as int, token@) is Ok && seat == seat_index,
                Err(e) => self@.authorize(seat_index as int, token@) == Err::<(), PoolError>(e),
            },
    {
        if seat_index != 0 && seat_index != 1 {
            return Err(PoolError::BadSeatIndex);
        }
        let seat: usize = if seat_index == 0 {
            0
        } else {
            1
        };
        if seat >= self.players.len() {
            return Err(PoolError::SeatNotFound);
        }
        let supplied = token.to_owned();
        if self.players[seat].token != supplied {
            return Err(PoolError::TokenMismatch);
        }
        Ok(seat)
    }

    /// Seats one more player under `token`.
    pub fn join_with_token(&mut self, token: String) -> (res: Result<(), PoolError>)
        requires
            old(self).wf(),
        ensures
            final(self).wf(),
            room_outcome(res, old(self)@, final(self)@, old(self)@.join(token@)),
    {
        let n = self.players.len();
        if n >= 2 {
            return Err(PoolError::RoomFull);
        }
        let player_id: i32 = if n == 0 {
            0
        } else {
            1
        };
        self.players.push(ServerPlayer::with_token(player_id, token));
        assert(self@.seats =~= old(self)@.seats.push(SeatView::guest(n as int, token@)));
        Ok(())
    }

    /// Seats one more player under a freshly drawn token and returns the token.
    /// It fails exactly when both seats are taken.
    pub fn join(&mut self) -> (res: Result<String, PoolError>)
        requires
            old(self).wf(),
        ensures
            final(self).wf(),
            match res {
                Ok(token) => {
                    &&& is_alphanumeric_string(token@, TOKEN_LEN as int)
                    &&& old(self)@.join(token@) == Ok::<RoomView, PoolError>(final(self)@)
                },
                Err(e) => {
                    &&& old(self)@.seats.len() >= 2
                    &&& e == PoolError::RoomFull
                    &&& final(self)@ == old(self)@
                },
            },
    {
        let token = random_alphanumeric(TOKEN_LEN);
        match self.join_with_token(token.clone()) {
            Ok(_) => Ok(token),
            Err(e) => Err(e),
        }
    }

    /// Sets the display name of seat `seat_index`, if `token` is the seat's token.
    pub fn set_player_info(&mut self, seat_index: i32, token: &str, name: String) -> (res: Result<
        (),
        PoolError,
    >)
        requires
            old(self).wf(),
        ensures
            final(self).wf(),
            room_outcome(
                res,
                old(self)@,
                final(self)@,
                old(self)@.set_player_info(seat_index as int, token@, name@),
            ),
    {
        let seat = match self.authorize(seat_index, token) {
            Ok(seat) => seat,
            Err(e) => {
                return Err(e);
            },
        };
        let stored = self.players[seat].token.clone();
        self.players.set(
            seat,
            ServerPlayer { token: stored, player: Player { name, player_id: seat_index } },
        );
        assert(self@.seats =~= old(self)@.seats.update(
            seat_index as int,
            SeatView { display_name: name@, ..old(self)@.seats[seat_index as int] },
        ));
        Ok(())
    }

    /// Starts the game, if `token` is the token of seat `seat_index` and the
    /// game was not started before.
    pub fn start_game(&mut self, seat_index: i32, token: &str) -> (res: Result<(), PoolError>)
        requires
            old(self).wf(),
        ensures
            final(self).wf(),
            room_outcome(
                res,
                old(self)@,
                final(self)@,
                old(self)@.start_game(seat_index as int, token@),
            ),
    {
        match self.authorize(seat_index, token) {
            Ok(_) => {},
            Err(e) => {
                return Err(e);
            },
        }
        if self.game_started {
            return Err(PoolError::AlreadyStarted);
        }
        self.game_state = Some(GameState::new());
        self.game_started = true;
        Ok(())
    }

    /// Applies the turn that the holder of seat `seat_index` submits with the
    /// resulting `balls`, and records it as the previous turn.
    pub fn post_turn(&mut self, seat_index: i32, token: &str, balls: Vec<Ball>) -> (res: Result<
        (),
        PoolError,
    >)
        requires
            old(self).wf(),
        ensures
            final(self).wf(),
            room_outcome(
                res,
                old(self)@,
                final(self)@,
                old(self)@.post_turn(seat_index as int, token@, balls@),
            ),
    {
        let seat = match self.authorize(seat_index, token) {
            Ok(seat) => seat,
            Err(e) => {
                return Err(e);
            },
        };
        let mut gs = match self.game_state.take() {
            Some(gs) => gs,
            None => {
                return Err(PoolError::NotStarted);
            },
        };
        let outcome = gs.post_turn(seat, &balls);
        proof {
            gs.lemma_wf_valid();
        }
        self.game_state = Some(gs);
        match outcome {
            Err(e) => Err(e),
            Ok(legality) => {
                self.previous_turn = Some(
                    Turn {
                        submitting_seat: seat,
                        resulting_ball_states: balls,
                        legality_outcome: legality,
                    },
                );
                Ok(())
            },
        }
    }

    /// A snapshot of the game state. It fails until the game is started.
    pub fn get_game_state(&self) -> (res: Result<GameState, PoolError>)
        requires
            self.wf(),
        ensures
            match res {
                Ok(gs) => self@.get_game_state() == Ok::<GameStateView, PoolError>(gs@) && gs.wf(),
                Err(e) => self@.get_game_state() == Err::<GameStateView, PoolError>(e),
            },
    {
        match &self.game_state {
            Some(gs) => Ok(gs.snapshot()),
            None => Err(PoolError::NotStarted),
        }
    }

    /// The verdict on the game. It fails until the game is started.
    pub fn check_win_state(&self) -> (res: Result<WinState, PoolError>)
        requires
            self.wf(),
        ensures
            res == self@.check_win_state(),
    {
        match &self.game_state {
            Some(gs) => Ok(evaluate(gs)),
            None => Err(PoolError::NotStarted),
        }
    }

    /// The last applied turn. It fails until a turn was applied.
    pub fn get_previous_turn(&self) -> (res: Result<Turn, PoolError>)
        ensures
            match res {
                Ok(turn) => self@.get_previous_turn() == Ok::<TurnView, PoolError>(turn@),
                Err(e) => self@.get_previous_turn() == Err::<TurnView, PoolError>(e),
            },
    {
        match &self.previous_turn {
            Some(turn) => Ok(turn.duplicate()),
            None => Err(PoolError::NoPreviousTurn),
        }
    }

    /// What everybody may see of the room: code, name, phase and the seats
    /// without their tokens.
    pub fn get_room(&self) -> (room: Room)
        ensures
            room@ == self@.get_room(),
    {
        let mut players: Vec<Player> = Vec::new();
        let mut i: usize = 0;
        while i < self.players.len()
            invariant
                i <= self.players@.len(),
                players@.len() == i,
                forall|j: int| 0 <= j < i ==> (#[trigger] players@[j])@ == self.players@[j]@.public(),
            decreases self.players@.len() - i,
        {
            let seat = &self.players[i];
            players.push(Player { name: seat.player.name.clone(), player_id: seat.player.player_id });
            i = i + 1;
        }
        let room = Room {
            room_code: self.room_id.clone(),
            room_name: self.room_name.clone(),
            game_started: self.game_started,
            players,
        };
        assert(room@.players =~= self@.get_room().players);
        room
    }
}

} // verus!
