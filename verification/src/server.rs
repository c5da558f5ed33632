use crate::balls::Ball;
use crate::error::PoolError;
use crate::game::{GameState, GameStateView, Turn, TurnView};
use crate::room::{PublicRoomView, Room, RoomView, SeatView, ServerRoom};
use crate::token::{is_alphanumeric_string, random_alphanumeric, ROOM_CODE_LEN, TOKEN_LEN};
use crate::win::WinState;
use vstd::hash_map::StringHashMap;
use vstd::prelude::*;

verus! {

/// Mathematical model of the registry: the rooms by their codes.
pub struct RegistryView {
    pub rooms: Map<Seq<char>, RoomView>,
}

impl RegistryView {
    /// There are finitely many rooms, and every room is valid, is filed under its
    /// own code and has its first seat taken.
    pub open spec fn valid(self) -> bool {
        &&& self.rooms.dom().finite()
        &&& forall|code: Seq<char>| #[trigger]
            self.rooms.contains_key(code) ==> {
                &&& self.rooms[code].valid()
                &&& self.rooms[code].room_code == code
                &&& self.rooms[code].seats.len() >= 1
            }
    }

    /// The registry without any room.
    pub open spec fn empty() -> RegistryView {
        RegistryView { rooms: Map::empty() }
    }

    /// The room filed under `code`.
    pub open spec fn lookup(self, code: Seq<char>) -> Result<RoomView, PoolError> {
        if self.rooms.contains_key(code) {
            Ok(self.rooms[code])
        } else {
            Err(PoolError::RoomNotFound)
        }
    }

    /// The registry with the room under `code` replaced by the outcome of a call on it.
    pub open spec fn store(self, code: Seq<char>, outcome: Result<RoomView, PoolError>) -> Result<
        RegistryView,
        PoolError,
    > {
        match outcome {
            Ok(room) => Ok(RegistryView { rooms: self.rooms.insert(code, room) }),
            Err(e) => Err(e),
        }
    }

    /// A room as it is right after its creation: seat 0 taken under `token`.
    pub open spec fn created_room(code: Seq<char>, token: Seq<char>) -> RoomView {
        RoomView { seats: seq![SeatView::guest(0, token)], ..RoomView::fresh(code) }
    }

    /// The registry after a room is created under `code` with seat 0 held under `token`.
    pub open spec fn create_room(self, code: Seq<char>, token: Seq<char>) -> Result<
        RegistryView,
        PoolError,
    > {
        if self.rooms.contains_key(code) {
            Err(PoolError::DuplicateRoomCode)
        } else {
            self.store(code, Ok(Self::created_room(code, token)))
        }
    }

    /// The registry after a second player joins the room `code` under `token`.
    pub open spec fn join_room(self, code: Seq<char>, token: Seq<char>) -> Result<
        RegistryView,
        PoolError,
    > {
        match self.lookup(code) {
            Err(e) => Err(e),
            Ok(room) => self.store(code, room.join(token)),
        }
    }

    /// The registry after the holder of a seat of room `code` names itself.
    pub open spec fn set_player_info(
        self,
        code: Seq<char>,
        seat_index: int,
        token: Seq<char>,
        name: Seq<char>,
    ) -> Result<RegistryView, PoolError> {
        match self.lookup(code) {
            Err(e) => Err(e),
            Ok(room) => self.store(code, room.set_player_info(seat_index, token, name)),
        }
    }

    /// The registry after the holder of a seat of room `code` starts the game.
    pub open spec fn start_game(self, code: Seq<char>, seat_index: int, token: Seq<char>) -> Result<
        RegistryView,
        PoolError,
    > {
        match self.lookup(code) {
            Err(e) => Err(e),
            Ok(room) => self.store(code, room.start_game(seat_index, token)),
        }
    }

    /// The registry after the holder of a seat of room `code` submits a turn.
    pub open spec fn post_turn(
        self,
        code: Seq<char>,
        seat_index: int,
        token: Seq<char>,
        balls: Seq<Ball>,
    ) -> Result<RegistryView, PoolError> {
        match self.lookup(code) {
            Err(e) => Err(e),
            Ok(room) => self.store(code, room.post_turn(seat_index, token, balls)),
        }
    }

    /// What everybody may see of the room `code`.
    pub open spec fn get_room(self, code: Seq<char>) -> Result<PublicRoomView, PoolError> {
        match self.lookup(code) {
            Err(e) => Err(e),
            Ok(room) => Ok(room.get_room()),
        }
    }

    /// The game state of the room `code`.
    pub open spec fn get_game_state(self, code: Seq<char>) -> Result<GameStateView, PoolError> {
        match self.lookup(code) {
            Err(e) => Err(e),
            Ok(room) => room.get_game_state(),
        }
    }

    /// The verdict on the game of the room `code`.
    pub open spec fn check_win_state(self, code: Seq<char>) -> Result<WinState, PoolError> {
        match self.lookup(code) {
            Err(e) => Err(e),
            Ok(room) => room.check_win_state(),
        }
    }

    /// The last turn applied in the room `code`.
    pub open spec fn get_previous_turn(self, code: Seq<char>) -> Result<TurnView, PoolError> {
        match self.lookup(code) {
            Err(e) => Err(e),
            Ok(room) => room.get_previous_turn(),
        }
    }
}

/// The result `res` of a call that changes the registry agrees with `expected`:
/// on success the registry became the expected one, on failure the reason is
/// the expected one and the registry kept its value.
pub open spec fn registry_outcome(
    res: Result<(), PoolError>,
    before: RegistryView,
    after: RegistryView,
    expected: Result<RegistryView, PoolError>,
) -> bool {
    match res {
        Ok(_) => expected == Ok::<RegistryView, PoolError>(after),
        Err(e) => expected == Err::<RegistryView, PoolError>(e) && after == before,
    }
}

/// What the creator of a room gets back: the room's code and the token of seat 0.
#[derive(Debug)]
pub struct RoomCreation {
    pub room_code: String,
    pub player_token: String,
}

/// The registry of rooms, keyed by room code. Every call on a match goes through it.
pub struct PoolServer {
    rooms: StringHashMap<ServerRoom>,
}

impl View for PoolServer {
    type V = RegistryView;

    closed spec fn view(&self) -> RegistryView {
        RegistryView { rooms: self.rooms@.map_values(|room: ServerRoom| room@) }
    }
}

impl PoolServer {
    /// Every room is well formed, and the model is valid.
    pub closed spec fn wf(&self) -> bool {
        &&& self@.valid()
        &&& forall|code: Seq<char>| #[trigger]
            self.rooms@.contains_key(code) ==> self.rooms@[code].wf()
    }

    /// A well-formed registry has a valid model.
    pub proof fn lemma_wf_valid(&self)
        requires
            self.wf(),
        ensures
            self@.valid(),
    {
    }

    /// A registry without rooms.
    pub fn new() -> (server: PoolServer)
        ensures
            server.wf(),
            server@ == RegistryView::empty(),
    {
        let server = PoolServer { rooms: StringHashMap::new() };
        assert(server@.rooms =~= Map::empty());
        assert(server@.rooms.dom() =~= Set::empty());
        server
    }

    /// Number of rooms.
    pub fn room_count(&self) -> (n: usize)
        ensures
            n == self@.rooms.len(),
    {
        broadcast use vstd::hash_map::group_hash_map_axioms;

        assert(self@.rooms.dom() =~= self.rooms@.dom());
        self.rooms.len()
    }

    /// Whether a room is filed under `room_code`.
    pub fn contains_room(&self, room_code: &str) -> (found: bool)
        ensures
            found == self@.rooms.contains_key(room_code@),
    {
        self.rooms.contains_key(room_code)
    }

    /// Files `room` under `room_code`, in place of any room that was there.
    fn put(&mut self, room_code: &str, room: ServerRoom)
        requires
            old(self).wf(),
            room.wf(),
            room@.room_code == room_code@,
            room@.seats.len() >= 1,
        ensures
            final(self).wf(),
            final(self)@.rooms == old(self)@.rooms.insert(room_code@, room@),
    {
        proof {
            room.lemma_wf_valid();
        }
        self.rooms.insert(room_code.to_owned(), room);
        assert(self@.rooms =~= old(self)@.rooms.insert(room_code@, room@));
        assert(self@.rooms.dom() =~= old(self)@.rooms.dom().insert(room_code@));
    }

    /// A copy of the room filed under `room_code`, as it is now. It fails with
    /// `RoomNotFound` when no room is filed under the code.
    pub fn lookup(&self, room_code: &str) -> (res: Result<ServerRoom, PoolError>)
        requires
            self.wf(),
        ensures
            match res {
                Ok(room) => {
                    &&& self@.lookup(room_code@) == Ok::<RoomView, PoolError>(room@)
                    &&& room.wf()
                    &&& room@.room_code == room_code@
                    &&& room@.seats.len() >= 1
                },
                Err(e) => self@.lookup(room_code@) == Err::<RoomView, PoolError>(e),
            },
    {
        match self.rooms.get(room_code) {
            Some(room) => Ok(room.duplicate()),
            None => Err(PoolError::RoomNotFound),
        }
    }

    /// Creates a room under `room_code` whose seat 0 is held under `token`. It
    /// fails, and changes nothing, when a room is already filed under that code.
    pub fn create_room_with(&mut self, room_code: String, token: String) -> (res: Result<
        (),
        PoolError,
    >)
        requires
            old(self).wf(),
        ensures
            final(self).wf(),
            registry_outcome(
                res,
                old(self)@,
                final(self)@,
                old(self)@.create_room(room_code@, token@),
            ),
            res is Ok ==> final(self)@.rooms.len() == old(self)@.rooms.len() + 1,
    {
        if self.rooms.contains_key(room_code.as_str()) {
            return Err(PoolError::DuplicateRoomCode);
        }
        let mut room = ServerRoom::new(room_code.clone());
        match room.join_with_token(token) {
            Ok(_) => {},
            Err(e) => {
                return Err(e);
            },
        }
        proof {
            room.lemma_wf_valid();
            assert(room@.seats =~= seq![SeatView::guest(0, token@)]);
        }
        self.put(room_code.as_str(), room);
        Ok(())
    }

    /// Creates a room under a freshly drawn code of six letters and digits, with
    /// seat 0 held under a freshly drawn token, and returns both. It fails, and
    /// changes nothing, only when the drawn code is already in use.
    pub fn create_room(&mut self) -> (res: Result<RoomCreation, PoolError>)
        requires
            old(self).wf(),
        ensures
            final(self).wf(),
            match res {
                Ok(creation) => {
                    &&& is_alphanumeric_string(creation.room_code@, ROOM_CODE_LEN as int)
                    &&& is_alphanumeric_string(creation.player_token@, TOKEN_LEN as int)
                    &&& old(self)@.create_room(creation.room_code@, creation.player_token@) == Ok::<
                        RegistryView,
                        PoolError,
                    >(final(self)@)
                },
                Err(e) => {
                    &&& e == PoolError::DuplicateRoomCode
                    &&& final(self)@ == old(self)@
                    &&& exists|code: Seq<char>|
                        is_alphanumeric_string(code, ROOM_CODE_LEN as int) && #[trigger] old(
                            self,
                        )@.rooms.contains_key(code)
                },
            },
            res is Ok ==> final(self)@.rooms.len() == old(self)@.rooms.len() + 1,
    {
        let room_code = random_alphanumeric(ROOM_CODE_LEN);
        let player_token = random_alphanumeric(TOKEN_LEN);
        match self.create_room_with(room_code.clone(), player_token.clone()) {
            Ok(_) => Ok(RoomCreation { room_code, player_token }),
            Err(e) => Err(e),
        }
    }

    /// Seats a second player in the room `room_code` under `token`.
    pub fn join_room_with(&mut self, room_code: &str, token: String) -> (res: Result<(), PoolError>)
        requires
            old(self).wf(),
        ensures
            final(self).wf(),
            registry_outcome(
                res,
                old(self)@,
                final(self)@,
                old(self)@.join_room(room_code@, token@),
            ),
    {
        let mut room = match self.lookup(room_code) {
            Ok(room) => room,
            Err(e) => {
                return Err(e);
            },
        };
        match room.join_with_token(token) {
            Ok(_) => {
                self.put(room_code, room);
                Ok(())
            },
            Err(e) => Err(e),
        }
    }

    /// Seats a second player in the room `room_code` under a freshly drawn token
    /// and returns the token. It fails with `RoomNotFound` when no room is filed
    /// under the code and with `RoomFull` when both seats are taken.
    pub fn join_room(&mut self, room_code: &str) -> (res: Result<String, PoolError>)
        requires
            old(self).wf(),
        ensures
            final(self).wf(),
            match res {
                Ok(token) => {
                    &&& is_alphanumeric_string(token@, TOKEN_LEN as int)
                    &&& old(self)@.join_room(room_code@, token@) == Ok::<RegistryView, PoolError>(
                        final(self)@,
                    )
                },
                Err(e) => {
                    &&& final(self)@ == old(self)@
                    &&& forall|token: Seq<char>|
                        #[trigger] old(self)@.join_room(room_code@, token) == Err::<
                            RegistryView,
                            PoolError,
                        >(e)
                },
            },
    {
        let token = random_alphanumeric(TOKEN_LEN);
        match self.join_room_with(room_code, token.clone()) {
            Ok(_) => Ok(token),
            Err(e) => Err(e),
        }
    }

    /// What everybody may see of the room `room_code`: no tokens.
    pub fn get_room(&self, room_code: &str) -> (res: Result<Room, PoolError>)
        requires
            self.wf(),
        ensures
            match res {
                Ok(room) => self@.get_room(room_code@) == Ok::<PublicRoomView, PoolError>(room@),
                Err(e) => self@.get_room(room_code@) == Err::<PublicRoomView, PoolError>(e),
            },
    {
        match self.rooms.get(room_code) {
            Some(room) => Ok(room.get_room()),
            None => Err(PoolError::RoomNotFound),
        }
    }

    /// Sets the display name of a seat of the room `room_code`.
    pub fn set_player_info(
        &mut self,
        room_code: &str,
        seat_index: i32,
        token: &str,
        name: String,
    ) -> (res: Result<(), PoolError>)
        requires
            old(self).wf(),
        ensures
            final(self).wf(),
            registry_outcome(
                res,
                old(self)@,
                final(self)@,
                old(self)@.set_player_info(room_code@, seat_index as int, token@, name@),
            ),
    {
        let mut room = match self.lookup(room_code) {
            Ok(room) => room,
            Err(e) => {
                return Err(e);
            },
        };
        match room.set_player_info(seat_index, token, name) {
            Ok(_) => {
                self.put(room_code, room);
                Ok(())
            },
            Err(e) => Err(e),
        }
    }

    /// Starts the game of the room `room_code`.
    pub fn start_game(&mut self, room_code: &str, seat_index: i32, token: &str) -> (res: Result<
        (),
        PoolError,
    >)
        requires
            old(self).wf(),
        ensures
            final(self).wf(),
            registry_outcome(
                res,
                old(self)@,
                final(self)@,
                old(self)@.start_game(room_code@, seat_index as int, token@),
            ),
    {
        let mut room = match self.lookup(room_code) {
            Ok(room) => room,
            Err(e) => {
                return Err(e);
            },
        };
        match room.start_game(seat_index, token) {
            Ok(_) => {
                self.put(room_code, room);
                Ok(())
            },
            Err(e) => Err(e),
        }
    }

    /// A snapshot of the game state of the room `room_code`.
    pub fn get_game_state(&self, room_code: &str) -> (res: Result<GameState, PoolError>)
        requires
            self.wf(),
        ensures
            match res {
                Ok(gs) => {
                    &&& self@.get_game_state(room_code@) == Ok::<GameStateView, PoolError>(gs@)
                    &&& gs.wf()
                },
                Err(e) => self@.get_game_state(room_code@) == Err::<GameStateView, PoolError>(e),
            },
    {
        match self.rooms.get(room_code) {
            Some(room) => room.get_game_state(),
            None => Err(PoolError::RoomNotFound),
        }
    }

    /// Applies a submitted turn to the game of the room `room_code`. The whole
    /// check-and-apply sequence happens in this one call on the registry.
    pub fn post_turn(
        &mut self,
        room_code: &str,
        seat_index: i32,
        token: &str,
        balls: Vec<Ball>,
    ) -> (res: Result<(), PoolError>)
        requires
            old(self).wf(),
        ensures
            final(self).wf(),
            registry_outcome(
                res,
                old(self)@,
                final(self)@,
                old(self)@.post_turn(room_code@, seat_index as int, token@, balls@),
            ),
    {
        let mut room = match self.lookup(room_code) {
            Ok(room) => room,
            Err(e) => {
                return Err(e);
            },
        };
        match room.post_turn(seat_index, token, balls) {
            Ok(_) => {
                self.put(room_code, room);
                Ok(())
            },
            Err(e) => Err(e),
        }
    }

    /// The verdict on the game of the room `room_code`.
    pub fn check_win_state(&self, room_code: &str) -> (res: Result<WinState, PoolError>)
        requires
            self.wf(),
        ensures
            res == self@.check_win_state(room_code@),
    {
        match self.rooms.get(room_code) {
            Some(room) => room.check_win_state(),
            None => Err(PoolError::RoomNotFound),
        }
    }

    /// The last turn applied in the room `room_code`.
    pub fn get_previous_turn(&self, room_code: &str) -> (res: Result<Turn, PoolError>)
        requires
            self.wf(),
        ensures
            match res {
                Ok(turn) => self@.get_previous_turn(room_code@) == Ok::<TurnView, PoolError>(turn@),
                Err(e) => self@.get_previous_turn(room_code@) == Err::<TurnView, PoolError>(e),
            },
    {
        match self.rooms.get(room_code) {
            Some(room) => room.get_previous_turn(),
            None => Err(PoolError::RoomNotFound),
        }
    }
}

impl Default for PoolServer {
    fn default() -> (server: PoolServer)
        ensures
            server.wf(),
            server@ == RegistryView::empty(),
    {
        PoolServer::new()
    }
}

} // verus!
