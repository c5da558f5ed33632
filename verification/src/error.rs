use vstd::prelude::*;

verus! {

/// The five families into which every failure falls.
#[derive(Clone, Copy, PartialEq, Eq, Structural, Debug)]
pub enum ErrorKind {
    /// A room or a seat is missing.
    NotFound,
    /// The caller does not hold the seat, or it is not the seat's turn.
    PermissionDenied,
    /// The request itself is malformed.
    InvalidArgument,
    /// The call is not valid in the room's current lifecycle phase.
    Unavailable,
    /// The request collides with what already exists.
    Conflict,
}

/// Why a call was refused. Each reason belongs to exactly one [`ErrorKind`].
#[derive(Clone, Copy, PartialEq, Eq, Structural, Debug)]
pub enum PoolError {
    /// No room is registered under the given code.
    RoomNotFound,
    /// The seat index is valid but nobody occupies that seat yet.
    SeatNotFound,
    /// The seat index is neither 0 nor 1.
    BadSeatIndex,
    /// The submitted balls are not a well-formed successor of the table.
    MalformedTurn,
    /// The supplied token is not the one stored for the seat.
    TokenMismatch,
    /// The submitting seat does not own the current turn.
    NotYourTurn,
    /// The game has not been started.
    NotStarted,
    /// No turn has been applied yet.
    NoPreviousTurn,
    /// The eight-ball is down: the match is decided and takes no more turns.
    GameOver,
    /// Both seats are occupied.
    RoomFull,
    /// The game was started before.
    AlreadyStarted,
    /// A room with the freshly drawn code already exists.
    DuplicateRoomCode,
}

impl PoolError {
    /// The family of this reason.
    pub open spec fn spec_kind(self) -> ErrorKind {
        match self {
            PoolError::RoomNotFound | PoolError::SeatNotFound => ErrorKind::NotFound,
            PoolError::BadSeatIndex | PoolError::MalformedTurn => ErrorKind::InvalidArgument,
            PoolError::TokenMismatch | PoolError::NotYourTurn => ErrorKind::PermissionDenied,
            PoolError::NotStarted | PoolError::NoPreviousTurn | PoolError::GameOver =>
                ErrorKind::Unavailable,
            PoolError::RoomFull | PoolError::AlreadyStarted | PoolError::DuplicateRoomCode =>
                ErrorKind::Conflict,
        }
    }

    #[verifier::when_used_as_spec(spec_kind)]
    pub fn kind(self) -> (k: ErrorKind)
        ensures
            k == self.spec_kind(),
    {
        match self {
            PoolError::RoomNotFound | PoolError::SeatNotFound => ErrorKind::NotFound,
            PoolError::BadSeatIndex | PoolError::MalformedTurn => ErrorKind::InvalidArgument,
            PoolError::TokenMismatch | PoolError::NotYourTurn => ErrorKind::PermissionDenied,
            PoolError::NotStarted | PoolError::NoPreviousTurn | PoolError::GameOver =>
                ErrorKind::Unavailable,
            PoolError::RoomFull | PoolError::AlreadyStarted | PoolError::DuplicateRoomCode =>
                ErrorKind::Conflict,
        }
    }

    /// A short human-readable message for this reason.
    pub fn message(self) -> (m: &'static str)
        ensures
            m@ == self.spec_message(),
    {
        match self {
            PoolError::RoomNotFound => "room does not exist",
            PoolError::SeatNotFound => "seat is not occupied",
            PoolError::BadSeatIndex => "player id is out of bounds",
            PoolError::MalformedTurn => "submitted balls are not a valid successor of the table",
            PoolError::TokenMismatch => "you are not authorized as this player",
            PoolError::NotYourTurn => "not your turn",
            PoolError::NotStarted => "game is not started yet",
            PoolError::NoPreviousTurn => "no previous turn",
            PoolError::GameOver => "game is over",
            PoolError::RoomFull => "room full",
            PoolError::AlreadyStarted => "game already started",
            PoolError::DuplicateRoomCode => "room code already in use",
        }
    }

    /// The text of [`PoolError::message`].
    pub open spec fn spec_message(self) -> Seq<char> {
        match self {
            PoolError::RoomNotFound => "room does not exist"@,
            PoolError::SeatNotFound => "seat is not occupied"@,
            PoolError::BadSeatIndex => "player id is out of bounds"@,
            PoolError::MalformedTurn => "submitted balls are not a valid successor of the table"@,
            PoolError::TokenMismatch => "you are not authorized as this player"@,
            PoolError::NotYourTurn => "not your turn"@,
            PoolError::NotStarted => "game is not started yet"@,
            PoolError::NoPreviousTurn => "no previous turn"@,
            PoolError::GameOver => "game is over"@,
            PoolError::RoomFull => "room full"@,
            PoolError::AlreadyStarted => "game already started"@,
            PoolError::DuplicateRoomCode => "room code already in use"@,
        }
    }
}

} // verus!
