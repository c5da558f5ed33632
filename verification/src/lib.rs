// Authoritative rules and bookkeeping for two-player pool matches: rooms with
// two token-protected seats, a turn-based game state machine over a sixteen-ball
// table, and a win evaluator. Every function is verified against its contract.

pub mod balls;
pub mod error;
pub mod game;
pub mod room;
pub mod server;
pub mod theorems;
pub mod token;
pub mod win;
