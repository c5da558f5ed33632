use crate::balls::{group_cleared, is_group_cleared};
use crate::game::{group_of_seat, other_seat, GameState, GameStateView};
use vstd::prelude::*;

verus! {

/// Who has won, if anybody.
#[derive(Clone, Copy, PartialEq, Eq, Structural, Debug)]
pub enum Outcome {
    /// The eight-ball is on the table: the match goes on.
    Ongoing,
    Seat0Wins,
    Seat1Wins,
}

/// The verdict on a game state. It is never stored: it is computed from the state on demand.
#[derive(Clone, Copy, PartialEq, Eq, Structural, Debug)]
pub struct WinState {
    pub outcome: Outcome,
}

/// The verdict that `seat` has won.
pub open spec fn seat_wins(seat: int) -> WinState {
    WinState {
        outcome: if seat == 0 {
            Outcome::Seat0Wins
        } else {
            Outcome::Seat1Wins
        },
    }
}

/// The seat that pocketed the eight-ball: a turn that pockets it always passes
/// the turn on, so it is the seat that does not own the turn.
pub open spec fn eight_ball_pocketer(gs: GameStateView) -> int {
    other_seat(gs.turn_owner)
}

/// The verdict on `gs`.
///
/// While the eight-ball is on the table the match goes on. Once it is down, the
/// seat that pocketed it wins if the cue ball stayed on the table and all seven
/// balls of its assigned group are off the table; otherwise it loses, and the
/// other seat is the winner.
pub open spec fn win_state_of(gs: GameStateView) -> WinState {
    if !gs.is_over() {
        WinState { outcome: Outcome::Ongoing }
    } else if gs.table[0] && group_cleared(
        gs.table,
        group_of_seat(gs.group_of_seat0, eight_ball_pocketer(gs)),
    ) {
        seat_wins(eight_ball_pocketer(gs))
    } else {
        seat_wins(gs.turn_owner)
    }
}

/// Evaluates the win condition on `gs`.
pub fn evaluate(gs: &GameState) -> (verdict: WinState)
    requires
        gs.wf(),
    ensures
        verdict == win_state_of(gs@),
{
    proof {
        gs.lemma_wf_valid();
    }
    let balls = gs.balls();
    if balls[8].in_play {
        return WinState { outcome: Outcome::Ongoing };
    }
    let owner = gs.turn_owner();
    let pocketer = 1 - owner;
    let winner = if balls[0].in_play && is_group_cleared(balls, gs.group_of(pocketer)) {
        pocketer
    } else {
        owner
    };
    WinState {
        outcome: if winner == 0 {
            Outcome::Seat0Wins
        } else {
            Outcome::Seat1Wins
        },
    }
}

} // verus!
