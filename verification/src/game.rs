use crate::balls::{
    count_pocketed, fresh_rack, full_table, is_legal_transition, is_well_formed_rack,
    legal_transition, lemma_off_table_full, lemma_off_table_grows, newly_pocketed,
    off_table_count, pocketed_count, table_of, well_formed_rack, Ball, Group,
};
use crate::error::PoolError;
use vstd::prelude::*;

verus! {

/// How the rules judged a submitted turn.
#[derive(Clone, Copy, PartialEq, Eq, Structural, Debug)]
pub enum Legality {
    /// The cue ball stayed on the table.
    Legal,
    /// The cue ball was pocketed (a scratch).
    Foul,
}

/// The seat that is not `seat`.
pub open spec fn other_seat(seat: int) -> int {
    1 - seat
}

/// The group of `seat`, given the group of seat 0.
pub open spec fn group_of_seat(group_of_seat0: Group, seat: int) -> Group {
    if seat == 0 {
        group_of_seat0
    } else {
        group_of_seat0.complement()
    }
}

/// A turn is a foul exactly when the submitted table shows the cue ball off the table.
pub open spec fn legality_of(after: Seq<bool>) -> Legality {
    if after[0] {
        Legality::Legal
    } else {
        Legality::Foul
    }
}

/// The group a seat claims by a turn on an open table: the group of the lowest
/// newly pocketed group ball, or none.
pub open spec fn claimed_group(before: Seq<bool>, after: Seq<bool>) -> Group {
    if pocketed_count(before, after, Group::Solids) > 0 {
        Group::Solids
    } else if pocketed_count(before, after, Group::Stripes) > 0 {
        Group::Stripes
    } else {
        Group::Undetermined
    }
}

/// Mathematical model of a game in progress.
pub struct GameStateView {
    /// For each ball id, whether the ball is in play.
    pub table: Seq<bool>,
    /// For each seat, the number of balls of its own group it pocketed without a foul.
    pub scores: Seq<nat>,
    /// The group of seat 0; seat 1 has the complement.
    pub group_of_seat0: Group,
    /// The seat that may submit the next turn.
    pub turn_owner: int,
}

impl GameStateView {
    /// Sixteen balls, two seats, and no seat credited with more balls than
    /// its group has off the table.
    pub open spec fn valid(self) -> bool {
        &&& self.table.len() == 16
        &&& self.scores.len() == 2
        &&& (self.turn_owner == 0 || self.turn_owner == 1)
        &&& forall|s: int|
            0 <= s < 2 ==> #[trigger] self.scores[s] <= off_table_count(
                self.table,
                group_of_seat(self.group_of_seat0, s),
            )
    }

    /// The state right after the game is started.
    pub open spec fn initial() -> GameStateView {
        GameStateView {
            table: full_table(),
            scores: seq![0nat, 0nat],
            group_of_seat0: Group::Undetermined,
            turn_owner: 0,
        }
    }

    /// The match is decided once the eight-ball is off the table.
    pub open spec fn is_over(self) -> bool {
        !self.table[8]
    }

    /// The group of seat 0 after `seat` submits `after`: an open table is settled
    /// by a turn without foul that pockets a group ball.
    pub open spec fn next_group_of_seat0(self, seat: int, after: Seq<bool>) -> Group {
        if self.group_of_seat0 != Group::Undetermined || legality_of(after) == Legality::Foul {
            self.group_of_seat0
        } else if seat == 0 {
            claimed_group(self.table, after)
        } else {
            claimed_group(self.table, after).complement()
        }
    }

    /// Number of balls credited to `seat` for submitting `after`: the balls of its
    /// own group that the turn pocketed, none on a foul.
    pub open spec fn credited(self, seat: int, after: Seq<bool>) -> nat {
        if legality_of(after) == Legality::Foul {
            0
        } else {
            pocketed_count(
                self.table,
                after,
                group_of_seat(self.next_group_of_seat0(seat, after), seat),
            )
        }
    }

    /// The seat keeps the turn only if the turn is no foul, leaves the eight-ball
    /// where it was and pockets a ball of the seat's own group.
    pub open spec fn keeps_turn(self, seat: int, after: Seq<bool>) -> bool {
        &&& legality_of(after) == Legality::Legal
        &&& !newly_pocketed(self.table, after, 8)
        &&& self.credited(seat, after) > 0
    }

    /// The state after `seat` submits the table `after`.
    pub open spec fn after_turn(self, seat: int, after: Seq<bool>) -> GameStateView {
        GameStateView {
            table: after,
            scores: self.scores.update(seat, self.scores[seat] + self.credited(seat, after)),
            group_of_seat0: self.next_group_of_seat0(seat, after),
            turn_owner: if self.keeps_turn(seat, after) {
                seat
            } else {
                other_seat(seat)
            },
        }
    }

    /// What submitting `balls` as `seat` leads to: the next state, or the reason
    /// for which the turn is refused. Ownership of the turn is checked first, then
    /// whether the match is still open, then the shape of the submission.
    pub open spec fn post_turn(self, seat: int, balls: Seq<Ball>) -> Result<
        GameStateView,
        PoolError,
    > {
        if seat != self.turn_owner {
            Err(PoolError::NotYourTurn)
        } else if self.is_over() {
            Err(PoolError::GameOver)
        } else if !well_formed_rack(balls) || !legal_transition(self.table, table_of(balls)) {
            Err(PoolError::MalformedTurn)
        } else {
            Ok(self.after_turn(seat, table_of(balls)))
        }
    }
}

/// A turn by the owner over a legal transition leads from a valid state to a valid state.
pub proof fn lemma_after_turn_valid(gs: GameStateView, seat: int, after: Seq<bool>)
    requires
        gs.valid(),
        seat == 0 || seat == 1,
        legal_transition(gs.table, after),
    ensures
        gs.after_turn(seat, after).valid(),
        gs.scores[seat] + gs.credited(seat, after) <= 7,
{
    let next = gs.after_turn(seat, after);
    assert forall|s: int| 0 <= s < 2 implies #[trigger] next.scores[s] <= off_table_count(
        next.table,
        group_of_seat(next.group_of_seat0, s),
    ) by {
        let g_old = group_of_seat(gs.group_of_seat0, s);
        let g_new = group_of_seat(next.group_of_seat0, s);
        assert(gs.scores[s] <= off_table_count(gs.table, g_old));
        if g_new != Group::Undetermined {
            lemma_off_table_grows(gs.table, after, g_new.lo(), g_new.hi());
        }
    }
    let own = group_of_seat(next.group_of_seat0, seat);
    assert(next.scores[seat] <= off_table_count(next.table, own));
    if own != Group::Undetermined {
        lemma_off_table_full(after, own.lo(), own.hi());
    }
}

/// One match: the table, the per-seat scores, the group assignment and the turn owner.
#[derive(Debug)]
pub struct GameState {
    balls: Vec<Ball>,
    score_seat0: u8,
    score_seat1: u8,
    group_of_seat0: Group,
    turn_owner: usize,
}

impl View for GameState {
    type V = GameStateView;

    closed spec fn view(&self) -> GameStateView {
        GameStateView {
            table: table_of(self.balls@),
            scores: seq![self.score_seat0 as nat, self.score_seat1 as nat],
            group_of_seat0: self.group_of_seat0,
            turn_owner: self.turn_owner as int,
        }
    }
}

/// A copy of a rack.
pub fn copy_rack(balls: &Vec<Ball>) -> (copy: Vec<Ball>)
    ensures
        copy@ == balls@,
{
    let mut copy: Vec<Ball> = Vec::new();
    let mut i: usize = 0;
    while i < balls.len()
        invariant
            i <= balls@.len(),
            copy@ == balls@.subrange(0, i as int),
        decreases balls@.len() - i,
    {
        copy.push(balls[i]);
        assert(copy@ == balls@.subrange(0, i + 1));
        i = i + 1;
    }
    assert(copy@ == balls@);
    copy
}

impl GameState {
    /// The rack is well formed and the model is valid.
    pub closed spec fn wf(&self) -> bool {
        &&& well_formed_rack(self.balls@)
        &&& self@.valid()
    }

    /// A well-formed state has a valid model.
    pub proof fn lemma_wf_valid(&self)
        requires
            self.wf(),
        ensures
            self@.valid(),
    {
    }

    /// A fresh game: all sixteen balls in play, scores zero, groups undetermined,
    /// seat 0 to play.
    pub fn new() -> (gs: GameState)
        ensures
            gs.wf(),
            gs@ == GameStateView::initial(),
    {
        let gs = GameState {
            balls: fresh_rack(),
            score_seat0: 0,
            score_seat1: 0,
            group_of_seat0: Group::Undetermined,
            turn_owner: 0,
        };
        assert(gs@.scores =~= GameStateView::initial().scores);
        gs
    }

    /// The sixteen balls, ball `i` at position `i`.
    pub fn balls(&self) -> (balls: &Vec<Ball>)
        requires
            self.wf(),
        ensures
            well_formed_rack(balls@),
            table_of(balls@) == self@.table,
    {
        &self.balls
    }

    /// The scores of seat 0 and seat 1.
    pub fn scores(&self) -> (scores: (u8, u8))
        ensures
            self@.scores == seq![scores.0 as nat, scores.1 as nat],
    {
        (self.score_seat0, self.score_seat1)
    }

    /// The group of seat 0.
    pub fn group_of_seat0(&self) -> (g: Group)
        ensures
            g == self@.group_of_seat0,
    {
        self.group_of_seat0
    }

    /// The group of `seat`: that of seat 0 for seat 0, its complement for any other.
    pub fn group_of(&self, seat: usize) -> (g: Group)
        ensures
            g == group_of_seat(self@.group_of_seat0, seat as int),
    {
        if seat == 0 {
            self.group_of_seat0
        } else {
            self.group_of_seat0.complement()
        }
    }

    /// The seat that may submit the next turn.
    pub fn turn_owner(&self) -> (seat: usize)
        ensures
            seat == self@.turn_owner,
    {
        self.turn_owner
    }

    /// Whether the eight-ball is off the table.
    pub fn is_over(&self) -> (over: bool)
        requires
            self.wf(),
        ensures
            over == self@.is_over(),
    {
        !self.balls[8].in_play
    }

    /// A copy of this state.
    pub fn snapshot(&self) -> (copy: GameState)
        ensures
            copy@ == self@,
            copy.wf() == self.wf(),
    {
        GameState {
            balls: copy_rack(&self.balls),
            score_seat0: self.score_seat0,
            score_seat1: self.score_seat1,
            group_of_seat0: self.group_of_seat0,
            turn_owner: self.turn_owner,
        }
    }

    /// Applies the turn that `seat` submits with the resulting `balls`.
    ///
    /// The turn is refused, and the state left as it was, when `seat` does not own
    /// the turn, when the match is already decided, or when `balls` is not a
    /// well-formed rack that may follow the current table. Otherwise the table is
    /// replaced, the group assignment settled, the submitting seat credited and the
    /// turn owner updated as [`GameStateView::after_turn`] says.
    pub fn post_turn(&mut self, seat: usize, balls: &Vec<Ball>) -> (res: Result<
        Legality,
        PoolError,
    >)
        requires
            old(self).wf(),
        ensures
            final(self).wf(),
            match res {
                Ok(legality) => {
                    &&& old(self)@.post_turn(seat as int, balls@) == Ok::<
                        GameStateView,
                        PoolError,
                    >(final(self)@)
                    &&& legality == legality_of(table_of(balls@))
                },
                Err(e) => {
                    &&& old(self)@.post_turn(seat as int, balls@) == Err::<
                        GameStateView,
                        PoolError,
                    >(e)
                    &&& *final(self) == *old(self)
                },
            },
    {
        if seat != self.turn_owner {
            return Err(PoolError::NotYourTurn);
        }
        if !self.balls[8].in_play {
            return Err(PoolError::GameOver);
        }
        if !is_well_formed_rack(balls) || !is_legal_transition(&self.balls, balls) {
            return Err(PoolError::MalformedTurn);
        }
        let ghost before = self@;
        let ghost after = table_of(balls@);
        proof {
            lemma_after_turn_valid(before, seat as int, after);
        }
        let foul = !balls[0].in_play;
        let eight_pocketed = !balls[8].in_play;
        let group_of_seat0 = if self.group_of_seat0 != Group::Undetermined || foul {
            self.group_of_seat0
        } else {
            let claimed = if count_pocketed(&self.balls, balls, Group::Solids) > 0 {
                Group::Solids
            } else if count_pocketed(&self.balls, balls, Group::Stripes) > 0 {
                Group::Stripes
            } else {
                Group::Undetermined
            };
            if seat == 0 {
                claimed
            } else {
                claimed.complement()
            }
        };
        let own = if seat == 0 {
            group_of_seat0
        } else {
            group_of_seat0.complement()
        };
        let credited: u8 = if foul {
            0
        } else {
            count_pocketed(&self.balls, balls, own)
        };
        assert(group_of_seat0 == before.next_group_of_seat0(seat as int, after));
        assert(credited == before.credited(seat as int, after));
        let keeps = !foul && !eight_pocketed && credited > 0;
        assert(keeps == before.keeps_turn(seat as int, after));
        if seat == 0 {
            self.score_seat0 = self.score_seat0 + credited;
        } else {
            self.score_seat1 = self.score_seat1 + credited;
        }
        self.group_of_seat0 = group_of_seat0;
        self.turn_owner = if keeps {
            seat
        } else {
            1 - seat
        };
        self.balls = copy_rack(balls);
        assert(self@.scores =~= before.after_turn(seat as int, after).scores);
        assert(self@ == before.after_turn(seat as int, after));
        Ok(
            if foul {
                Legality::Foul
            } else {
                Legality::Legal
            },
        )
    }
}

} // verus!

verus! {

/// Mathematical model of a [`Turn`].
pub struct TurnView {
    pub submitting_seat: int,
    pub balls: Seq<Ball>,
    pub legality_outcome: Legality,
}

/// The record of one applied turn: who submitted it, the balls it left, and how
/// the rules judged it.
#[derive(Debug)]
pub struct Turn {
    pub submitting_seat: usize,
    pub resulting_ball_states: Vec<Ball>,
    pub legality_outcome: Legality,
}

impl View for Turn {
    type V = TurnView;

    open spec fn view(&self) -> TurnView {
        TurnView {
            submitting_seat: self.submitting_seat as int,
            balls: self.resulting_ball_states@,
            legality_outcome: self.legality_outcome,
        }
    }
}

impl Turn {
    /// A copy of this record.
    pub fn duplicate(&self) -> (copy: Turn)
        ensures
            copy@ == self@,
    {
        Turn {
            submitting_seat: self.submitting_seat,
            resulting_ball_states: copy_rack(&self.resulting_ball_states),
            legality_outcome: self.legality_outcome,
        }
    }
}

} // verus!
