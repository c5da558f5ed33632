use vstd::prelude::*;

verus! {

/// Number of balls on a table: the cue ball, seven solids, the eight-ball, seven stripes.
pub const BALL_COUNT: usize = 16;

/// Id of the cue ball.
pub const CUE_BALL: usize = 0;

/// Id of the eight-ball.
pub const EIGHT_BALL: usize = 8;

/// Number of balls in each of the two groups.
pub const GROUP_SIZE: usize = 7;

/// One ball: its id (its position in the rack) and whether it is still on the table.
#[derive(Clone, Copy, PartialEq, Eq, Structural, Debug)]
pub struct Ball {
    pub id: u8,
    pub in_play: bool,
}

/// The group of balls a seat has to clear.
#[derive(Clone, Copy, PartialEq, Eq, Structural, Debug)]
pub enum Group {
    Undetermined,
    Solids,
    Stripes,
}

impl Group {
    /// First id of the group (an empty range for `Undetermined`).
    pub open spec fn lo(self) -> int {
        match self {
            Group::Undetermined => 0,
            Group::Solids => 1,
            Group::Stripes => 9,
        }
    }

    /// One past the last id of the group.
    pub open spec fn hi(self) -> int {
        match self {
            Group::Undetermined => 0,
            Group::Solids => 8,
            Group::Stripes => 16,
        }
    }

    /// Whether the ball `id` belongs to this group.
    pub open spec fn contains(self, id: int) -> bool {
        self.lo() <= id < self.hi()
    }

    /// The group of the other seat.
    pub open spec fn spec_complement(self) -> Group {
        match self {
            Group::Undetermined => Group::Undetermined,
            Group::Solids => Group::Stripes,
            Group::Stripes => Group::Solids,
        }
    }

    #[verifier::when_used_as_spec(spec_complement)]
    pub fn complement(self) -> (g: Group)
        ensures
            g == self.spec_complement(),
    {
        match self {
            Group::Undetermined => Group::Undetermined,
            Group::Solids => Group::Stripes,
            Group::Stripes => Group::Solids,
        }
    }

    /// The id range `[lo, hi)` of the group.
    pub fn id_range(self) -> (r: (usize, usize))
        ensures
            r.0 == self.lo(),
            r.1 == self.hi(),
    {
        match self {
            Group::Undetermined => (0, 0),
            Group::Solids => (1, 8),
            Group::Stripes => (9, 16),
        }
    }
}

/// A rack is well formed when it holds sixteen balls and ball `i` sits at position `i`.
pub open spec fn well_formed_rack(balls: Seq<Ball>) -> bool {
    &&& balls.len() == 16
    &&& forall|i: int| 0 <= i < 16 ==> (#[trigger] balls[i]).id == i
}

/// The table of a rack: for each id, whether that ball is in play.
pub open spec fn table_of(balls: Seq<Ball>) -> Seq<bool> {
    Seq::new(balls.len(), |i: int| balls[i].in_play)
}

/// The table at the start of a game: every ball in play.
pub open spec fn full_table() -> Seq<bool> {
    Seq::new(16, |i: int| true)
}

/// Ball `id` was on the table before and is off it after.
pub open spec fn newly_pocketed(before: Seq<bool>, after: Seq<bool>, id: int) -> bool {
    before[id] && !after[id]
}

/// Number of ids in `[lo, hi)` that were newly pocketed between the two tables.
pub open spec fn pocketed_between(before: Seq<bool>, after: Seq<bool>, lo: int, hi: int) -> nat
    decreases hi - lo,
{
    if lo >= hi {
        0
    } else {
        pocketed_between(before, after, lo, hi - 1) + if newly_pocketed(before, after, hi - 1) {
            1nat
        } else {
            0nat
        }
    }
}

/// Number of balls of group `g` newly pocketed between the two tables.
pub open spec fn pocketed_count(before: Seq<bool>, after: Seq<bool>, g: Group) -> nat {
    pocketed_between(before, after, g.lo(), g.hi())
}

/// Number of ids in `[lo, hi)` that are off the table.
pub open spec fn off_table_between(table: Seq<bool>, lo: int, hi: int) -> nat
    decreases hi - lo,
{
    if lo >= hi {
        0
    } else {
        off_table_between(table, lo, hi - 1) + if !table[hi - 1] {
            1nat
        } else {
            0nat
        }
    }
}

/// Number of balls of group `g` that are off the table.
pub open spec fn off_table_count(table: Seq<bool>, g: Group) -> nat {
    off_table_between(table, g.lo(), g.hi())
}

/// A determined group is cleared when all seven of its balls are off the table.
pub open spec fn group_cleared(table: Seq<bool>, g: Group) -> bool {
    &&& g != Group::Undetermined
    &&& forall|id: int| g.contains(id) ==> !(#[trigger] table[id])
}

/// `after` may follow `before`: sixteen flags, and no ball but the cue ball returns
/// to the table once it is off.
pub open spec fn legal_transition(before: Seq<bool>, after: Seq<bool>) -> bool {
    &&& after.len() == 16
    &&& forall|id: int| 1 <= id < 16 && #[trigger] after[id] ==> before[id]
}

/// Some ball in `[lo, hi)` was newly pocketed exactly when the count is positive.
pub proof fn lemma_pocketed_between_positive(before: Seq<bool>, after: Seq<bool>, lo: int, hi: int)
    ensures
        pocketed_between(before, after, lo, hi) > 0 <==> exists|id: int|
            lo <= id < hi && newly_pocketed(before, after, id),
        pocketed_between(before, after, lo, hi) <= if hi >= lo { hi - lo } else { 0 },
    decreases hi - lo,
{
    if lo < hi {
        lemma_pocketed_between_positive(before, after, lo, hi - 1);
        if pocketed_between(before, after, lo, hi) > 0 {
            if newly_pocketed(before, after, hi - 1) {
                assert(lo <= hi - 1 < hi && newly_pocketed(before, after, hi - 1));
            } else {
                let id = choose|id: int| lo <= id < hi - 1 && newly_pocketed(before, after, id);
                assert(lo <= id < hi && newly_pocketed(before, after, id));
            }
        }
        if exists|id: int| lo <= id < hi && newly_pocketed(before, after, id) {
            let id = choose|id: int| lo <= id < hi && newly_pocketed(before, after, id);
            if id != hi - 1 {
                assert(lo <= id < hi - 1 && newly_pocketed(before, after, id));
            }
        }
    }
}

/// Across a legal transition the off-table count of a range grows by exactly the
/// number of balls newly pocketed in it.
pub proof fn lemma_off_table_grows(before: Seq<bool>, after: Seq<bool>, lo: int, hi: int)
    requires
        before.len() == 16,
        legal_transition(before, after),
        1 <= lo,
        hi <= 16,
    ensures
        off_table_between(after, lo, hi) == off_table_between(before, lo, hi) + pocketed_between(
            before,
            after,
            lo,
            hi,
        ),
        off_table_between(after, lo, hi) <= if hi >= lo { hi - lo } else { 0 },
    decreases hi - lo,
{
    if lo < hi {
        lemma_off_table_grows(before, after, lo, hi - 1);
        assert(after[hi - 1] ==> before[hi - 1]);
    }
}

/// A range is entirely off the table exactly when its off-table count is its length.
pub proof fn lemma_off_table_full(table: Seq<bool>, lo: int, hi: int)
    requires
        lo <= hi,
    ensures
        off_table_between(table, lo, hi) <= hi - lo,
        off_table_between(table, lo, hi) == hi - lo <==> forall|id: int|
            lo <= id < hi ==> !(#[trigger] table[id]),
    decreases hi - lo,
{
    if lo < hi {
        lemma_off_table_full(table, lo, hi - 1);
        if off_table_between(table, lo, hi) == hi - lo {
            assert forall|id: int| lo <= id < hi implies !(#[trigger] table[id]) by {
                if id < hi - 1 {
                }
            }
        }
    }
}

/// A fresh rack: sixteen balls, all in play.
pub fn fresh_rack() -> (rack: Vec<Ball>)
    ensures
        well_formed_rack(rack@),
        table_of(rack@) == full_table(),
{
    let mut rack: Vec<Ball> = Vec::new();
    let mut id: u8 = 0;
    while id < 16
        invariant
            id <= 16,
            rack@.len() == id,
            forall|i: int| 0 <= i < id ==> (#[trigger] rack@[i]).id == i && rack@[i].in_play,
        decreases 16 - id,
    {
        rack.push(Ball { id, in_play: true });
        id = id + 1;
    }
    assert(table_of(rack@) =~= full_table());
    rack
}

/// Whether `balls` is a well-formed rack.
pub fn is_well_formed_rack(balls: &Vec<Ball>) -> (ok: bool)
    ensures
        ok == well_formed_rack(balls@),
{
    if balls.len() != 16 {
        return false;
    }
    let mut i: usize = 0;
    while i < 16
        invariant
            i <= 16,
            balls@.len() == 16,
            forall|j: int| 0 <= j < i ==> (#[trigger] balls@[j]).id == j,
        decreases 16 - i,
    {
        if balls[i].id as usize != i {
            return false;
        }
        i = i + 1;
    }
    true
}

/// Whether the table of `after` may follow the table of `before`.
pub fn is_legal_transition(before: &Vec<Ball>, after: &Vec<Ball>) -> (ok: bool)
    requires
        before@.len() == 16,
    ensures
        ok == legal_transition(table_of(before@), table_of(after@)),
{
    if after.len() != 16 {
        return false;
    }
    let mut i: usize = 1;
    while i < 16
        invariant
            1 <= i <= 16,
            before@.len() == 16,
            after@.len() == 16,
            forall|j: int|
                1 <= j < i && #[trigger] table_of(after@)[j] ==> table_of(before@)[j],
        decreases 16 - i,
    {
        if after[i].in_play && !before[i].in_play {
            assert(table_of(after@)[i as int] && !table_of(before@)[i as int]);
            return false;
        }
        i = i + 1;
    }
    true
}

/// Number of balls of group `g` that `after` shows newly pocketed.
pub fn count_pocketed(before: &Vec<Ball>, after: &Vec<Ball>, g: Group) -> (n: u8)
    requires
        before@.len() == 16,
        after@.len() == 16,
    ensures
        n == pocketed_count(table_of(before@), table_of(after@), g),
        n <= 7,
{
    let (lo, hi) = g.id_range();
    let mut n: u8 = 0;
    let mut i: usize = lo;
    while i < hi
        invariant
            lo <= i <= hi <= 16,
            hi - lo <= 7,
            before@.len() == 16,
            after@.len() == 16,
            n == pocketed_between(table_of(before@), table_of(after@), lo as int, i as int),
            n <= i - lo,
        decreases hi - i,
    {
        if before[i].in_play && !after[i].in_play {
            n = n + 1;
        }
        i = i + 1;
    }
    n
}

/// Whether the determined group `g` has all its balls off the table.
pub fn is_group_cleared(balls: &Vec<Ball>, g: Group) -> (cleared: bool)
    requires
        balls@.len() == 16,
    ensures
        cleared == group_cleared(table_of(balls@), g),
{
    let (lo, hi) = g.id_range();
    if lo == hi {
        return false;
    }
    let mut i: usize = lo;
    while i < hi
        invariant
            lo <= i <= hi <= 16,
            g != Group::Undetermined,
            lo == g.lo(),
            hi == g.hi(),
            balls@.len() == 16,
            forall|id: int| lo <= id < i ==> !(#[trigger] table_of(balls@)[id]),
        decreases hi - i,
    {
        if balls[i].in_play {
            assert(table_of(balls@)[i as int]);
            return false;
        }
        i = i + 1;
    }
    true
}

} // verus!
