//! Aggregate outcome statistics for a position and its candidate replies,
//! with the score and coverage metrics the selector filters on.

use vstd::prelude::*;
use vstd::arithmetic::div_mod::lemma_div_is_ordered;
use vstd::arithmetic::div_mod::lemma_div_by_multiple;

verus! {

/// Side to move in the current position.
#[derive(Clone, Copy, PartialEq, Eq, Structural, Debug)]
pub enum Turn {
    White,
    Black,
}

/// One candidate reply: protocol notation, readable notation, and its own
/// outcome counts.
pub struct MoveStats {
    pub uci: String,
    pub san: String,
    pub white: u64,
    pub draws: u64,
    pub black: u64,
}

/// Aggregate outcome counts for a position plus its ordered candidate replies.
pub struct PositionInfo {
    pub white: u64,
    pub draws: u64,
    pub black: u64,
    pub moves: Vec<MoveStats>,
}

/// Total recorded games of one candidate reply.
pub open spec fn mv_total(m: MoveStats) -> int {
    m.white + m.draws + m.black
}

/// Total recorded games of the position itself.
pub open spec fn pos_total(p: PositionInfo) -> int {
    p.white + p.draws + p.black
}

/// Wins of the side to move among a reply's games.
pub open spec fn side_wins(m: MoveStats, turn: Turn) -> int {
    match turn {
        Turn::White => m.white as int,
        Turn::Black => m.black as int,
    }
}

/// Side-adjusted score percent: the side to move's wins weighted double,
/// draws single, against twice the reply's total games (integer floor).
pub open spec fn score_pct(m: MoveStats, turn: Turn) -> int
    recommends
        mv_total(m) > 0,
{
    (2 * side_wins(m, turn) + m.draws) * 100 / (2 * mv_total(m))
}

/// Bound on game counts under which every product with 200 taken by the
/// metrics still fits in a `u64`.
pub const COUNT_CAP: u64 = 92233720368547758;

pub open spec fn move_bounded(m: MoveStats) -> bool {
    mv_total(m) <= COUNT_CAP
}

pub open spec fn pos_bounded(p: PositionInfo) -> bool {
    &&& pos_total(p) <= COUNT_CAP
    &&& forall|i: int| 0 <= i < p.moves.len() ==> move_bounded(#[trigger] p.moves[i])
}

/// The side-adjusted score percent of a reply with at least one game lies
/// between 0 and 100.
pub proof fn lemma_score_pct_bounds(m: MoveStats, turn: Turn)
    requires
        mv_total(m) > 0,
    ensures
        0 <= score_pct(m, turn) <= 100,
{
    let num = (2 * side_wins(m, turn) + m.draws) * 100;
    let den = 2 * mv_total(m);
    assert(num >= 0) by (nonlinear_arith)
        requires
            side_wins(m, turn) >= 0 && m.draws >= 0,
            num == (2 * side_wins(m, turn) + m.draws) * 100,
    ;
    assert(num / den >= 0) by {
        lemma_div_is_ordered(0, num, den);
    }
    assert(2 * side_wins(m, turn) + m.draws <= den);
    assert(num <= den * 100) by (nonlinear_arith)
        requires
            2 * side_wins(m, turn) + m.draws <= den,
            num == (2 * side_wins(m, turn) + m.draws) * 100,
            den > 0,
    ;
    assert(num / den <= (den * 100) / den) by {
        lemma_div_is_ordered(num, den * 100, den);
    }
    assert((den * 100) / den == 100) by {
        lemma_div_by_multiple(100, den);
    }
}

impl MoveStats {
    /// Total games of this reply.
    pub fn total(&self) -> (r: u64)
        requires
            move_bounded(*self),
        ensures
            r == mv_total(*self),
    {
        self.white + self.draws + self.black
    }

    /// Side-adjusted score percent; the reply must have at least one game.
    pub fn score(&self, turn: Turn) -> (r: u64)
        requires
            move_bounded(*self),
            mv_total(*self) > 0,
        ensures
            r == score_pct(*self, turn),
            r <= 100,
    {
        proof {
            lemma_score_pct_bounds(*self, turn);
        }
        let t = self.white + self.draws + self.black;
        let ws = match turn {
            Turn::White => self.white,
            Turn::Black => self.black,
        };
        (2 * ws + self.draws) * 100 / (2 * t)
    }
}

impl PositionInfo {
    /// Total games recorded for the position.
    pub fn total(&self) -> (r: u64)
        requires
            pos_bounded(*self),
        ensures
            r == pos_total(*self),
    {
        self.white + self.draws + self.black
    }
}

} // verus!
