//! Quarter turns of a plane vector, and the rule that picks one.
//!
//! A ribbon is drawn by offsetting each end of a segment at a right angle to
//! its direction. There are two quarter turns of a vector `(x, y)`: one gives
//! `(-y, x)`, the other `(y, -x)`. Which of them a request for a clockwise or
//! a counter-clockwise turn means depends on the quadrant the vector lies in.

use vstd::prelude::*;

verus! {

/// One of the two quarter turns of the plane.
#[derive(Clone, Copy, Debug, PartialEq, Eq, Structural)]
pub enum QuarterTurn {
    /// `(x, y)` becomes `(-y, x)`.
    SwapNegatingY,
    /// `(x, y)` becomes `(y, -x)`.
    SwapNegatingX,
}

impl QuarterTurn {
    /// The image of `v` under this turn.
    pub open spec fn apply(self, v: (int, int)) -> (int, int) {
        match self {
            QuarterTurn::SwapNegatingY => (-v.1, v.0),
            QuarterTurn::SwapNegatingX => (v.1, -v.0),
        }
    }
}

/// The turn that is made for a vector whose coordinates have the given signs.
///
/// Where exactly one coordinate is negative the two turns change places.
pub open spec fn turn_for(x_negative: bool, y_negative: bool, clockwise: bool) -> QuarterTurn {
    if (x_negative != y_negative) != clockwise {
        QuarterTurn::SwapNegatingY
    } else {
        QuarterTurn::SwapNegatingX
    }
}

/// `v` turned by a quarter in the requested sense.
pub open spec fn rotated90(v: (int, int), clockwise: bool) -> (int, int) {
    turn_for(v.0 < 0, v.1 < 0, clockwise).apply(v)
}

/// Neither coordinate of `v` is zero.
pub open spec fn off_axis(v: (int, int)) -> bool {
    v.0 != 0 && v.1 != 0
}

/// Picks the quarter turn for a vector from the signs of its coordinates.
///
/// `x_negative` and `y_negative` say whether the coordinate is below zero; a
/// zero coordinate is not negative.
pub fn quarter_turn(x_negative: bool, y_negative: bool, clockwise: bool) -> (turn: QuarterTurn)
    ensures
        turn == turn_for(x_negative, y_negative, clockwise),
{
    if (x_negative ^ y_negative) ^ clockwise {
        QuarterTurn::SwapNegatingY
    } else {
        QuarterTurn::SwapNegatingX
    }
}

/// A vector on one axis is turned onto the other, and the sense alone
/// decides to which side: from the first axis a clockwise turn leads to the
/// positive half of the second, from the second axis to the negative half of
/// the first. The sign of the vector plays no part.
pub proof fn lemma_turn_from_axis(a: int)
    requires
        a != 0,
    ensures
        rotated90((a, 0), true) == (0int, if a < 0 { -a } else { a }),
        rotated90((a, 0), false) == (0int, if a < 0 { a } else { -a }),
        rotated90((0, a), true) == (if a < 0 { a } else { -a }, 0int),
        rotated90((0, a), false) == (if a < 0 { -a } else { a }, 0int),
{
}

/// The zero vector is fixed by every quarter turn.
pub proof fn lemma_zero_is_fixed(clockwise: bool)
    ensures
        rotated90((0, 0), clockwise) == (0int, 0int),
{
}

/// Two quarter turns in the same sense undo each other off the axes: the
/// first moves the vector into a neighbouring quadrant, where the rule picks
/// the other turn.
pub proof fn lemma_two_like_turns_cancel(v: (int, int), clockwise: bool)
    requires
        off_axis(v),
    ensures
        rotated90(rotated90(v, clockwise), clockwise) == v,
{
}

/// Two quarter turns negate a vector off the axes exactly when their senses
/// differ. On an axis the second turn alone decides where the vector ends,
/// and it ends at its negative exactly when that turn leads to the other half
/// of the axis. The zero vector is its own negative.
pub proof fn lemma_two_turns_negate(v: (int, int), c1: bool, c2: bool)
    ensures
        rotated90(rotated90(v, c1), c2) == (-v.0, -v.1) <==> (if off_axis(v) {
            c1 != c2
        } else if v.0 != 0 {
            c2 == (v.0 > 0)
        } else if v.1 != 0 {
            c2 == (v.1 < 0)
        } else {
            true
        }),
{
}

/// Four quarter turns bring a vector off the axes back to itself exactly
/// when an even number of them is clockwise; four turns in one sense and four
/// turns in alternating senses are both of this kind. On an axis the last
/// turn alone decides where the vector ends, and it ends where it began
/// exactly when that turn leads to its own half of the axis. The zero vector
/// never moves.
pub proof fn lemma_four_turns_restore(v: (int, int), c1: bool, c2: bool, c3: bool, c4: bool)
    ensures
        rotated90(rotated90(rotated90(rotated90(v, c1), c2), c3), c4) == v <==> (if off_axis(v) {
            (c1 != c2) == (c3 != c4)
        } else if v.0 != 0 {
            c4 == (v.0 < 0)
        } else if v.1 != 0 {
            c4 == (v.1 > 0)
        } else {
            true
        }),
{
}

/// The two ends of a ribbon are offset to the same side: turning a direction
/// clockwise gives the vector that turning its reverse counter-clockwise
/// gives, exactly when the direction is off the axes or zero.
pub proof fn lemma_facing_normals_agree(v: (int, int))
    ensures
        rotated90(v, true) == rotated90((-v.0, -v.1), false) <==> (off_axis(v) || v == (
            0int,
            0int,
        )),
{
}

} // verus!
