use rope::handedness::{quarter_turn, QuarterTurn};

fn rotated90(v: (f64, f64), clockwise: bool) -> (f64, f64) {
    match quarter_turn(v.0 < 0.0, v.1 < 0.0, clockwise) {
        QuarterTurn::SwapNegatingY => (-v.1, v.0),
        QuarterTurn::SwapNegatingX => (v.1, -v.0),
    }
}

#[test]
fn same_signs_clockwise_negates_y() {
    assert_eq!(quarter_turn(false, false, true), QuarterTurn::SwapNegatingY);
    assert_eq!(quarter_turn(true, true, true), QuarterTurn::SwapNegatingY);
}

#[test]
fn same_signs_counter_clockwise_negates_x() {
    assert_eq!(quarter_turn(false, false, false), QuarterTurn::SwapNegatingX);
    assert_eq!(quarter_turn(true, true, false), QuarterTurn::SwapNegatingX);
}

#[test]
fn mixed_signs_clockwise_negates_x() {
    assert_eq!(quarter_turn(true, false, true), QuarterTurn::SwapNegatingX);
    assert_eq!(quarter_turn(false, true, true), QuarterTurn::SwapNegatingX);
}

#[test]
fn mixed_signs_counter_clockwise_negates_y() {
    assert_eq!(quarter_turn(true, false, false), QuarterTurn::SwapNegatingY);
    assert_eq!(quarter_turn(false, true, false), QuarterTurn::SwapNegatingY);
}

#[test]
fn rotated_vector_in_each_quadrant() {
    assert_eq!(rotated90((3.0, 4.0), true), (-4.0, 3.0));
    assert_eq!(rotated90((3.0, 4.0), false), (4.0, -3.0));
    assert_eq!(rotated90((-3.0, 4.0), true), (4.0, 3.0));
    assert_eq!(rotated90((-3.0, 4.0), false), (-4.0, -3.0));
    assert_eq!(rotated90((-3.0, -4.0), true), (4.0, -3.0));
    assert_eq!(rotated90((-3.0, -4.0), false), (-4.0, 3.0));
    assert_eq!(rotated90((3.0, -4.0), true), (-4.0, -3.0));
    assert_eq!(rotated90((3.0, -4.0), false), (4.0, 3.0));
}

#[test]
fn four_like_turns_restore() {
    for v in [(1.5, 2.5), (-1.5, 2.5), (-1.5, -2.5), (1.5, -2.5)] {
        for clockwise in [true, false] {
            let mut w = v;
            for _ in 0..4 {
                w = rotated90(w, clockwise);
            }
            assert_eq!(w, v);
        }
    }
}

#[test]
fn four_alternating_turns_restore() {
    for v in [(1.5, 2.5), (-1.5, 2.5), (-1.5, -2.5), (1.5, -2.5)] {
        for first in [true, false] {
            let w = rotated90(rotated90(rotated90(rotated90(v, first), !first), first), !first);
            assert_eq!(w, v);
        }
    }
}

#[test]
fn two_opposed_turns_negate() {
    for v in [(1.5, 2.5), (-1.5, 2.5), (-1.5, -2.5), (1.5, -2.5)] {
        for first in [true, false] {
            let w = rotated90(rotated90(v, first), !first);
            assert_eq!(w, (-v.0, -v.1));
        }
    }
}

#[test]
fn two_like_turns_cancel() {
    for v in [(1.5, 2.5), (-1.5, 2.5), (-1.5, -2.5), (1.5, -2.5)] {
        for clockwise in [true, false] {
            assert_eq!(rotated90(rotated90(v, clockwise), clockwise), v);
        }
    }
}

#[test]
fn four_like_turns_on_an_axis_may_reverse() {
    let mut w = (1.0, 0.0);
    for _ in 0..4 {
        w = rotated90(w, true);
    }
    assert_eq!(w, (-1.0, 0.0));
}

#[test]
fn facing_normals_agree_off_the_axes() {
    for v in [(2.0, 7.0), (-2.0, 7.0), (-2.0, -7.0), (2.0, -7.0)] {
        assert_eq!(rotated90(v, true), rotated90((-v.0, -v.1), false));
    }
}

#[test]
fn zero_vector_stays_zero() {
    assert_eq!(rotated90((0.0, 0.0), true), (0.0, 0.0));
    assert_eq!(rotated90((0.0, 0.0), false), (0.0, 0.0));
}
