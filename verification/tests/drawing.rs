use rope::drawing::{shapes, Shape};

#[test]
fn empty_chain_draws_only_the_cursor() {
    assert_eq!(shapes(0, &[]), vec![Shape::Cursor]);
}

#[test]
fn single_segment_draws_a_joint_and_the_cursor() {
    assert_eq!(shapes(1, &[]), vec![Shape::Joint(0), Shape::Cursor]);
}

#[test]
fn joints_then_ribbons_then_cursor() {
    assert_eq!(
        shapes(3, &[true, true]),
        vec![
            Shape::Joint(0),
            Shape::Joint(1),
            Shape::Joint(2),
            Shape::Ribbon(0),
            Shape::Ribbon(1),
            Shape::Cursor,
        ]
    );
}

#[test]
fn neighbours_on_one_spot_get_no_ribbon() {
    assert_eq!(
        shapes(4, &[false, true, false]),
        vec![
            Shape::Joint(0),
            Shape::Joint(1),
            Shape::Joint(2),
            Shape::Joint(3),
            Shape::Ribbon(1),
            Shape::Cursor,
        ]
    );
}

#[test]
fn chain_on_one_spot_draws_no_ribbon() {
    let plan = shapes(40, &[false; 39]);
    assert_eq!(plan.len(), 41);
    assert!(plan.iter().all(|s| !matches!(s, Shape::Ribbon(_))));
    assert_eq!(plan[40], Shape::Cursor);
}

#[test]
fn stretched_chain_draws_every_ribbon() {
    let plan = shapes(40, &[true; 39]);
    assert_eq!(plan.len(), 40 + 39 + 1);
    for i in 0..40 {
        assert_eq!(plan[i], Shape::Joint(i));
    }
    for i in 0..39 {
        assert_eq!(plan[40 + i], Shape::Ribbon(i));
    }
    assert_eq!(plan[79], Shape::Cursor);
}

#[test]
fn cursor_is_drawn_last() {
    let plan = shapes(5, &[true, false, false, true]);
    assert_eq!(plan.last(), Some(&Shape::Cursor));
    assert_eq!(plan.iter().filter(|s| **s == Shape::Cursor).count(), 1);
}
