//! What is drawn for a chain, and in which order.
//!
//! First a joint for every segment, from the head to the tail; then a ribbon
//! between every two neighbours that are apart, from the head to the tail;
//! last the cursor, on top of everything else. Two neighbours that lie on the
//! same spot have no direction between them, and get no ribbon.

use vstd::prelude::*;

verus! {

/// One thing to draw.
#[derive(Clone, Copy, Debug, PartialEq, Eq, Structural)]
pub enum Shape {
    /// The disc at the segment of this index.
    Joint(usize),
    /// The ribbon from the segment of this index to the next one.
    Ribbon(usize),
    /// The marker of the cursor.
    Cursor,
}

impl Shape {
    /// The segments that the shape is drawn from exist in a chain of `n`.
    pub open spec fn fits(self, n: int) -> bool {
        match self {
            Shape::Joint(i) => i < n,
            Shape::Ribbon(i) => i + 1 < n,
            Shape::Cursor => true,
        }
    }
}

/// The joints of `n` segments, from the head to the tail.
pub open spec fn joints(n: nat) -> Seq<Shape> {
    Seq::new(n, |i: int| Shape::Joint(i as usize))
}

/// The ribbons among the first `m` pairs of neighbours: one for each pair
/// `i` with `apart[i]`, in the order of the pairs.
pub open spec fn ribbons(apart: Seq<bool>, m: nat) -> Seq<Shape>
    recommends
        m <= apart.len(),
    decreases m,
{
    if m == 0 {
        Seq::empty()
    } else if apart[m - 1] {
        ribbons(apart, (m - 1) as nat).push(Shape::Ribbon((m - 1) as usize))
    } else {
        ribbons(apart, (m - 1) as nat)
    }
}

/// Everything that is drawn for a chain of `n` segments, in order.
pub open spec fn drawing_order(n: nat, apart: Seq<bool>) -> Seq<Shape> {
    joints(n) + ribbons(apart, apart.len()) + seq![Shape::Cursor]
}

/// The pair that a ribbon joins; `-1` for a shape that is no ribbon.
pub open spec fn ribbon_index(shape: Shape) -> int {
    match shape {
        Shape::Ribbon(i) => i as int,
        _ => -1,
    }
}

/// The ribbons among the first `m` pairs are exactly those of the pairs that
/// are apart, none is drawn twice, and they come in the order of the pairs.
pub proof fn lemma_ribbons(apart: Seq<bool>, m: nat)
    requires
        m <= apart.len(),
        m <= usize::MAX,
    ensures
        ribbons(apart, m).len() <= m,
        forall|k: int|
            0 <= k < ribbons(apart, m).len() ==> {
                let i = ribbon_index(#[trigger] ribbons(apart, m)[k]);
                0 <= i < m && apart[i] && ribbons(apart, m)[k] == Shape::Ribbon(i as usize)
            },
        forall|i: int|
            0 <= i < m && #[trigger] apart[i] ==> ribbons(apart, m).contains(
                Shape::Ribbon(i as usize),
            ),
        forall|j: int, k: int|
            0 <= j < k < ribbons(apart, m).len() ==> ribbon_index(#[trigger] ribbons(apart, m)[j])
                < ribbon_index(#[trigger] ribbons(apart, m)[k]),
    decreases m,
{
    if m > 0 {
        let rest = ribbons(apart, (m - 1) as nat);
        lemma_ribbons(apart, (m - 1) as nat);
        if apart[m - 1] {
            let all = rest.push(Shape::Ribbon((m - 1) as usize));
            assert(all[rest.len() as int] == Shape::Ribbon((m - 1) as usize));
            assert forall|i: int| 0 <= i < m && #[trigger] apart[i] implies all.contains(
                Shape::Ribbon(i as usize),
            ) by {
                if i < m - 1 {
                    let k = choose|k: int|
                        0 <= k < rest.len() && rest[k] == Shape::Ribbon(i as usize);
                    assert(all[k] == Shape::Ribbon(i as usize));
                }
            }
        }
    }
}

/// The shapes to draw for a chain of `n` segments, in the order in which
/// they are to be drawn. `apart[i]` says whether segment `i` and segment
/// `i + 1` are apart, so `apart` has one entry for each pair of neighbours.
pub fn shapes(n: usize, apart: &[bool]) -> (plan: Vec<Shape>)
    requires
        apart@.len() == (if n == 0 {
            0
        } else {
            n - 1
        }),
    ensures
        plan@ == drawing_order(n as nat, apart@),
        forall|k: int| 0 <= k < plan@.len() ==> (#[trigger] plan@[k]).fits(n as int),
{
    let mut plan: Vec<Shape> = Vec::new();
    let mut i: usize = 0;
    while i < n
        invariant
            i <= n,
            plan@ =~= joints(i as nat),
        decreases n - i,
    {
        plan.push(Shape::Joint(i));
        i += 1;
    }
    let mut p: usize = 0;
    while p < apart.len()
        invariant
            p <= apart@.len(),
            plan@ =~= joints(n as nat) + ribbons(apart@, p as nat),
        decreases apart@.len() - p,
    {
        if apart[p] {
            plan.push(Shape::Ribbon(p));
        }
        p += 1;
    }
    plan.push(Shape::Cursor);
    proof {
        lemma_ribbons(apart@, apart@.len());
    }
    plan
}

} // verus!
