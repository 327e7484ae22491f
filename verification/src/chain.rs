//! The chain as a whole: how it is built, and the order of one sub-step.
//!
//! A chain is built once, all its segments alike, and keeps its length. A
//! sub-step has three stages that never mix: the head is drawn toward the
//! cursor, then every spring acts in both directions, then every segment is
//! integrated, which also clears the force it had gathered.

use vstd::prelude::*;
use crate::schedule::{exchange_at, exchange_count, exchanges, neighbours, Exchange};

verus! {

/// One action of a sub-step.
#[derive(Clone, Copy, Debug, PartialEq, Eq, Structural)]
pub enum Step {
    /// The head, segment 0, is drawn toward the cursor.
    PullHead,
    /// The spring between two neighbours acts on one of them.
    Spring(Exchange),
    /// The segment at this index is integrated.
    Integrate(usize),
}

impl Step {
    /// The segments that the step works on exist in a chain of `n`, and a
    /// spring joins two neighbours.
    pub open spec fn fits(self, n: int) -> bool {
        match self {
            Step::PullHead => 0 < n,
            Step::Spring(e) => neighbours(e@, n),
            Step::Integrate(i) => i < n,
        }
    }
}

/// The spring actions of one sub-step of a chain of `n` segments, in order.
pub open spec fn spring_steps(n: nat) -> Seq<Step> {
    Seq::new(exchange_count(n), |k: int| Step::Spring(exchange_at(k)))
}

/// The integration of each of `n` segments, from the head to the tail.
pub open spec fn integrations(n: nat) -> Seq<Step> {
    Seq::new(n, |i: int| Step::Integrate(i as usize))
}

/// One sub-step of a chain of `n` segments: the pull on the head, then the
/// springs, then the integrations.
pub open spec fn sub_step_order(n: nat) -> Seq<Step> {
    seq![Step::PullHead] + spring_steps(n) + integrations(n)
}

/// `n` copies of `item`: the segments of a new chain, which all start in the
/// same state.
pub fn uniform<T: Copy>(n: usize, item: T) -> (items: Vec<T>)
    ensures
        items@.len() == n,
        forall|i: int| 0 <= i < n ==> items@[i] == item,
{
    let mut items: Vec<T> = Vec::new();
    let mut i: usize = 0;
    while i < n
        invariant
            i <= n,
            items@.len() == i,
            forall|j: int| 0 <= j < i ==> items@[j] == item,
        decreases n - i,
    {
        items.push(item);
        i += 1;
    }
    items
}

/// The actions of one sub-step of a chain of `n` segments, in the order in
/// which they are to be carried out. The chain must have a head.
pub fn sub_step(n: usize) -> (plan: Vec<Step>)
    requires
        n >= 1,
    ensures
        plan@ == sub_step_order(n as nat),
        forall|k: int| 0 <= k < plan@.len() ==> (#[trigger] plan@[k]).fits(n as int),
{
    let springs = exchanges(n);
    let mut plan: Vec<Step> = Vec::new();
    plan.push(Step::PullHead);
    let mut k: usize = 0;
    while k < springs.len()
        invariant
            k <= springs@.len(),
            springs@.len() == exchange_count(n as nat),
            forall|j: int| 0 <= j < springs@.len() ==> springs@[j] == exchange_at(j),
            plan@.len() == 1 + k,
            plan@[0] == Step::PullHead,
            forall|p: int| 1 <= p < 1 + k ==> #[trigger] plan@[p] == Step::Spring(exchange_at(p - 1)),
        decreases springs@.len() - k,
    {
        plan.push(Step::Spring(springs[k]));
        k += 1;
    }
    let mut i: usize = 0;
    while i < n
        invariant
            i <= n,
            k == exchange_count(n as nat),
            plan@.len() == 1 + k + i,
            plan@[0] == Step::PullHead,
            forall|p: int| 1 <= p < 1 + k ==> #[trigger] plan@[p] == Step::Spring(exchange_at(p - 1)),
            forall|p: int|
                1 + k <= p < 1 + k + i ==> #[trigger] plan@[p] == Step::Integrate((p - 1 - k) as usize),
        decreases n - i,
    {
        plan.push(Step::Integrate(i));
        i += 1;
    }
    assert(plan@ =~= sub_step_order(n as nat));
    plan
}

} // verus!
