//! The order in which the springs of a chain act during one sub-step.
//!
//! Every spring joins two neighbouring segments and acts once in each
//! direction. The segments are visited from the head to the tail; each one
//! first acts on the neighbour before it, then on the neighbour after it.
//! So the head's forward exchange stands at place 0, and from there on the
//! places alternate: backward from the next segment, forward from the same.

use vstd::prelude::*;

verus! {

/// One action of a spring: the segment at `source` acts on the segment at
/// `target`, and only the target's accumulated force changes.
#[derive(Clone, Copy, Debug, PartialEq, Eq, Structural)]
pub struct Exchange {
    pub source: usize,
    pub target: usize,
}

impl View for Exchange {
    type V = (int, int);

    /// The pair `(source, target)`.
    open spec fn view(&self) -> (int, int) {
        (self.source as int, self.target as int)
    }
}

/// `pair` names two neighbouring segments of a chain of `n`.
pub open spec fn neighbours(pair: (int, int), n: int) -> bool {
    &&& 0 <= pair.0 < n
    &&& 0 <= pair.1 < n
    &&& (pair.1 == pair.0 + 1 || pair.0 == pair.1 + 1)
}

/// How many exchanges one sub-step of a chain of `n` segments holds: two for
/// each of its `n - 1` springs.
pub open spec fn exchange_count(n: nat) -> nat {
    if n <= 1 {
        0
    } else {
        (2 * n - 2) as nat
    }
}

/// The exchange that stands at place `k`: an even place `2i` holds
/// `(i, i + 1)`, an odd place `2i - 1` holds `(i, i - 1)`.
pub open spec fn entry_at(k: int) -> (int, int) {
    if k % 2 == 0 {
        (k / 2, k / 2 + 1)
    } else {
        ((k + 1) / 2, (k - 1) / 2)
    }
}

/// The place at which the exchange `pair` stands.
pub open spec fn position(pair: (int, int)) -> int {
    if pair.1 > pair.0 {
        2 * pair.0
    } else {
        2 * pair.0 - 1
    }
}

/// The exchange at place `k`, as the value that a plan holds there.
pub open spec fn exchange_at(k: int) -> Exchange {
    Exchange { source: entry_at(k).0 as usize, target: entry_at(k).1 as usize }
}

/// Every place of the schedule joins two neighbouring segments, and
/// `position` leads back from the exchange to its place.
pub proof fn lemma_schedule_entries(n: nat, k: int)
    requires
        0 <= k < exchange_count(n),
    ensures
        neighbours(entry_at(k), n as int),
        position(entry_at(k)) == k,
{
}

/// Each spring acts exactly once in each direction: an ordered pair of
/// neighbours stands at one place of the schedule and at no other.
pub proof fn lemma_each_direction_once(n: nat, pair: (int, int))
    requires
        neighbours(pair, n as int),
    ensures
        0 <= position(pair) < exchange_count(n),
        entry_at(position(pair)) == pair,
        forall|k: int|
            0 <= k < exchange_count(n) && #[trigger] entry_at(k) == pair ==> k == position(pair),
{
}

/// Whatever a segment sends, it sends before any later segment sends
/// anything: the sources never decrease along the schedule.
pub proof fn lemma_sources_ascend(j: int, k: int)
    requires
        0 <= j <= k,
    ensures
        entry_at(j).0 <= entry_at(k).0,
{
}

/// A segment acts on the neighbour before it, then on the neighbour after
/// it: the backward exchange of a segment stands directly before its forward
/// one.
pub proof fn lemma_backward_then_forward(i: int)
    requires
        0 < i,
    ensures
        position((i, i + 1)) == position((i, i - 1)) + 1,
{
}

/// The exchanges of one sub-step of a chain of `n` segments, in the order in
/// which they are to be carried out.
pub fn exchanges(n: usize) -> (plan: Vec<Exchange>)
    ensures
        plan@.len() == (if n <= 1 {
            0
        } else {
            2 * n - 2
        }),
        forall|k: int| 0 <= k < plan@.len() ==> (#[trigger] plan@[k])@ == entry_at(k),
        forall|k: int| 0 <= k < plan@.len() ==> neighbours((#[trigger] plan@[k])@, n as int),
{
    let mut plan: Vec<Exchange> = Vec::new();
    let mut i: usize = 0;
    while i < n
        invariant
            i <= n,
            i == 0 ==> plan@.len() == 0,
            0 < i < n ==> plan@.len() == 2 * i - 1,
            0 < i == n ==> plan@.len() == 2 * i - 2,
            forall|k: int| 0 <= k < plan@.len() ==> (#[trigger] plan@[k])@ == entry_at(k),
        decreases n - i,
    {
        if i != 0 {
            plan.push(Exchange { source: i, target: i - 1 });
        }
        if i != n - 1 {
            plan.push(Exchange { source: i, target: i + 1 });
        }
        i += 1;
    }
    plan
}

} // verus!
