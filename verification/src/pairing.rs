//! Borrowing two segments of one chain at once.
//!
//! A spring reads one segment and changes another. Both live in the same
//! slice, so the slice is split between them: the source is lent out to be
//! read, the target to be changed, and nothing else in the chain can change
//! while the two are held.

use vstd::prelude::*;

verus! {

/// Lends out the item at `source` to be read and the item at `target` to be
/// changed. When the borrow ends, `items` differs from what it was only at
/// `target`, where it holds whatever the target was left as; its length is
/// the same.
pub fn link<T>(items: &mut [T], source: usize, target: usize) -> (ends: (&T, &mut T))
    requires
        source < old(items)@.len(),
        target < old(items)@.len(),
        source != target,
    ensures
        *ends.0 == old(items)@[source as int],
        *ends.1 == old(items)@[target as int],
        final(items)@ == old(items)@.update(target as int, *final(ends.1)),
{
    if source < target {
        let (before, after) = items.split_at_mut(target);
        (&before[source], &mut after[0])
    } else {
        let (before, after) = items.split_at_mut(source);
        (&after[0], &mut before[target])
    }
}

} // verus!
