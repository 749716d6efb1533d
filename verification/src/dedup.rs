//! Removes blocks that sit on a position that an earlier block already has.

use vstd::prelude::*;

verus! {

/// Whether the position at `i` occurs before `i`.
pub open spec fn seen_before(positions: Seq<(i32, i32, i32)>, i: int) -> bool {
    exists|j: int| 0 <= j < i && positions[j] == positions[i]
}

/// Marks the blocks to keep: of the blocks on one position the first is
/// kept, every later one is dropped.
pub fn keep_first_positions(positions: &Vec<(i32, i32, i32)>) -> (keep: Vec<bool>)
    ensures
        keep@.len() == positions@.len(),
        forall|i: int| 0 <= i < positions@.len() ==> keep@[i] == !seen_before(positions@, i),
{
    let mut keep: Vec<bool> = Vec::new();
    let mut i: usize = 0;
    while i < positions.len()
        invariant
            i <= positions.len(),
            keep@.len() == i,
            forall|a: int| 0 <= a < i ==> keep@[a] == !seen_before(positions@, a),
        decreases positions.len() - i,
    {
        let here = positions[i];
        let mut seen = false;
        let mut j: usize = 0;
        while j < i && !seen
            invariant
                j <= i < positions.len(),
                here == positions@[i as int],
                seen ==> seen_before(positions@, i as int),
                !seen ==> forall|b: int| 0 <= b < j ==> positions@[b] != positions@[i as int],
            decreases i - j + (if seen { 0int } else { 1int }),
        {
            let there = positions[j];
            if there.0 == here.0 && there.1 == here.1 && there.2 == here.2 {
                seen = true;
            } else {
                j += 1;
            }
        }
        keep.push(!seen);
        i += 1;
    }
    keep
}

} // verus!
