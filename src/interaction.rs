//! Which bodies act on which.
//!
//! Every body is attracted by every other body of the set and never by
//! itself. The integrator walks, for each body, the indices produced here and
//! accumulates one acceleration term per index, so a self term cannot arise.
use vstd::prelude::*;

verus! {

/// The `k`-th body that acts on body `index`: the indices below `index` in
/// order, then those above it.
pub open spec fn partner_at(index: int, k: int) -> int {
    if k < index {
        k
    } else {
        k + 1
    }
}

/// All bodies of a set of `count` that act on body `index`, in increasing order.
pub open spec fn partners_spec(index: int, count: int) -> Seq<usize>
    recommends
        0 <= index < count,
{
    Seq::new((count - 1) as nat, |k: int| partner_at(index, k) as usize)
}

/// Indices of the bodies whose gravity acts on body `index` in a set of
/// `count` bodies: every index below `count` but `index` itself, each once,
/// in increasing order.
pub fn partners(index: usize, count: usize) -> (r: Vec<usize>)
    requires
        index < count,
    ensures
        r@ == partners_spec(index as int, count as int),
        !r@.contains(index),
        forall|j: usize| j < count && j != index ==> #[trigger] r@.contains(j),
        forall|k: int| 0 <= k < r@.len() ==> r@[k] < count,
{
    let mut r: Vec<usize> = Vec::new();
    let mut j: usize = 0;
    while j < count
        invariant
            j <= count,
            index < count,
            r@.len() == if j <= index { j as int } else { j - 1 },
            forall|k: int| 0 <= k < r@.len() ==> r@[k] == partner_at(index as int, k),
        decreases count - j,
    {
        if j != index {
            r.push(j);
        }
        j = j + 1;
    }
    assert(r@ =~= partners_spec(index as int, count as int));
    assert forall|j: usize| j < count && j != index implies #[trigger] r@.contains(j) by {
        let k: int = if j < index { j as int } else { j - 1 };
        assert(r@[k] == j);
    }
    r
}

} // verus!
