//! One simulation step over the whole body set.
//!
//! A step is batched: the next state of every body is computed from the
//! complete pre-step set, and only when all of them are known does the set
//! take them on. No body ever sees another body's post-step state during the
//! same step, so the order in which bodies are visited cannot matter.
use vstd::prelude::*;

verus! {

/// Replaces every body of `bodies` by `next(pre, i)`, where `pre` is the set
/// as it stood before the step and `i` the body's index. The set keeps its
/// size and each body its index.
pub fn step_batched<B, F: Fn(&Vec<B>, usize) -> B>(bodies: &mut Vec<B>, next: F)
    requires
        forall|i: usize| i < old(bodies)@.len() ==> call_requires(next, (&*old(bodies), i)),
    ensures
        is_step_result(next, *old(bodies), final(bodies)@),
{
    let count = bodies.len();
    let mut computed: Vec<B> = Vec::new();
    let mut i: usize = 0;
    while i < count
        invariant
            i <= count,
            count == bodies@.len(),
            *bodies == *old(bodies),
            computed@.len() == i,
            forall|k: usize| k < count ==> call_requires(next, (&*old(bodies), k)),
            forall|k: usize|
                k < i ==> call_ensures(next, (&*old(bodies), k), #[trigger] computed@[k as int]),
        decreases count - i,
    {
        let state = next(&*bodies, i);
        computed.push(state);
        i = i + 1;
    }
    *bodies = computed;
}

/// What `step_batched` leaves in the set: one state per body, each one what
/// `next` gives for that body's index on the pre-step set `pre`.
pub open spec fn is_step_result<B, F: Fn(&Vec<B>, usize) -> B>(
    next: F,
    pre: Vec<B>,
    post: Seq<B>,
) -> bool {
    &&& post.len() == pre@.len()
    &&& forall|i: usize|
        i < pre@.len() ==> call_ensures(next, (&pre, i), #[trigger] post[i as int])
}

/// A step is deterministic: where the rule for one body's next state gives
/// a single result for given arguments, two steps taken from the same body
/// set end in the same body set.
pub proof fn lemma_step_deterministic<B, F: Fn(&Vec<B>, usize) -> B>(
    next: F,
    pre: Vec<B>,
    first: Seq<B>,
    second: Seq<B>,
)
    requires
        forall|snapshot: &Vec<B>, i: usize, r1: B, r2: B|
            call_ensures(next, (snapshot, i), r1) && call_ensures(next, (snapshot, i), r2)
                ==> r1 == r2,
        is_step_result(next, pre, first),
        is_step_result(next, pre, second),
    ensures
        first == second,
{
    assert(pre.len() == pre@.len());
    assert forall|k: int| 0 <= k < first.len() implies first[k] == second[k] by {
        let i = k as usize;
        assert(i as int == k);
        assert(call_ensures(next, (&pre, i), first[i as int]));
        assert(call_ensures(next, (&pre, i), second[i as int]));
    }
    assert(first =~= second);
}

} // verus!
