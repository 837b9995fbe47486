//! The sample-update entry point of the reloadable update module: append
//! one random-walk sample and keep at most the 10 most recent samples,
//! evicting oldest-first.

use crate::shared::Rng;
use crate::shared::State;
use vstd::prelude::*;

verus! {

/// The FIFO bound on the sample history.
pub open spec fn history_bound() -> int {
    10
}

/// `h` with `n` appended and then truncated from the front to the history
/// bound: strict oldest-first eviction.
pub open spec fn fifo_push(h: Seq<i32>, n: i32) -> Seq<i32> {
    let grown = h.push(n);
    if grown.len() > history_bound() {
        grown.skip(grown.len() - history_bound())
    } else {
        grown
    }
}

/// Whether `n` is a valid next sample after history `h`: the previous last
/// sample plus a random offset from the closed-open range `[-100, 101)`,
/// or `0` when the history is empty.
pub open spec fn next_sample_ok(h: Seq<i32>, n: i32) -> bool {
    if h.len() == 0 {
        n == 0
    } else {
        h.last() - 100 <= n <= h.last() + 100
    }
}

/// History bound law: one update step never leaves more than 10 samples,
/// whatever the history held before, and what it keeps is exactly the most
/// recent suffix of the grown history (oldest-first eviction).
pub proof fn lemma_history_bound(h: Seq<i32>, n: i32)
    ensures
        fifo_push(h, n).len() <= history_bound(),
        fifo_push(h, n).len() == if h.len() + 1 <= history_bound() {
            h.len() + 1
        } else {
            history_bound() as nat
        },
        forall|j: int|
            0 <= j < fifo_push(h, n).len() ==> fifo_push(h, n)[j] == h.push(n)[j + h.push(n).len()
                - fifo_push(h, n).len()],
{
}

/// The sample one step appends, given the offset the randomness
/// capability returned: the previous last sample plus the offset, or `0`
/// on an empty history.
pub open spec fn next_sample(h: Seq<i32>, offset: int) -> int {
    if h.len() == 0 {
        0
    } else {
        h.last() + offset
    }
}

/// One update step with the drawn offset fixed: appends exactly
/// `next_sample` and evicts from the front down to the history bound. The
/// randomness capability is not consulted and is left untouched.
pub fn push_sample<R: Rng>(state: &mut State<R>, offset: i32)
    requires
        i32::MIN <= next_sample(old(state).items@, offset as int) <= i32::MAX,
    ensures
        final(state).items@ == fifo_push(
            old(state).items@,
            next_sample(old(state).items@, offset as int) as i32,
        ),
        final(state).items@.len() <= history_bound(),
        final(state).rng == old(state).rng,
{
    let ghost h = state.items@;
    let n: i32 = if state.items.len() == 0 {
        0
    } else {
        let last = state.items[state.items.len() - 1];
        last + offset
    };
    state.items.push(n);
    let ghost grown = state.items@;
    let ghost rng_before = state.rng;
    while state.items.len() > 10
        invariant
            state.rng == rng_before,
            state.items@.len() <= grown.len(),
            state.items@.len() >= 10 || state.items@.len() == grown.len(),
            state.items@ =~= grown.skip(grown.len() - state.items@.len()),
        decreases state.items@.len(),
    {
        state.items.remove(0);
        assert(state.items@ =~= grown.skip(grown.len() - state.items@.len()));
    }
    assert(state.items@ =~= fifo_push(h, n));
}

/// Appends one sample (`previous last + rng offset`, `0` on an empty
/// history) and evicts from the front down to the history bound. The
/// offset is drawn from the capability, so only its range is known here;
/// `push_sample` states the step exactly for a given offset.
pub fn update_state<R: Rng>(state: &mut State<R>)
    requires
        old(state).items@.len() > 0 ==> i32::MIN + 100 <= old(state).items@.last() <= i32::MAX
            - 100,
    ensures
        exists|n: i32|
            #![auto]
            final(state).items@ == fifo_push(old(state).items@, n) && next_sample_ok(
                old(state).items@,
                n,
            ),
        old(state).items@.len() == 0 ==> final(state).items@ =~= seq![0i32],
        final(state).items@.len() <= history_bound(),
{
    let ghost h = state.items@;
    if state.items.len() == 0 {
        push_sample(state, 0);
        assert(next_sample_ok(h, 0));
        assert(fifo_push(h, 0) =~= seq![0i32]);
    } else {
        let offset = state.rng.gen_range(-100, 101);
        push_sample(state, offset);
        assert(next_sample_ok(h, next_sample(h, offset as int) as i32));
    }
}

} // verus!
