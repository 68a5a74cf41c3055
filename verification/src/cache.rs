//! A single-slot memoizing cache around a unary computation.
//!
//! The cache runs the stored computation at most once: the first query fills
//! the slot and every later query returns the stored result unchanged, no
//! matter which argument it is given. The slot is a latch — two states,
//! empty then populated, and populated is terminal.

use vstd::prelude::*;

verus! {

/// One transition of the single-slot latch: from a slot and the value the
/// computation would produce, to the slot afterwards and the returned value.
/// A populated slot answers from the slot and ignores the computed value.
pub open spec fn step(slot: Option<u32>, computed: u32) -> (Option<u32>, u32) {
    match slot {
        Some(v) => (Some(v), v),
        None => (Some(computed), computed),
    }
}

/// A whole run of the latch from the empty slot: `computed[i]` is the value
/// the computation would produce at the `i`-th query. Yields the final slot,
/// the sequence of returned values, and how often the computation was spent
/// (a populated slot never spends it).
pub open spec fn run(computed: Seq<u32>) -> (Option<u32>, Seq<u32>, nat)
    decreases computed.len(),
{
    if computed.len() == 0 {
        (None, Seq::empty(), 0)
    } else {
        let prior = run(computed.drop_last());
        let stepped = step(prior.0, computed.last());
        let spent: nat = if prior.0 is None {
            1
        } else {
            0
        };
        (stepped.0, prior.1.push(stepped.1), (prior.2 + spent) as nat)
    }
}

/// Law: in any run of one or more queries, every returned value equals the
/// value computed at the first query, the slot ends populated with exactly
/// that value, and the computation is spent exactly once.
pub proof fn lemma_run_latches_first(computed: Seq<u32>)
    requires
        computed.len() >= 1,
    ensures
        run(computed).1.len() == computed.len(),
        forall|i: int| 0 <= i < computed.len() ==> run(computed).1[i] == computed[0],
        run(computed).0 == Some(computed[0]),
        run(computed).2 == 1,
    decreases computed.len(),
{
    let prior = computed.drop_last();
    if computed.len() == 1 {
        assert(prior.len() == 0);
        assert(computed.last() == computed[0]);
        assert(run(computed).1 =~= seq![computed[0]]);
    } else {
        lemma_run_latches_first(prior);
        assert(prior[0] == computed[0]);
        assert(run(computed).1 == run(prior).1.push(computed[0]));
        assert forall|i: int| 0 <= i < computed.len() implies run(computed).1[i] == computed[0] by {
            if i < computed.len() - 1 {
                assert(run(computed).1[i] == run(prior).1[i]);
            }
        }
    }
}

/// A memoizing cache for a unary computation on `u32`. It holds the
/// computation and at most one previously computed result.
pub struct Cacher<F: Fn(u32) -> u32> {
    calculation: F,
    value: Option<u32>,
    invocations: Ghost<nat>,
}

impl<F: Fn(u32) -> u32> Cacher<F> {
    /// The contents of the single slot: `None` until the first query.
    pub closed spec fn cached(&self) -> Option<u32> {
        self.value
    }

    /// The stored computation, fixed at construction.
    pub closed spec fn computation(&self) -> F {
        self.calculation
    }

    /// How often the stored computation has been invoked.
    pub closed spec fn invocation_count(&self) -> nat {
        self.invocations@
    }

    /// Law: the computation is invoked at most once in the lifetime of a
    /// cache — exactly once if and only if the slot is populated. Established
    /// by `new` and preserved by `value`.
    pub open spec fn wf(&self) -> bool {
        self.invocation_count() == if self.cached() is Some {
            1nat
        } else {
            0nat
        }
    }

    /// Wraps a computation; the slot starts out empty and the computation has
    /// not been invoked.
    pub fn new(calculation: F) -> (c: Cacher<F>)
        ensures
            c.wf(),
            c.cached() is None,
            c.invocation_count() == 0,
            c.computation() == calculation,
    {
        Cacher { calculation, value: None, invocations: Ghost(0) }
    }

    /// Queries the cache. The first query invokes the computation on `arg`,
    /// stores its result and returns it; every later query returns the stored
    /// result and ignores `arg`. Either way the answer and the new slot are
    /// one `step` of the latch.
    pub fn value(&mut self, arg: u32) -> (r: u32)
        requires
            old(self).wf(),
            old(self).cached() is None ==> call_requires(old(self).computation(), (arg,)),
        ensures
            final(self).wf(),
            final(self).computation() == old(self).computation(),
            final(self).cached() == Some(r),
            (final(self).cached(), r) == step(old(self).cached(), r),
            match old(self).cached() {
                Some(v) => r == v && final(self).invocation_count() == old(self).invocation_count(),
                None => call_ensures(old(self).computation(), (arg,), r) && final(self).invocation_count() == old(self).invocation_count() + 1,
            },
    {
        match self.value {
            Some(v) => v,
            None => {
                let v = (self.calculation)(arg);
                self.value = Some(v);
                self.invocations = Ghost(self.invocations@ + 1);
                v
            },
        }
    }
}

} // verus!
