//! The engine: runs the registered checks against each new snapshot and
//! keeps the snapshot for the next round.
use vstd::prelude::*;

use crate::definitions::{all_invariants, builtin_registry, prior, BuiltinInvariant, Invariant};
use crate::state::ProtocolState;
use crate::types::{InvariantResult, InvariantStatus};

verus! {

/// How many of `results` have status `status`.
pub open spec fn count_status(results: Seq<InvariantResult>, status: InvariantStatus) -> nat
    decreases results.len(),
{
    if results.len() == 0 {
        0
    } else {
        count_status(results.drop_last(), status) + if results.last().status == status {
            1nat
        } else {
            0nat
        }
    }
}

/// The results that report a violation, in order.
pub open spec fn violations_of(results: Seq<InvariantResult>) -> Seq<InvariantResult>
    decreases results.len(),
{
    if results.len() == 0 {
        Seq::empty()
    } else if results.last().status == InvariantStatus::Violated {
        violations_of(results.drop_last()).push(results.last())
    } else {
        violations_of(results.drop_last())
    }
}

/// Whether a round of results is healthy: something was evaluated, and
/// every result holds.
pub open spec fn healthy(results: Seq<InvariantResult>) -> bool {
    results.len() > 0 && forall|i: int| 0 <= i < results.len() ==> #[trigger] results[i].status == InvariantStatus::Holds
}

/// Evaluates a registry of checks, remembering the last snapshot it saw.
/// Any type of check can be registered; the built-in ones by default.
pub struct InvariantEngine<I = BuiltinInvariant> {
    /// The registered checks, evaluated in this order.
    pub invariants: Vec<I>,
    /// The snapshot of the last round, if there was one.
    pub previous_state: Option<ProtocolState>,
}

impl<I: Invariant> InvariantEngine<I> {
    /// An engine with the given registry and no earlier snapshot.
    pub fn with_invariants(invariants: Vec<I>) -> (r: Self)
        ensures
            r.invariants@ == invariants@,
            r.previous_state is None,
    {
        InvariantEngine { invariants, previous_state: None }
    }

    /// Runs every registered check on `state`, with the snapshot of the last
    /// round as the earlier one, then keeps `state` for the next round.
    pub fn evaluate_all(&mut self, state: &ProtocolState) -> (r: Vec<InvariantResult>)
        ensures
            r@.len() == old(self).invariants@.len(),
            forall|i: int|
                0 <= i < r@.len() ==> (#[trigger] r@[i])@ == old(self).invariants@[i].outcome(
                    *state,
                    old(self).previous_state,
                ),
            old(self).invariants@.len() == 0 ==> r@.len() == 0,
            final(self).invariants == old(self).invariants,
            final(self).previous_state == Some(*state),
    {
        let mut results: Vec<InvariantResult> = Vec::new();
        let mut i: usize = 0;
        while i < self.invariants.len()
            invariant
                self.invariants == old(self).invariants,
                self.previous_state == old(self).previous_state,
                i <= self.invariants@.len(),
                results@.len() == i,
                forall|j: int|
                    0 <= j < i ==> (#[trigger] results@[j])@ == self.invariants@[j].outcome(
                        *state,
                        self.previous_state,
                    ),
            decreases self.invariants@.len() - i,
        {
            let earlier: Option<&ProtocolState> = match &self.previous_state {
                Some(p) => Some(p),
                None => None,
            };
            assert(prior(earlier) == self.previous_state);
            let r = self.invariants[i].evaluate(state, earlier);
            results.push(r);
            i = i + 1;
        }
        self.previous_state = Some(*state);
        results
    }
}

impl InvariantEngine<BuiltinInvariant> {
    /// An engine with the built-in checks registered and no earlier snapshot.
    pub fn new() -> (r: Self)
        ensures
            r.invariants@ == builtin_registry(),
            r.previous_state is None,
    {
        InvariantEngine { invariants: all_invariants(), previous_state: None }
    }

    /// How many results report a violation.
    pub fn violation_count(results: &[InvariantResult]) -> (r: usize)
        ensures
            r == count_status(results@, InvariantStatus::Violated),
    {
        Self::count_with(results, InvariantStatus::Violated)
    }

    /// How many results report an error.
    pub fn error_count(results: &[InvariantResult]) -> (r: usize)
        ensures
            r == count_status(results@, InvariantStatus::Error),
    {
        Self::count_with(results, InvariantStatus::Error)
    }

    /// How many results have status `status`.
    fn count_with(results: &[InvariantResult], status: InvariantStatus) -> (r: usize)
        ensures
            r == count_status(results@, status),
    {
        let mut count: usize = 0;
        let mut i: usize = 0;
        while i < results.len()
            invariant
                i <= results@.len(),
                count <= i,
                count == count_status(results@.subrange(0, i as int), status),
            decreases results@.len() - i,
        {
            proof {
                assert(results@.subrange(0, i + 1).drop_last() =~= results@.subrange(0, i as int));
            }
            if results[i].status == status {
                count = count + 1;
            }
            i = i + 1;
        }
        proof {
            assert(results@.subrange(0, results@.len() as int) =~= results@);
        }
        count
    }

    /// Whether the round is healthy: at least one result, and every result
    /// holds. An empty round is not healthy.
    pub fn all_ok(results: &[InvariantResult]) -> (r: bool)
        ensures
            r == healthy(results@),
            results@.len() == 0 ==> !r,
    {
        if results.len() == 0 {
            return false;
        }
        let mut i: usize = 0;
        while i < results.len()
            invariant
                i <= results@.len(),
                forall|j: int| 0 <= j < i ==> #[trigger] results@[j].status == InvariantStatus::Holds,
            decreases results@.len() - i,
        {
            if results[i].status != InvariantStatus::Holds {
                return false;
            }
            i = i + 1;
        }
        true
    }

    /// The results that report a violation, in order.
    pub fn get_violations(results: &[InvariantResult]) -> (r: Vec<&InvariantResult>)
        ensures
            r@.len() == violations_of(results@).len(),
            forall|i: int| 0 <= i < r@.len() ==> *(#[trigger] r@[i]) == violations_of(results@)[i],
    {
        let mut out: Vec<&InvariantResult> = Vec::new();
        let mut i: usize = 0;
        while i < results.len()
            invariant
                i <= results@.len(),
                out@.len() == violations_of(results@.subrange(0, i as int)).len(),
                forall|k: int|
                    0 <= k < out@.len() ==> *(#[trigger] out@[k]) == violations_of(results@.subrange(0, i as int))[k],
            decreases results@.len() - i,
        {
            proof {
                assert(results@.subrange(0, i + 1).drop_last() =~= results@.subrange(0, i as int));
            }
            if results[i].status == InvariantStatus::Violated {
                out.push(&results[i]);
            }
            i = i + 1;
        }
        proof {
            assert(results@.subrange(0, results@.len() as int) =~= results@);
        }
        out
    }
}

impl Default for InvariantEngine<BuiltinInvariant> {
    /// Same as [`InvariantEngine::new`].
    fn default() -> (r: Self)
        ensures
            r.invariants@ == builtin_registry(),
            r.previous_state is None,
    {
        Self::new()
    }
}

} // verus!
