//! Interest monotonicity: the interest index never decreases.
use vstd::prelude::*;

use crate::definitions::{prior, Invariant};
use crate::state::ProtocolState;
use crate::text::{decimal, decimal_text};
use crate::types::{InvariantComputation, InvariantResult, InvariantStatus, ResultView};

verus! {

/// The interest index must never decrease, so that accrued interest is
/// never negative.
pub struct InterestMonotonicity;

/// The report of the monotonicity check on `s`, after `previous`.
pub open spec fn interest_outcome(s: ProtocolState, previous: Option<ProtocolState>) -> ResultView {
    let current = s.interest_index;
    let base = ResultView {
        id: "INV-004"@,
        name: "Interest Index Monotonicity"@,
        description: "Interest index must never decrease over time"@,
        status: InvariantStatus::Holds,
        entries: seq![("current_index"@, decimal(current as nat)), ("previous_index"@, "N/A (first check)"@)],
        formula: "current_index >= previous_index"@,
        result: "First evaluation - no previous state to compare"@,
        reason: None,
    };
    match previous {
        None => base,
        Some(p) => {
            let before = p.interest_index;
            let holds = current >= before;
            let delta: u128 = if holds { (current - before) as u128 } else { 0 };
            ResultView {
                status: if holds { InvariantStatus::Holds } else { InvariantStatus::Violated },
                entries: seq![
                    ("current_index"@, decimal(current as nat)),
                    ("previous_index"@, decimal(before as nat)),
                    ("delta"@, decimal(delta as nat)),
                ],
                result: decimal(current as nat) + " "@ + (if holds { ">="@ } else { "<"@ }) + " "@ + decimal(before as nat),
                reason: if holds {
                    None
                } else {
                    Some("Interest index decreased: "@ + decimal(before as nat) + " -> "@ + decimal(current as nat)
                        + " (delta: "@ + decimal((before - current) as nat) + ")"@)
                },
                ..base
            }
        },
    }
}

impl Invariant for InterestMonotonicity {
    open spec fn outcome(&self, state: ProtocolState, previous: Option<ProtocolState>) -> ResultView {
        interest_outcome(state, previous)
    }

    fn id(&self) -> (r: &'static str)
        ensures
            r@ == "INV-004"@,
    {
        "INV-004"
    }

    fn name(&self) -> (r: &'static str)
        ensures
            r@ == "Interest Index Monotonicity"@,
    {
        "Interest Index Monotonicity"
    }

    fn description(&self) -> (r: &'static str)
        ensures
            r@ == "Interest index must never decrease over time"@,
    {
        "Interest index must never decrease over time"
    }

    /// Holds on a first evaluation, and otherwise exactly when the index
    /// has not gone down.
    fn evaluate(&self, state: &ProtocolState, previous: Option<&ProtocolState>) -> (r: InvariantResult)
        ensures
            previous is None ==> r.status == InvariantStatus::Holds,
            previous matches Some(p) ==> (r.status == InvariantStatus::Violated <==> state.interest_index
                < p.interest_index),
            r.status == InvariantStatus::Holds || r.status == InvariantStatus::Violated,
    {
        let current = state.interest_index;
        let current_text = decimal_text(current);
        match previous {
            None => {
                let mut inputs: Vec<(String, String)> = Vec::new();
                inputs.push((String::from_str("current_index"), decimal_text(current)));
                inputs.push((String::from_str("previous_index"), String::from_str("N/A (first check)")));
                let computation = InvariantComputation {
                    inputs,
                    formula: String::from_str("current_index >= previous_index"),
                    result: String::from_str("First evaluation - no previous state to compare"),
                };
                assert(computation.entries() =~= interest_outcome(*state, None).entries);
                InvariantResult::ok(self.id(), self.name(), self.description(), computation)
            },
            Some(p) => {
                let before = p.interest_index;
                let holds = current >= before;
                let delta: u128 = if holds { current - before } else { 0 };
                let before_text = decimal_text(before);
                let mut inputs: Vec<(String, String)> = Vec::new();
                inputs.push((String::from_str("current_index"), decimal_text(current)));
                inputs.push((String::from_str("previous_index"), decimal_text(before)));
                inputs.push((String::from_str("delta"), decimal_text(delta)));

                let mut result = decimal_text(current);
                result.append(" ");
                result.append(if holds { ">=" } else { "<" });
                result.append(" ");
                result.append(before_text.as_str());

                let computation = InvariantComputation {
                    inputs,
                    formula: String::from_str("current_index >= previous_index"),
                    result,
                };
                assert(computation.entries() =~= interest_outcome(*state, Some(*p)).entries);

                if holds {
                    InvariantResult::ok(self.id(), self.name(), self.description(), computation)
                } else {
                    let drop_text = decimal_text(before - current);
                    let mut reason = String::from_str("Interest index decreased: ");
                    reason.append(before_text.as_str());
                    reason.append(" -> ");
                    reason.append(current_text.as_str());
                    reason.append(" (delta: ");
                    reason.append(drop_text.as_str());
                    reason.append(")");
                    InvariantResult::violated(self.id(), self.name(), self.description(), computation, reason.as_str())
                }
            },
        }
    }
}

} // verus!
