//! Total supply conservation: supply equals reserves plus borrows.
use vstd::prelude::*;

use crate::arith::sat_add;
use crate::definitions::{prior, Invariant};
use crate::state::ProtocolState;
use crate::text::{decimal, decimal_text};
use crate::types::{InvariantComputation, InvariantResult, InvariantStatus, ResultView};

verus! {

/// Protocol total supply must equal reserves plus outstanding borrows, so
/// that no tokens appear or vanish outside the accounting.
pub struct TotalSupplyConservation;

/// The supply that reserves and borrows account for, clamped at `u128::MAX`.
pub open spec fn expected_supply(s: ProtocolState) -> u128 {
    sat_add(s.total_reserves, s.total_borrowed)
}

/// The report of the supply check on `s`.
pub open spec fn supply_outcome(s: ProtocolState) -> ResultView {
    let actual = s.total_supply;
    let expected = expected_supply(s);
    let holds = actual == expected;
    ResultView {
        id: "INV-001"@,
        name: "Total Supply Conservation"@,
        description: "Protocol total supply equals reserves plus outstanding borrows"@,
        status: if holds { InvariantStatus::Holds } else { InvariantStatus::Violated },
        entries: seq![
            ("total_supply"@, decimal(actual as nat)),
            ("total_reserves"@, decimal(s.total_reserves as nat)),
            ("total_borrowed"@, decimal(s.total_borrowed as nat)),
            ("expected"@, decimal(expected as nat)),
        ],
        formula: "total_supply == total_reserves + total_borrowed"@,
        result: decimal(actual as nat) + " "@ + (if holds { "=="@ } else { "!="@ }) + " "@ + decimal(expected as nat),
        reason: if holds {
            None
        } else {
            Some("Supply mismatch: actual "@ + decimal(actual as nat) + " != expected "@ + decimal(expected as nat))
        },
    }
}

impl Invariant for TotalSupplyConservation {
    open spec fn outcome(&self, state: ProtocolState, previous: Option<ProtocolState>) -> ResultView {
        supply_outcome(state)
    }

    fn id(&self) -> (r: &'static str)
        ensures
            r@ == "INV-001"@,
    {
        "INV-001"
    }

    fn name(&self) -> (r: &'static str)
        ensures
            r@ == "Total Supply Conservation"@,
    {
        "Total Supply Conservation"
    }

    fn description(&self) -> (r: &'static str)
        ensures
            r@ == "Protocol total supply equals reserves plus outstanding borrows"@,
    {
        "Protocol total supply equals reserves plus outstanding borrows"
    }

    /// Holds exactly when the supply equals the clamped sum of reserves and
    /// borrows.
    fn evaluate(&self, state: &ProtocolState, previous: Option<&ProtocolState>) -> (r: InvariantResult)
        ensures
            r.status == InvariantStatus::Holds <==> state.total_supply == sat_add(state.total_reserves, state.total_borrowed),
            r.status == InvariantStatus::Holds || r.status == InvariantStatus::Violated,
    {
        let expected = state.total_reserves.saturating_add(state.total_borrowed);
        let actual = state.total_supply;
        let holds = actual == expected;

        let actual_text = decimal_text(actual);
        let expected_text = decimal_text(expected);
        let mut inputs: Vec<(String, String)> = Vec::new();
        inputs.push((String::from_str("total_supply"), decimal_text(actual)));
        inputs.push((String::from_str("total_reserves"), decimal_text(state.total_reserves)));
        inputs.push((String::from_str("total_borrowed"), decimal_text(state.total_borrowed)));
        inputs.push((String::from_str("expected"), decimal_text(expected)));

        let mut result = decimal_text(actual);
        result.append(" ");
        result.append(if holds { "==" } else { "!=" });
        result.append(" ");
        result.append(expected_text.as_str());

        let computation = InvariantComputation {
            inputs,
            formula: String::from_str("total_supply == total_reserves + total_borrowed"),
            result,
        };
        assert(computation.entries() =~= supply_outcome(*state).entries);

        if holds {
            InvariantResult::ok(self.id(), self.name(), self.description(), computation)
        } else {
            let mut reason = String::from_str("Supply mismatch: actual ");
            reason.append(actual_text.as_str());
            reason.append(" != expected ");
            reason.append(expected_text.as_str());
            InvariantResult::violated(self.id(), self.name(), self.description(), computation, reason.as_str())
        }
    }
}

} // verus!
