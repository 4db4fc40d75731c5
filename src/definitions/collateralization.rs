//! Collateralization ratio: borrows stay covered at 150% or more.
use vstd::prelude::*;

use crate::arith::{sat_mul, saturating_mul};
use crate::definitions::{prior, Invariant};
use crate::state::ProtocolState;
use crate::text::{decimal, decimal_text};
use crate::types::{InvariantComputation, InvariantResult, InvariantStatus, ResultView};

verus! {

/// Outstanding borrows must always be over-collateralized.
pub struct CollateralizationRatio;

/// Minimum collateral ratio, in percent.
pub const MIN_COLLATERAL_RATIO: u128 = 150;

/// The collateral that `borrowed` calls for: the clamped product with the
/// minimum ratio, floored to whole units.
pub open spec fn required_collateral(borrowed: u128) -> u128 {
    (sat_mul(borrowed, MIN_COLLATERAL_RATIO) / 100) as u128
}

/// Collateral as a percentage of the borrows, floored (for display).
pub open spec fn ratio_percent(collateral: u128, borrowed: u128) -> u128 {
    (sat_mul(collateral, 100) / borrowed) as u128
}

/// Whether `collateral` falls between the floored requirement and the exact
/// 150% of `borrowed`: enough for the check, though short of the exact ratio.
pub open spec fn in_rounding_gap(collateral: u128, borrowed: u128) -> bool {
    required_collateral(borrowed) <= collateral && collateral * 100 < borrowed * 150
}

/// With something borrowed, the check fails exactly when the collateral is
/// below 150% of the borrows, `collateral * 100 < borrowed * 150`, computed
/// without rounding or overflow. The only exceptions are the amounts that
/// floor division and clamping let through (`in_rounding_gap`), such as one
/// unit of collateral against one unit borrowed.
pub proof fn lemma_violation_iff_exact_ratio(collateral: u128, borrowed: u128)
    requires
        borrowed > 0,
        !in_rounding_gap(collateral, borrowed),
    ensures
        collateral < required_collateral(borrowed) <==> collateral * 100 < borrowed * 150,
{
    let product = sat_mul(borrowed, MIN_COLLATERAL_RATIO);
    assert(product <= borrowed * 150);
    assert((product / 100) * 100 <= product) by (nonlinear_arith)
        requires
            product >= 0,
    ;
    if collateral < required_collateral(borrowed) {
        assert(collateral * 100 < (product / 100) * 100) by (nonlinear_arith)
            requires
                collateral < product / 100,
        ;
    }
}

/// The report of the collateralization check on `s`.
pub open spec fn collateral_outcome(s: ProtocolState) -> ResultView {
    let c = s.collateral_value;
    let b = s.total_borrowed;
    let required = required_collateral(b);
    let holds = b == 0 || c >= required;
    let ratio = ratio_percent(c, b);
    let op = if holds { ">="@ } else { "<"@ };
    ResultView {
        id: "INV-002"@,
        name: "Collateralization Ratio"@,
        description: "Outstanding borrows must be over-collateralized (minimum 150%)"@,
        status: if holds { InvariantStatus::Holds } else { InvariantStatus::Violated },
        entries: if b == 0 {
            seq![
                ("collateral_value"@, decimal(c as nat)),
                ("total_borrowed"@, decimal(0)),
                ("required_collateral"@, decimal(0)),
            ]
        } else {
            seq![
                ("collateral_value"@, decimal(c as nat)),
                ("total_borrowed"@, decimal(b as nat)),
                ("required_collateral"@, decimal(required as nat)),
                ("current_ratio_percent"@, decimal(ratio as nat)),
                ("min_ratio_percent"@, decimal(MIN_COLLATERAL_RATIO as nat)),
            ]
        },
        formula: "collateral_value >= total_borrowed * 1.5"@,
        result: if b == 0 {
            "No borrows outstanding - OK"@
        } else {
            decimal(c as nat) + " "@ + op + " "@ + decimal(required as nat) + " ("@ + decimal(ratio as nat)
                + "% "@ + op + " "@ + decimal(MIN_COLLATERAL_RATIO as nat) + "%)"@
        },
        reason: if holds {
            None
        } else {
            Some("Under-collateralized: "@ + decimal(ratio as nat) + "% < "@ + decimal(MIN_COLLATERAL_RATIO as nat) + "% minimum"@)
        },
    }
}

impl Invariant for CollateralizationRatio {
    open spec fn outcome(&self, state: ProtocolState, previous: Option<ProtocolState>) -> ResultView {
        collateral_outcome(state)
    }

    fn id(&self) -> (r: &'static str)
        ensures
            r@ == "INV-002"@,
    {
        "INV-002"
    }

    fn name(&self) -> (r: &'static str)
        ensures
            r@ == "Collateralization Ratio"@,
    {
        "Collateralization Ratio"
    }

    fn description(&self) -> (r: &'static str)
        ensures
            r@ == "Outstanding borrows must be over-collateralized (minimum 150%)"@,
    {
        "Outstanding borrows must be over-collateralized (minimum 150%)"
    }

    /// Holds when nothing is borrowed, and otherwise exactly when the
    /// collateral reaches the required amount.
    fn evaluate(&self, state: &ProtocolState, previous: Option<&ProtocolState>) -> (r: InvariantResult)
        ensures
            state.total_borrowed == 0 ==> r.status == InvariantStatus::Holds,
            state.total_borrowed > 0 ==> (r.status == InvariantStatus::Violated <==> state.collateral_value
                < required_collateral(state.total_borrowed)),
            r.status == InvariantStatus::Holds || r.status == InvariantStatus::Violated,
    {
        let c = state.collateral_value;
        let b = state.total_borrowed;
        if b == 0 {
            let mut inputs: Vec<(String, String)> = Vec::new();
            inputs.push((String::from_str("collateral_value"), decimal_text(c)));
            inputs.push((String::from_str("total_borrowed"), decimal_text(0)));
            inputs.push((String::from_str("required_collateral"), decimal_text(0)));
            let computation = InvariantComputation {
                inputs,
                formula: String::from_str("collateral_value >= total_borrowed * 1.5"),
                result: String::from_str("No borrows outstanding - OK"),
            };
            assert(computation.entries() =~= collateral_outcome(*state).entries);
            return InvariantResult::ok(self.id(), self.name(), self.description(), computation);
        }

        let required = saturating_mul(b, MIN_COLLATERAL_RATIO) / 100;
        let holds = c >= required;
        let ratio = saturating_mul(c, 100) / b;

        let c_text = decimal_text(c);
        let required_text = decimal_text(required);
        let ratio_text = decimal_text(ratio);
        let min_text = decimal_text(MIN_COLLATERAL_RATIO);
        let mut inputs: Vec<(String, String)> = Vec::new();
        inputs.push((String::from_str("collateral_value"), decimal_text(c)));
        inputs.push((String::from_str("total_borrowed"), decimal_text(b)));
        inputs.push((String::from_str("required_collateral"), decimal_text(required)));
        inputs.push((String::from_str("current_ratio_percent"), decimal_text(ratio)));
        inputs.push((String::from_str("min_ratio_percent"), decimal_text(MIN_COLLATERAL_RATIO)));

        let op = if holds { ">=" } else { "<" };
        let mut result = decimal_text(c);
        result.append(" ");
        result.append(op);
        result.append(" ");
        result.append(required_text.as_str());
        result.append(" (");
        result.append(ratio_text.as_str());
        result.append("% ");
        result.append(op);
        result.append(" ");
        result.append(min_text.as_str());
        result.append("%)");

        let computation = InvariantComputation {
            inputs,
            formula: String::from_str("collateral_value >= total_borrowed * 1.5"),
            result,
        };
        assert(computation.entries() =~= collateral_outcome(*state).entries);

        if holds {
            InvariantResult::ok(self.id(), self.name(), self.description(), computation)
        } else {
            let mut reason = String::from_str("Under-collateralized: ");
            reason.append(ratio_text.as_str());
            reason.append("% < ");
            reason.append(min_text.as_str());
            reason.append("% minimum");
            InvariantResult::violated(self.id(), self.name(), self.description(), computation, reason.as_str())
        }
    }
}

} // verus!
