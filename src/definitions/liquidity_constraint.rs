//! Liquidity constraint: borrows never exceed supply.
use vstd::prelude::*;

use crate::arith::{sat_mul, saturating_mul};
use crate::definitions::{prior, Invariant};
use crate::state::ProtocolState;
use crate::text::{decimal, decimal_text};
use crate::types::{InvariantComputation, InvariantResult, InvariantStatus, ResultView};

verus! {

/// Available liquidity must be non-negative: total borrowed must not exceed
/// total supply.
pub struct LiquidityConstraint;

/// Supply not lent out; zero when more is borrowed than supplied.
pub open spec fn available_liquidity(s: ProtocolState) -> u128 {
    if s.total_supply >= s.total_borrowed {
        (s.total_supply - s.total_borrowed) as u128
    } else {
        0
    }
}

/// Borrows as a percentage of supply, floored; zero for an empty pool, and
/// `u128::MAX` for borrows without supply.
pub open spec fn utilization_percent(s: ProtocolState) -> u128 {
    if s.total_supply > 0 {
        (sat_mul(s.total_borrowed, 100) / s.total_supply) as u128
    } else if s.total_borrowed == 0 {
        0
    } else {
        u128::MAX
    }
}

/// The report of the liquidity check on `s`.
pub open spec fn liquidity_outcome(s: ProtocolState) -> ResultView {
    let holds = s.total_borrowed <= s.total_supply;
    ResultView {
        id: "INV-005"@,
        name: "Liquidity Constraint"@,
        description: "Total borrowed must not exceed total supply"@,
        status: if holds { InvariantStatus::Holds } else { InvariantStatus::Violated },
        entries: seq![
            ("total_supply"@, decimal(s.total_supply as nat)),
            ("total_borrowed"@, decimal(s.total_borrowed as nat)),
            ("available_liquidity"@, decimal(available_liquidity(s) as nat)),
            ("utilization_percent"@, decimal(utilization_percent(s) as nat)),
        ],
        formula: "total_borrowed <= total_supply"@,
        result: decimal(s.total_borrowed as nat) + " "@ + (if holds { "<="@ } else { ">"@ }) + " "@
            + decimal(s.total_supply as nat) + " ("@ + decimal(utilization_percent(s) as nat) + "% utilization)"@,
        reason: if holds {
            None
        } else {
            Some("Over-borrowed: "@ + decimal(s.total_borrowed as nat) + " > "@ + decimal(s.total_supply as nat)
                + " (negative liquidity)"@)
        },
    }
}

impl Invariant for LiquidityConstraint {
    open spec fn outcome(&self, state: ProtocolState, previous: Option<ProtocolState>) -> ResultView {
        liquidity_outcome(state)
    }

    fn id(&self) -> (r: &'static str)
        ensures
            r@ == "INV-005"@,
    {
        "INV-005"
    }

    fn name(&self) -> (r: &'static str)
        ensures
            r@ == "Liquidity Constraint"@,
    {
        "Liquidity Constraint"
    }

    fn description(&self) -> (r: &'static str)
        ensures
            r@ == "Total borrowed must not exceed total supply"@,
    {
        "Total borrowed must not exceed total supply"
    }

    /// Violated exactly when more is borrowed than supplied.
    fn evaluate(&self, state: &ProtocolState, previous: Option<&ProtocolState>) -> (r: InvariantResult)
        ensures
            r.status == InvariantStatus::Violated <==> state.total_borrowed > state.total_supply,
            r.computation.entries()[2] == ("available_liquidity"@, decimal(
                if state.total_supply >= state.total_borrowed {
                    (state.total_supply - state.total_borrowed) as nat
                } else {
                    0
                },
            )),
            r.status == InvariantStatus::Holds || r.status == InvariantStatus::Violated,
    {
        let supply = state.total_supply;
        let borrowed = state.total_borrowed;
        let holds = borrowed <= supply;
        let available = if supply >= borrowed {
            supply - borrowed
        } else {
            0
        };
        let utilization = if supply > 0 {
            saturating_mul(borrowed, 100) / supply
        } else if borrowed == 0 {
            0
        } else {
            u128::MAX
        };

        let supply_text = decimal_text(supply);
        let borrowed_text = decimal_text(borrowed);
        let utilization_text = decimal_text(utilization);
        let mut inputs: Vec<(String, String)> = Vec::new();
        inputs.push((String::from_str("total_supply"), decimal_text(supply)));
        inputs.push((String::from_str("total_borrowed"), decimal_text(borrowed)));
        inputs.push((String::from_str("available_liquidity"), decimal_text(available)));
        inputs.push((String::from_str("utilization_percent"), decimal_text(utilization)));

        let mut result = decimal_text(borrowed);
        result.append(" ");
        result.append(if holds { "<=" } else { ">" });
        result.append(" ");
        result.append(supply_text.as_str());
        result.append(" (");
        result.append(utilization_text.as_str());
        result.append("% utilization)");

        let computation = InvariantComputation {
            inputs,
            formula: String::from_str("total_borrowed <= total_supply"),
            result,
        };
        assert(computation.entries() =~= liquidity_outcome(*state).entries);

        if holds {
            InvariantResult::ok(self.id(), self.name(), self.description(), computation)
        } else {
            let mut reason = String::from_str("Over-borrowed: ");
            reason.append(borrowed_text.as_str());
            reason.append(" > ");
            reason.append(supply_text.as_str());
            reason.append(" (negative liquidity)");
            InvariantResult::violated(self.id(), self.name(), self.description(), computation, reason.as_str())
        }
    }
}

} // verus!
