//! Accounting balance integrity: tracked reserves match the on-chain balance.
use vstd::prelude::*;

use crate::definitions::{prior, Invariant};
use crate::state::ProtocolState;
use crate::text::{decimal, decimal_text};
use crate::types::{InvariantComputation, InvariantResult, InvariantStatus, ResultView};

verus! {

/// Internal accounting must match the token balance held on chain.
pub struct AccountingBalanceIntegrity;

/// The distance between two amounts.
pub open spec fn abs_diff(a: u128, b: u128) -> u128 {
    if a > b {
        (a - b) as u128
    } else {
        (b - a) as u128
    }
}

/// The report of the accounting check on `s`.
pub open spec fn accounting_outcome(s: ProtocolState) -> ResultView {
    let internal = s.total_reserves;
    let on_chain = s.on_chain_balance;
    let holds = internal == on_chain;
    ResultView {
        id: "INV-003"@,
        name: "Accounting Balance Integrity"@,
        description: "Internal balance matches on-chain token balance"@,
        status: if holds { InvariantStatus::Holds } else { InvariantStatus::Violated },
        entries: seq![
            ("internal_balance"@, decimal(internal as nat)),
            ("on_chain_balance"@, decimal(on_chain as nat)),
            ("difference"@, decimal(abs_diff(internal, on_chain) as nat)),
        ],
        formula: "internal_balance == on_chain_balance"@,
        result: decimal(internal as nat) + " "@ + (if holds { "=="@ } else { "!="@ }) + " "@ + decimal(on_chain as nat),
        reason: if holds {
            None
        } else {
            Some("Balance mismatch: internal "@ + decimal(internal as nat) + " != on-chain "@ + decimal(on_chain as nat))
        },
    }
}

impl Invariant for AccountingBalanceIntegrity {
    open spec fn outcome(&self, state: ProtocolState, previous: Option<ProtocolState>) -> ResultView {
        accounting_outcome(state)
    }

    fn id(&self) -> (r: &'static str)
        ensures
            r@ == "INV-003"@,
    {
        "INV-003"
    }

    fn name(&self) -> (r: &'static str)
        ensures
            r@ == "Accounting Balance Integrity"@,
    {
        "Accounting Balance Integrity"
    }

    fn description(&self) -> (r: &'static str)
        ensures
            r@ == "Internal balance matches on-chain token balance"@,
    {
        "Internal balance matches on-chain token balance"
    }

    /// Holds exactly when the reserves equal the on-chain balance.
    fn evaluate(&self, state: &ProtocolState, previous: Option<&ProtocolState>) -> (r: InvariantResult)
        ensures
            r.status == InvariantStatus::Holds <==> state.total_reserves == state.on_chain_balance,
            r.status == InvariantStatus::Holds || r.status == InvariantStatus::Violated,
    {
        let internal = state.total_reserves;
        let on_chain = state.on_chain_balance;
        let holds = internal == on_chain;
        let difference = if internal > on_chain {
            internal - on_chain
        } else {
            on_chain - internal
        };

        let internal_text = decimal_text(internal);
        let on_chain_text = decimal_text(on_chain);
        let mut inputs: Vec<(String, String)> = Vec::new();
        inputs.push((String::from_str("internal_balance"), decimal_text(internal)));
        inputs.push((String::from_str("on_chain_balance"), decimal_text(on_chain)));
        inputs.push((String::from_str("difference"), decimal_text(difference)));

        let mut result = decimal_text(internal);
        result.append(" ");
        result.append(if holds { "==" } else { "!=" });
        result.append(" ");
        result.append(on_chain_text.as_str());

        let computation = InvariantComputation {
            inputs,
            formula: String::from_str("internal_balance == on_chain_balance"),
            result,
        };
        assert(computation.entries() =~= accounting_outcome(*state).entries);

        if holds {
            InvariantResult::ok(self.id(), self.name(), self.description(), computation)
        } else {
            let mut reason = String::from_str("Balance mismatch: internal ");
            reason.append(internal_text.as_str());
            reason.append(" != on-chain ");
            reason.append(on_chain_text.as_str());
            InvariantResult::violated(self.id(), self.name(), self.description(), computation, reason.as_str())
        }
    }
}

} // verus!
