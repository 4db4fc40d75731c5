//! The invariant checks and the registry entry that names one of them.
use vstd::prelude::*;

use crate::state::ProtocolState;
use crate::types::{InvariantResult, ResultView};
use accounting_balance::accounting_outcome;
use collateralization::collateral_outcome;
use interest_monotonicity::interest_outcome;
use liquidity_constraint::liquidity_outcome;
use total_supply::supply_outcome;

pub mod accounting_balance;
pub mod collateralization;
pub mod interest_monotonicity;
pub mod liquidity_constraint;
pub mod total_supply;

pub use accounting_balance::AccountingBalanceIntegrity;
pub use collateralization::CollateralizationRatio;
pub use interest_monotonicity::InterestMonotonicity;
pub use liquidity_constraint::LiquidityConstraint;
pub use total_supply::TotalSupplyConservation;

verus! {

/// The earlier snapshot, if one is given.
pub open spec fn prior(previous: Option<&ProtocolState>) -> Option<ProtocolState> {
    match previous {
        Some(p) => Some(*p),
        None => None,
    }
}

/// A named rule evaluated against the current snapshot and, where it needs
/// one, the snapshot before it.
pub trait Invariant {
    /// What evaluating the rule on `state`, after `previous`, reports.
    spec fn outcome(&self, state: ProtocolState, previous: Option<ProtocolState>) -> ResultView;

    /// Stable short code of the rule.
    fn id(&self) -> &'static str;

    /// Human-readable name of the rule.
    fn name(&self) -> &'static str;

    /// What the rule checks.
    fn description(&self) -> &'static str;

    /// Evaluates the rule.
    fn evaluate(&self, state: &ProtocolState, previous: Option<&ProtocolState>) -> (r: InvariantResult)
        ensures
            r@ == self.outcome(*state, prior(previous)),
    ;
}

/// One of the built-in checks, as the engine's registry holds it.
#[derive(Clone, Copy, Debug, PartialEq, Eq, Structural)]
pub enum BuiltinInvariant {
    TotalSupplyConservation,
    CollateralizationRatio,
    AccountingBalanceIntegrity,
    InterestMonotonicity,
    LiquidityConstraint,
}

impl Invariant for BuiltinInvariant {
    open spec fn outcome(&self, state: ProtocolState, previous: Option<ProtocolState>) -> ResultView {
        match self {
            BuiltinInvariant::TotalSupplyConservation => supply_outcome(state),
            BuiltinInvariant::CollateralizationRatio => collateral_outcome(state),
            BuiltinInvariant::AccountingBalanceIntegrity => accounting_outcome(state),
            BuiltinInvariant::InterestMonotonicity => interest_outcome(state, previous),
            BuiltinInvariant::LiquidityConstraint => liquidity_outcome(state),
        }
    }

    /// The id that the check's results carry.
    fn id(&self) -> (r: &'static str)
        ensures
            r@ == self.outcome(ProtocolState::blank(0, 0), None).id,
    {
        match self {
            BuiltinInvariant::TotalSupplyConservation => TotalSupplyConservation.id(),
            BuiltinInvariant::CollateralizationRatio => CollateralizationRatio.id(),
            BuiltinInvariant::AccountingBalanceIntegrity => AccountingBalanceIntegrity.id(),
            BuiltinInvariant::InterestMonotonicity => InterestMonotonicity.id(),
            BuiltinInvariant::LiquidityConstraint => LiquidityConstraint.id(),
        }
    }

    /// The name that the check's results carry.
    fn name(&self) -> (r: &'static str)
        ensures
            r@ == self.outcome(ProtocolState::blank(0, 0), None).name,
    {
        match self {
            BuiltinInvariant::TotalSupplyConservation => TotalSupplyConservation.name(),
            BuiltinInvariant::CollateralizationRatio => CollateralizationRatio.name(),
            BuiltinInvariant::AccountingBalanceIntegrity => AccountingBalanceIntegrity.name(),
            BuiltinInvariant::InterestMonotonicity => InterestMonotonicity.name(),
            BuiltinInvariant::LiquidityConstraint => LiquidityConstraint.name(),
        }
    }

    /// The description that the check's results carry.
    fn description(&self) -> (r: &'static str)
        ensures
            r@ == self.outcome(ProtocolState::blank(0, 0), None).description,
    {
        match self {
            BuiltinInvariant::TotalSupplyConservation => TotalSupplyConservation.description(),
            BuiltinInvariant::CollateralizationRatio => CollateralizationRatio.description(),
            BuiltinInvariant::AccountingBalanceIntegrity => AccountingBalanceIntegrity.description(),
            BuiltinInvariant::InterestMonotonicity => InterestMonotonicity.description(),
            BuiltinInvariant::LiquidityConstraint => LiquidityConstraint.description(),
        }
    }

    fn evaluate(&self, state: &ProtocolState, previous: Option<&ProtocolState>) -> (r: InvariantResult) {
        match self {
            BuiltinInvariant::TotalSupplyConservation => TotalSupplyConservation.evaluate(state, previous),
            BuiltinInvariant::CollateralizationRatio => CollateralizationRatio.evaluate(state, previous),
            BuiltinInvariant::AccountingBalanceIntegrity => AccountingBalanceIntegrity.evaluate(state, previous),
            BuiltinInvariant::InterestMonotonicity => InterestMonotonicity.evaluate(state, previous),
            BuiltinInvariant::LiquidityConstraint => LiquidityConstraint.evaluate(state, previous),
        }
    }
}

/// The five built-in checks, in their registry order.
pub open spec fn builtin_registry() -> Seq<BuiltinInvariant> {
    seq![
        BuiltinInvariant::TotalSupplyConservation,
        BuiltinInvariant::CollateralizationRatio,
        BuiltinInvariant::AccountingBalanceIntegrity,
        BuiltinInvariant::InterestMonotonicity,
        BuiltinInvariant::LiquidityConstraint,
    ]
}

/// All built-in checks: supply, collateral, accounting, interest and
/// liquidity, in that order.
pub fn all_invariants() -> (r: Vec<BuiltinInvariant>)
    ensures
        r@ == builtin_registry(),
{
    let mut r: Vec<BuiltinInvariant> = Vec::new();
    r.push(BuiltinInvariant::TotalSupplyConservation);
    r.push(BuiltinInvariant::CollateralizationRatio);
    r.push(BuiltinInvariant::AccountingBalanceIntegrity);
    r.push(BuiltinInvariant::InterestMonotonicity);
    r.push(BuiltinInvariant::LiquidityConstraint);
    assert(r@ =~= builtin_registry());
    r
}

} // verus!
