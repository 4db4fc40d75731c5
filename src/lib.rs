//! Safety-invariant monitoring for a lending protocol: raw on-chain records
//! are folded into a snapshot, and a registry of checks is evaluated against
//! the current snapshot and the one before it.
use vstd::prelude::*;

pub mod alert;
pub mod arith;
pub mod clock;
pub mod config;
pub mod definitions;
pub mod engine;
pub mod error;
pub mod llm;
pub mod metadata;
pub mod network;
pub mod service;
pub mod state;
pub mod text;
pub mod types;

pub use definitions::{
    all_invariants, AccountingBalanceIntegrity, BuiltinInvariant, CollateralizationRatio, Invariant,
    InterestMonotonicity, LiquidityConstraint, TotalSupplyConservation,
};
pub use engine::InvariantEngine;
pub use error::MonitorError;
pub use state::{ProtocolState, RawField, RawRecord, RawValue, StateAggregator};
pub use types::{InvariantComputation, InvariantResult, InvariantStatus};

verus! {

} // verus!
