//! Errors of the monitoring service.
use vstd::prelude::*;

verus! {

/// What can go wrong around an evaluation cycle.
#[derive(Clone, Debug)]
pub enum MonitorError {
    RpcError(String),
    ParseError(String),
    ObjectNotFound(String),
    InvariantError(String),
    AlertError(String),
    ConfigError(String),
}

} // verus!
