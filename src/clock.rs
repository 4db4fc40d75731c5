//! The wall clock, read through chrono.
use vstd::prelude::*;

verus! {

/// An instant in UTC: whole seconds since the Unix epoch and the nanoseconds
/// past that second.
#[derive(Clone, Copy, Debug, PartialEq, Eq, Structural)]
pub struct UtcTime {
    pub unix_secs: i64,
    pub subsec_nanos: u32,
}

/// Relies on `chrono::Utc::now`: the current instant, read as its Unix
/// seconds and sub-second nanoseconds. Nothing is promised of the value
/// (chrono panics if the system clock reads earlier than 1970).
#[verifier::external_body]
pub(crate) fn utc_now() -> (r: UtcTime)
{
    let now = chrono::Utc::now();
    UtcTime { unix_secs: now.timestamp(), subsec_nanos: now.timestamp_subsec_nanos() }
}

} // verus!
