//! The protocol snapshot and the aggregator that folds raw records into one.
use vstd::prelude::*;

use crate::clock::utc_now;
use crate::error::MonitorError;
use crate::text::{parse_u128, parse_u64, parse_unsigned};

verus! {

/// The interest index of a snapshot that no record has set: 1.0 in fixed
/// point, scaled by 1e9.
pub const DEFAULT_INTEREST_INDEX: u128 = 1_000_000_000;

/// One normalized observation of the protocol's totals.
#[derive(Clone, Copy, Debug, PartialEq, Eq, Structural)]
pub struct ProtocolState {
    /// Unix seconds at which the snapshot was taken.
    pub timestamp: u64,
    pub total_supply: u128,
    pub total_borrowed: u128,
    pub total_reserves: u128,
    pub collateral_value: u128,
    pub outstanding_shares: u128,
    /// Interest accrual index, fixed point scaled by 1e9.
    pub interest_index: u128,
    pub last_update_epoch: u64,
    /// Balance observed on chain, for the accounting cross-check.
    pub on_chain_balance: u128,
}

impl ProtocolState {
    /// A snapshot with no data yet: every quantity zero but the interest
    /// index, which is 1.0.
    pub open spec fn blank(timestamp: u64, on_chain_balance: u128) -> ProtocolState {
        ProtocolState {
            timestamp,
            total_supply: 0,
            total_borrowed: 0,
            total_reserves: 0,
            collateral_value: 0,
            outstanding_shares: 0,
            interest_index: DEFAULT_INTEREST_INDEX,
            last_update_epoch: 0,
            on_chain_balance,
        }
    }
}

impl Default for ProtocolState {
    /// A blank snapshot stamped with the current time.
    fn default() -> (r: Self)
        ensures
            r == ProtocolState::blank(r.timestamp, 0),
    {
        let now = utc_now();
        ProtocolState {
            timestamp: #[verifier::truncate] (now.unix_secs as u64),
            total_supply: 0,
            total_borrowed: 0,
            total_reserves: 0,
            collateral_value: 0,
            outstanding_shares: 0,
            interest_index: DEFAULT_INTEREST_INDEX,
            last_update_epoch: 0,
            on_chain_balance: 0,
        }
    }
}

/// A field value of a raw record, as the data source delivered it.
#[derive(Clone, Debug)]
pub enum RawValue {
    /// A textual value, expected to hold a decimal number.
    Text(String),
    /// A native number that fits in 64 unsigned bits.
    Unsigned(u64),
    /// Anything else (a negative or fractional number, a bool, a nested
    /// document, null).
    Other,
}

/// One named field of a raw record.
#[derive(Clone, Debug)]
pub struct RawField {
    pub name: String,
    pub value: RawValue,
}

/// One on-chain object's data payload: its fields in order. Where a name
/// occurs twice, the first occurrence counts.
#[derive(Clone, Debug)]
pub struct RawRecord {
    pub fields: Vec<RawField>,
}

/// The value of the first field called `key`, if any.
pub open spec fn lookup(fields: Seq<RawField>, key: Seq<char>) -> Option<RawValue>
    decreases fields.len(),
{
    if fields.len() == 0 {
        None
    } else if fields[0].name@ == key {
        Some(fields[0].value)
    } else {
        lookup(fields.drop_first(), key)
    }
}

/// A value read as an unsigned integer of at most `max`: a decimal text, or a
/// native number in range.
pub open spec fn value_as_unsigned(v: RawValue, max: nat) -> Option<nat> {
    match v {
        RawValue::Text(s) => parse_unsigned(s@, max),
        RawValue::Unsigned(n) => if n <= max {
            Some(n as nat)
        } else {
            None
        },
        RawValue::Other => None,
    }
}

/// The unsigned value that `record` gives for `key`, if it gives a
/// well-formed one no larger than `max`.
pub open spec fn field_value(record: RawRecord, key: Seq<char>, max: nat) -> Option<nat> {
    match lookup(record.fields@, key) {
        Some(v) => value_as_unsigned(v, max),
        None => None,
    }
}

/// `current`, unless `update` holds a value.
pub open spec fn overlay(current: nat, update: Option<nat>) -> nat {
    match update {
        Some(n) => n,
        None => current,
    }
}

/// `s` with every well-known field that `record` defines well overwritten;
/// the timestamp and the on-chain balance are kept.
pub open spec fn apply_record(s: ProtocolState, record: RawRecord) -> ProtocolState {
    let m128 = u128::MAX as nat;
    ProtocolState {
        total_supply: overlay(s.total_supply as nat, field_value(record, "total_supply"@, m128)) as u128,
        total_borrowed: overlay(s.total_borrowed as nat, field_value(record, "total_borrowed"@, m128)) as u128,
        total_reserves: overlay(s.total_reserves as nat, field_value(record, "total_reserves"@, m128)) as u128,
        collateral_value: overlay(s.collateral_value as nat, field_value(record, "collateral_value"@, m128)) as u128,
        outstanding_shares: overlay(s.outstanding_shares as nat, field_value(record, "outstanding_shares"@, m128)) as u128,
        interest_index: overlay(s.interest_index as nat, field_value(record, "interest_index"@, m128)) as u128,
        last_update_epoch: overlay(s.last_update_epoch as nat, field_value(record, "last_update_epoch"@, u64::MAX as nat)) as u64,
        ..s
    }
}

/// `s` with the records applied in order, so that a later record wins.
pub open spec fn apply_records(s: ProtocolState, records: Seq<RawRecord>) -> ProtocolState
    decreases records.len(),
{
    if records.len() == 0 {
        s
    } else {
        apply_record(apply_records(s, records.drop_last()), records.last())
    }
}

/// Applying records never changes a snapshot's timestamp or on-chain balance.
pub proof fn lemma_apply_records_keeps_stamp(s: ProtocolState, records: Seq<RawRecord>)
    ensures
        apply_records(s, records).timestamp == s.timestamp,
        apply_records(s, records).on_chain_balance == s.on_chain_balance,
    decreases records.len(),
{
    if records.len() > 0 {
        lemma_apply_records_keeps_stamp(s, records.drop_last());
    }
}

/// Folds raw records into snapshots.
pub struct StateAggregator;

impl StateAggregator {
    /// The snapshot that `records` describe, stamped with the current time.
    /// It never fails.
    pub fn aggregate(records: &[RawRecord], on_chain_balance: u128) -> (r: Result<ProtocolState, MonitorError>)
        ensures
            r matches Ok(s) && s == apply_records(ProtocolState::blank(s.timestamp, on_chain_balance), records@),
    {
        let now = utc_now();
        #[verifier::truncate]
        let timestamp = now.unix_secs as u64;
        let state = Self::aggregate_at(records, on_chain_balance, timestamp);
        proof {
            lemma_apply_records_keeps_stamp(ProtocolState::blank(timestamp, on_chain_balance), records@);
        }
        Ok(state)
    }

    /// The snapshot that `records` describe, stamped with `timestamp`: a
    /// blank snapshot with the given balance, over which each record's
    /// recognized fields are laid in order.
    pub fn aggregate_at(records: &[RawRecord], on_chain_balance: u128, timestamp: u64) -> (r: ProtocolState)
        ensures
            r == apply_records(ProtocolState::blank(timestamp, on_chain_balance), records@),
    {
        let mut state = ProtocolState {
            timestamp,
            total_supply: 0,
            total_borrowed: 0,
            total_reserves: 0,
            collateral_value: 0,
            outstanding_shares: 0,
            interest_index: DEFAULT_INTEREST_INDEX,
            last_update_epoch: 0,
            on_chain_balance,
        };
        let ghost start = state;
        let mut i: usize = 0;
        while i < records.len()
            invariant
                i <= records@.len(),
                state == apply_records(start, records@.subrange(0, i as int)),
            decreases records@.len() - i,
        {
            Self::parse_fields(&mut state, &records[i]);
            proof {
                assert(records@.subrange(0, i + 1).drop_last() =~= records@.subrange(0, i as int));
            }
            i = i + 1;
        }
        proof {
            assert(records@.subrange(0, records@.len() as int) =~= records@);
        }
        state
    }

    /// Lays the recognized fields of one record over `state`.
    pub fn parse_fields(state: &mut ProtocolState, record: &RawRecord)
        ensures
            *final(state) == apply_record(*old(state), *record),
    {
        if let Some(v) = Self::extract_u128(record, "total_supply") {
            state.total_supply = v;
        }
        if let Some(v) = Self::extract_u128(record, "total_borrowed") {
            state.total_borrowed = v;
        }
        if let Some(v) = Self::extract_u128(record, "total_reserves") {
            state.total_reserves = v;
        }
        if let Some(v) = Self::extract_u128(record, "collateral_value") {
            state.collateral_value = v;
        }
        if let Some(v) = Self::extract_u128(record, "outstanding_shares") {
            state.outstanding_shares = v;
        }
        if let Some(v) = Self::extract_u128(record, "interest_index") {
            state.interest_index = v;
        }
        if let Some(v) = Self::extract_u64(record, "last_update_epoch") {
            state.last_update_epoch = v;
        }
    }

    /// The first field of `record` called `key`.
    fn find_field<'a>(record: &'a RawRecord, key: &str) -> (r: Option<&'a RawValue>)
        ensures
            match r {
                Some(v) => lookup(record.fields@, key@) == Some(*v),
                None => lookup(record.fields@, key@) is None,
            },
    {
        let wanted = String::from_str(key);
        let ghost fields = record.fields@;
        proof {
            assert(fields.subrange(0, fields.len() as int) =~= fields);
        }
        let mut i: usize = 0;
        while i < record.fields.len()
            invariant
                fields == record.fields@,
                wanted@ == key@,
                i <= record.fields@.len(),
                lookup(record.fields@, key@) == lookup(record.fields@.subrange(i as int, record.fields@.len() as int), key@),
            decreases record.fields@.len() - i,
        {
            let ghost rest = record.fields@.subrange(i as int, record.fields@.len() as int);
            assert(rest[0] == fields[i as int]);
            if record.fields[i].name == wanted {
                return Some(&record.fields[i].value);
            }
            proof {
                assert(rest.drop_first() =~= record.fields@.subrange(i + 1, record.fields@.len() as int));
            }
            i = i + 1;
        }
        None
    }

    /// The value of `key` in `record` as a `u128`, if it is there and
    /// well-formed.
    pub fn extract_u128(record: &RawRecord, key: &str) -> (r: Option<u128>)
        ensures
            match r {
                Some(n) => field_value(*record, key@, u128::MAX as nat) == Some(n as nat),
                None => field_value(*record, key@, u128::MAX as nat) is None,
            },
    {
        match Self::find_field(record, key) {
            Some(RawValue::Text(s)) => parse_u128(s.as_str()),
            Some(RawValue::Unsigned(n)) => Some(*n as u128),
            _ => None,
        }
    }

    /// The value of `key` in `record` as a `u64`, if it is there and
    /// well-formed.
    pub fn extract_u64(record: &RawRecord, key: &str) -> (r: Option<u64>)
        ensures
            match r {
                Some(n) => field_value(*record, key@, u64::MAX as nat) == Some(n as nat),
                None => field_value(*record, key@, u64::MAX as nat) is None,
            },
    {
        match Self::find_field(record, key) {
            Some(RawValue::Text(s)) => parse_u64(s.as_str()),
            Some(RawValue::Unsigned(n)) => Some(*n),
            _ => None,
        }
    }
}

} // verus!
