//! The result of evaluating one invariant, and its computation trace.
use vstd::prelude::*;

use crate::clock::{utc_now, UtcTime};

verus! {

/// Outcome of one invariant check.
#[derive(Clone, Copy, Debug, PartialEq, Eq, Structural)]
pub enum InvariantStatus {
    /// The invariant holds.
    Holds,
    /// The invariant is violated.
    Violated,
    /// The check could not complete.
    Error,
}

/// A trace's named inputs, as text.
pub type TraceEntries = Seq<(Seq<char>, Seq<char>)>;

/// `entries` with `key` bound to `value`: the first entry of that key gets
/// the new value in place, or a new entry goes at the end.
pub open spec fn put_entry(entries: TraceEntries, key: Seq<char>, value: Seq<char>) -> TraceEntries {
    if exists|i: int| 0 <= i < entries.len() && entries[i].0 == key {
        let i = choose|i: int|
            0 <= i < entries.len() && entries[i].0 == key && forall|j: int| 0 <= j < i ==> entries[j].0 != key;
        entries.update(i, (key, value))
    } else {
        entries.push((key, value))
    }
}

/// Binding a key whose first entry is at `found` replaces that entry.
pub proof fn lemma_put_entry_at_first(entries: TraceEntries, key: Seq<char>, value: Seq<char>, found: int)
    requires
        0 <= found < entries.len(),
        entries[found].0 == key,
        forall|j: int| 0 <= j < found ==> entries[j].0 != key,
    ensures
        put_entry(entries, key, value) == entries.update(found, (key, value)),
{
    let c = choose|i: int|
        0 <= i < entries.len() && entries[i].0 == key && forall|j: int| 0 <= j < i ==> entries[j].0 != key;
    assert(c == found) by {
        if c < found {
            assert(entries[c].0 != key);
        } else if c > found {
            assert(entries[found].0 != key);
        }
    }
}

/// How an invariant's verdict was reached: its named inputs in order, the
/// formula it checks and the rendered comparison.
#[derive(Clone, Debug)]
pub struct InvariantComputation {
    pub inputs: Vec<(String, String)>,
    pub formula: String,
    pub result: String,
}

impl InvariantComputation {
    /// The named inputs as text.
    pub open spec fn entries(&self) -> TraceEntries {
        self.inputs@.map_values(|p: (String, String)| (p.0@, p.1@))
    }

    /// A trace of `formula` with no inputs and an empty result.
    pub fn new(formula: &str) -> (r: Self)
        ensures
            r.entries() == Seq::<(Seq<char>, Seq<char>)>::empty(),
            r.formula@ == formula@,
            r.result@ == Seq::<char>::empty(),
    {
        let r = InvariantComputation {
            inputs: Vec::new(),
            formula: String::from_str(formula),
            result: String::new(),
        };
        assert(r.entries() =~= Seq::<(Seq<char>, Seq<char>)>::empty());
        r
    }

    /// This trace with the input `key` bound to `value`.
    pub fn with_input(self, key: &str, value: &str) -> (r: Self)
        ensures
            r.entries() == put_entry(self.entries(), key@, value@),
            r.formula == self.formula,
            r.result == self.result,
    {
        let ghost before = self.entries();
        let mut this = self;
        let wanted = String::from_str(key);
        let mut i: usize = 0;
        while i < this.inputs.len()
            invariant
                this.entries() == before,
                before == self.entries(),
                this.formula == self.formula,
                this.result == self.result,
                wanted@ == key@,
                i <= this.inputs@.len(),
                forall|j: int| 0 <= j < i ==> before[j].0 != key@,
            decreases this.inputs@.len() - i,
        {
            if this.inputs[i].0 == wanted {
                let ghost found = i as int;
                assert(before[found].0 == key@);
                this.inputs.set(i, (wanted, String::from_str(value)));
                proof {
                    lemma_put_entry_at_first(before, key@, value@, found);
                    assert(this.entries() =~= before.update(found, (key@, value@)));
                }
                return this;
            }
            i = i + 1;
        }
        this.inputs.push((wanted, String::from_str(value)));
        assert(this.entries() =~= before.push((key@, value@)));
        this
    }

    /// This trace with its result set to `result`.
    pub fn with_result(self, result: &str) -> (r: Self)
        ensures
            r.entries() == self.entries(),
            r.formula == self.formula,
            r.result@ == result@,
    {
        let mut this = self;
        this.result = String::from_str(result);
        this
    }
}

/// What a result says, without the time at which it was produced.
pub struct ResultView {
    pub id: Seq<char>,
    pub name: Seq<char>,
    pub description: Seq<char>,
    pub status: InvariantStatus,
    pub entries: TraceEntries,
    pub formula: Seq<char>,
    pub result: Seq<char>,
    pub reason: Option<Seq<char>>,
}

/// One check's outcome, with its identity and explanation.
#[derive(Clone, Debug)]
pub struct InvariantResult {
    pub id: String,
    pub name: String,
    pub description: String,
    pub status: InvariantStatus,
    /// When the check was evaluated.
    pub evaluated_at: UtcTime,
    pub computation: InvariantComputation,
    /// Why the invariant does not hold, for a violation or an error.
    pub violation_reason: Option<String>,
}

impl View for InvariantResult {
    type V = ResultView;

    open spec fn view(&self) -> ResultView {
        ResultView {
            id: self.id@,
            name: self.name@,
            description: self.description@,
            status: self.status,
            entries: self.computation.entries(),
            formula: self.computation.formula@,
            result: self.computation.result@,
            reason: match self.violation_reason {
                Some(m) => Some(m@),
                None => None,
            },
        }
    }
}

impl InvariantResult {
    /// A passing result, stamped with the current time.
    pub fn ok(id: &str, name: &str, description: &str, computation: InvariantComputation) -> (r: Self)
        ensures
            r.id@ == id@,
            r.name@ == name@,
            r.description@ == description@,
            r.status == InvariantStatus::Holds,
            r.computation == computation,
            r.violation_reason is None,
    {
        InvariantResult {
            id: String::from_str(id),
            name: String::from_str(name),
            description: String::from_str(description),
            status: InvariantStatus::Holds,
            evaluated_at: utc_now(),
            computation,
            violation_reason: None,
        }
    }

    /// A violation with its reason, stamped with the current time.
    pub fn violated(
        id: &str,
        name: &str,
        description: &str,
        computation: InvariantComputation,
        reason: &str,
    ) -> (r: Self)
        ensures
            r.id@ == id@,
            r.name@ == name@,
            r.description@ == description@,
            r.status == InvariantStatus::Violated,
            r.computation == computation,
            r.violation_reason matches Some(m) && m@ == reason@,
    {
        InvariantResult {
            id: String::from_str(id),
            name: String::from_str(name),
            description: String::from_str(description),
            status: InvariantStatus::Violated,
            evaluated_at: utc_now(),
            computation,
            violation_reason: Some(String::from_str(reason)),
        }
    }

    /// A check that could not complete: the message is both the trace's
    /// result (after `Error: `) and the reason.
    pub fn error(id: &str, name: &str, description: &str, error_msg: &str) -> (r: Self)
        ensures
            r.id@ == id@,
            r.name@ == name@,
            r.description@ == description@,
            r.status == InvariantStatus::Error,
            r.computation.entries() == Seq::<(Seq<char>, Seq<char>)>::empty(),
            r.computation.formula@ == Seq::<char>::empty(),
            r.computation.result@ == "Error: "@ + error_msg@,
            r.violation_reason matches Some(m) && m@ == error_msg@,
    {
        let mut result = String::from_str("Error: ");
        result.append(error_msg);
        let computation = InvariantComputation { inputs: Vec::new(), formula: String::new(), result };
        assert(computation.entries() =~= Seq::<(Seq<char>, Seq<char>)>::empty());
        InvariantResult {
            id: String::from_str(id),
            name: String::from_str(name),
            description: String::from_str(description),
            status: InvariantStatus::Error,
            evaluated_at: utc_now(),
            computation,
            violation_reason: Some(String::from_str(error_msg)),
        }
    }
}

} // verus!
