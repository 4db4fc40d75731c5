//! The state that the monitoring service shares between its evaluation loop
//! and its query and management surface, and the decisions made on it.
use vstd::prelude::*;
use vstd::utf8::encode_utf8;

use crate::clock::{utc_now, UtcTime};
use crate::engine::{count_status, healthy, InvariantEngine};
use crate::llm::SuggestedInvariant;
use crate::types::{InvariantComputation, InvariantResult, InvariantStatus, ResultView};
use crate::text::{decimal, decimal_text, trim_text, trimmed};

verus! {

/// The latest round of results and what the service watches.
#[derive(Clone, Debug)]
pub struct MonitorState {
    /// The latest results, with any suggested entries added since.
    pub results: Vec<InvariantResult>,
    /// When the latest round finished.
    pub last_check: Option<UtcTime>,
    /// Ids of the on-chain objects that the data source fetches.
    pub monitored_objects: Vec<String>,
    /// Whether something changed that the next round should pick up.
    pub pending_evaluation: bool,
    pub rpc_url: String,
}

/// Summary of the latest round.
#[derive(Clone, Debug)]
pub struct StatusResponse {
    pub last_check: Option<UtcTime>,
    pub violations: usize,
    pub total_invariants: usize,
    pub all_ok: bool,
    pub monitored_objects: Vec<String>,
}

/// Outcome of a request to watch an object.
#[derive(Clone, Debug)]
pub struct MonitorResponse {
    pub success: bool,
    pub message: String,
    pub object_id: String,
    pub object_type: Option<String>,
}

/// Outcome of a request to add suggested invariants.
#[derive(Clone, Debug)]
pub struct AddInvariantsResponse {
    pub success: bool,
    pub message: String,
    pub added_count: usize,
}

/// Outcome of a request to remove an invariant.
#[derive(Clone, Debug)]
pub struct RemoveInvariantResponse {
    pub success: bool,
    pub message: String,
}

/// Message for an object id that is not `0x` and 64 more characters.
pub const INVALID_OBJECT_ID: &'static str = "Invalid object ID format. Should be 0x followed by 64 hex characters.";

/// Message for an object id that is already watched.
pub const ALREADY_MONITORED: &'static str = "Object is already being monitored.";

/// Result text of an entry that has not been evaluated.
pub const PENDING_EVALUATION: &'static str = "Pending evaluation";

/// Whether `id` has the shape of an object id: `0x` first, 66 bytes in all.
pub open spec fn valid_object_id(id: Seq<char>) -> bool {
    id.len() >= 2 && id[0] == '0' && id[1] == 'x' && encode_utf8(id).len() == 66
}

/// Whether one of `objects` is `id`.
pub open spec fn watches(objects: Seq<String>, id: Seq<char>) -> bool {
    exists|i: int| 0 <= i < objects.len() && #[trigger] objects[i]@ == id
}

/// The views of `results`.
pub open spec fn views(results: Seq<InvariantResult>) -> Seq<ResultView> {
    results.map_values(|r: InvariantResult| r@)
}

/// Whether some result has id `id`.
pub open spec fn has_id(results: Seq<ResultView>, id: Seq<char>) -> bool {
    exists|i: int| 0 <= i < results.len() && #[trigger] results[i].id == id
}

/// The listing entry of a suggestion: it holds, with no inputs, the
/// suggested formula and a pending result.
pub open spec fn placeholder(s: SuggestedInvariant) -> ResultView {
    ResultView {
        id: s.id@,
        name: s.name@,
        description: s.description@,
        status: InvariantStatus::Holds,
        entries: Seq::empty(),
        formula: s.formula@,
        result: PENDING_EVALUATION@,
        reason: None,
    }
}

/// `results` with a placeholder for each suggestion, in order, whose id is
/// not listed yet (counting placeholders added before it).
pub open spec fn with_suggestions(results: Seq<ResultView>, suggestions: Seq<SuggestedInvariant>) -> Seq<ResultView>
    decreases suggestions.len(),
{
    if suggestions.len() == 0 {
        results
    } else {
        let before = with_suggestions(results, suggestions.drop_last());
        if has_id(before, suggestions.last().id@) {
            before
        } else {
            before.push(placeholder(suggestions.last()))
        }
    }
}

/// `results` without those whose id is `id`.
pub open spec fn without_id(results: Seq<ResultView>, id: Seq<char>) -> Seq<ResultView>
    decreases results.len(),
{
    if results.len() == 0 {
        Seq::empty()
    } else if results.last().id == id {
        without_id(results.drop_last(), id)
    } else {
        without_id(results.drop_last(), id).push(results.last())
    }
}

/// Appending a result adds its id to the ids present.
pub proof fn lemma_has_id_push(results: Seq<ResultView>, x: ResultView, id: Seq<char>)
    ensures
        has_id(results.push(x), id) == (has_id(results, id) || x.id == id),
{
    let all = results.push(x);
    if has_id(results, id) {
        let j = choose|j: int| 0 <= j < results.len() && #[trigger] results[j].id == id;
        assert(all[j] == results[j]);
    }
    if x.id == id {
        assert(all[results.len() as int] == x);
    }
    if has_id(all, id) {
        let j = choose|j: int| 0 <= j < all.len() && #[trigger] all[j].id == id;
        if j < results.len() {
            assert(all[j] == results[j]);
        }
    }
}

/// Position of the first result with id `id`.
fn find_by_id(results: &Vec<InvariantResult>, id: &str) -> (r: Option<usize>)
    ensures
        match r {
            Some(i) => i < results@.len() && results@[i as int].id@ == id@ && forall|j: int|
                0 <= j < i ==> results@[j].id@ != id@,
            None => forall|j: int| 0 <= j < results@.len() ==> results@[j].id@ != id@,
        },
{
    let wanted = String::from_str(id);
    let mut i: usize = 0;
    while i < results.len()
        invariant
            wanted@ == id@,
            i <= results@.len(),
            forall|j: int| 0 <= j < i ==> results@[j].id@ != id@,
        decreases results@.len() - i,
    {
        if results[i].id == wanted {
            return Some(i);
        }
        i = i + 1;
    }
    None
}

impl MonitorState {
    /// A state that watches `initial_objects` and has no results yet.
    pub fn new(initial_objects: Vec<String>, rpc_url: String) -> (r: Self)
        ensures
            r.results@.len() == 0,
            r.last_check is None,
            r.monitored_objects == initial_objects,
            !r.pending_evaluation,
            r.rpc_url == rpc_url,
    {
        MonitorState {
            results: Vec::new(),
            last_check: None,
            monitored_objects: initial_objects,
            pending_evaluation: false,
            rpc_url,
        }
    }

    /// Records a finished round: its results replace the listing, stamped
    /// with the current time, and nothing is pending any more.
    pub fn update(&mut self, results: Vec<InvariantResult>)
        ensures
            final(self).results == results,
            final(self).last_check is Some,
            !final(self).pending_evaluation,
            final(self).monitored_objects == old(self).monitored_objects,
            final(self).rpc_url == old(self).rpc_url,
    {
        self.results = results;
        self.last_check = Some(utc_now());
        self.pending_evaluation = false;
    }

    /// Summary of the latest round: how many results are listed and
    /// violated, and whether the round is healthy (something listed, all
    /// holding).
    pub fn status(&self) -> (r: StatusResponse)
        ensures
            r.last_check == self.last_check,
            r.violations == count_status(self.results@, InvariantStatus::Violated),
            r.total_invariants == self.results@.len(),
            r.all_ok == healthy(self.results@),
            r.monitored_objects@ == self.monitored_objects@,
    {
        let mut monitored: Vec<String> = Vec::new();
        let mut i: usize = 0;
        while i < self.monitored_objects.len()
            invariant
                i <= self.monitored_objects@.len(),
                monitored@ == self.monitored_objects@.subrange(0, i as int),
            decreases self.monitored_objects@.len() - i,
        {
            monitored.push(self.monitored_objects[i].clone());
            proof {
                assert(monitored@ =~= self.monitored_objects@.subrange(0, i + 1));
            }
            i = i + 1;
        }
        proof {
            assert(self.monitored_objects@.subrange(0, self.monitored_objects@.len() as int) =~= self.monitored_objects@);
        }
        StatusResponse {
            last_check: self.last_check,
            violations: InvariantEngine::violation_count(self.results.as_slice()),
            total_invariants: self.results.len(),
            all_ok: InvariantEngine::all_ok(self.results.as_slice()),
            monitored_objects: monitored,
        }
    }

    /// Position in the listing of the first result with id `id`.
    pub fn find_invariant(&self, id: &str) -> (r: Option<usize>)
        ensures
            match r {
                Some(i) => i < self.results@.len() && self.results@[i as int].id@ == id@ && forall|j: int|
                    0 <= j < i ==> self.results@[j].id@ != id@,
                None => forall|j: int| 0 <= j < self.results@.len() ==> self.results@[j].id@ != id@,
            },
    {
        find_by_id(&self.results, id)
    }

    /// Starts watching the object whose id `object_id` gives once trimmed;
    /// see [`MonitorState::add_trimmed_object`].
    pub fn add_monitored_object(&mut self, object_id: &str) -> (r: MonitorResponse)
        ensures
            r.object_id@ == trimmed(object_id@),
            r.success <==> valid_object_id(trimmed(object_id@)),
            final(self).results == old(self).results,
    {
        let id = trim_text(object_id);
        self.add_trimmed_object(id)
    }

    /// Starts watching object `object_id`. A malformed id is refused; a
    /// watched one is left as it is; a new one is appended and a round is
    /// asked for.
    pub fn add_trimmed_object(&mut self, object_id: String) -> (r: MonitorResponse)
        ensures
            r.object_id == object_id,
            r.object_type is None,
            r.success <==> valid_object_id(object_id@),
            final(self).results == old(self).results,
            final(self).last_check == old(self).last_check,
            final(self).rpc_url == old(self).rpc_url,
            !valid_object_id(object_id@) ==> {
                &&& r.message@ == INVALID_OBJECT_ID@
                &&& final(self).monitored_objects == old(self).monitored_objects
                &&& final(self).pending_evaluation == old(self).pending_evaluation
            },
            valid_object_id(object_id@) && watches(old(self).monitored_objects@, object_id@) ==> {
                &&& r.message@ == ALREADY_MONITORED@
                &&& final(self).monitored_objects == old(self).monitored_objects
                &&& final(self).pending_evaluation == old(self).pending_evaluation
            },
            valid_object_id(object_id@) && !watches(old(self).monitored_objects@, object_id@) ==> {
                &&& r.message@ == "Added object "@ + object_id@ + " to monitoring. Will evaluate on next cycle."@
                &&& final(self).monitored_objects@ == old(self).monitored_objects@.push(object_id)
                &&& final(self).pending_evaluation
            },
    {
        let text = object_id.as_str();
        let n = text.unicode_len();
        let valid = n >= 2 && text.get_char(0) == '0' && text.get_char(1) == 'x' && text.as_bytes().len() == 66;
        if !valid {
            return MonitorResponse {
                success: false,
                message: String::from_str(INVALID_OBJECT_ID),
                object_id,
                object_type: None,
            };
        }
        let mut i: usize = 0;
        while i < self.monitored_objects.len()
            invariant
                valid_object_id(object_id@),
                self.monitored_objects == old(self).monitored_objects,
                self.results == old(self).results,
                self.last_check == old(self).last_check,
                self.rpc_url == old(self).rpc_url,
                self.pending_evaluation == old(self).pending_evaluation,
                i <= self.monitored_objects@.len(),
                forall|j: int| 0 <= j < i ==> self.monitored_objects@[j]@ != object_id@,
            decreases self.monitored_objects@.len() - i,
        {
            if self.monitored_objects[i] == object_id {
                proof {
                    assert(self.monitored_objects@[i as int]@ == object_id@);
                }
                return MonitorResponse {
                    success: true,
                    message: String::from_str(ALREADY_MONITORED),
                    object_id,
                    object_type: None,
                };
            }
            i = i + 1;
        }
        let mut message = String::from_str("Added object ");
        message.append(object_id.as_str());
        message.append(" to monitoring. Will evaluate on next cycle.");
        self.monitored_objects.push(object_id.clone());
        self.pending_evaluation = true;
        MonitorResponse { success: true, message, object_id, object_type: None }
    }

    /// Lists each suggestion whose id is not listed yet as a placeholder
    /// entry, in order, and asks for a new round.
    pub fn add_suggested_invariants(&mut self, suggestions: Vec<SuggestedInvariant>) -> (r: AddInvariantsResponse)
        ensures
            views(final(self).results@) == with_suggestions(views(old(self).results@), suggestions@),
            r.added_count == final(self).results@.len() - old(self).results@.len(),
            r.success,
            r.message@ == "Added "@ + decimal(r.added_count as nat) + " new invariant(s) to monitoring"@,
            final(self).pending_evaluation,
            final(self).last_check == old(self).last_check,
            final(self).monitored_objects == old(self).monitored_objects,
            final(self).rpc_url == old(self).rpc_url,
    {
        let now = utc_now();
        let ghost start = views(self.results@);
        let mut added: usize = 0;
        let mut i: usize = 0;
        while i < suggestions.len()
            invariant
                i <= suggestions@.len(),
                added <= i,
                added == self.results@.len() - old(self).results@.len(),
                start == views(old(self).results@),
                views(self.results@) == with_suggestions(start, suggestions@.subrange(0, i as int)),
                self.last_check == old(self).last_check,
                self.monitored_objects == old(self).monitored_objects,
                self.rpc_url == old(self).rpc_url,
            decreases suggestions@.len() - i,
        {
            let s = &suggestions[i];
            let ghost before = views(self.results@);
            proof {
                assert(suggestions@.subrange(0, i + 1).drop_last() =~= suggestions@.subrange(0, i as int));
            }
            match find_by_id(&self.results, s.id.as_str()) {
                Some(j) => {
                    proof {
                        assert(before[j as int].id == s.id@);
                    }
                },
                None => {
                    proof {
                        assert forall|j: int| 0 <= j < before.len() implies before[j].id != s.id@ by {
                            assert(before[j].id == self.results@[j].id@);
                        }
                    }
                    let computation = InvariantComputation {
                        inputs: Vec::new(),
                        formula: s.formula.clone(),
                        result: String::from_str(PENDING_EVALUATION),
                    };
                    assert(computation.entries() =~= Seq::<(Seq<char>, Seq<char>)>::empty());
                    self.results.push(
                        InvariantResult {
                            id: s.id.clone(),
                            name: s.name.clone(),
                            description: s.description.clone(),
                            status: InvariantStatus::Holds,
                            evaluated_at: now,
                            computation,
                            violation_reason: None,
                        },
                    );
                    assert(views(self.results@) =~= before.push(placeholder(*s)));
                    added = added + 1;
                },
            }
            i = i + 1;
        }
        proof {
            assert(suggestions@.subrange(0, suggestions@.len() as int) =~= suggestions@);
        }
        self.pending_evaluation = true;
        let mut message = String::from_str("Added ");
        let count_text = decimal_text(added as u128);
        message.append(count_text.as_str());
        message.append(" new invariant(s) to monitoring");
        AddInvariantsResponse { success: true, message, added_count: added }
    }

    /// Drops every listed result with id `id`; succeeds when there was one.
    pub fn remove_invariant(&mut self, id: &str) -> (r: RemoveInvariantResponse)
        ensures
            views(final(self).results@) == without_id(views(old(self).results@), id@),
            r.success == has_id(views(old(self).results@), id@),
            r.success ==> r.message@ == "Removed invariant "@ + id@,
            !r.success ==> r.message@ == "Invariant "@ + id@ + " not found"@,
            final(self).pending_evaluation == old(self).pending_evaluation,
            final(self).last_check == old(self).last_check,
            final(self).monitored_objects == old(self).monitored_objects,
            final(self).rpc_url == old(self).rpc_url,
    {
        let wanted = String::from_str(id);
        let ghost listed = self.results@;
        let ghost all = views(listed);
        let ghost mut k: int = 0;
        let mut found = false;
        let mut i: usize = 0;
        while i < self.results.len()
            invariant
                wanted@ == id@,
                all == views(listed),
                listed == old(self).results@,
                0 <= k <= listed.len(),
                i <= self.results@.len(),
                self.results@.len() - i == listed.len() - k,
                views(self.results@.subrange(0, i as int)) == without_id(all.subrange(0, k), id@),
                self.results@.subrange(i as int, self.results@.len() as int) == listed.subrange(k, listed.len() as int),
                found == has_id(all.subrange(0, k), id@),
                self.pending_evaluation == old(self).pending_evaluation,
                self.last_check == old(self).last_check,
                self.monitored_objects == old(self).monitored_objects,
                self.rpc_url == old(self).rpc_url,
            decreases self.results@.len() - i,
        {
            let ghost prev = self.results@;
            assert(prev[i as int] == listed[k]) by {
                assert(prev.subrange(i as int, prev.len() as int)[0] == prev[i as int]);
            }
            assert(all[k] == listed[k]@);
            assert(all.subrange(0, k + 1) =~= all.subrange(0, k).push(all[k]));
            assert(all.subrange(0, k + 1).drop_last() =~= all.subrange(0, k));
            proof {
                lemma_has_id_push(all.subrange(0, k), all[k], id@);
            }
            if self.results[i].id == wanted {
                self.results.remove(i);
                found = true;
                proof {
                    assert(self.results@.subrange(0, i as int) =~= prev.subrange(0, i as int));
                    assert(self.results@.subrange(i as int, self.results@.len() as int) =~= prev.subrange(i + 1, prev.len() as int));
                    assert(prev.subrange(i + 1, prev.len() as int) =~= prev.subrange(i as int, prev.len() as int).drop_first());
                    assert(listed.subrange(k + 1, listed.len() as int) =~= listed.subrange(k, listed.len() as int).drop_first());
                    k = k + 1;
                }
            } else {
                proof {
                    assert(self.results@.subrange(0, i + 1) =~= prev.subrange(0, i as int).push(prev[i as int]));
                    assert(views(self.results@.subrange(0, i + 1)) =~= views(prev.subrange(0, i as int)).push(prev[i as int]@));
                    assert(prev.subrange(i + 1, prev.len() as int) =~= prev.subrange(i as int, prev.len() as int).drop_first());
                    assert(listed.subrange(k + 1, listed.len() as int) =~= listed.subrange(k, listed.len() as int).drop_first());
                    k = k + 1;
                }
                i = i + 1;
            }
        }
        proof {
            assert(self.results@.subrange(0, self.results@.len() as int) =~= self.results@);
            assert(all.subrange(0, k) =~= all);
        }
        if found {
            let mut message = String::from_str("Removed invariant ");
            message.append(id);
            RemoveInvariantResponse { success: true, message }
        } else {
            let mut message = String::from_str("Invariant ");
            message.append(id);
            message.append(" not found");
            RemoveInvariantResponse { success: false, message }
        }
    }
}

} // verus!
