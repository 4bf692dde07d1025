//! Fan-in of per-target results: one probe per registry entry, results in
//! registry order, and the summary counts over them. One target's failure is
//! fully contained in its own result slot and can never abort, delay or
//! corrupt another target's entry.

use vstd::prelude::*;

use crate::probe::{probe_outcome, probe_result_for, ProbeResult, TransportEvent};
use crate::registry::Target;

verus! {

/// The aggregated outcome of one probing round. `results` preserves
/// registry order; `up_count` counts its reachable entries.
#[derive(Clone, Debug, PartialEq, Eq)]
pub struct Summary {
    pub total: usize,
    pub up_count: usize,
    pub results: Vec<ProbeResult>,
}

/// How many results are reachable.
pub open spec fn count_up(rs: Seq<ProbeResult>) -> nat
    decreases rs.len(),
{
    if rs.len() == 0 {
        0
    } else {
        count_up(rs.drop_last()) + if rs.last().reachable {
            1nat
        } else {
            0nat
        }
    }
}

/// The summary invariant: `total` is the number of results and `up_count`
/// counts exactly the reachable ones.
pub open spec fn summary_wf(s: Summary) -> bool {
    &&& s.total == s.results@.len()
    &&& s.up_count == count_up(s.results@)
}

/// The three-way overall state, a pure function of `(up_count, total)`.
/// An empty round counts as all up, vacuously.
#[derive(Clone, Copy, Debug, PartialEq, Eq, Structural)]
pub enum OverallStatus {
    AllUp,
    AllDown,
    Partial,
}

/// Overall state classification: all up, all down, or partial.
pub open spec fn spec_overall_status(up: nat, total: nat) -> OverallStatus {
    if up == total {
        OverallStatus::AllUp
    } else if up == 0 {
        OverallStatus::AllDown
    } else {
        OverallStatus::Partial
    }
}

/// Computes the overall state from the two counts.
pub fn overall_status(up_count: usize, total: usize) -> (st: OverallStatus)
    ensures
        st == spec_overall_status(up_count as nat, total as nat),
{
    if up_count == total {
        OverallStatus::AllUp
    } else if up_count == 0 {
        OverallStatus::AllDown
    } else {
        OverallStatus::Partial
    }
}

/// Produces one probe result per registry entry, in registry order: entry
/// `i` of the result vector is exactly the verdict of target `i` for event
/// `i`, however the underlying exchanges were scheduled or completed.
pub fn check_sites(registry: &Vec<Target>, events: &Vec<TransportEvent>) -> (results: Vec<
    ProbeResult,
>)
    requires
        events@.len() == registry@.len(),
    ensures
        results@.len() == registry@.len(),
        forall|i: int|
            0 <= i < registry@.len() ==> probe_result_for(
                #[trigger] results@[i],
                registry@[i].name@,
                events@[i],
            ),
{
    let n = registry.len();
    let mut results: Vec<ProbeResult> = Vec::new();
    let mut i: usize = 0;
    while i < n
        invariant
            n == registry@.len(),
            events@.len() == n,
            i <= n,
            results@.len() == i,
            forall|k: int|
                0 <= k < i ==> probe_result_for(
                    #[trigger] results@[k],
                    registry@[k].name@,
                    events@[k],
                ),
        decreases n - i,
    {
        let r = probe_outcome(registry[i].name.as_str(), &events[i]);
        results.push(r);
        i += 1;
    }
    results
}

/// Wraps a result vector into a well-formed summary, counting its reachable
/// entries and leaving the results untouched.
pub fn summarize(results: Vec<ProbeResult>) -> (s: Summary)
    ensures
        summary_wf(s),
        s.results == results,
        s.total == results@.len(),
        s.up_count == count_up(results@),
{
    let n = results.len();
    let mut up: usize = 0;
    let mut i: usize = 0;
    while i < n
        invariant
            n == results@.len(),
            i <= n,
            up <= i,
            up == count_up(results@.subrange(0, i as int)),
        decreases n - i,
    {
        proof {
            assert(results@.subrange(0, i + 1).drop_last() =~= results@.subrange(0, i as int));
            assert(results@.subrange(0, i + 1).last() == results@[i as int]);
        }
        if results[i].reachable {
            up += 1;
        }
        i += 1;
    }
    proof {
        assert(results@.subrange(0, n as int) =~= results@);
    }
    Summary { total: n, up_count: up, results }
}

/// One whole round: probe every registry entry, then summarize, keeping
/// registry order in the summary's results.
pub fn aggregate(registry: &Vec<Target>, events: &Vec<TransportEvent>) -> (s: Summary)
    requires
        events@.len() == registry@.len(),
    ensures
        summary_wf(s),
        s.total == registry@.len(),
        s.results@.len() == registry@.len(),
        forall|i: int|
            0 <= i < registry@.len() ==> probe_result_for(
                #[trigger] s.results@[i],
                registry@[i].name@,
                events@[i],
            ),
{
    let results = check_sites(registry, events);
    summarize(results)
}

/// `count_up` never exceeds the number of results.
pub proof fn lemma_count_up_le_len(rs: Seq<ProbeResult>)
    ensures
        count_up(rs) <= rs.len(),
    decreases rs.len(),
{
    if rs.len() > 0 {
        lemma_count_up_le_len(rs.drop_last());
    }
}

/// In a well-formed summary, `up_count` equals the number of reachable
/// entries and lies between zero and `total`.
pub proof fn lemma_up_count_bounds(s: Summary)
    requires
        summary_wf(s),
    ensures
        s.up_count == count_up(s.results@),
        s.up_count <= s.total,
{
    lemma_count_up_le_len(s.results@);
}

} // verus!
