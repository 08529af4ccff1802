//! Aggregation of per-link enrichment outcomes.
//!
//! The orchestrator plans one pipeline per fetched link (optionally capped
//! to a sample), and records each pipeline's outcome — success or failure
//! — keyed by the link's id. One link's failure is recorded like any other
//! outcome and never disturbs its siblings; completions arrive in no
//! promised order.

use vstd::prelude::*;

use crate::models::{EnrichmentResult, Link};

verus! {

/// The links a run will actually enrich: the fetched collection, cut to
/// `cap` links when a sample cap is configured. No cap means all of them.
pub fn plan_batch(links: Vec<Link>, cap: Option<usize>) -> (batch: Vec<Link>)
    ensures
        match cap {
            Some(c) => batch@ == links@.take(if c < links@.len() {
                c as int
            } else {
                links@.len() as int
            }),
            None => batch@ == links@,
        },
{
    let ghost orig = links@;
    match cap {
        Some(c) => {
            let mut batch = links;
            batch.truncate(c);
            proof {
                assert(batch@ =~= orig.take(
                    if c < orig.len() { c as int } else { orig.len() as int },
                ));
            }
            batch
        },
        None => links,
    }
}

/// Collects one `EnrichmentResult` per planned link.
pub struct Orchestrator {
    /// The ids of the planned links, in plan order.
    pub expected: Vec<i64>,
    /// The outcomes recorded so far, in completion order.
    pub results: Vec<EnrichmentResult>,
}

impl Orchestrator {
    /// An orchestrator expecting one outcome per link of `batch`.
    pub fn new(batch: &Vec<Link>) -> (o: Orchestrator)
        ensures
            o.expected@.len() == batch@.len(),
            forall|i: int| 0 <= i < batch@.len() ==> o.expected@[i] == batch@[i].id,
            o.results@.len() == 0,
    {
        let mut expected: Vec<i64> = Vec::new();
        let mut idx: usize = 0;
        while idx < batch.len()
            invariant
                idx <= batch@.len(),
                expected@.len() == idx,
                forall|i: int| 0 <= i < idx ==> expected@[i] == batch@[i].id,
            decreases batch@.len() - idx,
        {
            expected.push(batch[idx].id);
            idx = idx + 1;
        }
        Orchestrator { expected, results: Vec::new() }
    }

    /// Record one pipeline's outcome. Appending is all that happens:
    /// whatever the outcome says, every outcome recorded before it stays
    /// exactly as it was.
    pub fn record(&mut self, r: EnrichmentResult)
        ensures
            final(self).expected == old(self).expected,
            final(self).results@ == old(self).results@.push(r),
    {
        self.results.push(r);
    }

    /// Whether every planned link has an outcome recorded.
    pub fn is_complete(&self) -> (b: bool)
        ensures
            b == (self.results@.len() == self.expected@.len()),
    {
        self.results.len() == self.expected.len()
    }

    /// Hand the aggregated outcomes to the caller.
    pub fn into_results(self) -> (r: Vec<EnrichmentResult>)
        ensures
            r == self.results,
    {
        self.results
    }
}

/// How many of `s` record a failure rather than an enrichment.
pub open spec fn count_failed(s: Seq<EnrichmentResult>) -> nat
    decreases s.len(),
{
    if s.len() == 0 {
        0
    } else {
        count_failed(s.drop_last()) + (if s.last().outcome is Failed {
            1nat
        } else {
            0nat
        })
    }
}

/// At most every outcome is a failure.
pub proof fn lemma_count_failed_bounded(s: Seq<EnrichmentResult>)
    ensures
        count_failed(s) <= s.len(),
    decreases s.len(),
{
    if s.len() > 0 {
        lemma_count_failed_bounded(s.drop_last());
    }
}

/// The number of failed links among `results`: a run whose fetch stage
/// succeeded reports partial success with this count rather than failing.
pub fn failed_count(results: &Vec<EnrichmentResult>) -> (n: usize)
    ensures
        n == count_failed(results@),
{
    let mut n: usize = 0;
    let mut idx: usize = 0;
    while idx < results.len()
        invariant
            idx <= results@.len(),
            n == count_failed(results@.take(idx as int)),
            n <= idx,
        decreases results@.len() - idx,
    {
        proof {
            assert(results@.take(idx as int + 1).drop_last() =~= results@.take(idx as int));
            assert(results@.take(idx as int + 1).last() == results@[idx as int]);
        }
        if !results[idx].is_success() {
            n = n + 1;
        }
        idx = idx + 1;
    }
    proof {
        assert(results@.take(results@.len() as int) =~= results@);
    }
    n
}

/// Fault-isolation law: recording one link's outcome — a failure as much
/// as a success — only appends. Every sibling outcome already aggregated
/// is left untouched, so one link's failure cannot abort or alter the
/// rest of the run.
pub proof fn lemma_record_isolates_siblings(
    before: Seq<EnrichmentResult>,
    r: EnrichmentResult,
    after: Seq<EnrichmentResult>,
)
    requires
        after == before.push(r),
    ensures
        after.len() == before.len() + 1,
        forall|i: int| 0 <= i < before.len() ==> after[i] == before[i],
        after[before.len() as int] == r,
{
}

} // verus!
