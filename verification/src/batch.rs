use vstd::prelude::*;

use crate::model::{bad_field_name, bad_field_value, resolve, resolve_ok, EngineError, RawProject};
use crate::reconcile::{reconcile_outcome, run_reconcile, Outcome, RemoteBehavior};

verus! {

/// One line of the run report: which resource, and what its reconciliation
/// came to.
#[derive(Debug)]
pub struct ReportEntry {
    pub name: String,
    pub outcome: Outcome,
}

/// What one resource's report entry owes to its own record and its own remote
/// behavior: a record that resolves is reconciled against that behavior; one
/// that does not fails with `InvalidConfiguration` naming the first offending
/// field and value.
pub open spec fn entry_ok(entry: ReportEntry, raw: RawProject, b: RemoteBehavior) -> bool {
    &&& entry.name@ == raw.name@
    &&& (resolve_ok(raw) ==> entry.outcome == reconcile_outcome(b))
    &&& (!resolve_ok(raw) ==> (entry.outcome matches Outcome::Failed {
        error: EngineError::InvalidConfiguration { field, value },
    } && field@ == bad_field_name(raw) && value@ == bad_field_value(raw)))
}

/// Reconciles every configured resource in input order, one after the other.
/// Each entry of the report depends only on that resource's own record and
/// its own remote behavior, so one resource's failure never keeps a later
/// resource from being attempted.
pub fn run_batch(projects: &Vec<RawProject>, behaviors: &Vec<RemoteBehavior>) -> (r: Vec<
    ReportEntry,
>)
    requires
        projects@.len() == behaviors@.len(),
    ensures
        r@.len() == projects@.len(),
        forall|i: int|
            0 <= i < r@.len() ==> entry_ok(#[trigger] r@[i], projects@[i], behaviors@[i]),
{
    let mut report: Vec<ReportEntry> = Vec::new();
    let mut i: usize = 0;
    while i < projects.len()
        invariant
            projects@.len() == behaviors@.len(),
            i <= projects@.len(),
            report@.len() == i,
            forall|k: int|
                0 <= k < i ==> entry_ok(#[trigger] report@[k], projects@[k], behaviors@[k]),
        decreases projects@.len() - i,
    {
        let raw = &projects[i];
        let entry = match resolve(raw) {
            Ok(p) => {
                let (outcome, _trace) = run_reconcile(&p, behaviors[i].duplicate());
                ReportEntry { name: raw.name.clone(), outcome }
            },
            Err(error) => ReportEntry {
                name: raw.name.clone(),
                outcome: Outcome::Failed { error },
            },
        };
        report.push(entry);
        i += 1;
    }
    report
}

/// Whether any resource of the batch ended in failure; the process exit
/// status reflects exactly this.
pub fn any_failed(report: &Vec<ReportEntry>) -> (r: bool)
    ensures
        r == (exists|i: int|
            0 <= i < report@.len() && (#[trigger] report@[i]).outcome is Failed),
{
    let mut i: usize = 0;
    while i < report.len()
        invariant
            i <= report@.len(),
            forall|k: int| 0 <= k < i ==> !((#[trigger] report@[k]).outcome is Failed),
        decreases report@.len() - i,
    {
        let failed = match &report[i].outcome {
            Outcome::Failed { .. } => true,
            _ => false,
        };
        if failed {
            return true;
        }
        i += 1;
    }
    false
}

/// Batch isolation: a resource's outcome is a function of its own remote
/// behavior alone. Two batches whose behaviors agree on one position give
/// that position the same outcome, however the other resources fared.
pub proof fn lemma_batch_isolation(b1: Seq<RemoteBehavior>, b2: Seq<RemoteBehavior>, i: int)
    requires
        0 <= i < b1.len(),
        0 <= i < b2.len(),
        b1[i] == b2[i],
    ensures
        reconcile_outcome(b1[i]) == reconcile_outcome(b2[i]),
{
}

} // verus!
