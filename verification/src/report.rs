//! Per-entry outcomes, and the bookkeeping of a whole run: settling the
//! outcomes that are final, collecting the permission-denied entries for
//! the privileged retry, and merging the retry's reports back in.

use vstd::prelude::*;
use vstd::seq_lib::group_to_multiset_ensures;
use vstd::seq_lib::lemma_multiset_commutative;
use vstd::multiset::group_multiset_axioms;

use crate::dotfile::DotFile;
use crate::dotfile::Error;
use crate::dotfile::ErrorKind;

verus! {

/// The outcome of one entry: its id and the failure, if any.
#[derive(Debug)]
pub struct Report {
    pub dotfile_id: u32,
    pub error: Option<Error>,
}

impl Report {
    /// Whether the entry went through without a failure.
    pub fn is_ok(&self) -> (r: bool)
        ensures
            r == (self.error is None),
    {
        self.error.is_none()
    }
}

/// One link attempt as it came out: the entry and its failure, if any.
#[derive(Debug)]
pub struct Attempt {
    pub dotfile: DotFile,
    pub error: Option<Error>,
}

/// Whether an outcome is the one kind worth a privileged retry.
pub open spec fn is_denied(e: Option<Error>) -> bool {
    e matches Some(err) && err.kind == ErrorKind::PermissionDenied
}

/// The reports of the attempts that are settled — everything but the
/// permission-denied ones — in input order.
pub open spec fn spec_settled_reports(s: Seq<Attempt>) -> Seq<Report>
    decreases s.len(),
{
    if s.len() == 0 {
        Seq::empty()
    } else {
        let prev = spec_settled_reports(s.drop_last());
        let a = s.last();
        if is_denied(a.error) {
            prev
        } else {
            prev.push(Report { dotfile_id: a.dotfile.id, error: a.error })
        }
    }
}

/// The entries whose attempts were permission-denied, in input order.
pub open spec fn spec_denied(s: Seq<Attempt>) -> Seq<DotFile>
    decreases s.len(),
{
    if s.len() == 0 {
        Seq::empty()
    } else {
        let prev = spec_denied(s.drop_last());
        let a = s.last();
        if is_denied(a.error) {
            prev.push(a.dotfile)
        } else {
            prev
        }
    }
}

/// The ids of attempts, in order.
pub open spec fn spec_attempt_ids(s: Seq<Attempt>) -> Seq<u32> {
    Seq::new(s.len(), |i: int| s[i].dotfile.id)
}

/// The ids of reports, in order.
pub open spec fn spec_report_ids(s: Seq<Report>) -> Seq<u32> {
    Seq::new(s.len(), |i: int| s[i].dotfile_id)
}

/// The ids of entries, in order.
pub open spec fn spec_dotfile_ids(s: Seq<DotFile>) -> Seq<u32> {
    Seq::new(s.len(), |i: int| s[i].id)
}

/// Split the attempts of one run: a report for every settled one, and the
/// entries of the permission-denied ones, which the caller hands to the
/// privileged retry.
pub fn bucket(attempts: Vec<Attempt>) -> (r: (Vec<Report>, Vec<DotFile>))
    ensures
        r.0@ == spec_settled_reports(attempts@),
        r.1@ == spec_denied(attempts@),
{
    let ghost all = attempts@;
    let mut rest = attempts;
    let mut reports: Vec<Report> = Vec::new();
    let mut denied: Vec<DotFile> = Vec::new();
    let ghost mut done: Seq<Attempt> = Seq::empty();
    while rest.len() > 0
        invariant
            done + rest@ == all,
            reports@ == spec_settled_reports(done),
            denied@ == spec_denied(done),
        decreases rest@.len(),
    {
        let a = rest.remove(0);
        proof {
            assert(done.push(a) + rest@ =~= all);
            assert(done.push(a).drop_last() =~= done);
        }
        let denied_now = match &a.error {
            Some(e) => e.kind == ErrorKind::PermissionDenied,
            None => false,
        };
        if denied_now {
            denied.push(a.dotfile);
        } else {
            reports.push(Report { dotfile_id: a.dotfile.id, error: a.error });
        }
        proof {
            done = done.push(a);
        }
    }
    proof {
        assert(done =~= all);
    }
    (reports, denied)
}

/// The reports of a whole run: the direct ones followed by those the
/// privileged retry sent back.
pub fn merge_reports(direct: Vec<Report>, escalated: Vec<Report>) -> (r: Vec<Report>)
    ensures
        r@ == direct@ + escalated@,
{
    let mut merged = direct;
    let mut rest = escalated;
    merged.append(&mut rest);
    merged
}

/// Whether any report still carries a failure; the run exits nonzero
/// exactly then.
pub fn any_failed(reports: &Vec<Report>) -> (r: bool)
    ensures
        r == (exists|i: int| 0 <= i < reports@.len() && reports@[i].error is Some),
{
    let n = reports.len();
    for i in 0..n
        invariant
            n == reports@.len(),
            forall|j: int| 0 <= j < i ==> reports@[j].error is None,
    {
        if reports[i].error.is_some() {
            return true;
        }
    }
    false
}

/// Splitting a run's attempts loses no entry and invents none: the ids of
/// the settled reports and of the denied entries are together exactly the
/// attempted ids.
pub proof fn lemma_bucket_partitions_ids(s: Seq<Attempt>)
    ensures
        spec_report_ids(spec_settled_reports(s)).to_multiset().add(
            spec_dotfile_ids(spec_denied(s)).to_multiset(),
        ) =~= spec_attempt_ids(s).to_multiset(),
    decreases s.len(),
{
    broadcast use group_to_multiset_ensures;
    broadcast use group_multiset_axioms;

    if s.len() == 0 {
        assert(spec_report_ids(spec_settled_reports(s)) =~= Seq::<u32>::empty());
        assert(spec_dotfile_ids(spec_denied(s)) =~= Seq::<u32>::empty());
        assert(spec_attempt_ids(s) =~= Seq::<u32>::empty());
    } else {
        lemma_bucket_partitions_ids(s.drop_last());
        let a = s.last();
        assert(spec_attempt_ids(s) =~= spec_attempt_ids(s.drop_last()).push(a.dotfile.id));
        if is_denied(a.error) {
            assert(spec_report_ids(spec_settled_reports(s)) =~= spec_report_ids(
                spec_settled_reports(s.drop_last()),
            ));
            assert(spec_dotfile_ids(spec_denied(s)) =~= spec_dotfile_ids(
                spec_denied(s.drop_last()),
            ).push(a.dotfile.id));
        } else {
            assert(spec_report_ids(spec_settled_reports(s)) =~= spec_report_ids(
                spec_settled_reports(s.drop_last()),
            ).push(a.dotfile.id));
            assert(spec_dotfile_ids(spec_denied(s)) =~= spec_dotfile_ids(spec_denied(s.drop_last())));
        }
    }
}

/// After escalation every attempted entry is reported exactly once: where
/// the attempted ids are distinct and the retry reports back one report
/// per denied entry, the merged reports carry the attempted ids with no
/// duplicate and no omission.
pub proof fn lemma_escalation_reports_complete(s: Seq<Attempt>, child: Seq<Report>)
    requires
        spec_attempt_ids(s).no_duplicates(),
        spec_report_ids(child) == spec_dotfile_ids(spec_denied(s)),
    ensures
        (spec_settled_reports(s) + child).len() == s.len(),
        spec_report_ids(spec_settled_reports(s) + child).to_multiset() =~= spec_attempt_ids(
            s,
        ).to_multiset(),
        spec_report_ids(spec_settled_reports(s) + child).no_duplicates(),
{
    broadcast use group_to_multiset_ensures;
    broadcast use group_multiset_axioms;

    let settled = spec_settled_reports(s);
    let merged = settled + child;
    let merged_ids = spec_report_ids(merged);
    assert(merged_ids =~= spec_report_ids(settled) + spec_report_ids(child));
    lemma_multiset_commutative(spec_report_ids(settled), spec_report_ids(child));
    lemma_bucket_partitions_ids(s);
    assert(merged_ids.to_multiset() =~= spec_attempt_ids(s).to_multiset());
    assert(merged_ids.to_multiset().len() == spec_attempt_ids(s).to_multiset().len());
    assert(spec_attempt_ids(s).len() == s.len());
    assert(merged_ids.len() == merged.len());
    spec_attempt_ids(s).lemma_multiset_has_no_duplicates();
    assert forall|x: u32| merged_ids.to_multiset().contains(x) implies merged_ids.to_multiset().count(
        x,
    ) == 1 by {
        assert(spec_attempt_ids(s).to_multiset().contains(x));
    }
    merged_ids.lemma_multiset_has_no_duplicates_conv();
}

} // verus!
