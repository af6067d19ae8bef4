//! Folding a drained batch into one report.
//!
//! The fold is defined over the mathematical content of the reports and of
//! the processor's answers; `produce_report` computes it, and the laws below
//! say what every batch yields.

use crate::agent::report::{
    entry_of, notice_of, processed_view, record_of, DropNotice, DropNoticeView, ExecutionReport,
    ExecutionReportView, NormalizedOperationView, NoticeLevel, Processed, ProcessedView, Report,
    ReportView,
};
use vstd::prelude::*;

verus! {

/// The report of a batch: the reports taken in order, each with the
/// processor's answer for it.
pub open spec fn fold_report(
    reports: Seq<ExecutionReportView>,
    outcomes: Seq<ProcessedView>,
) -> ReportView
    decreases reports.len(),
{
    if reports.len() == 0 || outcomes.len() != reports.len() {
        ReportView::empty()
    } else {
        fold_report(reports.drop_last(), outcomes.drop_last()).record(
            reports.last(),
            outcomes.last(),
        )
    }
}

/// The notices of a batch: one for each report that is dropped, in order.
pub open spec fn fold_notices(
    reports: Seq<ExecutionReportView>,
    outcomes: Seq<ProcessedView>,
) -> Seq<DropNoticeView>
    decreases reports.len(),
{
    if reports.len() == 0 || outcomes.len() != reports.len() {
        Seq::empty()
    } else {
        let before = fold_notices(reports.drop_last(), outcomes.drop_last());
        match notice_of(reports.last(), outcomes.last()) {
            Some(notice) => before.push(notice),
            None => before,
        }
    }
}

/// How many of the first `upto` answers are normalized operations.
pub open spec fn kept_before(outcomes: Seq<ProcessedView>, upto: int) -> nat
    decreases upto,
{
    if upto <= 0 || upto > outcomes.len() {
        0
    } else if outcomes[upto - 1] is Ok && outcomes[upto - 1]->Ok_0 is Some {
        kept_before(outcomes, upto - 1) + 1
    } else {
        kept_before(outcomes, upto - 1)
    }
}

/// The views of a sequence of reports.
pub open spec fn report_views(reports: Seq<ExecutionReport>) -> Seq<ExecutionReportView> {
    Seq::new(reports.len(), |i: int| reports[i]@)
}

/// The views of a sequence of answers.
pub open spec fn outcome_views(outcomes: Seq<Processed>) -> Seq<ProcessedView> {
    Seq::new(outcomes.len(), |i: int| processed_view(outcomes[i]))
}

/// The views of a sequence of notices.
pub open spec fn notice_views(notices: Seq<DropNotice>) -> Seq<DropNoticeView> {
    Seq::new(notices.len(), |i: int| notices[i]@)
}

/// `outcomes` are answers that `process` may give for `reports`, one each.
pub open spec fn answers<F: Fn(&ExecutionReport) -> Processed>(
    process: F,
    reports: Seq<ExecutionReport>,
    outcomes: Seq<Processed>,
) -> bool {
    &&& outcomes.len() == reports.len()
    &&& forall|i: int|
        0 <= i < reports.len() ==> call_ensures(process, (&reports[i],), #[trigger] outcomes[i])
}

/// `report` and `notices` are what the batch yields under these answers.
pub open spec fn produced<F: Fn(&ExecutionReport) -> Processed>(
    process: F,
    reports: Seq<ExecutionReport>,
    outcomes: Seq<Processed>,
    report: ReportView,
    notices: Seq<DropNoticeView>,
) -> bool {
    &&& answers(process, reports, outcomes)
    &&& report == fold_report(report_views(reports), outcome_views(outcomes))
    &&& notices == fold_notices(report_views(reports), outcome_views(outcomes))
}

/// Folds a drained batch into a report. Each report's body goes through
/// `process` once, in order; what it answers decides whether the report is
/// included, skipped or dropped with a warning. The result is the fold of the
/// batch under the answers that `process` gave.
pub fn produce_report<F>(reports: Vec<ExecutionReport>, process: F) -> (built: (
    Report,
    Vec<DropNotice>,
)) where F: Fn(&ExecutionReport) -> Processed
    requires
        forall|i: int| 0 <= i < reports@.len() ==> call_requires(process, (&reports@[i],)),
    ensures
        built.0.wf(),
        exists|outcomes: Seq<Processed>| #[trigger]
            produced(process, reports@, outcomes, built.0@, notice_views(built.1@)),
{
    let mut report = Report::new();
    let mut notices: Vec<DropNotice> = Vec::new();
    let ghost mut outcomes: Seq<Processed> = Seq::empty();
    let mut i: usize = 0;
    proof {
        assert(report_views(reports@.subrange(0, 0)) =~= Seq::empty());
        assert(notice_views(notices@) =~= Seq::empty());
    }
    while i < reports.len()
        invariant
            i <= reports@.len(),
            forall|k: int| 0 <= k < reports@.len() ==> call_requires(process, (&reports@[k],)),
            report.wf(),
            answers(process, reports@.subrange(0, i as int), outcomes),
            report@ == fold_report(
                report_views(reports@.subrange(0, i as int)),
                outcome_views(outcomes),
            ),
            notice_views(notices@) == fold_notices(
                report_views(reports@.subrange(0, i as int)),
                outcome_views(outcomes),
            ),
        decreases reports@.len() - i,
    {
        let op = &reports[i];
        let outcome = process(op);
        let ghost answered = outcome;
        let ghost before = outcomes;
        let ghost old_notices = notices@;
        let notice = report.record(op, outcome);
        proof {
            outcomes = outcomes.push(answered);
            let done = reports@.subrange(0, i as int);
            let next = reports@.subrange(0, i + 1);
            assert(next.drop_last() =~= done);
            assert(next.last() == reports@[i as int]);
            assert(report_views(next).drop_last() =~= report_views(done));
            assert(report_views(next).last() == op@);
            assert(outcome_views(outcomes).drop_last() =~= outcome_views(before));
            assert(outcome_views(outcomes).last() == processed_view(answered));
            assert(answers(process, next, outcomes)) by {
                assert forall|k: int| 0 <= k < next.len() implies call_ensures(
                    process,
                    (&next[k],),
                    #[trigger] outcomes[k],
                ) by {
                    if k < i {
                        assert(next[k] == done[k]);
                        assert(outcomes[k] == before[k]);
                    }
                }
            }
        }
        match notice {
            Some(n) => {
                notices.push(n);
                proof {
                    assert(notice_views(notices@) =~= notice_views(old_notices).push(n@));
                }
            },
            None => {},
        }
        i += 1;
    }
    let built = (report, notices);
    proof {
        assert(reports@.subrange(0, i as int) =~= reports@);
        assert(produced(process, reports@, outcomes, built.0@, notice_views(built.1@)));
    }
    built
}

/// Every batch yields at most as many operations as it has reports, and each
/// report that is left out yields exactly one notice: the operations and the
/// notices together are as many as the reports.
pub proof fn lemma_every_report_is_kept_or_noticed(
    reports: Seq<ExecutionReportView>,
    outcomes: Seq<ProcessedView>,
)
    requires
        outcomes.len() == reports.len(),
    ensures
        fold_report(reports, outcomes).operations.len() <= reports.len(),
        fold_report(reports, outcomes).operations.len() + fold_notices(reports, outcomes).len()
            == reports.len(),
        fold_report(reports, outcomes).operations.len() == kept_before(
            outcomes,
            outcomes.len() as int,
        ),
    decreases reports.len(),
{
    if reports.len() > 0 {
        lemma_every_report_is_kept_or_noticed(reports.drop_last(), outcomes.drop_last());
        lemma_kept_before_prefix(outcomes, outcomes.len() - 1, outcomes.len() - 1);
    }
}

/// Counting over a prefix of the answers is counting over the answers.
pub proof fn lemma_kept_before_prefix(outcomes: Seq<ProcessedView>, len: int, upto: int)
    requires
        0 <= upto <= len <= outcomes.len(),
    ensures
        kept_before(outcomes.subrange(0, len), upto) == kept_before(outcomes, upto),
        len == outcomes.len() - 1 ==> kept_before(outcomes.drop_last(), upto) == kept_before(
            outcomes,
            upto,
        ),
    decreases upto,
{
    if upto > 0 {
        lemma_kept_before_prefix(outcomes, len, upto - 1);
    }
    if len == outcomes.len() - 1 {
        assert(outcomes.drop_last() =~= outcomes.subrange(0, len));
    }
}

/// The report keeps the drain order: the report at index `i`, if its body was
/// normalized, stands in `operations` behind the entries of all the kept
/// reports before it, and its hash is a key of `map`.
pub proof fn lemma_kept_report_has_its_entry(
    reports: Seq<ExecutionReportView>,
    outcomes: Seq<ProcessedView>,
    i: int,
    n: NormalizedOperationView,
)
    requires
        outcomes.len() == reports.len(),
        0 <= i < reports.len(),
        outcomes[i] == Ok::<Option<NormalizedOperationView>, Seq<char>>(Some(n)),
    ensures
        kept_before(outcomes, i) < fold_report(reports, outcomes).operations.len(),
        fold_report(reports, outcomes).operations[kept_before(outcomes, i) as int] == entry_of(
            reports[i],
            n,
        ),
        fold_report(reports, outcomes).map.dom().contains(n.hash),
    decreases reports.len(),
{
    let front = fold_report(reports.drop_last(), outcomes.drop_last());
    lemma_every_report_is_kept_or_noticed(reports.drop_last(), outcomes.drop_last());
    lemma_kept_before_prefix(outcomes, outcomes.len() - 1, outcomes.len() - 1);
    if i < reports.len() - 1 {
        lemma_kept_report_has_its_entry(reports.drop_last(), outcomes.drop_last(), i, n);
        lemma_kept_before_prefix(outcomes, outcomes.len() - 1, i);
    }
}

/// The map holds, under each hash, the record of the first kept report with
/// that hash; later reports with the same hash do not change it.
pub proof fn lemma_first_record_stays(
    reports: Seq<ExecutionReportView>,
    outcomes: Seq<ProcessedView>,
    i: int,
    n: NormalizedOperationView,
)
    requires
        outcomes.len() == reports.len(),
        0 <= i < reports.len(),
        outcomes[i] == Ok::<Option<NormalizedOperationView>, Seq<char>>(Some(n)),
        forall|k: int|
            0 <= k < i ==> !(#[trigger] outcomes[k] matches Ok(Some(m)) && m.hash == n.hash),
    ensures
        fold_report(reports, outcomes).map.dom().contains(n.hash),
        fold_report(reports, outcomes).map[n.hash] == record_of(reports[i], n),
    decreases reports.len(),
{
    let front_reports = reports.drop_last();
    let front_outcomes = outcomes.drop_last();
    if i < reports.len() - 1 {
        assert forall|k: int| 0 <= k < i implies !(#[trigger] front_outcomes[k] matches Ok(Some(m))
            && m.hash == n.hash) by {
            assert(front_outcomes[k] == outcomes[k]);
        }
        lemma_first_record_stays(front_reports, front_outcomes, i, n);
    } else {
        assert forall|k: int| 0 <= k < front_outcomes.len() implies !(
        #[trigger] front_outcomes[k] matches Ok(Some(m)) && m.hash == n.hash) by {
            assert(front_outcomes[k] == outcomes[k]);
        }
        lemma_absent_hash(front_reports, front_outcomes, n.hash);
    }
}

/// A hash that no kept report has is no key of the map.
pub proof fn lemma_absent_hash(
    reports: Seq<ExecutionReportView>,
    outcomes: Seq<ProcessedView>,
    hash: Seq<char>,
)
    requires
        outcomes.len() == reports.len(),
        forall|k: int|
            0 <= k < outcomes.len() ==> !(#[trigger] outcomes[k] matches Ok(Some(m)) && m.hash
                == hash),
    ensures
        !fold_report(reports, outcomes).map.dom().contains(hash),
    decreases reports.len(),
{
    if reports.len() > 0 {
        let front_outcomes = outcomes.drop_last();
        assert forall|k: int| 0 <= k < front_outcomes.len() implies !(
        #[trigger] front_outcomes[k] matches Ok(Some(m)) && m.hash == hash) by {
            assert(front_outcomes[k] == outcomes[k]);
        }
        lemma_absent_hash(reports.drop_last(), front_outcomes, hash);
        assert(!(outcomes[outcomes.len() - 1] matches Ok(Some(m)) && m.hash == hash));
    }
}

/// Two reports of one batch whose bodies were normalized to the same
/// operation share one key of the map: their entries carry the same
/// `operation_map_key`, and the map holds that key.
pub proof fn lemma_same_operation_shares_one_key(
    reports: Seq<ExecutionReportView>,
    outcomes: Seq<ProcessedView>,
    p: int,
    q: int,
    n: NormalizedOperationView,
)
    requires
        outcomes.len() == reports.len(),
        0 <= p < reports.len(),
        0 <= q < reports.len(),
        outcomes[p] == Ok::<Option<NormalizedOperationView>, Seq<char>>(Some(n)),
        outcomes[q] == outcomes[p],
    ensures
        ({
            let built = fold_report(reports, outcomes);
            let at_p = built.operations[kept_before(outcomes, p) as int];
            let at_q = built.operations[kept_before(outcomes, q) as int];
            &&& kept_before(outcomes, p) < built.operations.len()
            &&& kept_before(outcomes, q) < built.operations.len()
            &&& at_p.operation_map_key == n.hash
            &&& at_q.operation_map_key == n.hash
            &&& built.map.dom().contains(n.hash)
        }),
{
    lemma_kept_report_has_its_entry(reports, outcomes, p, n);
    lemma_kept_report_has_its_entry(reports, outcomes, q, n);
}

/// A skipped report leaves the report as it is: neither its size nor its
/// contents change.
pub proof fn lemma_skip_changes_nothing(report: ReportView, op: ExecutionReportView)
    ensures
        report.record(op, Ok(None)) == report,
        report.record(op, Ok(None)).size() == report.size(),
{
}

/// A failed report leaves the report as it is.
pub proof fn lemma_failure_changes_nothing(
    report: ReportView,
    op: ExecutionReportView,
    reason: Seq<char>,
)
    ensures
        report.record(op, Err(reason)) == report,
{
}

/// A report that is left out has its notice, once: the report at index `i`,
/// if its body was skipped or failed, stands in the notices behind those of
/// all the dropped reports before it, as a warning with its name and the
/// reason if it failed and as a debug line if it was skipped.
pub proof fn lemma_dropped_report_has_its_notice(
    reports: Seq<ExecutionReportView>,
    outcomes: Seq<ProcessedView>,
    i: int,
)
    requires
        outcomes.len() == reports.len(),
        0 <= i < reports.len(),
        !(outcomes[i] matches Ok(Some(_))),
    ensures
        ({
            let notices = fold_notices(reports, outcomes);
            let at = i - kept_before(outcomes, i);
            &&& 0 <= at < notices.len()
            &&& Some(notices[at]) == notice_of(reports[i], outcomes[i])
            &&& outcomes[i] is Err ==> notices[at].level() == NoticeLevel::Warn
            &&& outcomes[i] is Ok ==> notices[at].level() == NoticeLevel::Debug
        }),
    decreases reports.len(),
{
    lemma_every_report_is_kept_or_noticed(reports.drop_last(), outcomes.drop_last());
    lemma_kept_before_prefix(outcomes, outcomes.len() - 1, outcomes.len() - 1);
    if i < reports.len() - 1 {
        lemma_dropped_report_has_its_notice(reports.drop_last(), outcomes.drop_last(), i);
        lemma_kept_before_prefix(outcomes, outcomes.len() - 1, i);
    }
}

/// Every report that a batch yields is well formed: each entry of
/// `operations` refers to a key of `map`.
pub proof fn lemma_fold_keys_resolve(
    reports: Seq<ExecutionReportView>,
    outcomes: Seq<ProcessedView>,
)
    ensures
        fold_report(reports, outcomes).keys_resolve(),
        fold_report(reports, outcomes).size() == fold_report(reports, outcomes).operations.len(),
    decreases reports.len(),
{
    if reports.len() > 0 && outcomes.len() == reports.len() {
        let front = fold_report(reports.drop_last(), outcomes.drop_last());
        lemma_fold_keys_resolve(reports.drop_last(), outcomes.drop_last());
        let built = fold_report(reports, outcomes);
        assert forall|i: int| 0 <= i < built.operations.len() implies built.map.dom().contains(
            #[trigger] built.operations[i].operation_map_key,
        ) by {
            if i < front.operations.len() {
                assert(built.operations[i] == front.operations[i]);
                assert(front.map.dom().contains(front.operations[i].operation_map_key));
            }
        }
    }
}

} // verus!
