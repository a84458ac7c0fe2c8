//! Properties of whole runs of the copier, proved over `spec_step`: the
//! happy path issues one creation per target branch in listed order with
//! one success line each, and any failure stops the run at once.

use vstd::prelude::*;

use crate::copier::{EventV, OutcomeV, PhaseV, ReportV, spec_empty_outcome, spec_step, spec_success_line};
use crate::model::{ConfigV, CopyError, CreatedV, MergeRequestV};
use crate::request::{Method, spec_create_request};

verus! {

/// A whole run from phase `p`: feeds the events to `spec_step` in order and
/// collects the final phase and every outcome along the way.
pub open spec fn spec_run(c: ConfigV, p: PhaseV, events: Seq<EventV>) -> (PhaseV, Seq<OutcomeV>)
    decreases events.len(),
{
    if events.len() == 0 {
        (p, Seq::empty())
    } else {
        let first = spec_step(c, p, events[0]);
        let rest = spec_run(c, first.0, events.drop_first());
        (rest.0, seq![first.1] + rest.1)
    }
}

/// A run produces one outcome per event.
pub proof fn lemma_run_len(c: ConfigV, p: PhaseV, events: Seq<EventV>)
    ensures
        spec_run(c, p, events).1.len() == events.len(),
    decreases events.len(),
{
    if events.len() > 0 {
        lemma_run_len(c, spec_step(c, p, events[0]).0, events.drop_first());
    }
}

/// From a terminal phase nothing happens any more: the phase stays, and no
/// event produces a report or a request.
pub proof fn lemma_run_terminal(c: ConfigV, p: PhaseV, events: Seq<EventV>)
    requires
        p is Finished || p is Failed,
    ensures
        spec_run(c, p, events).0 == p,
        forall|i: int|
            0 <= i < events.len() ==> spec_run(c, p, events).1[i] == spec_empty_outcome(),
    decreases events.len(),
{
    lemma_run_len(c, p, events);
    if events.len() > 0 {
        assert(spec_step(c, p, events[0]) == (p, spec_empty_outcome()));
        lemma_run_terminal(c, p, events.drop_first());
        let outs = spec_run(c, p, events).1;
        let rest = spec_run(c, p, events.drop_first()).1;
        assert forall|i: int| 0 <= i < events.len() implies outs[i] == spec_empty_outcome() by {
            if i > 0 {
                assert(outs[i] == rest[i - 1]);
            }
        }
    }
}

/// No step ever issues another fetch: whatever request a step hands out is
/// a creation. The one fetch of a run is the request `start` hands out.
pub proof fn lemma_steps_issue_only_creations(c: ConfigV, p: PhaseV, e: EventV)
    ensures
        spec_step(c, p, e).1.request matches Some(req) ==> req.method == Method::Post,
{
}

/// A run over one event is one step.
pub proof fn lemma_run_one(c: ConfigV, p: PhaseV, e: EventV)
    ensures
        spec_run(c, p, seq![e]) == (spec_step(c, p, e).0, seq![spec_step(c, p, e).1]),
{
    let events = seq![e];
    assert(events[0] == e);
    assert(events.drop_first() =~= Seq::<EventV>::empty());
    reveal_with_fuel(spec_run, 2);
    assert(spec_run(c, p, events).1 =~= seq![spec_step(c, p, e).1]);
}

/// Runs compose: feeding `a + b` is feeding `a`, then feeding `b` from
/// where `a` left off.
pub proof fn lemma_run_concat(c: ConfigV, p: PhaseV, a: Seq<EventV>, b: Seq<EventV>)
    ensures
        ({
            let first = spec_run(c, p, a);
            let second = spec_run(c, first.0, b);
            spec_run(c, p, a + b) == (second.0, first.1 + second.1)
        }),
    decreases a.len(),
{
    if a.len() == 0 {
        assert(a + b =~= b);
        assert(spec_run(c, p, a).1 + spec_run(c, p, b).1 =~= spec_run(c, p, b).1);
    } else {
        let step0 = spec_step(c, p, a[0]);
        assert((a + b)[0] == a[0]);
        assert((a + b).drop_first() =~= a.drop_first() + b);
        lemma_run_concat(c, step0.0, a.drop_first(), b);
        let first = spec_run(c, p, a);
        let second = spec_run(c, first.0, b);
        assert(spec_run(c, p, a + b).1 =~= first.1 + second.1);
    }
}

/// The event sequence in which every creation succeeds with the given
/// response documents.
pub open spec fn all_create_ok(created: Seq<CreatedV>) -> Seq<EventV> {
    Seq::new(created.len(), |i: int| EventV::CreateOk(created[i]))
}

/// The outcome of the step that answers creation `i` of `n` successfully:
/// the success line for target branch `i`, and the request for branch
/// `i + 1`, or none after the last branch.
pub open spec fn spec_success_outcome(
    c: ConfigV,
    doc: MergeRequestV,
    created: CreatedV,
    i: int,
) -> OutcomeV {
    OutcomeV {
        report: Some(ReportV::Success(spec_success_line(c.target_branches[i], created.web_url))),
        request: if i + 1 < c.target_branches.len() {
            Some(spec_create_request(c, doc, i + 1))
        } else {
            None
        },
    }
}

/// From creation `k` on, a run of successful creations walks the remaining
/// target branches in listed order: one success outcome each, each carrying
/// the request for the next branch, finishing after the last one.
pub proof fn lemma_run_creates(c: ConfigV, doc: MergeRequestV, k: int, created: Seq<CreatedV>)
    requires
        0 <= k < c.target_branches.len(),
        k + created.len() <= c.target_branches.len(),
    ensures
        ({
            let r = spec_run(c, PhaseV::Creating { doc, next: k }, all_create_ok(created));
            &&& r.1.len() == created.len()
            &&& forall|i: int|
                0 <= i < created.len() ==> r.1[i] == spec_success_outcome(c, doc, created[i], k + i)
            &&& r.0 == if k + created.len() < c.target_branches.len() {
                PhaseV::Creating { doc, next: k + created.len() }
            } else {
                PhaseV::Finished
            }
        }),
    decreases created.len(),
{
    let events = all_create_ok(created);
    lemma_run_len(c, PhaseV::Creating { doc, next: k }, events);
    if created.len() > 0 {
        let first = spec_step(c, PhaseV::Creating { doc, next: k }, events[0]);
        assert(events[0] == EventV::CreateOk(created[0]));
        assert(first.1 == spec_success_outcome(c, doc, created[0], k));
        let rest_events = events.drop_first();
        let rest_created = created.drop_first();
        assert(rest_events =~= all_create_ok(rest_created));
        if k + 1 < c.target_branches.len() {
            assert(first.0 == PhaseV::Creating { doc, next: k + 1 });
            lemma_run_creates(c, doc, k + 1, rest_created);
            let r = spec_run(c, PhaseV::Creating { doc, next: k }, events);
            let rest = spec_run(c, first.0, rest_events);
            assert forall|i: int|
                0 <= i < created.len() implies r.1[i] == spec_success_outcome(
                c,
                doc,
                created[i],
                k + i,
            ) by {
                if i > 0 {
                    assert(r.1[i] == rest.1[i - 1]);
                    assert(rest_created[i - 1] == created[i]);
                }
            }
        } else {
            assert(created.len() == 1);
            assert(first.0 == PhaseV::Finished);
            lemma_run_terminal(c, first.0, rest_events);
        }
    }
}

/// The happy path: one fetched document, then one successful creation per
/// target branch. The run finishes; the fetch answer issues the creation
/// request for the first branch; creation `i` reports its success line and
/// issues the request for branch `i + 1`; after the last branch nothing
/// more is issued. So exactly `N` creation requests go out, in listed
/// order, and exactly `N` success lines are reported, in the same order.
pub proof fn lemma_run_all_success(c: ConfigV, doc: MergeRequestV, created: Seq<CreatedV>)
    requires
        created.len() == c.target_branches.len(),
    ensures
        ({
            let events = seq![EventV::FetchOk(doc)] + all_create_ok(created);
            let r = spec_run(c, PhaseV::Fetching, events);
            &&& r.0 == PhaseV::Finished
            &&& r.1.len() == 1 + created.len()
            &&& r.1[0] == OutcomeV {
                report: None,
                request: if created.len() > 0 {
                    Some(spec_create_request(c, doc, 0))
                } else {
                    None
                },
            }
            &&& forall|i: int|
                0 <= i < created.len() ==> r.1[i + 1] == spec_success_outcome(
                    c,
                    doc,
                    created[i],
                    i,
                )
        }),
{
    let fetch = seq![EventV::FetchOk(doc)];
    let creates = all_create_ok(created);
    let events = fetch + creates;
    lemma_run_concat(c, PhaseV::Fetching, fetch, creates);
    let first = spec_step(c, PhaseV::Fetching, EventV::FetchOk(doc));
    lemma_run_one(c, PhaseV::Fetching, EventV::FetchOk(doc));
    let head = spec_run(c, PhaseV::Fetching, fetch);
    assert(head == (first.0, seq![first.1]));
    let tail = spec_run(c, first.0, creates);
    lemma_run_len(c, first.0, creates);
    if created.len() == 0 {
        assert(first.0 == PhaseV::Finished);
        lemma_run_terminal(c, first.0, creates);
    } else {
        assert(first.0 == PhaseV::Creating { doc, next: 0 });
        lemma_run_creates(c, doc, 0, created);
    }
    let r = spec_run(c, PhaseV::Fetching, events);
    assert(r.1 == head.1 + tail.1);
    assert(r.1[0] == first.1);
    assert forall|i: int|
        0 <= i < created.len() implies r.1[i + 1] == spec_success_outcome(c, doc, created[i], i) by {
        assert(r.1[i + 1] == tail.1[i]);
    }
}

/// A failed fetch stops everything: its step reports the error and issues
/// no request, and whatever events follow, no request and no report is
/// ever produced again. So zero creation calls are issued.
pub proof fn lemma_fetch_failure_stops(c: ConfigV, err: CopyError, later: Seq<EventV>)
    ensures
        ({
            let events = seq![EventV::FetchFailed(err)] + later;
            let r = spec_run(c, PhaseV::Fetching, events);
            &&& r.0 == PhaseV::Failed
            &&& r.1.len() == 1 + later.len()
            &&& r.1[0] == OutcomeV { report: Some(ReportV::Failure(err)), request: None }
            &&& forall|i: int| 1 <= i < r.1.len() ==> r.1[i] == spec_empty_outcome()
        }),
{
    let head = seq![EventV::FetchFailed(err)];
    let events = head + later;
    lemma_run_concat(c, PhaseV::Fetching, head, later);
    let first = spec_step(c, PhaseV::Fetching, EventV::FetchFailed(err));
    lemma_run_one(c, PhaseV::Fetching, EventV::FetchFailed(err));
    let run_head = spec_run(c, PhaseV::Fetching, head);
    assert(run_head == (first.0, seq![first.1]));
    assert(first.0 == PhaseV::Failed);
    lemma_run_terminal(c, first.0, later);
    lemma_run_len(c, first.0, later);
    let tail = spec_run(c, first.0, later);
    let r = spec_run(c, PhaseV::Fetching, events);
    assert(r.1 == run_head.1 + tail.1);
    assert forall|i: int| 1 <= i < r.1.len() implies r.1[i] == spec_empty_outcome() by {
        assert(r.1[i] == tail.1[i - 1]);
    }
}

/// A failed creation stops the fan-out: after `k` successful creations a
/// failure at target branch `k` reports the error and issues no request,
/// and whatever events follow, nothing more is issued. So creations
/// `k + 1` up to `N` are never attempted.
pub proof fn lemma_create_failure_stops(
    c: ConfigV,
    doc: MergeRequestV,
    created: Seq<CreatedV>,
    err: CopyError,
    later: Seq<EventV>,
)
    requires
        created.len() + 1 <= c.target_branches.len(),
    ensures
        ({
            let k = created.len() as int;
            let events = seq![EventV::FetchOk(doc)] + all_create_ok(created)
                + seq![EventV::CreateFailed(err)] + later;
            let r = spec_run(c, PhaseV::Fetching, events);
            &&& r.0 == PhaseV::Failed
            &&& r.1.len() == events.len()
            &&& r.1[0] == OutcomeV {
                report: None,
                request: Some(spec_create_request(c, doc, 0)),
            }
            &&& forall|i: int|
                0 <= i < k ==> r.1[i + 1] == spec_success_outcome(c, doc, created[i], i)
            &&& r.1[k + 1] == OutcomeV { report: Some(ReportV::Failure(err)), request: None }
            &&& forall|i: int| k + 2 <= i < r.1.len() ==> r.1[i] == spec_empty_outcome()
        }),
{
    let k = created.len() as int;
    let prefix = seq![EventV::FetchOk(doc)] + all_create_ok(created);
    let fail = seq![EventV::CreateFailed(err)];
    let events = prefix + fail + later;
    lemma_run_len(c, PhaseV::Fetching, events);

    // The prefix walks the first k branches and leaves the machine at
    // branch k, still creating.
    let first = spec_step(c, PhaseV::Fetching, EventV::FetchOk(doc));
    lemma_run_one(c, PhaseV::Fetching, EventV::FetchOk(doc));
    lemma_run_concat(c, PhaseV::Fetching, seq![EventV::FetchOk(doc)], all_create_ok(created));
    assert(first.0 == PhaseV::Creating { doc, next: 0 });
    if created.len() > 0 {
        lemma_run_creates(c, doc, 0, created);
    }
    let run_prefix = spec_run(c, PhaseV::Fetching, prefix);
    let run_creates = spec_run(c, first.0, all_create_ok(created));
    lemma_run_len(c, first.0, all_create_ok(created));
    assert(run_prefix.1 == seq![first.1] + run_creates.1);
    assert(run_prefix.0 == PhaseV::Creating { doc, next: k });

    // The failing step, then silence.
    let fail_step = spec_step(c, run_prefix.0, EventV::CreateFailed(err));
    assert(fail_step.0 == PhaseV::Failed);
    lemma_run_one(c, run_prefix.0, EventV::CreateFailed(err));
    let run_fail = spec_run(c, run_prefix.0, fail);
    assert(run_fail == (fail_step.0, seq![fail_step.1]));
    lemma_run_terminal(c, fail_step.0, later);
    lemma_run_len(c, fail_step.0, later);
    let run_later = spec_run(c, fail_step.0, later);

    lemma_run_concat(c, PhaseV::Fetching, prefix + fail, later);
    lemma_run_concat(c, PhaseV::Fetching, prefix, fail);
    assert(events =~= (prefix + fail) + later);
    let r = spec_run(c, PhaseV::Fetching, events);
    assert(r.1 == (run_prefix.1 + run_fail.1) + run_later.1);
    assert(r.1[0] == first.1);
    assert forall|i: int|
        0 <= i < k implies r.1[i + 1] == spec_success_outcome(c, doc, created[i], i) by {
        assert(r.1[i + 1] == run_creates.1[i]);
    }
    assert(r.1[k + 1] == fail_step.1);
    assert forall|i: int| k + 2 <= i < r.1.len() implies r.1[i] == spec_empty_outcome() by {
        assert(r.1[i] == run_later.1[i - (k + 2)]);
    }
}

} // verus!
