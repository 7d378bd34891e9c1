//! What holds of whole observations under both policies.
use vstd::prelude::*;

use crate::events::{
    EventView, InclusionRef, MatcherView, contains_dispatch_failure, first_match, has_match,
    is_first_match, lemma_first_match_exists, lookup_result, lemma_first_match_unique,
};
use crate::status::{OutcomeView, RejectionView, StatusView, TransportView, is_terminal, rejection_of};
use crate::tracker::{Chain, Policy, ReportView, TrackerView, report_seq, round, run, start};

verus! {

/// A stream item after which the tracker awaits the next one, unchanged:
/// a notification that is not terminal, and whose block, where it names
/// one, can be fetched.
pub open spec fn quiet(item: Result<StatusView, TransportView>, chain: Chain) -> bool {
    match item {
        Ok(s) => !is_terminal(s) && (s matches StatusView::InBlock(at) ==> chain(at) is Ok),
        Err(_) => false,
    }
}

/// `tail` is the end of `all`.
pub open spec fn ends_with(all: Seq<ReportView>, tail: Seq<ReportView>) -> bool {
    all.len() >= tail.len() && all.subrange(all.len() - tail.len(), all.len() as int) == tail
}

/// The report that a stream item is owed under the streaming policy.
pub open spec fn reports_item(item: Result<StatusView, TransportView>, rep: ReportView) -> bool {
    match item {
        Ok(StatusView::InBlock(at)) => rep matches ReportView::Block { at: a, finalized, .. }
            && a == at && !finalized,
        Ok(StatusView::Finalized(at)) => rep matches ReportView::Block { at: a, finalized, .. }
            && a == at && finalized,
        Ok(s) => rep == ReportView::Status(s),
        Err(_) => false,
    }
}

proof fn lemma_ends_with_last(all: Seq<ReportView>, tail: Seq<ReportView>)
    requires
        ends_with(all, tail),
        tail.len() > 0,
    ensures
        all.last() == tail.last(),
{
    assert(all.subrange(all.len() - tail.len(), all.len() as int)[tail.len() - 1] == all.last());
}

proof fn lemma_quiet_round(t: TrackerView, item: Result<StatusView, TransportView>, chain: Chain)
    requires
        t.phase is Awaiting,
        quiet(item, chain),
    ensures
        round(t, Some(item), chain).0 == t,
        round(t, Some(item), chain).1.command is AwaitNext,
{
}

proof fn lemma_quiet_prefix(
    t: TrackerView,
    items: Seq<Result<StatusView, TransportView>>,
    k: int,
    chain: Chain,
)
    requires
        t.phase is Awaiting,
        0 <= k <= items.len(),
        forall|i: int| 0 <= i < k ==> quiet(#[trigger] items[i], chain),
    ensures
        run(t, items, chain).result == run(t, items.skip(k), chain).result,
        run(t, items, chain).consumed == k + run(t, items.skip(k), chain).consumed,
        ends_with(run(t, items, chain).reports, run(t, items.skip(k), chain).reports),
    decreases k,
{
    if k == 0 {
        assert(items.skip(0) =~= items);
        let all = run(t, items, chain).reports;
        assert(all.subrange(0, all.len() as int) =~= all);
    } else {
        lemma_quiet_round(t, items[0], chain);
        let rest = items.drop_first();
        assert forall|i: int| 0 <= i < k - 1 implies quiet(#[trigger] rest[i], chain) by {
            assert(rest[i] == items[i + 1]);
        }
        lemma_quiet_prefix(t, rest, k - 1, chain);
        assert(rest.skip(k - 1) =~= items.skip(k));
        let all = run(t, items, chain).reports;
        let mid = run(t, rest, chain).reports;
        let tail = run(t, items.skip(k), chain).reports;
        let head = report_seq(round(t, Some(items[0]), chain).1.report);
        assert(all == head + mid);
        assert(all.subrange(all.len() - tail.len(), all.len() as int) =~= mid.subrange(
            mid.len() - tail.len(),
            mid.len() as int,
        ));
    }
}

/// A stream that ends in `Finalized`, after notifications that neither end
/// the observation nor fail to fetch, whose finalized block records the
/// success event and no dispatch failure: under either policy the outcome
/// is success with the first matching event attached, every item is
/// consumed, and the streaming policy's last report is that block with the
/// event found.
pub proof fn law_finalized_with_success_event(
    policy: Policy,
    m: MatcherView,
    items: Seq<Result<StatusView, TransportView>>,
    chain: Chain,
    at: InclusionRef,
    evs: Seq<EventView>,
)
    requires
        items.len() > 0,
        forall|i: int| 0 <= i < items.len() - 1 ==> quiet(#[trigger] items[i], chain),
        items.last() == Ok::<StatusView, TransportView>(StatusView::Finalized(at)),
        chain(at) == Ok::<Seq<EventView>, TransportView>(evs),
        has_match(evs, m),
        !contains_dispatch_failure(evs),
    ensures
        is_first_match(evs, m, first_match(evs, m)->0),
        run(start(policy, m), items, chain).result == Ok::<OutcomeView, TransportView>(
            OutcomeView::Success { at, events: evs, event: evs[first_match(evs, m)->0] },
        ),
        run(start(policy, m), items, chain).consumed == items.len(),
        policy is Streaming ==> run(start(policy, m), items, chain).reports.last() == (
        ReportView::Block { at, finalized: true, found: Some(evs[first_match(evs, m)->0]) }),
{
    lemma_first_match_exists(evs, m);
    let t = start(policy, m);
    let k = items.len() - 1;
    lemma_quiet_prefix(t, items, k, chain);
    assert(items.skip(k) =~= seq![items.last()]);
    if policy is Streaming {
        lemma_ends_with_last(run(t, items, chain).reports, run(t, items.skip(k), chain).reports);
    }
}

/// A stream that ends in `Finalized`, after notifications that neither end
/// the observation nor fail to fetch, whose finalized block lacks the
/// success event: under either policy the outcome is a dispatch failure,
/// and the streaming policy's last report is that block with nothing found.
pub proof fn law_finalized_without_success_event(
    policy: Policy,
    m: MatcherView,
    items: Seq<Result<StatusView, TransportView>>,
    chain: Chain,
    at: InclusionRef,
    evs: Seq<EventView>,
)
    requires
        items.len() > 0,
        forall|i: int| 0 <= i < items.len() - 1 ==> quiet(#[trigger] items[i], chain),
        items.last() == Ok::<StatusView, TransportView>(StatusView::Finalized(at)),
        chain(at) == Ok::<Seq<EventView>, TransportView>(evs),
        !has_match(evs, m),
    ensures
        run(start(policy, m), items, chain).result == Ok::<OutcomeView, TransportView>(
            OutcomeView::Dispatch { at, events: evs },
        ),
        run(start(policy, m), items, chain).consumed == items.len(),
        policy is Streaming ==> run(start(policy, m), items, chain).reports.last() == (
        ReportView::Block { at, finalized: true, found: None }),
{
    let t = start(policy, m);
    let k = items.len() - 1;
    lemma_quiet_prefix(t, items, k, chain);
    assert(items.skip(k) =~= seq![items.last()]);
    if policy is Streaming {
        lemma_ends_with_last(run(t, items, chain).reports, run(t, items.skip(k), chain).reports);
    }
}

/// A terminal-failure notification after notifications that neither end
/// the observation nor fail to fetch: under either policy the outcome is
/// that rejection, and nothing after it is consumed.
pub proof fn law_rejection_stops(
    policy: Policy,
    m: MatcherView,
    items: Seq<Result<StatusView, TransportView>>,
    chain: Chain,
    k: int,
    rej: RejectionView,
)
    requires
        0 <= k < items.len(),
        forall|i: int| 0 <= i < k ==> quiet(#[trigger] items[i], chain),
        items[k] matches Ok(s) && rejection_of(s) == Some(rej),
    ensures
        run(start(policy, m), items, chain).result == Ok::<OutcomeView, TransportView>(
            OutcomeView::Rejected(rej),
        ),
        run(start(policy, m), items, chain).consumed == k + 1,
{
    let t = start(policy, m);
    lemma_quiet_prefix(t, items, k, chain);
    assert(items.skip(k)[0] == items[k]);
}

/// Both policies resolve the same result after consuming the same number
/// of items, wherever every block named by an `InBlock` notification can be
/// fetched.
pub proof fn law_policies_agree(
    m: MatcherView,
    items: Seq<Result<StatusView, TransportView>>,
    chain: Chain,
)
    requires
        forall|i: int|
            0 <= i < items.len() ==> (#[trigger] items[i] matches Ok(StatusView::InBlock(at))
                ==> chain(at) is Ok),
    ensures
        run(start(Policy::UntilFinalized, m), items, chain).result == run(
            start(Policy::Streaming, m),
            items,
            chain,
        ).result,
        run(start(Policy::UntilFinalized, m), items, chain).consumed == run(
            start(Policy::Streaming, m),
            items,
            chain,
        ).consumed,
    decreases items.len(),
{
    if items.len() > 0 && quiet(items[0], chain) {
        let rest = items.drop_first();
        assert forall|i: int|
            0 <= i < rest.len() implies (#[trigger] rest[i] matches Ok(StatusView::InBlock(at))
                ==> chain(at) is Ok) by {
            assert(rest[i] == items[i + 1]);
        }
        lemma_quiet_round(start(Policy::UntilFinalized, m), items[0], chain);
        lemma_quiet_round(start(Policy::Streaming, m), items[0], chain);
        law_policies_agree(m, rest, chain);
    }
}

/// Under the streaming policy every consumed notification gets its own
/// report, in order, each `InBlock` and `Finalized` one naming its block;
/// only a transport error leaves the last one unreported.
pub proof fn law_streaming_reports_every_notification(
    m: MatcherView,
    items: Seq<Result<StatusView, TransportView>>,
    chain: Chain,
)
    ensures
        run(start(Policy::Streaming, m), items, chain).reports.len() <= run(
            start(Policy::Streaming, m),
            items,
            chain,
        ).consumed <= items.len(),
        forall|i: int|
            0 <= i < run(start(Policy::Streaming, m), items, chain).reports.len() ==> reports_item(
                items[i],
                #[trigger] run(start(Policy::Streaming, m), items, chain).reports[i],
            ),
        run(start(Policy::Streaming, m), items, chain).result is Ok ==> run(
            start(Policy::Streaming, m),
            items,
            chain,
        ).reports.len() == run(start(Policy::Streaming, m), items, chain).consumed,
    decreases items.len(),
{
    let t = start(Policy::Streaming, m);
    if items.len() > 0 {
        let rest = items.drop_first();
        law_streaming_reports_every_notification(m, rest, chain);
        let (t1, s) = round(t, Some(items[0]), chain);
        if !(s.command is Resolve) {
            lemma_quiet_round(t, items[0], chain);
            let all = run(t, items, chain).reports;
            let later = run(t, rest, chain).reports;
            assert forall|i: int| 0 <= i < all.len() implies reports_item(
                items[i],
                #[trigger] all[i],
            ) by {
                if i > 0 {
                    assert(all[i] == later[i - 1]);
                    assert(items[i] == rest[i - 1]);
                }
            }
        }
    }
}

/// Looking up an event twice in the same events gives the same answer.
pub proof fn law_lookup_deterministic(
    evs: Seq<EventView>,
    m: MatcherView,
    r1: Option<usize>,
    r2: Option<usize>,
)
    requires
        lookup_result(evs, m, r1),
        lookup_result(evs, m, r2),
    ensures
        r1 == r2,
{
    if r1 is Some && r2 is Some {
        lemma_first_match_unique(evs, m, r1->0 as int, r2->0 as int);
    }
}

} // verus!
