//! Observation of a stream that has already been collected, with the events
//! of each block at hand: the tracker driven round by round to its result.
use vstd::prelude::*;

use crate::events::{
    ChainEvent, EventMatcher, EventView, InclusionDetails, InclusionRef, events_view,
};
use crate::status::{Outcome, StatusView, TransportError, TransportView, TxStatus};
use crate::tracker::{
    Chain, Command, Policy, Report, ReportView, RunView, Tracker, report_seq, result_view, run,
    start,
};

verus! {

/// What an observation produced: the reports in order, the result, and
/// how many stream items were consumed.
#[derive(Debug)]
pub struct Observation {
    pub reports: Vec<Report>,
    pub result: Result<Outcome, TransportError>,
    pub consumed: usize,
}

pub open spec fn item_view(x: Result<TxStatus, TransportError>) -> Result<StatusView, TransportView> {
    match x {
        Ok(s) => Ok(s@),
        Err(e) => Err(e@),
    }
}

pub open spec fn items_view(v: Seq<Result<TxStatus, TransportError>>) -> Seq<
    Result<StatusView, TransportView>,
> {
    v.map_values(|x: Result<TxStatus, TransportError>| item_view(x))
}

pub open spec fn reports_view(v: Seq<Report>) -> Seq<ReportView> {
    v.map_values(|r: Report| r@)
}

/// The events of the first block in `blocks` with the given hash.
pub open spec fn find_block(blocks: Seq<InclusionDetails>, hash: Seq<u8>) -> Option<Seq<EventView>>
    decreases blocks.len(),
{
    if blocks.len() == 0 {
        None
    } else if blocks[0].at.block_hash@ == hash {
        Some(events_view(blocks[0].events@))
    } else {
        find_block(blocks.drop_first(), hash)
    }
}

/// Fetches answered from `blocks`; a block that is not there fails to fetch.
pub open spec fn chain_of(blocks: Seq<InclusionDetails>) -> Chain {
    |at: InclusionRef|
        match find_block(blocks, at.block_hash@) {
            Some(evs) => Ok(evs),
            None => Err(TransportView::Failed("block not found"@)),
        }
}

fn same_hash(a: &[u8; 32], b: &[u8; 32]) -> (r: bool)
    ensures
        r == (a@ == b@),
{
    let mut j: usize = 0;
    while j < 32
        invariant
            j <= 32,
            a@.len() == 32,
            b@.len() == 32,
            forall|k: int| 0 <= k < j ==> a@[k] == b@[k],
        decreases 32 - j,
    {
        if a[j] != b[j] {
            return false;
        }
        j = j + 1;
    }
    assert(a@ =~= b@);
    true
}

fn copy_events(v: &Vec<ChainEvent>) -> (r: Vec<ChainEvent>)
    ensures
        events_view(r@) == events_view(v@),
{
    let mut r: Vec<ChainEvent> = Vec::new();
    let mut i: usize = 0;
    while i < v.len()
        invariant
            i <= v@.len(),
            r@.len() == i,
            forall|k: int| 0 <= k < i ==> r@[k]@ == v@[k]@,
        decreases v@.len() - i,
    {
        r.push(v[i].duplicate());
        i = i + 1;
    }
    assert(events_view(r@) =~= events_view(v@));
    r
}

/// Answers the fetch of the events in block `at` from `blocks`.
pub fn fetch_block(blocks: &Vec<InclusionDetails>, at: &InclusionRef) -> (r: Result<
    Vec<ChainEvent>,
    TransportError,
>)
    ensures
        (match r {
            Ok(v) => Ok(events_view(v@)),
            Err(e) => Err(e@),
        }) == (chain_of(blocks@))(*at),
{
    let mut i: usize = 0;
    assert(blocks@.skip(0) =~= blocks@);
    while i < blocks.len()
        invariant
            i <= blocks@.len(),
            find_block(blocks@, at.block_hash@) == find_block(blocks@.skip(i as int), at.block_hash@),
        decreases blocks@.len() - i,
    {
        assert(blocks@.skip(i as int)[0] == blocks@[i as int]);
        if same_hash(&blocks[i].at.block_hash, &at.block_hash) {
            return Ok(copy_events(&blocks[i].events));
        }
        assert(blocks@.skip(i as int).drop_first() =~= blocks@.skip(i + 1));
        i = i + 1;
    }
    Err(TransportError::Failed("block not found".to_owned()))
}

/// Drives a tracker over a stream that yields `items` and then closes,
/// answering each fetch from `blocks`, until it resolves.
pub fn observe_stream(
    policy: Policy,
    success: EventMatcher,
    items: Vec<Result<TxStatus, TransportError>>,
    blocks: &Vec<InclusionDetails>,
) -> (r: Observation)
    ensures
        reports_view(r.reports@) == run(start(policy, success@), items_view(items@), chain_of(blocks@)).reports,
        result_view(r.result) == run(start(policy, success@), items_view(items@), chain_of(blocks@)).result,
        r.consumed == run(start(policy, success@), items_view(items@), chain_of(blocks@)).consumed,
{
    let ghost all = items_view(items@);
    let ghost chain = chain_of(blocks@);
    let ghost m = success@;
    let ghost t = start(policy, m);
    let mut tracker = Tracker::new(policy, success);
    let n = items.len();
    let mut pending = items;
    let mut reports: Vec<Report> = Vec::new();
    let mut consumed: usize = 0;
    assert(all.skip(0) =~= all);
    assert(reports_view(reports@) + run(t, all, chain).reports =~= run(t, all, chain).reports);
    loop
        invariant
            t == start(policy, m),
            chain == chain_of(blocks@),
            all == items_view(items@),
            m == success@,
            tracker@ == t,
            all.len() == n,
            consumed + pending@.len() == n,
            items_view(pending@) == all.skip(consumed as int),
            run(t, all, chain) == (RunView {
                reports: reports_view(reports@) + run(t, items_view(pending@), chain).reports,
                result: run(t, items_view(pending@), chain).result,
                consumed: (consumed + run(t, items_view(pending@), chain).consumed) as nat,
            }),
        decreases pending@.len(),
    {
        let ghost rest = items_view(pending@);
        let ghost before = reports_view(reports@);
        let next = if pending.len() == 0 {
            None
        } else {
            consumed = consumed + 1;
            Some(pending.remove(0))
        };
        proof {
            if rest.len() > 0 {
                assert(items_view(pending@) =~= rest.drop_first());
                assert(all.skip(consumed as int) =~= rest.drop_first());
            }
        }
        let mut step = tracker.on_notification(next);
        if let Command::Fetch(at) = step.command {
            let fetched = fetch_block(blocks, &at);
            step = tracker.on_inclusion(fetched);
        }
        let ghost s = step@;
        let report = step.report;
        match report {
            Some(x) => {
                reports.push(x);
            },
            None => {},
        }
        assert(reports_view(reports@) =~= before + report_seq(s.report));
        match step.command {
            Command::Resolve(result) => {
                return Observation { reports, result, consumed };
            },
            _ => {},
        }
        assert(before + report_seq(s.report) + run(t, items_view(pending@), chain).reports =~= before
            + (report_seq(s.report) + run(t, items_view(pending@), chain).reports));
    }
}

} // verus!
