use tx_lifecycle::events::{
    find_first, has_dispatch_failure, ChainEvent, EventMatcher, InclusionDetails, InclusionRef,
};
use tx_lifecycle::observe::{fetch_block, observe_stream};
use tx_lifecycle::status::{Failure, Outcome, Rejection, TransportError, TxStatus};
use tx_lifecycle::tracker::{Command, Phase, Policy, Report, Tracker};

fn block(n: u8) -> InclusionRef {
    InclusionRef { block_hash: [n; 32], extrinsic_hash: [100 + n; 32] }
}

fn event(pallet: &str, variant: &str, fields: &[u8]) -> ChainEvent {
    ChainEvent { pallet: pallet.to_string(), variant: variant.to_string(), fields: fields.to_vec() }
}

fn transfer() -> ChainEvent {
    // from, to, amount 10000 as little-endian u128
    let mut fields = vec![1u8, 2u8];
    fields.extend_from_slice(&10_000u128.to_le_bytes());
    event("Balances", "Transfer", &fields)
}

fn transfer_matcher() -> EventMatcher {
    EventMatcher::new("Balances", "Transfer")
}

fn copy_events(evs: &[ChainEvent]) -> Vec<ChainEvent> {
    evs.iter().map(|e| e.duplicate()).collect()
}

struct Run {
    reports: Vec<Report>,
    result: Result<Outcome, TransportError>,
    consumed: usize,
    fetched: Vec<InclusionRef>,
}

/// Feeds `items` to a tracker, then closes the stream; fetches come from
/// `chain`, and a block missing there fails to fetch.
fn drive(
    policy: Policy,
    items: Vec<Result<TxStatus, TransportError>>,
    chain: &[(InclusionRef, Vec<ChainEvent>)],
) -> Run {
    let mut tracker = Tracker::new(policy, transfer_matcher());
    let mut items = items.into_iter();
    let mut reports = Vec::new();
    let mut consumed = 0;
    let mut fetched = Vec::new();
    let mut step = {
        let next = items.next();
        if next.is_some() {
            consumed += 1;
        }
        tracker.on_notification(next)
    };
    loop {
        if let Some(r) = step.report.take() {
            reports.push(r);
        }
        match step.command {
            Command::Resolve(result) => {
                assert!(matches!(tracker.phase, Phase::Finished));
                return Run { reports, result, consumed, fetched };
            }
            Command::AwaitNext => {
                let next = items.next();
                if next.is_some() {
                    consumed += 1;
                }
                step = tracker.on_notification(next);
            }
            Command::Fetch(at) => {
                fetched.push(at);
                let found = chain.iter().find(|(b, _)| b.block_hash == at.block_hash);
                let answer = match found {
                    Some((_, evs)) => Ok(copy_events(evs)),
                    None => Err(TransportError::Failed("no such block".to_string())),
                };
                step = tracker.on_inclusion(answer);
            }
        }
    }
}

fn is_block_report(r: &Report, at: InclusionRef, fin: bool) -> bool {
    matches!(r, Report::Block { at: a, finalized, .. } if a.block_hash == at.block_hash && *finalized == fin)
}

fn found_of(r: &Report) -> Option<&ChainEvent> {
    match r {
        Report::Block { found, .. } => found.as_ref(),
        Report::Status(_) => None,
    }
}

fn same_event(a: &ChainEvent, b: &ChainEvent) -> bool {
    a.pallet == b.pallet && a.variant == b.variant && a.fields == b.fields
}

#[test]
fn transport_error_after_in_block_is_propagated() {
    let a = block(1);
    let chain = vec![(a, vec![transfer()])];
    for policy in [Policy::UntilFinalized, Policy::Streaming] {
        let items = vec![
            Ok(TxStatus::Broadcast),
            Ok(TxStatus::InBlock(a)),
            Err(TransportError::Failed("connection reset".to_string())),
        ];
        let run = drive(policy, items, &chain);
        match run.result {
            Err(TransportError::Failed(msg)) => assert_eq!(msg, "connection reset"),
            other => panic!("expected a transport error, got {:?}", other),
        }
        assert_eq!(run.consumed, 3);
    }
}

#[test]
fn finalized_transfer_succeeds_with_event_attached() {
    let a = block(1);
    let chain = vec![(a, vec![transfer()])];
    for policy in [Policy::UntilFinalized, Policy::Streaming] {
        let items = vec![Ok(TxStatus::InBlock(a)), Ok(TxStatus::Finalized(a))];
        let run = drive(policy, items, &chain);
        match run.result {
            Ok(Outcome::Success { details, event }) => {
                assert!(same_event(&event, &transfer()));
                assert_eq!(details.at.block_hash, a.block_hash);
                assert_eq!(details.events.len(), 1);
            }
            other => panic!("expected success, got {:?}", other),
        }
        assert_eq!(run.consumed, 2);
    }
}

#[test]
fn streaming_last_report_is_found_on_success() {
    let a = block(1);
    let chain = vec![(a, vec![event("System", "NewAccount", &[]), transfer()])];
    let items = vec![Ok(TxStatus::Validated), Ok(TxStatus::InBlock(a)), Ok(TxStatus::Finalized(a))];
    let run = drive(Policy::Streaming, items, &chain);
    assert!(matches!(run.result, Ok(Outcome::Success { .. })));
    let last = run.reports.last().unwrap();
    assert!(is_block_report(last, a, true));
    assert!(same_event(found_of(last).unwrap(), &transfer()));
}

#[test]
fn missing_success_event_is_dispatch_failure() {
    let a = block(2);
    let evs = vec![event("System", "ExtrinsicFailed", &[9])];
    let chain = vec![(a, evs)];
    for policy in [Policy::UntilFinalized, Policy::Streaming] {
        let items = vec![Ok(TxStatus::Broadcast), Ok(TxStatus::InBlock(a)), Ok(TxStatus::Finalized(a))];
        let run = drive(policy, items, &chain);
        match run.result {
            Ok(Outcome::Failure(Failure::Dispatch(details))) => {
                assert_eq!(details.at.block_hash, a.block_hash);
                assert_eq!(details.events.len(), 1);
            }
            other => panic!("expected a dispatch failure, got {:?}", other),
        }
        if let Policy::Streaming = policy {
            assert_eq!(run.reports.len(), 3);
            assert!(is_block_report(&run.reports[1], a, false));
            assert!(found_of(&run.reports[1]).is_none());
            assert!(is_block_report(&run.reports[2], a, true));
            assert!(found_of(&run.reports[2]).is_none());
        } else {
            assert!(run.reports.is_empty());
        }
    }
}

#[test]
fn in_block_without_event_is_not_terminal() {
    let a = block(3);
    let b = block(4);
    let chain = vec![(a, vec![]), (b, vec![transfer()])];
    let items = vec![Ok(TxStatus::InBlock(a)), Ok(TxStatus::Finalized(b))];
    let run = drive(Policy::Streaming, items, &chain);
    assert!(matches!(run.result, Ok(Outcome::Success { .. })));
    assert!(found_of(&run.reports[0]).is_none());
    assert!(found_of(&run.reports[1]).is_some());
}

#[test]
fn dispatch_failure_event_beats_success_event() {
    let a = block(5);
    let chain = vec![(a, vec![transfer(), event("System", "ExtrinsicFailed", &[])])];
    for policy in [Policy::UntilFinalized, Policy::Streaming] {
        let run = drive(policy, vec![Ok(TxStatus::Finalized(a))], &chain);
        assert!(matches!(run.result, Ok(Outcome::Failure(Failure::Dispatch(_)))));
    }
}

#[test]
fn rejection_stops_consumption() {
    let a = block(6);
    let chain = vec![(a, vec![transfer()])];
    let cases = vec![
        (TxStatus::Invalid, "invalid"),
        (TxStatus::Dropped, "dropped"),
        (TxStatus::Usurped, "usurped"),
    ];
    for (status, name) in cases {
        for policy in [Policy::UntilFinalized, Policy::Streaming] {
            let terminal = match &status {
                TxStatus::Invalid => TxStatus::Invalid,
                TxStatus::Dropped => TxStatus::Dropped,
                _ => TxStatus::Usurped,
            };
            let items = vec![
                Ok(TxStatus::Validated),
                Ok(TxStatus::InBlock(a)),
                Ok(terminal),
                Ok(TxStatus::Finalized(a)),
            ];
            let run = drive(policy, items, &chain);
            let got = match run.result {
                Ok(Outcome::Failure(Failure::Rejected(Rejection::Invalid))) => "invalid",
                Ok(Outcome::Failure(Failure::Rejected(Rejection::Dropped))) => "dropped",
                Ok(Outcome::Failure(Failure::Rejected(Rejection::Usurped))) => "usurped",
                _ => "other",
            };
            assert_eq!(got, name);
            assert_eq!(run.consumed, 3);
        }
    }
}

#[test]
fn error_status_carries_its_detail() {
    for policy in [Policy::UntilFinalized, Policy::Streaming] {
        let run = drive(policy, vec![Ok(TxStatus::Error("pool full".to_string()))], &[]);
        match run.result {
            Ok(Outcome::Failure(Failure::Rejected(Rejection::Error(d)))) => assert_eq!(d, "pool full"),
            other => panic!("expected a rejection, got {:?}", other),
        }
    }
}

#[test]
fn every_in_block_is_reported() {
    let b1 = block(7);
    let b2 = block(8);
    let chain = vec![(b1, vec![transfer()]), (b2, vec![transfer()])];
    let items = vec![
        Ok(TxStatus::Validated),
        Ok(TxStatus::Broadcast),
        Ok(TxStatus::InBlock(b1)),
        Ok(TxStatus::InBlock(b2)),
        Ok(TxStatus::Finalized(b2)),
    ];
    let run = drive(Policy::Streaming, items, &chain);
    assert_eq!(run.reports.len(), 5);
    assert!(matches!(run.reports[0], Report::Status(TxStatus::Validated)));
    assert!(matches!(run.reports[1], Report::Status(TxStatus::Broadcast)));
    assert!(is_block_report(&run.reports[2], b1, false));
    assert!(is_block_report(&run.reports[3], b2, false));
    assert!(is_block_report(&run.reports[4], b2, true));
    assert!(matches!(run.result, Ok(Outcome::Success { .. })));
}

#[test]
fn until_finalized_reports_nothing_and_fetches_only_finalized() {
    let b1 = block(7);
    let b2 = block(8);
    let chain = vec![(b2, vec![transfer()])];
    let items = vec![
        Ok(TxStatus::Other("future".to_string())),
        Ok(TxStatus::InBlock(b1)),
        Ok(TxStatus::Finalized(b2)),
    ];
    let run = drive(Policy::UntilFinalized, items, &chain);
    assert!(run.reports.is_empty());
    assert_eq!(run.fetched.len(), 1);
    assert_eq!(run.fetched[0].block_hash, b2.block_hash);
    assert!(matches!(run.result, Ok(Outcome::Success { .. })));
}

#[test]
fn informational_status_is_reported_as_received() {
    let run = drive(Policy::Streaming, vec![Ok(TxStatus::Other("retracted".to_string()))], &[]);
    match &run.reports[0] {
        Report::Status(TxStatus::Other(s)) => assert_eq!(s, "retracted"),
        other => panic!("unexpected report {:?}", other),
    }
    assert!(matches!(run.result, Err(TransportError::StreamEnded)));
}

#[test]
fn stream_closing_early_is_transport_error() {
    for policy in [Policy::UntilFinalized, Policy::Streaming] {
        let run = drive(policy, vec![Ok(TxStatus::Validated)], &[]);
        assert!(matches!(run.result, Err(TransportError::StreamEnded)));
        assert_eq!(run.consumed, 1);
    }
}

#[test]
fn failed_fetch_is_transport_error() {
    let a = block(9);
    for policy in [Policy::UntilFinalized, Policy::Streaming] {
        let run = drive(policy, vec![Ok(TxStatus::Finalized(a))], &[]);
        assert!(matches!(run.result, Err(TransportError::Failed(_))));
    }
}

#[test]
fn lookup_finds_first_match_and_is_repeatable() {
    let evs = vec![
        event("System", "NewAccount", &[]),
        event("Balances", "Transfer", &[1]),
        event("Balances", "Transfer", &[2]),
    ];
    let m = transfer_matcher();
    assert_eq!(find_first(&evs, &m), Some(1));
    assert_eq!(find_first(&evs, &m), find_first(&evs, &m));
    assert_eq!(find_first(&evs, &EventMatcher::new("Balances", "Deposit")), None);
    assert_eq!(find_first(&Vec::new(), &m), None);
    assert_eq!(find_first(&evs, &EventMatcher::new("Balances", "NewAccount")), None);
}

#[test]
fn dispatch_failure_detection() {
    let m = EventMatcher::dispatch_failure();
    assert_eq!(m.pallet, "System");
    assert_eq!(m.variant, "ExtrinsicFailed");
    assert!(has_dispatch_failure(&vec![transfer(), event("System", "ExtrinsicFailed", &[])]));
    assert!(!has_dispatch_failure(&vec![transfer(), event("System", "ExtrinsicSuccess", &[])]));
    assert!(!has_dispatch_failure(&Vec::new()));
}

#[test]
fn terminal_statuses() {
    assert!(TxStatus::Finalized(block(1)).is_terminal());
    assert!(TxStatus::Invalid.is_terminal());
    assert!(TxStatus::Dropped.is_terminal());
    assert!(TxStatus::Usurped.is_terminal());
    assert!(TxStatus::Error(String::new()).is_terminal());
    assert!(!TxStatus::InBlock(block(1)).is_terminal());
    assert!(!TxStatus::Validated.is_terminal());
    assert!(!TxStatus::Broadcast.is_terminal());
    assert!(!TxStatus::Other(String::new()).is_terminal());
}

#[test]
fn duplicate_copies_every_field() {
    let e = transfer();
    let d = e.duplicate();
    assert!(same_event(&e, &d));
}

fn details(at: InclusionRef, evs: Vec<ChainEvent>) -> InclusionDetails {
    InclusionDetails { at, events: evs }
}

#[test]
fn observed_stream_error_after_in_block() {
    let a = block(1);
    for policy in [Policy::UntilFinalized, Policy::Streaming] {
        let blocks = vec![details(a, vec![transfer()])];
        let items = vec![
            Ok(TxStatus::Broadcast),
            Ok(TxStatus::InBlock(a)),
            Err(TransportError::Failed("closed".to_string())),
        ];
        let obs = observe_stream(policy, transfer_matcher(), items, &blocks);
        assert!(matches!(obs.result, Err(TransportError::Failed(ref m)) if m == "closed"));
        assert_eq!(obs.consumed, 3);
        let expected_reports = if let Policy::Streaming = policy { 2 } else { 0 };
        assert_eq!(obs.reports.len(), expected_reports);
    }
}

#[test]
fn observed_stream_transfer_success() {
    let a = block(1);
    for policy in [Policy::UntilFinalized, Policy::Streaming] {
        let blocks = vec![details(a, vec![transfer()])];
        let items = vec![Ok(TxStatus::InBlock(a)), Ok(TxStatus::Finalized(a))];
        let obs = observe_stream(policy, transfer_matcher(), items, &blocks);
        match obs.result {
            Ok(Outcome::Success { details, event }) => {
                assert!(same_event(&event, &transfer()));
                assert_eq!(details.at.block_hash, a.block_hash);
            }
            other => panic!("expected success, got {:?}", other),
        }
        assert_eq!(obs.consumed, 2);
    }
}

#[test]
fn observed_stream_reports_superseded_blocks() {
    let b1 = block(7);
    let b2 = block(8);
    let blocks = vec![details(b1, vec![]), details(b2, vec![transfer()])];
    let items = vec![
        Ok(TxStatus::Validated),
        Ok(TxStatus::Broadcast),
        Ok(TxStatus::InBlock(b1)),
        Ok(TxStatus::InBlock(b2)),
        Ok(TxStatus::Finalized(b2)),
        Ok(TxStatus::Dropped),
    ];
    let obs = observe_stream(Policy::Streaming, transfer_matcher(), items, &blocks);
    assert_eq!(obs.consumed, 5);
    assert_eq!(obs.reports.len(), 5);
    assert!(is_block_report(&obs.reports[2], b1, false));
    assert!(found_of(&obs.reports[2]).is_none());
    assert!(is_block_report(&obs.reports[3], b2, false));
    assert!(found_of(&obs.reports[3]).is_some());
    assert!(is_block_report(&obs.reports[4], b2, true));
    assert!(matches!(obs.result, Ok(Outcome::Success { .. })));
}

#[test]
fn observed_empty_stream_ends_in_transport_error() {
    let obs = observe_stream(Policy::Streaming, transfer_matcher(), Vec::new(), &Vec::new());
    assert!(matches!(obs.result, Err(TransportError::StreamEnded)));
    assert_eq!(obs.consumed, 0);
    assert!(obs.reports.is_empty());
}

#[test]
fn fetch_answers_from_the_matching_block() {
    let blocks = vec![details(block(1), vec![]), details(block(2), vec![transfer(), transfer()])];
    match fetch_block(&blocks, &block(2)) {
        Ok(evs) => assert_eq!(evs.len(), 2),
        Err(e) => panic!("unexpected {:?}", e),
    }
    match fetch_block(&blocks, &block(3)) {
        Err(TransportError::Failed(m)) => assert_eq!(m, "block not found"),
        other => panic!("unexpected {:?}", other),
    }
}
