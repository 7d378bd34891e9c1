//! The transaction lifecycle tracker: from the current phase and the next
//! input, the next phase and what the caller is to do.
use vstd::prelude::*;

use crate::events::{
    ChainEvent, EventMatcher, EventView, InclusionDetails, InclusionRef, MatcherView,
    contains_dispatch_failure, events_view, find_first, first_match, has_dispatch_failure,
    has_match,
};
use crate::status::{
    Failure, Outcome, OutcomeView, Rejection, StatusView, TransportError, TransportView,
    TxStatus, rejection_of,
};

verus! {

/// How much of the progression the caller wants to see.
#[derive(Clone, Copy, Debug)]
pub enum Policy {
    /// Wait for a finalized block and report only the outcome.
    UntilFinalized,
    /// Report every notification, and look up the success event in every
    /// block that includes the extrinsic.
    Streaming,
}

/// Where the tracker stands.
#[derive(Clone, Copy, Debug)]
pub enum Phase {
    /// Waiting for the next notification.
    Awaiting,
    /// Waiting for the events of the block that the last notification named.
    Fetching { at: InclusionRef, finalized: bool },
    /// The outcome is resolved; nothing more is consumed.
    Finished,
}

/// What the caller is told about one notification.
#[derive(Debug)]
pub enum Report {
    /// A notification that names no block, as received.
    Status(TxStatus),
    /// A block that includes the extrinsic, and the success event found in
    /// it, if any.
    Block { at: InclusionRef, finalized: bool, found: Option<ChainEvent> },
}

/// What the caller is to do next.
#[derive(Debug)]
pub enum Command {
    /// Read the next notification and pass it to `on_notification`.
    AwaitNext,
    /// Fetch the events of the extrinsic in this block and pass them to
    /// `on_inclusion`.
    Fetch(InclusionRef),
    /// Observation is over, with this result.
    Resolve(Result<Outcome, TransportError>),
}

/// The tracker's answer to one input.
#[derive(Debug)]
pub struct Step {
    pub report: Option<Report>,
    pub command: Command,
}

/// Tracks one submission to its outcome.
#[derive(Debug)]
pub struct Tracker {
    pub policy: Policy,
    pub success: EventMatcher,
    pub phase: Phase,
}

pub enum ReportView {
    Status(StatusView),
    Block { at: InclusionRef, finalized: bool, found: Option<EventView> },
}

pub enum CommandView {
    AwaitNext,
    Fetch(InclusionRef),
    Resolve(Result<OutcomeView, TransportView>),
}

pub struct StepView {
    pub report: Option<ReportView>,
    pub command: CommandView,
}

pub struct TrackerView {
    pub policy: Policy,
    pub success: MatcherView,
    pub phase: Phase,
}

impl View for Report {
    type V = ReportView;

    open spec fn view(&self) -> ReportView {
        match self {
            Report::Status(s) => ReportView::Status(s@),
            Report::Block { at, finalized, found } => ReportView::Block {
                at: *at,
                finalized: *finalized,
                found: match found {
                    Some(e) => Some(e@),
                    None => None,
                },
            },
        }
    }
}

pub open spec fn result_view(r: Result<Outcome, TransportError>) -> Result<OutcomeView, TransportView> {
    match r {
        Ok(o) => Ok(o@),
        Err(e) => Err(e@),
    }
}

impl View for Command {
    type V = CommandView;

    open spec fn view(&self) -> CommandView {
        match self {
            Command::AwaitNext => CommandView::AwaitNext,
            Command::Fetch(at) => CommandView::Fetch(*at),
            Command::Resolve(r) => CommandView::Resolve(result_view(*r)),
        }
    }
}

impl View for Step {
    type V = StepView;

    open spec fn view(&self) -> StepView {
        StepView {
            report: match self.report {
                Some(r) => Some(r@),
                None => None,
            },
            command: self.command@,
        }
    }
}

impl View for Tracker {
    type V = TrackerView;

    open spec fn view(&self) -> TrackerView {
        TrackerView { policy: self.policy, success: self.success@, phase: self.phase }
    }
}

/// A notification as the stream yields it: `None` where the stream closed.
pub open spec fn next_view(next: Option<Result<TxStatus, TransportError>>) -> Option<
    Result<StatusView, TransportView>,
> {
    match next {
        Some(Ok(s)) => Some(Ok(s@)),
        Some(Err(e)) => Some(Err(e@)),
        None => None,
    }
}

/// What a fetch of a block's events returned.
pub open spec fn fetched_view(f: Result<Vec<ChainEvent>, TransportError>) -> Result<
    Seq<EventView>,
    TransportView,
> {
    match f {
        Ok(v) => Ok(events_view(v@)),
        Err(e) => Err(e@),
    }
}

/// A report, where the policy reports anything.
pub open spec fn report_under(p: Policy, r: ReportView) -> Option<ReportView> {
    match p {
        Policy::Streaming => Some(r),
        Policy::UntilFinalized => None,
    }
}

pub open spec fn tracker_in(t: TrackerView, phase: Phase) -> TrackerView {
    TrackerView { phase, ..t }
}

/// The outcome of an extrinsic whose block is finalized with events `evs`:
/// success where the success event is present and no dispatch failure was
/// recorded, a dispatch failure otherwise.
pub open spec fn finalized_outcome(at: InclusionRef, evs: Seq<EventView>, m: MatcherView) -> OutcomeView {
    if contains_dispatch_failure(evs) || !has_match(evs, m) {
        OutcomeView::Dispatch { at, events: evs }
    } else {
        OutcomeView::Success { at, events: evs, event: evs[first_match(evs, m)->0] }
    }
}

/// The success event found among `evs`, if any.
pub open spec fn found_event(evs: Seq<EventView>, m: MatcherView) -> Option<EventView> {
    match first_match(evs, m) {
        Some(i) => Some(evs[i]),
        None => None,
    }
}

/// The tracker's answer, while awaiting, to the stream's next item.
pub open spec fn on_notification_spec(
    t: TrackerView,
    next: Option<Result<StatusView, TransportView>>,
) -> (TrackerView, StepView) {
    match next {
        None => (
            tracker_in(t, Phase::Finished),
            StepView {
                report: None,
                command: CommandView::Resolve(Err(TransportView::StreamEnded)),
            },
        ),
        Some(Err(e)) => (
            tracker_in(t, Phase::Finished),
            StepView { report: None, command: CommandView::Resolve(Err(e)) },
        ),
        Some(Ok(s)) => match s {
            StatusView::InBlock(at) => match t.policy {
                Policy::Streaming => (
                    tracker_in(t, Phase::Fetching { at, finalized: false }),
                    StepView { report: None, command: CommandView::Fetch(at) },
                ),
                Policy::UntilFinalized => (
                    t,
                    StepView { report: None, command: CommandView::AwaitNext },
                ),
            },
            StatusView::Finalized(at) => (
                tracker_in(t, Phase::Fetching { at, finalized: true }),
                StepView { report: None, command: CommandView::Fetch(at) },
            ),
            _ => match rejection_of(s) {
                Some(rej) => (
                    tracker_in(t, Phase::Finished),
                    StepView {
                        report: report_under(t.policy, ReportView::Status(s)),
                        command: CommandView::Resolve(Ok(OutcomeView::Rejected(rej))),
                    },
                ),
                None => (
                    t,
                    StepView {
                        report: report_under(t.policy, ReportView::Status(s)),
                        command: CommandView::AwaitNext,
                    },
                ),
            },
        },
    }
}

/// The tracker's answer, while fetching the events of block `at`, to what
/// the fetch returned.
pub open spec fn on_inclusion_spec(
    t: TrackerView,
    at: InclusionRef,
    finalized: bool,
    fetched: Result<Seq<EventView>, TransportView>,
) -> (TrackerView, StepView) {
    match fetched {
        Err(e) => (
            tracker_in(t, Phase::Finished),
            StepView { report: None, command: CommandView::Resolve(Err(e)) },
        ),
        Ok(evs) => {
            let report = report_under(
                t.policy,
                ReportView::Block { at, finalized, found: found_event(evs, t.success) },
            );
            if finalized {
                (
                    tracker_in(t, Phase::Finished),
                    StepView {
                        report,
                        command: CommandView::Resolve(Ok(finalized_outcome(at, evs, t.success))),
                    },
                )
            } else {
                (tracker_in(t, Phase::Awaiting), StepView { report, command: CommandView::AwaitNext })
            }
        },
    }
}

/// Where a block's events come from in a run: what the fetch for each
/// block returns.
pub type Chain = spec_fn(InclusionRef) -> Result<Seq<EventView>, TransportView>;

/// One round: the answer to the stream's next item and, where that answer
/// asks for a block's events, the answer to what the fetch returned.
pub open spec fn round(
    t: TrackerView,
    next: Option<Result<StatusView, TransportView>>,
    chain: Chain,
) -> (TrackerView, StepView) {
    let (t1, s1) = on_notification_spec(t, next);
    match t1.phase {
        Phase::Fetching { at, finalized } => on_inclusion_spec(t1, at, finalized, chain(at)),
        _ => (t1, s1),
    }
}

/// What a whole observation produced: the reports in order, the result,
/// and how many items of the stream were consumed.
pub struct RunView {
    pub reports: Seq<ReportView>,
    pub result: Result<OutcomeView, TransportView>,
    pub consumed: nat,
}

pub open spec fn report_seq(r: Option<ReportView>) -> Seq<ReportView> {
    match r {
        Some(x) => seq![x],
        None => seq![],
    }
}

/// Drives a tracker over a stream that yields `items` and then closes,
/// round by round, until it resolves.
pub open spec fn run(t: TrackerView, items: Seq<Result<StatusView, TransportView>>, chain: Chain) -> RunView
    decreases items.len(),
{
    if items.len() == 0 {
        let (_, s) = round(t, None, chain);
        RunView {
            reports: report_seq(s.report),
            result: match s.command {
                CommandView::Resolve(res) => res,
                _ => Err(TransportView::StreamEnded),
            },
            consumed: 0,
        }
    } else {
        let (t1, s) = round(t, Some(items[0]), chain);
        match s.command {
            CommandView::Resolve(res) => RunView { reports: report_seq(s.report), result: res, consumed: 1 },
            _ => {
                let rest = run(t1, items.drop_first(), chain);
                RunView {
                    reports: report_seq(s.report) + rest.reports,
                    result: rest.result,
                    consumed: rest.consumed + 1,
                }
            },
        }
    }
}

/// A tracker that has consumed nothing yet.
pub open spec fn start(policy: Policy, success: MatcherView) -> TrackerView {
    TrackerView { policy, success, phase: Phase::Awaiting }
}

impl Tracker {
    /// A tracker for one submission, awaiting its first notification.
    pub fn new(policy: Policy, success: EventMatcher) -> (r: Tracker)
        ensures
            r@ == (TrackerView { policy, success: success@, phase: Phase::Awaiting }),
    {
        Tracker { policy, success, phase: Phase::Awaiting }
    }

    fn report(&self, s: TxStatus) -> (r: Option<Report>)
        ensures
            (match r {
                Some(x) => Some(x@),
                None => None,
            }) == report_under(self.policy, ReportView::Status(s@)),
    {
        match self.policy {
            Policy::Streaming => Some(Report::Status(s)),
            Policy::UntilFinalized => None,
        }
    }

    /// Handles the stream's next item: a notification, an error, or `None`
    /// where the stream closed.
    pub fn on_notification(&mut self, next: Option<Result<TxStatus, TransportError>>) -> (r: Step)
        requires
            old(self).phase is Awaiting,
        ensures
            (final(self)@, r@) == on_notification_spec(old(self)@, next_view(next)),
    {
        match next {
            None => {
                self.phase = Phase::Finished;
                Step { report: None, command: Command::Resolve(Err(TransportError::StreamEnded)) }
            },
            Some(Err(e)) => {
                self.phase = Phase::Finished;
                Step { report: None, command: Command::Resolve(Err(e)) }
            },
            Some(Ok(s)) => match s {
                TxStatus::InBlock(at) => match self.policy {
                    Policy::Streaming => {
                        self.phase = Phase::Fetching { at, finalized: false };
                        Step { report: None, command: Command::Fetch(at) }
                    },
                    Policy::UntilFinalized => Step { report: None, command: Command::AwaitNext },
                },
                TxStatus::Finalized(at) => {
                    self.phase = Phase::Fetching { at, finalized: true };
                    Step { report: None, command: Command::Fetch(at) }
                },
                TxStatus::Invalid => self.reject(TxStatus::Invalid, Rejection::Invalid),
                TxStatus::Dropped => self.reject(TxStatus::Dropped, Rejection::Dropped),
                TxStatus::Usurped => self.reject(TxStatus::Usurped, Rejection::Usurped),
                TxStatus::Error(d) => {
                    let detail = d.clone();
                    self.reject(TxStatus::Error(d), Rejection::Error(detail))
                },
                other => {
                    let report = self.report(other);
                    Step { report, command: Command::AwaitNext }
                },
            },
        }
    }

    fn reject(&mut self, s: TxStatus, rej: Rejection) -> (r: Step)
        ensures
            final(self)@ == tracker_in(old(self)@, Phase::Finished),
            r@ == (StepView {
                report: report_under(old(self).policy, ReportView::Status(s@)),
                command: CommandView::Resolve(Ok(OutcomeView::Rejected(rej@))),
            }),
    {
        let report = self.report(s);
        self.phase = Phase::Finished;
        Step { report, command: Command::Resolve(Ok(Outcome::Failure(Failure::Rejected(rej)))) }
    }

    /// Handles what the fetch of the named block's events returned.
    pub fn on_inclusion(&mut self, fetched: Result<Vec<ChainEvent>, TransportError>) -> (r: Step)
        requires
            old(self).phase matches Phase::Fetching { .. },
        ensures
            old(self).phase matches Phase::Fetching { at, finalized } && (final(self)@, r@)
                == on_inclusion_spec(old(self)@, at, finalized, fetched_view(fetched)),
    {
        let (at, finalized) = match self.phase {
            Phase::Fetching { at, finalized } => (at, finalized),
            _ => {
                proof {
                    assert(false);
                }
                return Step { report: None, command: Command::AwaitNext };
            },
        };
        match fetched {
            Err(e) => {
                self.phase = Phase::Finished;
                Step { report: None, command: Command::Resolve(Err(e)) }
            },
            Ok(events) => {
                let idx = find_first(&events, &self.success);
                let report = match self.policy {
                    Policy::Streaming => {
                        let found = match idx {
                            Some(i) => Some(events[i].duplicate()),
                            None => None,
                        };
                        Some(Report::Block { at, finalized, found })
                    },
                    Policy::UntilFinalized => None,
                };
                if finalized {
                    self.phase = Phase::Finished;
                    let failed = has_dispatch_failure(&events);
                    let outcome = match idx {
                        Some(i) if !failed => {
                            let event = events[i].duplicate();
                            Outcome::Success { details: InclusionDetails { at, events }, event }
                        },
                        _ => Outcome::Failure(Failure::Dispatch(InclusionDetails { at, events })),
                    };
                    Step { report, command: Command::Resolve(Ok(outcome)) }
                } else {
                    self.phase = Phase::Awaiting;
                    Step { report, command: Command::AwaitNext }
                }
            },
        }
    }
}

} // verus!
