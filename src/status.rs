//! Status notifications for one submission, and the ways a submission ends.
use vstd::prelude::*;

use crate::events::{ChainEvent, EventView, InclusionDetails, InclusionRef, events_view};

verus! {

/// A status notification for one submitted extrinsic, in the order the
/// transport delivered it.
#[derive(Debug)]
pub enum TxStatus {
    /// Accepted into the node's pending pool.
    Validated,
    /// Relayed to peers.
    Broadcast,
    /// Included in a block that is not finalized yet.
    InBlock(InclusionRef),
    /// Included in a finalized block.
    Finalized(InclusionRef),
    /// Rejected by the node as invalid.
    Invalid,
    /// Dropped from the pool.
    Dropped,
    /// Replaced by another extrinsic.
    Usurped,
    /// The node reported an error on this submission.
    Error(String),
    /// Any other informational status, described in words.
    Other(String),
}

/// Why the node refused or dropped a submission before inclusion.
#[derive(Debug)]
pub enum Rejection {
    Invalid,
    Dropped,
    Usurped,
    Error(String),
}

/// The notification stream or a fetch of events failed.
#[derive(Debug)]
pub enum TransportError {
    /// The stream closed before a terminal notification.
    StreamEnded,
    /// The stream or a fetch reported an error.
    Failed(String),
}

/// The final answer for a submission.
#[derive(Debug)]
pub enum Outcome {
    /// Finalized, with the success event found among the block's events and
    /// no dispatch failure reported.
    Success { details: InclusionDetails, event: ChainEvent },
    Failure(Failure),
}

/// Why a submission failed.
#[derive(Debug)]
pub enum Failure {
    /// Refused or dropped before inclusion.
    Rejected(Rejection),
    /// Finalized, but the runtime rejected the call: a dispatch-failure
    /// event was recorded or the success event is missing.
    Dispatch(InclusionDetails),
}

pub enum StatusView {
    Validated,
    Broadcast,
    InBlock(InclusionRef),
    Finalized(InclusionRef),
    Invalid,
    Dropped,
    Usurped,
    Error(Seq<char>),
    Other(Seq<char>),
}

pub enum RejectionView {
    Invalid,
    Dropped,
    Usurped,
    Error(Seq<char>),
}

pub enum TransportView {
    StreamEnded,
    Failed(Seq<char>),
}

pub enum OutcomeView {
    Success { at: InclusionRef, events: Seq<EventView>, event: EventView },
    Rejected(RejectionView),
    Dispatch { at: InclusionRef, events: Seq<EventView> },
}

impl View for TxStatus {
    type V = StatusView;

    open spec fn view(&self) -> StatusView {
        match self {
            TxStatus::Validated => StatusView::Validated,
            TxStatus::Broadcast => StatusView::Broadcast,
            TxStatus::InBlock(r) => StatusView::InBlock(*r),
            TxStatus::Finalized(r) => StatusView::Finalized(*r),
            TxStatus::Invalid => StatusView::Invalid,
            TxStatus::Dropped => StatusView::Dropped,
            TxStatus::Usurped => StatusView::Usurped,
            TxStatus::Error(d) => StatusView::Error(d@),
            TxStatus::Other(d) => StatusView::Other(d@),
        }
    }
}

impl View for Rejection {
    type V = RejectionView;

    open spec fn view(&self) -> RejectionView {
        match self {
            Rejection::Invalid => RejectionView::Invalid,
            Rejection::Dropped => RejectionView::Dropped,
            Rejection::Usurped => RejectionView::Usurped,
            Rejection::Error(d) => RejectionView::Error(d@),
        }
    }
}

impl View for TransportError {
    type V = TransportView;

    open spec fn view(&self) -> TransportView {
        match self {
            TransportError::StreamEnded => TransportView::StreamEnded,
            TransportError::Failed(d) => TransportView::Failed(d@),
        }
    }
}

impl View for Outcome {
    type V = OutcomeView;

    open spec fn view(&self) -> OutcomeView {
        match self {
            Outcome::Success { details, event } => OutcomeView::Success {
                at: details.at,
                events: events_view(details.events@),
                event: event@,
            },
            Outcome::Failure(Failure::Rejected(r)) => OutcomeView::Rejected(r@),
            Outcome::Failure(Failure::Dispatch(details)) => OutcomeView::Dispatch {
                at: details.at,
                events: events_view(details.events@),
            },
        }
    }
}

/// The rejection that a terminal-failure status stands for, if it is one.
pub open spec fn rejection_of(s: StatusView) -> Option<RejectionView> {
    match s {
        StatusView::Invalid => Some(RejectionView::Invalid),
        StatusView::Dropped => Some(RejectionView::Dropped),
        StatusView::Usurped => Some(RejectionView::Usurped),
        StatusView::Error(d) => Some(RejectionView::Error(d)),
        _ => None,
    }
}

/// After this status no further notification is awaited.
pub open spec fn is_terminal(s: StatusView) -> bool {
    s is Finalized || rejection_of(s) is Some
}

impl TxStatus {
    /// Whether no further notification is awaited after this one.
    pub fn is_terminal(&self) -> (r: bool)
        ensures
            r == is_terminal(self@),
    {
        match self {
            TxStatus::Finalized(_) | TxStatus::Invalid | TxStatus::Dropped | TxStatus::Usurped
            | TxStatus::Error(_) => true,
            _ => false,
        }
    }
}

} // verus!
