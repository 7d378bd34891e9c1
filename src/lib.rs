//! Observation of a submitted transaction's lifecycle: a state machine that
//! consumes status notifications, looks up chain events of the including
//! block, and resolves exactly one outcome.
pub mod events;
pub mod status;
pub mod tracker;
pub mod laws;
pub mod observe;
