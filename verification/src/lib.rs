//! Core of a payments-router connector integration: the canonical lifecycle
//! model, the status-reconciliation and error-classification engines, the
//! payout orchestration state machine, and the Wise connector's
//! request/response transformer as one instance of the pattern.

pub mod errors;
pub mod flow;
pub mod numeric;
pub mod status;
pub mod types;
pub mod wise;
