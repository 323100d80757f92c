//! The payout orchestration state machine.
//!
//! A payout needs several connector round trips before money moves:
//! recipient creation, quoting, transfer creation, fulfillment. Each step is
//! one-shot and strictly ordered; a failed step fails the flow, and a
//! terminal flow accepts no further transition. Whether the connector can
//! serve the payout type at all is checked here, statically, before any
//! request is constructed.

use vstd::prelude::*;
use crate::errors::{ConnectorError, ErrorClass, spec_class_of};
use crate::types::PayoutType;

verus! {

/// Where a payout flow stands between its connector calls.
#[derive(Clone, Copy, Debug, PartialEq, Eq, Structural)]
pub enum PayoutFlowState {
    RecipientPending,
    RecipientCreated,
    QuotePending,
    QuoteCreated,
    TransferPending,
    TransferCreated,
    FulfillmentPending,
    Fulfilled,
    Failed,
}

/// How one connector call ended, as the orchestrator reports it back.
#[derive(Clone, Copy, Debug, PartialEq, Eq, Structural)]
pub enum StepOutcome {
    Succeeded,
    Errored,
}

/// A caller's logic error against the flow's ordering rules.
#[derive(Clone, Copy, Debug, PartialEq, Eq, Structural)]
pub enum FlowError {
    TerminalState,
}

/// A flow state from which no further transition is permitted.
pub open spec fn spec_flow_terminal(s: PayoutFlowState) -> bool {
    s is Fulfilled || s is Failed
}

/// The successor of a non-terminal state along the mandatory step order.
pub open spec fn spec_next_state(s: PayoutFlowState) -> PayoutFlowState
    recommends
        !spec_flow_terminal(s),
{
    match s {
        PayoutFlowState::RecipientPending => PayoutFlowState::RecipientCreated,
        PayoutFlowState::RecipientCreated => PayoutFlowState::QuotePending,
        PayoutFlowState::QuotePending => PayoutFlowState::QuoteCreated,
        PayoutFlowState::QuoteCreated => PayoutFlowState::TransferPending,
        PayoutFlowState::TransferPending => PayoutFlowState::TransferCreated,
        PayoutFlowState::TransferCreated => PayoutFlowState::FulfillmentPending,
        PayoutFlowState::FulfillmentPending => PayoutFlowState::Fulfilled,
        PayoutFlowState::Fulfilled => PayoutFlowState::Fulfilled,
        PayoutFlowState::Failed => PayoutFlowState::Failed,
    }
}

/// What one transition yields: a terminal state rejects the attempt loudly;
/// otherwise a successful step advances along the chain and an errored step
/// fails the flow.
pub open spec fn spec_advance(s: PayoutFlowState, outcome: StepOutcome) -> Result<
    PayoutFlowState,
    FlowError,
> {
    if spec_flow_terminal(s) {
        Err(FlowError::TerminalState)
    } else if outcome is Succeeded {
        Ok(spec_next_state(s))
    } else {
        Ok(PayoutFlowState::Failed)
    }
}

impl PayoutFlowState {
    /// Whether this flow state is terminal.
    pub fn is_terminal(&self) -> (r: bool)
        ensures
            r == spec_flow_terminal(*self),
    {
        matches!(self, PayoutFlowState::Fulfilled | PayoutFlowState::Failed)
    }

    /// Apply one step's outcome to the flow.
    pub fn advance(self, outcome: StepOutcome) -> (r: Result<PayoutFlowState, FlowError>)
        ensures
            r == spec_advance(self, outcome),
    {
        if self.is_terminal() {
            return Err(FlowError::TerminalState);
        }
        match outcome {
            StepOutcome::Errored => Ok(PayoutFlowState::Failed),
            StepOutcome::Succeeded => Ok(
                match self {
                    PayoutFlowState::RecipientPending => PayoutFlowState::RecipientCreated,
                    PayoutFlowState::RecipientCreated => PayoutFlowState::QuotePending,
                    PayoutFlowState::QuotePending => PayoutFlowState::QuoteCreated,
                    PayoutFlowState::QuoteCreated => PayoutFlowState::TransferPending,
                    PayoutFlowState::TransferPending => PayoutFlowState::TransferCreated,
                    PayoutFlowState::TransferCreated => PayoutFlowState::FulfillmentPending,
                    PayoutFlowState::FulfillmentPending => PayoutFlowState::Fulfilled,
                    PayoutFlowState::Fulfilled => PayoutFlowState::Fulfilled,
                    PayoutFlowState::Failed => PayoutFlowState::Failed,
                },
            ),
        }
    }
}

/// Law: a terminal flow state accepts no transition; attempting one fails
/// loudly rather than silently keeping or changing the state.
pub proof fn lemma_flow_terminal_rejects(s: PayoutFlowState, outcome: StepOutcome)
    requires
        spec_flow_terminal(s),
    ensures
        spec_advance(s, outcome) == Err::<PayoutFlowState, FlowError>(FlowError::TerminalState),
{
}

/// Law: from any non-terminal state, a successful step advances exactly one
/// step along the mandatory order and an errored step fails the flow; in
/// particular `Failed` is reachable from every non-terminal state.
pub proof fn lemma_flow_advance_shape(s: PayoutFlowState, outcome: StepOutcome)
    requires
        !spec_flow_terminal(s),
    ensures
        outcome is Succeeded ==> spec_advance(s, outcome) == Ok::<PayoutFlowState, FlowError>(
            spec_next_state(s),
        ),
        outcome is Errored ==> spec_advance(s, outcome) == Ok::<PayoutFlowState, FlowError>(
            PayoutFlowState::Failed,
        ),
{
}

/// What payout types one connector can serve at all; read-only after
/// initialization.
#[derive(Clone, Copy, Debug, PartialEq, Eq, Structural)]
pub struct ConnectorCapabilities {
    pub bank_payouts: bool,
    pub card_payouts: bool,
}

/// Whether a connector serves a payout type.
pub open spec fn spec_supports(caps: ConnectorCapabilities, t: PayoutType) -> bool {
    match t {
        PayoutType::Bank => caps.bank_payouts,
        PayoutType::Card => caps.card_payouts,
    }
}

impl ConnectorCapabilities {
    /// Whether this connector serves the payout type.
    pub fn supports(&self, t: PayoutType) -> (r: bool)
        ensures
            r == spec_supports(*self, t),
    {
        match t {
            PayoutType::Bank => self.bank_payouts,
            PayoutType::Card => self.card_payouts,
        }
    }
}

/// Wise moves bank transfers only.
pub fn wise_capabilities() -> (c: ConnectorCapabilities)
    ensures
        c.bank_payouts,
        !c.card_payouts,
{
    ConnectorCapabilities { bank_payouts: true, card_payouts: false }
}

/// Enter the payout flow: the static capability check runs here, before any
/// request is constructed or any network call is made. An unserved payout
/// type is an unsupported-capability failure naming the connector.
pub fn begin_flow(payout_type: PayoutType, caps: &ConnectorCapabilities, connector: &str) -> (r:
    Result<PayoutFlowState, ConnectorError>)
    ensures
        spec_supports(*caps, payout_type) ==> r == Ok::<PayoutFlowState, ConnectorError>(
            PayoutFlowState::RecipientPending,
        ),
        !spec_supports(*caps, payout_type) ==> (r matches Err(e) && {
            &&& spec_class_of(e) == ErrorClass::UnsupportedCapabilityError
            &&& e matches ConnectorError::NotSupported { message, connector: c, .. }
                && message@ == "payout type is not supported"@ && c@ == connector@
        }),
{
    if caps.supports(payout_type) {
        Ok(PayoutFlowState::RecipientPending)
    } else {
        Err(
            ConnectorError::NotSupported {
                message: String::from_str("payout type is not supported"),
                connector: connector.to_owned(),
                payment_experience: String::from_str(""),
            },
        )
    }
}

} // verus!
