use connector_core::status::{PaymentStatus, PayoutStatus, RefundStatus};
use connector_core::wise::WiseStatus;

#[test]
fn map_completed_to_success() {
    assert_eq!(PayoutStatus::foreign_from(WiseStatus::Completed), PayoutStatus::Success);
}

#[test]
fn map_rejected_to_failed() {
    assert_eq!(PayoutStatus::foreign_from(WiseStatus::Rejected), PayoutStatus::Failed);
}

#[test]
fn map_pending_and_processing_to_pending() {
    assert_eq!(PayoutStatus::foreign_from(WiseStatus::Pending), PayoutStatus::Pending);
    assert_eq!(PayoutStatus::foreign_from(WiseStatus::Processing), PayoutStatus::Pending);
}

#[test]
fn map_incoming_payment_waiting_to_pending() {
    let mapped = PayoutStatus::foreign_from(WiseStatus::IncomingPaymentWaiting);
    assert_eq!(mapped, PayoutStatus::Pending);
    assert_ne!(mapped, PayoutStatus::Success);
    assert_ne!(mapped, PayoutStatus::Failed);
}

#[test]
fn map_is_deterministic() {
    for status in [
        WiseStatus::Completed,
        WiseStatus::Pending,
        WiseStatus::Rejected,
        WiseStatus::Processing,
        WiseStatus::IncomingPaymentWaiting,
    ] {
        assert_eq!(PayoutStatus::foreign_from(status), PayoutStatus::foreign_from(status));
    }
}

#[test]
fn terminal_payout_status_absorbs_later_observations() {
    let success = PayoutStatus::Success;
    assert_eq!(success.reconcile(PayoutStatus::Pending), PayoutStatus::Success);
    assert_eq!(success.reconcile(PayoutStatus::Failed), PayoutStatus::Success);
    let failed = PayoutStatus::Failed;
    assert_eq!(failed.reconcile(PayoutStatus::Pending), PayoutStatus::Failed);
    assert_eq!(failed.reconcile(PayoutStatus::Success), PayoutStatus::Failed);
}

#[test]
fn non_terminal_payout_status_follows_incoming() {
    assert_eq!(PayoutStatus::Pending.reconcile(PayoutStatus::Success), PayoutStatus::Success);
    assert_eq!(
        PayoutStatus::RequiresCreation.reconcile(PayoutStatus::RequiresFulfillment),
        PayoutStatus::RequiresFulfillment
    );
}

#[test]
fn terminal_status_stable_across_observed_history() {
    let history: Vec<PayoutStatus> = [
        WiseStatus::Processing,
        WiseStatus::IncomingPaymentWaiting,
        WiseStatus::Completed,
        WiseStatus::Pending,
        WiseStatus::Rejected,
    ]
    .into_iter()
    .map(PayoutStatus::foreign_from)
    .collect();
    // The terminal Success from the completed report survives the later,
    // stale reports.
    assert_eq!(
        PayoutStatus::Pending.reconcile_history(&history),
        PayoutStatus::Success
    );
    assert_eq!(
        PayoutStatus::RequiresCreation.reconcile_history(&Vec::new()),
        PayoutStatus::RequiresCreation
    );
}

#[test]
fn payout_terminal_states() {
    assert!(PayoutStatus::Success.is_terminal());
    assert!(PayoutStatus::Failed.is_terminal());
    assert!(!PayoutStatus::Pending.is_terminal());
    assert!(!PayoutStatus::RequiresCreation.is_terminal());
    assert!(!PayoutStatus::RequiresFulfillment.is_terminal());
}

#[test]
fn payment_terminal_states_absorb() {
    assert!(PaymentStatus::Charged.is_terminal());
    assert!(PaymentStatus::Voided.is_terminal());
    assert!(PaymentStatus::Failed.is_terminal());
    assert!(!PaymentStatus::Authorized.is_terminal());
    assert_eq!(PaymentStatus::Charged.reconcile(PaymentStatus::Pending), PaymentStatus::Charged);
    assert_eq!(
        PaymentStatus::Authorized.reconcile(PaymentStatus::Charged),
        PaymentStatus::Charged
    );
}

#[test]
fn refund_terminal_states_absorb() {
    assert!(RefundStatus::Success.is_terminal());
    assert!(RefundStatus::Failure.is_terminal());
    assert!(!RefundStatus::Pending.is_terminal());
    assert_eq!(RefundStatus::Success.reconcile(RefundStatus::Pending), RefundStatus::Success);
    assert_eq!(RefundStatus::Pending.reconcile(RefundStatus::Failure), RefundStatus::Failure);
}
