//! Canonical lifecycle model and the status-reconciliation engine.
//!
//! Every connector reports progress in its own vocabulary; the router keeps
//! one small, fixed set of lifecycle states per flow kind. Reconciliation
//! folds a stream of freshly mapped canonical statuses into the transaction's
//! current status, and a terminal status is never downgraded by a later
//! observation.

use vstd::prelude::*;

verus! {

/// Canonical lifecycle states of a payment, independent of any connector.
#[derive(Clone, Copy, Debug, PartialEq, Eq, Structural)]
pub enum PaymentStatus {
    RequiresCreation,
    RequiresConfirmation,
    Authorized,
    Charged,
    Voided,
    Failed,
    Pending,
}

/// Canonical lifecycle states of a payout, independent of any connector.
#[derive(Clone, Copy, Debug, PartialEq, Eq, Structural)]
pub enum PayoutStatus {
    RequiresCreation,
    RequiresFulfillment,
    Success,
    Failed,
    Pending,
}

/// Canonical lifecycle states of a refund, independent of any connector.
#[derive(Clone, Copy, Debug, PartialEq, Eq, Structural)]
pub enum RefundStatus {
    Pending,
    Success,
    Failure,
}

/// A payment status from which no further transition is permitted.
pub open spec fn spec_payment_terminal(s: PaymentStatus) -> bool {
    s is Charged || s is Voided || s is Failed
}

/// A payout status from which no further transition is permitted.
pub open spec fn spec_payout_terminal(s: PayoutStatus) -> bool {
    s is Success || s is Failed
}

/// A refund status from which no further transition is permitted.
pub open spec fn spec_refund_terminal(s: RefundStatus) -> bool {
    s is Success || s is Failure
}

impl PaymentStatus {
    /// Whether this status is terminal.
    pub fn is_terminal(&self) -> (r: bool)
        ensures
            r == spec_payment_terminal(*self),
    {
        matches!(self, PaymentStatus::Charged | PaymentStatus::Voided | PaymentStatus::Failed)
    }
}

impl PayoutStatus {
    /// Whether this status is terminal.
    pub fn is_terminal(&self) -> (r: bool)
        ensures
            r == spec_payout_terminal(*self),
    {
        matches!(self, PayoutStatus::Success | PayoutStatus::Failed)
    }
}

impl RefundStatus {
    /// Whether this status is terminal.
    pub fn is_terminal(&self) -> (r: bool)
        ensures
            r == spec_refund_terminal(*self),
    {
        matches!(self, RefundStatus::Success | RefundStatus::Failure)
    }
}

/// One reconciliation step for a payment: a terminal current status absorbs
/// every later observation; a non-terminal one is replaced by the incoming
/// mapped status.
pub open spec fn spec_reconcile_payment(current: PaymentStatus, incoming: PaymentStatus) -> PaymentStatus {
    if spec_payment_terminal(current) {
        current
    } else {
        incoming
    }
}

/// One reconciliation step for a payout.
pub open spec fn spec_reconcile_payout(current: PayoutStatus, incoming: PayoutStatus) -> PayoutStatus {
    if spec_payout_terminal(current) {
        current
    } else {
        incoming
    }
}

/// One reconciliation step for a refund.
pub open spec fn spec_reconcile_refund(current: RefundStatus, incoming: RefundStatus) -> RefundStatus {
    if spec_refund_terminal(current) {
        current
    } else {
        incoming
    }
}

/// Fold a whole history of mapped payment statuses into a starting status.
pub open spec fn spec_reconcile_payment_all(init: PaymentStatus, observed: Seq<PaymentStatus>) -> PaymentStatus
    decreases observed.len(),
{
    if observed.len() == 0 {
        init
    } else {
        spec_reconcile_payment_all(spec_reconcile_payment(init, observed[0]), observed.drop_first())
    }
}

/// Fold a whole history of mapped payout statuses into a starting status.
pub open spec fn spec_reconcile_payout_all(init: PayoutStatus, observed: Seq<PayoutStatus>) -> PayoutStatus
    decreases observed.len(),
{
    if observed.len() == 0 {
        init
    } else {
        spec_reconcile_payout_all(spec_reconcile_payout(init, observed[0]), observed.drop_first())
    }
}

impl PaymentStatus {
    /// Apply one observed (already mapped) status to the current one.
    pub fn reconcile(self, incoming: PaymentStatus) -> (r: PaymentStatus)
        ensures
            r == spec_reconcile_payment(self, incoming),
    {
        if self.is_terminal() {
            self
        } else {
            incoming
        }
    }
}

impl PayoutStatus {
    /// Apply one observed (already mapped) status to the current one.
    pub fn reconcile(self, incoming: PayoutStatus) -> (r: PayoutStatus)
        ensures
            r == spec_reconcile_payout(self, incoming),
    {
        if self.is_terminal() {
            self
        } else {
            incoming
        }
    }
}

impl RefundStatus {
    /// Apply one observed (already mapped) status to the current one.
    pub fn reconcile(self, incoming: RefundStatus) -> (r: RefundStatus)
        ensures
            r == spec_reconcile_refund(self, incoming),
    {
        if self.is_terminal() {
            self
        } else {
            incoming
        }
    }
}

impl PayoutStatus {
    /// Fold a whole observed history of mapped statuses into this status,
    /// one reconciliation step per observation.
    pub fn reconcile_history(self, observed: &Vec<PayoutStatus>) -> (r: PayoutStatus)
        ensures
            r == spec_reconcile_payout_all(self, observed@),
    {
        let mut current = self;
        let mut i: usize = 0;
        proof {
            assert(observed@.take(0) =~= Seq::<PayoutStatus>::empty());
        }
        while i < observed.len()
            invariant
                0 <= i <= observed@.len(),
                current == spec_reconcile_payout_all(self, observed@.take(i as int)),
            decreases observed@.len() - i,
        {
            let next = observed[i];
            proof {
                let seen = observed@.take(i as int);
                let one = seq![observed@[i as int]];
                assert(observed@.take(i as int + 1) =~= seen + one);
                lemma_reconcile_payout_all_concat(self, seen, one);
                assert(one.drop_first() =~= Seq::<PayoutStatus>::empty());
                assert(spec_reconcile_payout_all(current, one) == spec_reconcile_payout_all(
                    spec_reconcile_payout(current, one[0]),
                    one.drop_first(),
                ));
            }
            current = current.reconcile(next);
            i += 1;
        }
        proof {
            assert(observed@.take(observed@.len() as int) =~= observed@);
        }
        current
    }
}

/// Law: a terminal payment status absorbs any further history; no later
/// mapping call can downgrade it to a non-terminal value.
pub proof fn lemma_payment_terminal_is_stable(init: PaymentStatus, observed: Seq<PaymentStatus>)
    requires
        spec_payment_terminal(init),
    ensures
        spec_reconcile_payment_all(init, observed) == init,
    decreases observed.len(),
{
    if observed.len() > 0 {
        lemma_payment_terminal_is_stable(init, observed.drop_first());
    }
}

/// Law: a terminal payout status absorbs any further history; no later
/// mapping call can downgrade it to a non-terminal value.
pub proof fn lemma_payout_terminal_is_stable(init: PayoutStatus, observed: Seq<PayoutStatus>)
    requires
        spec_payout_terminal(init),
    ensures
        spec_reconcile_payout_all(init, observed) == init,
    decreases observed.len(),
{
    if observed.len() > 0 {
        lemma_payout_terminal_is_stable(init, observed.drop_first());
    }
}

/// Reconciling a payment history in two pieces equals reconciling the
/// concatenation.
pub proof fn lemma_reconcile_payment_all_concat(
    init: PaymentStatus,
    first: Seq<PaymentStatus>,
    second: Seq<PaymentStatus>,
)
    ensures
        spec_reconcile_payment_all(init, first + second) == spec_reconcile_payment_all(
            spec_reconcile_payment_all(init, first),
            second,
        ),
    decreases first.len(),
{
    if first.len() == 0 {
        assert(first + second =~= second);
    } else {
        assert((first + second).drop_first() =~= first.drop_first() + second);
        lemma_reconcile_payment_all_concat(
            spec_reconcile_payment(init, first[0]),
            first.drop_first(),
            second,
        );
    }
}

/// Law: once the status a payment's observed history folds to is terminal,
/// extending the history with further observations changes nothing.
pub proof fn lemma_payment_no_downgrade(
    init: PaymentStatus,
    seen: Seq<PaymentStatus>,
    later: Seq<PaymentStatus>,
)
    requires
        spec_payment_terminal(spec_reconcile_payment_all(init, seen)),
    ensures
        spec_reconcile_payment_all(init, seen + later) == spec_reconcile_payment_all(init, seen),
{
    lemma_reconcile_payment_all_concat(init, seen, later);
    lemma_payment_terminal_is_stable(spec_reconcile_payment_all(init, seen), later);
}

/// Reconciling a payout history in two pieces equals reconciling the
/// concatenation.
pub proof fn lemma_reconcile_payout_all_concat(
    init: PayoutStatus,
    first: Seq<PayoutStatus>,
    second: Seq<PayoutStatus>,
)
    ensures
        spec_reconcile_payout_all(init, first + second) == spec_reconcile_payout_all(
            spec_reconcile_payout_all(init, first),
            second,
        ),
    decreases first.len(),
{
    if first.len() == 0 {
        assert(first + second =~= second);
    } else {
        assert((first + second).drop_first() =~= first.drop_first() + second);
        lemma_reconcile_payout_all_concat(
            spec_reconcile_payout(init, first[0]),
            first.drop_first(),
            second,
        );
    }
}

/// Law: once the status a transaction's observed history folds to is
/// terminal, extending the history with further observations changes nothing.
pub proof fn lemma_payout_no_downgrade(
    init: PayoutStatus,
    seen: Seq<PayoutStatus>,
    later: Seq<PayoutStatus>,
)
    requires
        spec_payout_terminal(spec_reconcile_payout_all(init, seen)),
    ensures
        spec_reconcile_payout_all(init, seen + later) == spec_reconcile_payout_all(init, seen),
{
    lemma_reconcile_payout_all_concat(init, seen, later);
    lemma_payout_terminal_is_stable(spec_reconcile_payout_all(init, seen), later);
}

} // verus!
