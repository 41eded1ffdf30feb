//! The merchandise order record and its fulfillment state machine.
//!
//! An order is created in the `Created` state when a purchase is
//! initiated, and moves to `Fulfilled` exactly once, when a payment
//! reference is confirmed. The presence of the stored payment reference
//! is the sole guard: confirming an order that already carries one is a
//! domain error, and the conditional update that writes the reference is
//! the unique place at-most-once fulfillment is enforced.

use vstd::prelude::*;

use crate::split::PaymentSplit;

verus! {

/// Lamports added to the computed total when checking the buyer's
/// balance, covering the network fee of the transaction.
pub const TRANSACTION_FEE_BUFFER_LAMPORTS: u64 = 20_000;

/// Lifecycle state of an order.
#[derive(Clone, Copy, PartialEq, Eq, Structural, Debug)]
pub enum OrderStatus {
    Created,
    Paid,
    Fulfilled,
    Failed,
}

/// A persisted merchandise order.
pub struct MerchOrder {
    pub id: i64,
    pub user_id: i64,
    pub status: OrderStatus,
    /// Buyer's total in fiat minor units.
    pub total_amount_usd: u32,
    /// Buyer's total in lamports.
    pub total_amount_token: u64,
    /// Recipient-to-lamports mapping, persisted for auditability.
    pub payment_splits: PaymentSplit,
    /// Identifier assigned by the external fulfillment service.
    pub external_order_id: Option<i64>,
    /// The confirmed payment reference; set at most once.
    pub transaction_id: Option<String>,
    /// Shipping destination as given by the buyer.
    pub shipping_address_raw: String,
}

/// The fields of a new order record, as handed to the storage
/// collaborator when a purchase is initiated.
pub struct NewMerchOrder {
    pub user_id: i64,
    pub status: OrderStatus,
    pub shipping_address_raw: String,
    pub external_order_id: Option<i64>,
    pub total_amount_usd: u32,
    pub total_amount_token: u64,
    pub payment_splits: PaymentSplit,
    pub transaction_id: Option<String>,
}

/// Outcome of the on-chain payment check for a reference.
#[derive(Clone, Copy, PartialEq, Eq, Structural, Debug)]
pub enum PaymentCheck {
    /// The reference is a valid payment for the order.
    Confirmed,
    /// The reference is not visible on chain yet; the caller may retry.
    NotFoundYet,
    /// The reference exists but does not satisfy the order.
    Mismatch,
}

/// Why a confirmation request is rejected.
#[derive(Clone, Copy, PartialEq, Eq, Structural, Debug)]
pub enum ConfirmError {
    /// The request carries no payment reference.
    MissingSignature,
    /// The order already carries a payment reference.
    AlreadyPaid,
    /// The payment reference was not found on chain.
    PaymentNotFound,
    /// The payment reference does not satisfy the order.
    PaymentMismatch,
}

/// A confirmation request must carry a payment reference.
pub fn require_payment_reference<'a>(signature: &'a Option<String>) -> (r: Result<
    &'a String,
    ConfirmError,
>)
    ensures
        signature is Some <==> r is Ok,
        r matches Ok(s) ==> s@ == signature->0@,
        r matches Err(e) ==> e is MissingSignature,
{
    match signature {
        Some(s) => Ok(s),
        None => Err(ConfirmError::MissingSignature),
    }
}

/// The confirmation guard: an order that already carries a payment
/// reference can not be confirmed again.
pub open spec fn confirm_guard_spec(o: MerchOrder) -> Result<(), ConfirmError> {
    if o.transaction_id is Some {
        Err(ConfirmError::AlreadyPaid)
    } else {
        Ok(())
    }
}

/// Checks the confirmation guard for `o`.
pub fn check_not_already_paid(o: &MerchOrder) -> (r: Result<(), ConfirmError>)
    ensures
        r == confirm_guard_spec(*o),
{
    match o.transaction_id {
        Some(_) => Err(ConfirmError::AlreadyPaid),
        None => Ok(()),
    }
}

/// Turns the on-chain payment check into the confirmation outcome: only
/// a confirmed payment lets fulfillment proceed.
pub fn evaluate_payment_check(c: PaymentCheck) -> (r: Result<(), ConfirmError>)
    ensures
        c is Confirmed <==> r is Ok,
        c is NotFoundYet ==> r == Result::<(), ConfirmError>::Err(ConfirmError::PaymentNotFound),
        c is Mismatch ==> r == Result::<(), ConfirmError>::Err(ConfirmError::PaymentMismatch),
{
    match c {
        PaymentCheck::Confirmed => Ok(()),
        PaymentCheck::NotFoundYet => Err(ConfirmError::PaymentNotFound),
        PaymentCheck::Mismatch => Err(ConfirmError::PaymentMismatch),
    }
}

/// A successful confirmation of `pre` with `reference` and the external
/// fulfillment identifier `external_id` produced `post`: the reference
/// and identifier are attached in one step, the order is fulfilled, and
/// every other field is untouched.
pub open spec fn confirm_post(
    pre: MerchOrder,
    post: MerchOrder,
    reference: Seq<char>,
    external_id: i64,
) -> bool {
    &&& pre.transaction_id is None
    &&& post.transaction_id matches Some(t) && t@ == reference
    &&& post.external_order_id == Some(external_id)
    &&& post.status is Fulfilled
    &&& post.id == pre.id
    &&& post.user_id == pre.user_id
    &&& post.total_amount_usd == pre.total_amount_usd
    &&& post.total_amount_token == pre.total_amount_token
    &&& post.payment_splits == pre.payment_splits
    &&& post.shipping_address_raw == pre.shipping_address_raw
}

/// The atomic conditional update at the heart of the coordinator: if
/// the order carries no payment reference yet, attach the reference and
/// the external fulfillment identifier in a single step and mark the
/// order fulfilled; otherwise change nothing and report `AlreadyPaid`.
/// The storage collaborator must apply this transition as one
/// compare-and-set, gated on the reference still being unset.
pub fn apply_confirmation(o: &mut MerchOrder, reference: &str, external_id: i64) -> (r: Result<
    (),
    ConfirmError,
>)
    ensures
        old(o).transaction_id is Some ==> r == Result::<(), ConfirmError>::Err(
            ConfirmError::AlreadyPaid,
        ) && *final(o) == *old(o),
        old(o).transaction_id is None ==> r is Ok && confirm_post(
            *old(o),
            *final(o),
            reference@,
            external_id,
        ),
{
    match o.transaction_id {
        Some(_) => Err(ConfirmError::AlreadyPaid),
        None => {
            o.transaction_id = Some(reference.to_owned());
            o.external_order_id = Some(external_id);
            o.status = OrderStatus::Fulfilled;
            Ok(())
        },
    }
}

/// An order is confirmed at most once: after a confirmation with
/// reference `r1` succeeds, the guard rejects every later confirmation
/// attempt as `AlreadyPaid`, and — because a rejected confirmation
/// leaves the order untouched — the stored payment reference remains
/// `r1` forever.
pub proof fn lemma_confirmation_at_most_once(
    pre: MerchOrder,
    post: MerchOrder,
    r1: Seq<char>,
    external_id: i64,
)
    requires
        confirm_post(pre, post, r1, external_id),
    ensures
        confirm_guard_spec(post) == Result::<(), ConfirmError>::Err(ConfirmError::AlreadyPaid),
        post.transaction_id matches Some(t) && t@ == r1,
{
}

/// The balance the buyer must hold before a purchase is initiated: the
/// computed total plus the fixed transaction-fee buffer.
pub fn required_balance_lamports(total_lamports: u64) -> (r: u64)
    requires
        total_lamports <= u64::MAX - TRANSACTION_FEE_BUFFER_LAMPORTS,
    ensures
        r == total_lamports + TRANSACTION_FEE_BUFFER_LAMPORTS,
{
    total_lamports + TRANSACTION_FEE_BUFFER_LAMPORTS
}

} // verus!
