use vstd::prelude::*;

verus! {

/// A single asset line: an asset identifier, a nonce distinguishing a
/// specific non-fungible or semi-fungible unit (zero for fungible
/// assets), and an amount in the asset's minor units.
///
/// The same shape serves as a buyer's attached payment, as a package's
/// content bundle and as the payload of an outgoing transfer.
#[derive(Clone, Copy, Debug, PartialEq, Eq, Structural)]
pub struct AssetPayment {
    pub token_id: u64,
    pub token_nonce: u64,
    pub amount: u128,
}

/// An instruction for the platform to move `payment` from the
/// contract's holdings to `receiver`.
#[derive(Clone, Copy, Debug, PartialEq, Eq, Structural)]
pub struct OutgoingTransfer {
    pub receiver: u64,
    pub payment: AssetPayment,
}

/// The values captured when an asynchronous quote request is issued,
/// carried across the suspension until the continuation runs.
///
/// The type is deliberately neither `Clone` nor `Copy`: the settlement
/// continuation takes it by value, so a given pending purchase can be
/// settled at most once.
#[derive(Debug)]
pub struct PendingPurchase {
    pub package_id: u8,
    pub buyer: u64,
    pub paid_token: u64,
    pub paid_nonce: u64,
    pub paid_amount: u128,
}

/// What a successful `buy_tokens` call asks the platform to do next:
/// either the package was delivered on the spot (direct settlement in
/// the reference currency), or a quote request must be sent to the
/// bound oracle and the purchase suspends until the quote arrives.
#[derive(Debug)]
pub enum PurchaseOutcome {
    Delivered(OutgoingTransfer),
    QuoteRequested {
        oracle: u64,
        token_in: u64,
        amount_in: u128,
        pending: PendingPurchase,
    },
}

/// The single transfer batch produced by the settlement continuation:
/// either a full refund of the captured payment, or delivery of the
/// package content together with a refund of the overpayment.
#[derive(Debug)]
pub enum Settlement {
    Refund(OutgoingTransfer),
    DeliverWithRefund { content: OutgoingTransfer, refund: OutgoingTransfer },
}

/// Number of content deliveries in a settlement batch.
pub open spec fn deliveries_in(s: Settlement) -> nat {
    match s {
        Settlement::Refund(_) => 0,
        Settlement::DeliverWithRefund { .. } => 1,
    }
}

/// Number of refund transfers in a settlement batch.
pub open spec fn refunds_in(s: Settlement) -> nat {
    match s {
        Settlement::Refund(_) => 1,
        Settlement::DeliverWithRefund { .. } => 1,
    }
}

/// Every way a call into the contract can be rejected. Synchronous
/// failures abort the whole call with no state change.
#[derive(Clone, Copy, Debug, PartialEq, Eq, Structural)]
pub enum SaleError {
    /// No reference-currency identifier was supplied at initialization.
    UsdcTokenNotSpecified,
    /// The package has no reference price set.
    PriceNotSet,
    /// The package has no content set.
    ContentNotSet,
    /// The contract's holdings of the content asset are below the
    /// bundle amount.
    InsufficientContentBalance,
    /// Direct-path payment did not equal the reference price exactly.
    InvalidPaymentAmount,
    /// The payment currency has no oracle binding and is not the
    /// reference currency.
    UnsupportedPaymentToken,
    /// An admin endpoint was called by someone other than the owner.
    NotOwner,
}

} // verus!
