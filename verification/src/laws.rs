use vstd::prelude::*;

use crate::types::{deliveries_in, refunds_in, Settlement};

verus! {

/// One settled purchase is one transfer batch: any settlement the
/// continuation can produce delivers the package content at most once
/// and refunds the buyer at most once. Since the continuation also
/// consumes its `PendingPurchase` by value and so can run at most once
/// per captured purchase, no purchase is ever delivered twice nor
/// refunded twice.
pub proof fn lemma_settlement_single_batch(s: Settlement)
    ensures
        deliveries_in(s) <= 1,
        refunds_in(s) <= 1,
{
    match s {
        Settlement::Refund(_) => {},
        Settlement::DeliverWithRefund { .. } => {},
    }
}

} // verus!
