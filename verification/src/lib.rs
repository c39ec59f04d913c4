//! A settlement engine for a catalog-style sale: an owner publishes
//! packages (a reference-currency price plus a deliverable asset
//! bundle); buyers pay in the reference currency directly or in any
//! currency bound to an external price-quoting service. A foreign
//! payment suspends the purchase into a captured [`types::PendingPurchase`];
//! the continuation settles it once the quote arrives, delivering the
//! package and refunding the overpayment, or refunding the payment in
//! full. Every money-movement decision is stated in the contracts of
//! [`contract::UsdPriceTokenSaleContract`] and proved.

pub mod contract;
pub mod laws;
pub mod oracle;
pub mod store;
pub mod types;
