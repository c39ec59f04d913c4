use vstd::prelude::*;

use crate::store::KvStore;
use crate::types::{AssetPayment, OutgoingTransfer, PendingPurchase, PurchaseOutcome, SaleError,
    Settlement};

verus! {

/// The settlement engine together with its keyed storage: the catalog
/// (price and content per package id), the oracle registry (quoting
/// service address per payment currency), the contract's own asset
/// holdings, the reference-currency identifier and the owner identity.
///
/// Packages are priced in the reference currency. A buyer may pay in
/// the reference currency directly (settled on the spot) or in any
/// currency with an oracle binding (settled by the continuation once
/// the oracle's quote arrives). Transfers themselves are carried out
/// by the platform; the engine decides them and accounts for them in
/// its holdings.
pub struct UsdPriceTokenSaleContract {
    owner: u64,
    usdc_token: u64,
    prices: KvStore<u128>,
    contents: KvStore<AssetPayment>,
    proxies: KvStore<u64>,
    holdings: KvStore<u128>,
}

/// Owner identity and reference-currency identifier agree.
pub open spec fn same_config(a: UsdPriceTokenSaleContract, b: UsdPriceTokenSaleContract) -> bool {
    a.spec_owner() == b.spec_owner() && a.spec_usdc_token_id() == b.spec_usdc_token_id()
}

/// Every package has the same reference price in both states.
pub open spec fn same_prices(a: UsdPriceTokenSaleContract, b: UsdPriceTokenSaleContract) -> bool {
    forall|id: u8| #[trigger] a.price_of(id) == b.price_of(id)
}

/// Every package has the same content bundle in both states.
pub open spec fn same_contents(a: UsdPriceTokenSaleContract, b: UsdPriceTokenSaleContract) -> bool {
    forall|id: u8| #[trigger] a.content_of(id) == b.content_of(id)
}

/// Every currency has the same oracle binding in both states.
pub open spec fn same_proxies(a: UsdPriceTokenSaleContract, b: UsdPriceTokenSaleContract) -> bool {
    forall|t: u64| #[trigger] a.proxy_of(t) == b.proxy_of(t)
}

/// The contract holds the same amount of every asset in both states.
pub open spec fn same_holdings(a: UsdPriceTokenSaleContract, b: UsdPriceTokenSaleContract) -> bool {
    forall|t: u64, n: u64| #[trigger] a.bal(t, n) == b.bal(t, n)
}

impl UsdPriceTokenSaleContract {
    /// All keyed stores are well formed.
    pub closed spec fn wf(self) -> bool {
        self.prices.wf() && self.contents.wf() && self.proxies.wf() && self.holdings.wf()
    }

    /// The configured owner identity.
    pub closed spec fn spec_owner(self) -> u64 {
        self.owner
    }

    /// The reference-currency identifier.
    pub closed spec fn spec_usdc_token_id(self) -> u64 {
        self.usdc_token
    }

    /// The reference price of a package, if set.
    pub closed spec fn price_of(self, package_id: u8) -> Option<u128> {
        self.prices.spec_get(package_id as u64, 0)
    }

    /// The content bundle of a package, if set.
    pub closed spec fn content_of(self, package_id: u8) -> Option<AssetPayment> {
        self.contents.spec_get(package_id as u64, 0)
    }

    /// The quoting-service address bound to a payment currency, if any.
    pub closed spec fn proxy_of(self, input_token: u64) -> Option<u64> {
        self.proxies.spec_get(input_token, 0)
    }

    /// The contract's holdings of one asset; zero when no entry exists.
    pub closed spec fn bal(self, token_id: u64, nonce: u64) -> u128 {
        match self.holdings.spec_get(token_id, nonce) {
            Some(x) => x,
            None => 0,
        }
    }

    /// A package can be bought: price and content are set, and the
    /// contract holds at least the content amount.
    pub open spec fn purchasable(self, package_id: u8) -> bool {
        match (self.price_of(package_id), self.content_of(package_id)) {
            (Some(_price), Some(c)) => self.bal(c.token_id, c.token_nonce) >= c.amount,
            _ => false,
        }
    }

    /// Content delivery plus a refund of `refund_amount` in the given
    /// currency can both be paid out of the current holdings (the
    /// refund draws on the same holdings entry when the content asset
    /// and the refund currency coincide).
    pub open spec fn delivery_feasible(
        self,
        package_id: u8,
        refund_token: u64,
        refund_nonce: u64,
        refund_amount: u128,
    ) -> bool {
        match self.content_of(package_id) {
            Some(c) => self.bal(c.token_id, c.token_nonce) as int >= c.amount as int + (
            if c.token_id == refund_token && c.token_nonce == refund_nonce {
                refund_amount as int
            } else {
                0
            }),
            None => false,
        }
    }

    /// Creates the contract. Fails when no reference-currency
    /// identifier is supplied, since none is known otherwise.
    pub fn init(owner: u64, opt_usdc_token_id: Option<u64>) -> (r: Result<Self, SaleError>)
        ensures
            opt_usdc_token_id is None <==> r == Err::<Self, SaleError>(
                SaleError::UsdcTokenNotSpecified,
            ),
            opt_usdc_token_id matches Some(t) ==> (r matches Ok(c) && c.wf() && c.spec_owner()
                == owner && c.spec_usdc_token_id() == t && (forall|id: u8| #[trigger] c.price_of(
                id,
            ) is None) && (forall|id: u8| #[trigger] c.content_of(id) is None) && (forall|tok: u64|
                #[trigger] c.proxy_of(tok) is None) && (forall|t2: u64, n2: u64| #[trigger] c.bal(
                t2,
                n2,
            ) == 0)),
    {
        match opt_usdc_token_id {
            Some(t) => Ok(UsdPriceTokenSaleContract {
                owner,
                usdc_token: t,
                prices: KvStore::new(),
                contents: KvStore::new(),
                proxies: KvStore::new(),
                holdings: KvStore::new(),
            }),
            None => Err(SaleError::UsdcTokenNotSpecified),
        }
    }

    /// Adds `amount` of one asset to the holdings.
    fn credit(&mut self, token_id: u64, nonce: u64, amount: u128)
        requires
            old(self).wf(),
            old(self).bal(token_id, nonce) + amount <= u128::MAX,
        ensures
            final(self).wf(),
            forall|t: u64, n: u64| (#[trigger] final(self).bal(t, n)) as int == old(self).bal(t, n)
                + (if t == token_id && n == nonce {
                amount as int
            } else {
                0
            }),
            same_config(*final(self), *old(self)),
            same_prices(*final(self), *old(self)),
            same_contents(*final(self), *old(self)),
            same_proxies(*final(self), *old(self)),
    {
        let cur: u128 = match self.holdings.get(token_id, nonce) {
            Some(x) => x,
            None => 0,
        };
        self.holdings.insert(token_id, nonce, cur + amount);
    }

    /// Removes `amount` of one asset from the holdings.
    fn debit(&mut self, token_id: u64, nonce: u64, amount: u128)
        requires
            old(self).wf(),
            old(self).bal(token_id, nonce) >= amount,
        ensures
            final(self).wf(),
            forall|t: u64, n: u64| (#[trigger] final(self).bal(t, n)) as int == old(self).bal(t, n)
                - (if t == token_id && n == nonce {
                amount as int
            } else {
                0
            }),
            same_config(*final(self), *old(self)),
            same_prices(*final(self), *old(self)),
            same_contents(*final(self), *old(self)),
            same_proxies(*final(self), *old(self)),
    {
        let cur: u128 = match self.holdings.get(token_id, nonce) {
            Some(x) => x,
            None => 0,
        };
        self.holdings.insert(token_id, nonce, cur - amount);
    }

    /// The purchasability gate of a purchase: price set, content set,
    /// and the contract's holdings cover the content bundle. Fails
    /// with the most specific applicable error and mutates nothing.
    pub fn validate_package_purchase(&self, package_id: u8) -> (r: Result<(), SaleError>)
        requires
            self.wf(),
        ensures
            r == Ok::<(), SaleError>(()) <==> self.purchasable(package_id),
            r == Err::<(), SaleError>(SaleError::PriceNotSet) <==> self.price_of(
                package_id,
            ) is None,
            r == Err::<(), SaleError>(SaleError::ContentNotSet) <==> (self.price_of(
                package_id,
            ) is Some && self.content_of(package_id) is None),
            r == Err::<(), SaleError>(SaleError::InsufficientContentBalance) <==> (match (
            self.price_of(package_id),
            self.content_of(package_id),
            ) {
                (Some(_price), Some(c)) => self.bal(c.token_id, c.token_nonce) < c.amount,
                _ => false,
            }),
    {
        if self.prices.get(package_id as u64, 0).is_none() {
            return Err(SaleError::PriceNotSet);
        }
        match self.contents.get(package_id as u64, 0) {
            None => Err(SaleError::ContentNotSet),
            Some(c) => {
                let held = self.balance_of(c.token_id, c.token_nonce);
                if held < c.amount {
                    Err(SaleError::InsufficientContentBalance)
                } else {
                    Ok(())
                }
            },
        }
    }

    /// Takes the package's content bundle out of the holdings and
    /// hands back the transfer that delivers it to `receiver`. Fails,
    /// mutating nothing, when no content is set or the holdings fall
    /// short of the bundle amount.
    pub(crate) fn send_package_content(&mut self, package_id: u8, receiver: u64) -> (r: Result<
        OutgoingTransfer,
        SaleError,
    >)
        requires
            old(self).wf(),
        ensures
            final(self).wf(),
            r is Err ==> *final(self) == *old(self),
            r == Err::<OutgoingTransfer, SaleError>(SaleError::ContentNotSet) <==> old(self).content_of(package_id) is None,
            r == Err::<OutgoingTransfer, SaleError>(SaleError::InsufficientContentBalance) <==> (
            match old(self).content_of(package_id) {
                Some(c) => old(self).bal(c.token_id, c.token_nonce) < c.amount,
                None => false,
            }),
            (match old(self).content_of(package_id) {
                Some(c) => old(self).bal(c.token_id, c.token_nonce) >= c.amount,
                None => false,
            }) ==> (match old(self).content_of(package_id) {
                Some(c) => r == Ok::<OutgoingTransfer, SaleError>(
                    (OutgoingTransfer { receiver, payment: c }),
                ) && (forall|t: u64, n: u64| (#[trigger] final(self).bal(t, n)) as int == old(self).bal(t, n) - (if t == c.token_id && n == c.token_nonce {
                    c.amount as int
                } else {
                    0
                })) && same_config(*final(self), *old(self)) && same_prices(
                    *final(self),
                    *old(self),
                ) && same_contents(*final(self), *old(self)) && same_proxies(
                    *final(self),
                    *old(self),
                ),
                None => false,
            }),
    {
        match self.contents.get(package_id as u64, 0) {
            None => Err(SaleError::ContentNotSet),
            Some(c) => {
                let held = self.balance_of(c.token_id, c.token_nonce);
                if held < c.amount {
                    Err(SaleError::InsufficientContentBalance)
                } else {
                    self.debit(c.token_id, c.token_nonce, c.amount);
                    Ok(OutgoingTransfer { receiver, payment: c })
                }
            },
        }
    }

    /// The purchase entry point. Validates the package, then either
    /// settles directly (payment already in the reference currency,
    /// exact amount required) or captures a pending purchase and asks
    /// the platform to request a quote from the bound oracle. Every
    /// failure leaves the state unchanged: the attached payment is
    /// never taken into custody.
    pub fn buy_tokens(&mut self, caller: u64, payment: AssetPayment, package_id: u8) -> (r: Result<
        PurchaseOutcome,
        SaleError,
    >)
        requires
            old(self).wf(),
            payment.amount > 0,
            old(self).bal(payment.token_id, payment.token_nonce) + payment.amount <= u128::MAX,
        ensures
            final(self).wf(),
            r is Err ==> *final(self) == *old(self),
            r == Err::<PurchaseOutcome, SaleError>(SaleError::PriceNotSet) <==> old(self).price_of(
                package_id,
            ) is None,
            r == Err::<PurchaseOutcome, SaleError>(SaleError::ContentNotSet) <==> (old(self).price_of(package_id) is Some && old(self).content_of(package_id) is None),
            r == Err::<PurchaseOutcome, SaleError>(SaleError::InsufficientContentBalance) <==> (
            match (old(self).price_of(package_id), old(self).content_of(package_id)) {
                (Some(_price), Some(c)) => old(self).bal(c.token_id, c.token_nonce) < c.amount,
                _ => false,
            }),
            r == Err::<PurchaseOutcome, SaleError>(SaleError::InvalidPaymentAmount) <==> (old(self).purchasable(package_id) && payment.token_id == old(self).spec_usdc_token_id() && old(self).price_of(package_id) != Some(payment.amount)),
            r == Err::<PurchaseOutcome, SaleError>(SaleError::UnsupportedPaymentToken) <==> (old(self).purchasable(package_id) && payment.token_id != old(self).spec_usdc_token_id() && old(self).proxy_of(payment.token_id) is None),
            (match (old(self).price_of(package_id), old(self).content_of(package_id)) {
                (Some(price), Some(c)) => (old(self).purchasable(package_id) && payment.token_id
                    == old(self).spec_usdc_token_id() && payment.amount == price) ==> (r
                    == Ok::<PurchaseOutcome, SaleError>(
                    PurchaseOutcome::Delivered((OutgoingTransfer { receiver: caller, payment: c })),
                ) && (forall|t: u64, n: u64| (#[trigger] final(self).bal(t, n)) as int == old(self).bal(t, n) + (if t == payment.token_id && n == payment.token_nonce {
                    payment.amount as int
                } else {
                    0
                }) - (if t == c.token_id && n == c.token_nonce {
                    c.amount as int
                } else {
                    0
                })) && same_config(*final(self), *old(self)) && same_prices(
                    *final(self),
                    *old(self),
                ) && same_contents(*final(self), *old(self)) && same_proxies(
                    *final(self),
                    *old(self),
                )),
                _ => true,
            }),
            (match (old(self).price_of(package_id), old(self).proxy_of(payment.token_id)) {
                (Some(price), Some(oracle)) => (old(self).purchasable(package_id)
                    && payment.token_id != old(self).spec_usdc_token_id()) ==> (r == Ok::<
                    PurchaseOutcome,
                    SaleError,
                >(
                    PurchaseOutcome::QuoteRequested {
                        oracle,
                        token_in: old(self).spec_usdc_token_id(),
                        amount_in: price,
                        pending: PendingPurchase {
                            package_id,
                            buyer: caller,
                            paid_token: payment.token_id,
                            paid_nonce: payment.token_nonce,
                            paid_amount: payment.amount,
                        },
                    },
                ) && (forall|t: u64, n: u64| (#[trigger] final(self).bal(t, n)) as int == old(self).bal(t, n) + (if t == payment.token_id && n == payment.token_nonce {
                    payment.amount as int
                } else {
                    0
                })) && same_config(*final(self), *old(self)) && same_prices(
                    *final(self),
                    *old(self),
                ) && same_contents(*final(self), *old(self)) && same_proxies(
                    *final(self),
                    *old(self),
                )),
                _ => true,
            }),
    {
        match self.validate_package_purchase(package_id) {
            Err(e) => {
                return Err(e);
            },
            Ok(()) => {},
        }
        let price: u128 = match self.prices.get(package_id as u64, 0) {
            Some(p) => p,
            None => {
                return Err(SaleError::PriceNotSet);
            },
        };
        if payment.token_id == self.usdc_token {
            if payment.amount != price {
                return Err(SaleError::InvalidPaymentAmount);
            }
            let ghost pre = *self;
            self.credit(payment.token_id, payment.token_nonce, payment.amount);
            let ghost mid = *self;
            match self.send_package_content(package_id, caller) {
                Ok(transfer) => {
                    proof {
                        let c = pre.content_of(package_id).unwrap();
                        assert(mid.bal(c.token_id, c.token_nonce) >= c.amount);
                        assert forall|t: u64, n: u64| (#[trigger] self.bal(t, n)) as int
                            == pre.bal(t, n) + (if t == payment.token_id && n
                            == payment.token_nonce {
                            payment.amount as int
                        } else {
                            0
                        }) - (if t == c.token_id && n == c.token_nonce {
                            c.amount as int
                        } else {
                            0
                        }) by {
                            assert(mid.bal(t, n) as int == pre.bal(t, n) + (if t
                                == payment.token_id && n == payment.token_nonce {
                                payment.amount as int
                            } else {
                                0
                            }));
                        }
                    }
                    Ok(PurchaseOutcome::Delivered(transfer))
                },
                Err(e) => {
                    // unreachable: the validated package is still intact after
                    // the payment was credited
                    proof {
                        let c = pre.content_of(package_id).unwrap();
                        assert(mid.content_of(package_id) == Some(c));
                        assert(mid.bal(c.token_id, c.token_nonce) >= c.amount);
                        assert(false);
                    }
                    Err(e)
                },
            }
        } else {
            let oracle: u64 = match self.get_proxy_address_or_fail(payment.token_id) {
                Ok(a) => a,
                Err(e) => {
                    return Err(e);
                },
            };
            self.credit(payment.token_id, payment.token_nonce, payment.amount);
            Ok(PurchaseOutcome::QuoteRequested {
                oracle,
                token_in: self.usdc_token,
                amount_in: price,
                pending: PendingPurchase {
                    package_id,
                    buyer: caller,
                    paid_token: payment.token_id,
                    paid_nonce: payment.token_nonce,
                    paid_amount: payment.amount,
                },
            })
        }
    }

    /// The settlement continuation, run once when the asynchronous
    /// quote request resolves. Consumes the pending purchase (taken by
    /// value, so it cannot be settled twice) and produces exactly one
    /// transfer batch: a full refund when the quote failed or the
    /// payment falls short of the quoted amount, otherwise delivery of
    /// the content plus a refund of the overpayment. A batch that the
    /// holdings cannot cover is refused with nothing changed, as the
    /// platform then rolls the whole continuation back.
    pub fn finish_transfer(&mut self, pending: PendingPurchase, result: Result<u128, u32>) -> (r:
        Result<Settlement, SaleError>)
        requires
            old(self).wf(),
            old(self).bal(pending.paid_token, pending.paid_nonce) >= pending.paid_amount,
        ensures
            final(self).wf(),
            r is Err ==> *final(self) == *old(self),
            (result is Err || (result matches Ok(required) && pending.paid_amount < required))
                ==> (r == Ok::<Settlement, SaleError>(
                Settlement::Refund(
                    (OutgoingTransfer {
                        receiver: pending.buyer,
                        payment: AssetPayment {
                            token_id: pending.paid_token,
                            token_nonce: pending.paid_nonce,
                            amount: pending.paid_amount,
                        },
                    }),
                ),
            ) && (forall|t: u64, n: u64| (#[trigger] final(self).bal(t, n)) as int == old(self).bal(
                t,
                n,
            ) - (if t == pending.paid_token && n == pending.paid_nonce {
                pending.paid_amount as int
            } else {
                0
            })) && same_config(*final(self), *old(self)) && same_prices(*final(self), *old(self))
                && same_contents(*final(self), *old(self)) && same_proxies(
                *final(self),
                *old(self),
            )),
            (match result {
                Ok(required) => pending.paid_amount >= required ==> (r == Err::<
                    Settlement,
                    SaleError,
                >(SaleError::ContentNotSet) <==> old(self).content_of(
                    pending.package_id,
                ) is None),
                Err(_) => true,
            }),
            (match result {
                Ok(required) => pending.paid_amount >= required ==> (r == Err::<
                    Settlement,
                    SaleError,
                >(SaleError::InsufficientContentBalance) <==> (old(self).content_of(
                    pending.package_id,
                ) is Some && !old(self).delivery_feasible(
                    pending.package_id,
                    pending.paid_token,
                    pending.paid_nonce,
                    (pending.paid_amount - required) as u128,
                ))),
                Err(_) => true,
            }),
            (match (result, old(self).content_of(pending.package_id)) {
                (Ok(required), Some(c)) => (pending.paid_amount >= required && old(self).delivery_feasible(
                    pending.package_id,
                    pending.paid_token,
                    pending.paid_nonce,
                    (pending.paid_amount - required) as u128,
                )) ==> (r == Ok::<Settlement, SaleError>(
                    Settlement::DeliverWithRefund {
                        content: OutgoingTransfer { receiver: pending.buyer, payment: c },
                        refund: OutgoingTransfer {
                            receiver: pending.buyer,
                            payment: AssetPayment {
                                token_id: pending.paid_token,
                                token_nonce: pending.paid_nonce,
                                amount: (pending.paid_amount - required) as u128,
                            },
                        },
                    },
                ) && (forall|t: u64, n: u64| (#[trigger] final(self).bal(t, n)) as int == old(self).bal(t, n) - (if t == c.token_id && n == c.token_nonce {
                    c.amount as int
                } else {
                    0
                }) - (if t == pending.paid_token && n == pending.paid_nonce {
                    (pending.paid_amount - required) as int
                } else {
                    0
                })) && same_config(*final(self), *old(self)) && same_prices(
                    *final(self),
                    *old(self),
                ) && same_contents(*final(self), *old(self)) && same_proxies(
                    *final(self),
                    *old(self),
                )),
                _ => true,
            }),
    {
        let required: u128 = match result {
            Ok(required) => required,
            Err(_code) => {
                self.debit(pending.paid_token, pending.paid_nonce, pending.paid_amount);
                return Ok(Settlement::Refund(OutgoingTransfer {
                    receiver: pending.buyer,
                    payment: AssetPayment {
                        token_id: pending.paid_token,
                        token_nonce: pending.paid_nonce,
                        amount: pending.paid_amount,
                    },
                }));
            },
        };
        if pending.paid_amount < required {
            self.debit(pending.paid_token, pending.paid_nonce, pending.paid_amount);
            return Ok(Settlement::Refund(OutgoingTransfer {
                receiver: pending.buyer,
                payment: AssetPayment {
                    token_id: pending.paid_token,
                    token_nonce: pending.paid_nonce,
                    amount: pending.paid_amount,
                },
            }));
        }
        let diff: u128 = pending.paid_amount - required;
        let c: AssetPayment = match self.contents.get(pending.package_id as u64, 0) {
            Some(c) => c,
            None => {
                return Err(SaleError::ContentNotSet);
            },
        };
        let held = self.balance_of(c.token_id, c.token_nonce);
        let refund_from_content = c.token_id == pending.paid_token && c.token_nonce
            == pending.paid_nonce;
        let feasible = if refund_from_content {
            held >= c.amount && held - c.amount >= diff
        } else {
            held >= c.amount
        };
        if !feasible {
            return Err(SaleError::InsufficientContentBalance);
        }
        let ghost pre = *self;
        self.debit(c.token_id, c.token_nonce, c.amount);
        let ghost mid = *self;
        self.debit(pending.paid_token, pending.paid_nonce, diff);
        proof {
            assert forall|t: u64, n: u64| (#[trigger] self.bal(t, n)) as int == pre.bal(t, n) - (
            if t == c.token_id && n == c.token_nonce {
                c.amount as int
            } else {
                0
            }) - (if t == pending.paid_token && n == pending.paid_nonce {
                diff as int
            } else {
                0
            }) by {
                assert(mid.bal(t, n) as int == pre.bal(t, n) - (if t == c.token_id && n
                    == c.token_nonce {
                    c.amount as int
                } else {
                    0
                }));
            }
        }
        Ok(Settlement::DeliverWithRefund {
            content: OutgoingTransfer { receiver: pending.buyer, payment: c },
            refund: OutgoingTransfer {
                receiver: pending.buyer,
                payment: AssetPayment {
                    token_id: pending.paid_token,
                    token_nonce: pending.paid_nonce,
                    amount: diff,
                },
            },
        })
    }

    /// Binds a quoting-service address to a payment currency. Owner
    /// only; rejected callers change nothing.
    pub fn set_proxy_address(&mut self, caller: u64, input_token: u64, address: u64) -> (r: Result<
        (),
        SaleError,
    >)
        requires
            old(self).wf(),
        ensures
            final(self).wf(),
            caller != old(self).spec_owner() ==> r == Err::<(), SaleError>(SaleError::NotOwner)
                && *final(self) == *old(self),
            caller == old(self).spec_owner() ==> (r == Ok::<(), SaleError>(()) && final(self).proxy_of(input_token) == Some(address) && (forall|t: u64|
                t != input_token ==> #[trigger] final(self).proxy_of(t) == old(self).proxy_of(t))
                && same_config(*final(self), *old(self)) && same_prices(*final(self), *old(self))
                && same_contents(*final(self), *old(self)) && same_holdings(
                *final(self),
                *old(self),
            )),
    {
        if caller != self.owner {
            return Err(SaleError::NotOwner);
        }
        self.proxies.insert(input_token, 0, address);
        Ok(())
    }

    /// Sets a package's reference price. Owner only; rejected callers
    /// change nothing.
    pub fn set_package_price(&mut self, caller: u64, package_id: u8, usd_amount: u128) -> (r:
        Result<(), SaleError>)
        requires
            old(self).wf(),
        ensures
            final(self).wf(),
            caller != old(self).spec_owner() ==> r == Err::<(), SaleError>(SaleError::NotOwner)
                && *final(self) == *old(self),
            caller == old(self).spec_owner() ==> (r == Ok::<(), SaleError>(()) && final(self).price_of(package_id) == Some(usd_amount) && (forall|id: u8|
                id != package_id ==> #[trigger] final(self).price_of(id) == old(self).price_of(id))
                && same_config(*final(self), *old(self)) && same_contents(*final(self), *old(self))
                && same_proxies(*final(self), *old(self)) && same_holdings(
                *final(self),
                *old(self),
            )),
    {
        if caller != self.owner {
            return Err(SaleError::NotOwner);
        }
        self.prices.insert(package_id as u64, 0, usd_amount);
        Ok(())
    }

    /// Sets a package's content bundle to a single asset line. Owner
    /// only; rejected callers change nothing.
    pub fn add_package_content(
        &mut self,
        caller: u64,
        package_id: u8,
        token_id: u64,
        nonce: u64,
        amount: u128,
    ) -> (r: Result<(), SaleError>)
        requires
            old(self).wf(),
        ensures
            final(self).wf(),
            caller != old(self).spec_owner() ==> r == Err::<(), SaleError>(SaleError::NotOwner)
                && *final(self) == *old(self),
            caller == old(self).spec_owner() ==> (r == Ok::<(), SaleError>(()) && final(self).content_of(package_id) == Some(
                (AssetPayment { token_id, token_nonce: nonce, amount }),
            ) && (forall|id: u8|
                id != package_id ==> #[trigger] final(self).content_of(id) == old(self).content_of(
                    id,
                )) && same_config(*final(self), *old(self)) && same_prices(*final(self), *old(self))
                && same_proxies(*final(self), *old(self)) && same_holdings(
                *final(self),
                *old(self),
            )),
    {
        if caller != self.owner {
            return Err(SaleError::NotOwner);
        }
        self.contents.insert(package_id as u64, 0, AssetPayment { token_id, token_nonce: nonce, amount });
        Ok(())
    }

    /// Clears a package's price and content. Owner only; rejected
    /// callers change nothing.
    pub fn remove_package(&mut self, caller: u64, package_id: u8) -> (r: Result<(), SaleError>)
        requires
            old(self).wf(),
        ensures
            final(self).wf(),
            caller != old(self).spec_owner() ==> r == Err::<(), SaleError>(SaleError::NotOwner)
                && *final(self) == *old(self),
            caller == old(self).spec_owner() ==> (r == Ok::<(), SaleError>(()) && final(self).price_of(package_id) is None && final(self).content_of(package_id) is None && (
            forall|id: u8|
                id != package_id ==> #[trigger] final(self).price_of(id) == old(self).price_of(id))
                && (forall|id: u8|
                id != package_id ==> #[trigger] final(self).content_of(id) == old(self).content_of(
                    id,
                )) && same_config(*final(self), *old(self)) && same_proxies(
                *final(self),
                *old(self),
            ) && same_holdings(*final(self), *old(self))),
    {
        if caller != self.owner {
            return Err(SaleError::NotOwner);
        }
        self.prices.remove(package_id as u64, 0);
        self.contents.remove(package_id as u64, 0);
        Ok(())
    }

    /// Accepts a payment into the contract's own holdings, funding
    /// future deliveries. Owner only; rejected callers change nothing.
    pub fn deposit(&mut self, caller: u64, payment: AssetPayment) -> (r: Result<(), SaleError>)
        requires
            old(self).wf(),
            caller == old(self).spec_owner() ==> old(self).bal(
                payment.token_id,
                payment.token_nonce,
            ) + payment.amount <= u128::MAX,
        ensures
            final(self).wf(),
            caller != old(self).spec_owner() ==> r == Err::<(), SaleError>(SaleError::NotOwner)
                && *final(self) == *old(self),
            caller == old(self).spec_owner() ==> (r == Ok::<(), SaleError>(()) && (forall|
                t: u64,
                n: u64,
            | (#[trigger] final(self).bal(t, n)) as int == old(self).bal(t, n) + (if t
                == payment.token_id && n == payment.token_nonce {
                payment.amount as int
            } else {
                0
            })) && same_config(*final(self), *old(self)) && same_prices(*final(self), *old(self))
                && same_contents(*final(self), *old(self)) && same_proxies(
                *final(self),
                *old(self),
            )),
    {
        if caller != self.owner {
            return Err(SaleError::NotOwner);
        }
        self.credit(payment.token_id, payment.token_nonce, payment.amount);
        Ok(())
    }

    /// Pays the contract's whole holding of one asset out to the given
    /// receiver, or to the caller when none is given. Owner only;
    /// rejected callers change nothing.
    pub fn withdraw(
        &mut self,
        caller: u64,
        token_id: u64,
        nonce: u64,
        opt_receiver: Option<u64>,
    ) -> (r: Result<OutgoingTransfer, SaleError>)
        requires
            old(self).wf(),
        ensures
            final(self).wf(),
            caller != old(self).spec_owner() ==> r == Err::<OutgoingTransfer, SaleError>(
                SaleError::NotOwner,
            ) && *final(self) == *old(self),
            caller == old(self).spec_owner() ==> (r == Ok::<OutgoingTransfer, SaleError>(
                (OutgoingTransfer {
                    receiver: match opt_receiver {
                        Some(x) => x,
                        None => caller,
                    },
                    payment: AssetPayment {
                        token_id,
                        token_nonce: nonce,
                        amount: old(self).bal(token_id, nonce),
                    },
                }),
            ) && (forall|t: u64, n: u64| (#[trigger] final(self).bal(t, n)) as int == old(self).bal(
                t,
                n,
            ) - (if t == token_id && n == nonce {
                old(self).bal(token_id, nonce) as int
            } else {
                0
            })) && same_config(*final(self), *old(self)) && same_prices(*final(self), *old(self))
                && same_contents(*final(self), *old(self)) && same_proxies(
                *final(self),
                *old(self),
            )),
    {
        if caller != self.owner {
            return Err(SaleError::NotOwner);
        }
        let receiver: u64 = match opt_receiver {
            Some(x) => x,
            None => caller,
        };
        let balance = self.balance_of(token_id, nonce);
        self.debit(token_id, nonce, balance);
        Ok(OutgoingTransfer {
            receiver,
            payment: AssetPayment { token_id, token_nonce: nonce, amount: balance },
        })
    }

    /// The quoting-service address bound to a currency, or the
    /// unsupported-payment-token error when none is bound.
    pub fn get_proxy_address_or_fail(&self, token_id: u64) -> (r: Result<u64, SaleError>)
        requires
            self.wf(),
        ensures
            match self.proxy_of(token_id) {
                Some(a) => r == Ok::<u64, SaleError>(a),
                None => r == Err::<u64, SaleError>(SaleError::UnsupportedPaymentToken),
            },
    {
        match self.proxies.get(token_id, 0) {
            Some(a) => Ok(a),
            None => Err(SaleError::UnsupportedPaymentToken),
        }
    }

    /// The reference-currency identifier.
    pub fn usdc_token_id(&self) -> (r: u64)
        ensures
            r == self.spec_usdc_token_id(),
    {
        self.usdc_token
    }

    /// A package's reference price, if set.
    pub fn package_prices(&self, package_id: u8) -> (r: Option<u128>)
        requires
            self.wf(),
        ensures
            r == self.price_of(package_id),
    {
        self.prices.get(package_id as u64, 0)
    }

    /// A package's content bundle, if set.
    pub fn package_content(&self, package_id: u8) -> (r: Option<AssetPayment>)
        requires
            self.wf(),
        ensures
            r == self.content_of(package_id),
    {
        self.contents.get(package_id as u64, 0)
    }

    /// The quoting-service address bound to a currency, if any.
    pub fn proxy_address(&self, input_token: u64) -> (r: Option<u64>)
        requires
            self.wf(),
        ensures
            r == self.proxy_of(input_token),
    {
        self.proxies.get(input_token, 0)
    }

    /// The contract's holdings of one asset.
    pub fn balance_of(&self, token_id: u64, nonce: u64) -> (r: u128)
        requires
            self.wf(),
        ensures
            r == self.bal(token_id, nonce),
    {
        match self.holdings.get(token_id, nonce) {
            Some(x) => x,
            None => 0,
        }
    }
}

} // verus!
