use usd_price_token_sale::contract::UsdPriceTokenSaleContract;
use usd_price_token_sale::types::{AssetPayment, PurchaseOutcome, SaleError, Settlement};

const OWNER: u64 = 7;
const BUYER: u64 = 9;
const USDC: u64 = 5;
const ASSET_A: u64 = 42;
const FOREIGN: u64 = 77;
const ORACLE: u64 = 1234;

fn deploy() -> UsdPriceTokenSaleContract {
    match UsdPriceTokenSaleContract::init(OWNER, Some(USDC)) {
        Ok(c) => c,
        Err(_) => panic!("deployment failed"),
    }
}

/// Package 1 priced at 100 reference units, content 5 units of asset A,
/// the contract funded with 5 units of A, FOREIGN bound to an oracle.
fn deploy_with_package() -> UsdPriceTokenSaleContract {
    let mut c = deploy();
    assert!(c.set_package_price(OWNER, 1, 100).is_ok());
    assert!(c.add_package_content(OWNER, 1, ASSET_A, 0, 5).is_ok());
    assert!(c
        .deposit(OWNER, AssetPayment { token_id: ASSET_A, token_nonce: 0, amount: 5 })
        .is_ok());
    assert!(c.set_proxy_address(OWNER, FOREIGN, ORACLE).is_ok());
    c
}

fn pay(token_id: u64, amount: u128) -> AssetPayment {
    AssetPayment { token_id, token_nonce: 0, amount }
}

#[test]
fn empty_rs() {
    let c = deploy();
    assert_eq!(c.usdc_token_id(), USDC);
}

#[test]
fn init_without_reference_token_fails() {
    match UsdPriceTokenSaleContract::init(OWNER, None) {
        Err(e) => assert_eq!(e, SaleError::UsdcTokenNotSpecified),
        Ok(_) => panic!("init without a reference token must fail"),
    }
}

#[test]
fn direct_purchase_exact_payment_delivers() {
    let mut c = deploy_with_package();
    let r = c.buy_tokens(BUYER, pay(USDC, 100), 1);
    match r {
        Ok(PurchaseOutcome::Delivered(t)) => {
            assert_eq!(t.receiver, BUYER);
            assert_eq!(t.payment, pay(ASSET_A, 5));
        }
        _ => panic!("expected direct delivery"),
    }
    // custody change equals exactly the reference price; no refund
    assert_eq!(c.balance_of(USDC, 0), 100);
    assert_eq!(c.balance_of(ASSET_A, 0), 0);
}

#[test]
fn direct_purchase_wrong_amount_rejected() {
    let mut c = deploy_with_package();
    let r = c.buy_tokens(BUYER, pay(USDC, 99), 1);
    assert_eq!(r.err(), Some(SaleError::InvalidPaymentAmount));
    assert_eq!(c.balance_of(USDC, 0), 0);
    assert_eq!(c.balance_of(ASSET_A, 0), 5);
}

fn buy_async(c: &mut UsdPriceTokenSaleContract, amount: u128) -> usd_price_token_sale::types::PendingPurchase {
    match c.buy_tokens(BUYER, pay(FOREIGN, amount), 1) {
        Ok(PurchaseOutcome::QuoteRequested { oracle, token_in, amount_in, pending }) => {
            assert_eq!(oracle, ORACLE);
            assert_eq!(token_in, USDC);
            assert_eq!(amount_in, 100);
            pending
        }
        _ => panic!("expected a quote request"),
    }
}

#[test]
fn async_underpayment_refunds_in_full() {
    let mut c = deploy_with_package();
    let pending = buy_async(&mut c, 50);
    assert_eq!(c.balance_of(FOREIGN, 0), 50);
    match c.finish_transfer(pending, Ok(120)) {
        Ok(Settlement::Refund(t)) => {
            assert_eq!(t.receiver, BUYER);
            assert_eq!(t.payment, pay(FOREIGN, 50));
        }
        _ => panic!("expected a full refund"),
    }
    assert_eq!(c.balance_of(FOREIGN, 0), 0);
    assert_eq!(c.balance_of(ASSET_A, 0), 5);
}

#[test]
fn async_overpayment_delivers_and_refunds_difference() {
    let mut c = deploy_with_package();
    let pending = buy_async(&mut c, 150);
    match c.finish_transfer(pending, Ok(120)) {
        Ok(Settlement::DeliverWithRefund { content, refund }) => {
            assert_eq!(content.receiver, BUYER);
            assert_eq!(content.payment, pay(ASSET_A, 5));
            assert_eq!(refund.receiver, BUYER);
            assert_eq!(refund.payment, pay(FOREIGN, 30));
        }
        _ => panic!("expected delivery plus refund"),
    }
    assert_eq!(c.balance_of(FOREIGN, 0), 120);
    assert_eq!(c.balance_of(ASSET_A, 0), 0);
}

#[test]
fn async_exact_payment_delivers_with_zero_refund() {
    let mut c = deploy_with_package();
    let pending = buy_async(&mut c, 120);
    match c.finish_transfer(pending, Ok(120)) {
        Ok(Settlement::DeliverWithRefund { content, refund }) => {
            assert_eq!(content.payment, pay(ASSET_A, 5));
            assert_eq!(refund.payment, pay(FOREIGN, 0));
        }
        _ => panic!("expected delivery plus zero refund"),
    }
    assert_eq!(c.balance_of(FOREIGN, 0), 120);
}

#[test]
fn oracle_failure_refunds_in_full() {
    let mut c = deploy_with_package();
    let pending = buy_async(&mut c, 150);
    match c.finish_transfer(pending, Err(4)) {
        Ok(Settlement::Refund(t)) => {
            assert_eq!(t.receiver, BUYER);
            assert_eq!(t.payment, pay(FOREIGN, 150));
        }
        _ => panic!("expected a full refund"),
    }
    assert_eq!(c.balance_of(FOREIGN, 0), 0);
    assert_eq!(c.balance_of(ASSET_A, 0), 5);
}

#[test]
fn unbound_currency_rejected_before_custody() {
    let mut c = deploy_with_package();
    let r = c.buy_tokens(BUYER, pay(88, 150), 1);
    assert_eq!(r.err(), Some(SaleError::UnsupportedPaymentToken));
    assert_eq!(c.balance_of(88, 0), 0);
    assert_eq!(c.balance_of(ASSET_A, 0), 5);
}

#[test]
fn purchase_without_price_rejected() {
    let mut c = deploy();
    assert!(c.add_package_content(OWNER, 1, ASSET_A, 0, 5).is_ok());
    assert!(c
        .deposit(OWNER, AssetPayment { token_id: ASSET_A, token_nonce: 0, amount: 5 })
        .is_ok());
    let r = c.buy_tokens(BUYER, pay(USDC, 100), 1);
    assert_eq!(r.err(), Some(SaleError::PriceNotSet));
    assert_eq!(c.balance_of(USDC, 0), 0);
}

#[test]
fn purchase_without_content_rejected() {
    let mut c = deploy();
    assert!(c.set_package_price(OWNER, 1, 100).is_ok());
    let r = c.buy_tokens(BUYER, pay(USDC, 100), 1);
    assert_eq!(r.err(), Some(SaleError::ContentNotSet));
    assert_eq!(c.balance_of(USDC, 0), 0);
}

#[test]
fn purchase_with_short_holdings_rejected() {
    let mut c = deploy();
    assert!(c.set_package_price(OWNER, 1, 100).is_ok());
    assert!(c.add_package_content(OWNER, 1, ASSET_A, 0, 5).is_ok());
    assert!(c
        .deposit(OWNER, AssetPayment { token_id: ASSET_A, token_nonce: 0, amount: 4 })
        .is_ok());
    let r = c.buy_tokens(BUYER, pay(USDC, 100), 1);
    assert_eq!(r.err(), Some(SaleError::InsufficientContentBalance));
    assert_eq!(c.balance_of(USDC, 0), 0);
    assert_eq!(c.balance_of(ASSET_A, 0), 4);
}

#[test]
fn validate_package_purchase_reports_most_specific_error() {
    let mut c = deploy();
    assert_eq!(c.validate_package_purchase(1).err(), Some(SaleError::PriceNotSet));
    assert!(c.set_package_price(OWNER, 1, 100).is_ok());
    assert_eq!(c.validate_package_purchase(1).err(), Some(SaleError::ContentNotSet));
    assert!(c.add_package_content(OWNER, 1, ASSET_A, 0, 5).is_ok());
    assert_eq!(
        c.validate_package_purchase(1).err(),
        Some(SaleError::InsufficientContentBalance)
    );
    assert!(c
        .deposit(OWNER, AssetPayment { token_id: ASSET_A, token_nonce: 0, amount: 5 })
        .is_ok());
    assert!(c.validate_package_purchase(1).is_ok());
}

#[test]
fn non_owner_admin_calls_rejected_without_state_change() {
    let mut c = deploy_with_package();
    let intruder = 66;
    assert_eq!(c.set_package_price(intruder, 1, 1).err(), Some(SaleError::NotOwner));
    assert_eq!(
        c.add_package_content(intruder, 1, 3, 0, 1).err(),
        Some(SaleError::NotOwner)
    );
    assert_eq!(c.set_proxy_address(intruder, 3, 4).err(), Some(SaleError::NotOwner));
    assert_eq!(c.remove_package(intruder, 1).err(), Some(SaleError::NotOwner));
    assert_eq!(
        c.deposit(intruder, pay(ASSET_A, 1)).err(),
        Some(SaleError::NotOwner)
    );
    assert_eq!(
        c.withdraw(intruder, ASSET_A, 0, None).err(),
        Some(SaleError::NotOwner)
    );
    assert_eq!(c.package_prices(1), Some(100));
    assert_eq!(c.package_content(1), Some(pay(ASSET_A, 5)));
    assert_eq!(c.proxy_address(FOREIGN), Some(ORACLE));
    assert_eq!(c.proxy_address(3), None);
    assert_eq!(c.balance_of(ASSET_A, 0), 5);
}

#[test]
fn remove_package_clears_price_and_content() {
    let mut c = deploy_with_package();
    assert!(c.remove_package(OWNER, 1).is_ok());
    assert_eq!(c.package_prices(1), None);
    assert_eq!(c.package_content(1), None);
    let r = c.buy_tokens(BUYER, pay(USDC, 100), 1);
    assert_eq!(r.err(), Some(SaleError::PriceNotSet));
}

#[test]
fn withdraw_moves_whole_balance_to_caller_by_default() {
    let mut c = deploy_with_package();
    match c.withdraw(OWNER, ASSET_A, 0, None) {
        Ok(t) => {
            assert_eq!(t.receiver, OWNER);
            assert_eq!(t.payment, pay(ASSET_A, 5));
        }
        Err(_) => panic!("owner withdrawal must succeed"),
    }
    assert_eq!(c.balance_of(ASSET_A, 0), 0);
    match c.withdraw(OWNER, ASSET_A, 0, Some(BUYER)) {
        Ok(t) => {
            assert_eq!(t.receiver, BUYER);
            assert_eq!(t.payment, pay(ASSET_A, 0));
        }
        Err(_) => panic!("owner withdrawal must succeed"),
    }
}

#[test]
fn getters_reflect_admin_mutations() {
    let mut c = deploy();
    assert_eq!(c.usdc_token_id(), USDC);
    assert_eq!(c.package_prices(1), None);
    assert_eq!(c.package_content(1), None);
    assert_eq!(c.proxy_address(FOREIGN), None);
    assert!(c.set_package_price(OWNER, 1, 100).is_ok());
    assert!(c.set_package_price(OWNER, 1, 250).is_ok());
    assert_eq!(c.package_prices(1), Some(250));
    assert!(c.add_package_content(OWNER, 1, ASSET_A, 3, 5).is_ok());
    assert_eq!(
        c.package_content(1),
        Some(AssetPayment { token_id: ASSET_A, token_nonce: 3, amount: 5 })
    );
    assert!(c.set_proxy_address(OWNER, FOREIGN, ORACLE).is_ok());
    assert_eq!(c.proxy_address(FOREIGN), Some(ORACLE));
    assert_eq!(c.get_proxy_address_or_fail(FOREIGN), Ok(ORACLE));
    assert_eq!(
        c.get_proxy_address_or_fail(88),
        Err(SaleError::UnsupportedPaymentToken)
    );
}

#[test]
fn packages_are_independent() {
    let mut c = deploy_with_package();
    assert!(c.set_package_price(OWNER, 2, 300).is_ok());
    assert!(c.add_package_content(OWNER, 2, ASSET_A, 0, 1).is_ok());
    assert!(c.remove_package(OWNER, 2).is_ok());
    assert_eq!(c.package_prices(1), Some(100));
    assert_eq!(c.package_content(1), Some(pay(ASSET_A, 5)));
    assert_eq!(c.package_prices(2), None);
    assert_eq!(c.package_content(2), None);
}

#[test]
fn deposits_accumulate_and_withdraw_drains() {
    let mut c = deploy();
    assert!(c.deposit(OWNER, pay(ASSET_A, 3)).is_ok());
    assert!(c.deposit(OWNER, pay(ASSET_A, 4)).is_ok());
    assert_eq!(c.balance_of(ASSET_A, 0), 7);
    assert!(c.deposit(OWNER, pay(USDC, u128::MAX - 7)).is_ok());
    assert_eq!(c.balance_of(USDC, 0), u128::MAX - 7);
    match c.withdraw(OWNER, USDC, 0, None) {
        Ok(t) => assert_eq!(t.payment.amount, u128::MAX - 7),
        Err(_) => panic!("owner withdrawal must succeed"),
    }
    assert_eq!(c.balance_of(USDC, 0), 0);
    assert_eq!(c.balance_of(ASSET_A, 0), 7);
}

#[test]
fn content_with_nonce_is_its_own_holding() {
    let mut c = deploy();
    assert!(c.set_package_price(OWNER, 1, 100).is_ok());
    assert!(c.add_package_content(OWNER, 1, ASSET_A, 3, 5).is_ok());
    assert!(c
        .deposit(OWNER, AssetPayment { token_id: ASSET_A, token_nonce: 0, amount: 5 })
        .is_ok());
    // only the nonce-0 holding is funded; the content needs nonce 3
    let r = c.buy_tokens(BUYER, pay(USDC, 100), 1);
    assert_eq!(r.err(), Some(SaleError::InsufficientContentBalance));
    assert!(c
        .deposit(OWNER, AssetPayment { token_id: ASSET_A, token_nonce: 3, amount: 5 })
        .is_ok());
    match c.buy_tokens(BUYER, pay(USDC, 100), 1) {
        Ok(PurchaseOutcome::Delivered(t)) => {
            assert_eq!(
                t.payment,
                AssetPayment { token_id: ASSET_A, token_nonce: 3, amount: 5 }
            );
        }
        _ => panic!("expected direct delivery"),
    }
    assert_eq!(c.balance_of(ASSET_A, 3), 0);
    assert_eq!(c.balance_of(ASSET_A, 0), 5);
}

#[test]
fn continuation_delivery_failure_leaves_holdings_unchanged() {
    let mut c = deploy_with_package();
    let pending = buy_async(&mut c, 150);
    // the owner removes the package while the quote is outstanding
    assert!(c.remove_package(OWNER, 1).is_ok());
    match c.finish_transfer(pending, Ok(120)) {
        Err(e) => assert_eq!(e, SaleError::ContentNotSet),
        Ok(_) => panic!("delivery without content must fail"),
    }
    assert_eq!(c.balance_of(FOREIGN, 0), 150);
    assert_eq!(c.balance_of(ASSET_A, 0), 5);
}

#[test]
fn continuation_short_holdings_leave_state_unchanged() {
    let mut c = deploy_with_package();
    let pending = buy_async(&mut c, 150);
    // the owner drains the content asset while the quote is outstanding
    assert!(c.withdraw(OWNER, ASSET_A, 0, None).is_ok());
    match c.finish_transfer(pending, Ok(120)) {
        Err(e) => assert_eq!(e, SaleError::InsufficientContentBalance),
        Ok(_) => panic!("delivery without holdings must fail"),
    }
    assert_eq!(c.balance_of(FOREIGN, 0), 150);
    assert_eq!(c.balance_of(ASSET_A, 0), 0);
}
