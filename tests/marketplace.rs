use giga721::ledger::Ledger;
use giga721::marketplace::{failure_refund, Marketplace, Settlement};
use giga721::purchase::{purchase_step, PurchaseAction, PurchaseFailure};
use giga721::token::State;
use giga721::types::{ICPTs, MarketError, Operation, Principal, TransactionNotification};

fn user_a() -> Principal {
    Principal::from_text("ucoje-n5scm-5ag2l-xpy42-o56he-nu5jr-iq3vm-25e7q-tuq5y-i7vpi-qae")
}

fn user_b() -> Principal {
    Principal::from_text("mjfyj-22dca-dcahz-umwwq-vpe4r-iukdj-uuymz-fvphz-rt6my-g7vrs-5qe")
}

fn ledger_id() -> Principal {
    Principal::from_text("ryjl3-tyaaa-aaaaa-aaaba-cai")
}

fn get_state() -> State {
    let mut state = State::new(
        Some(user_a()),
        String::from("name"),
        String::from("symbol"),
        String::from("description"),
        10000,
    );
    state.is_paused = false;
    state
}

fn get_marketplace() -> Marketplace {
    let mut m = Marketplace::new();
    assert!(m.set_creators_fee(2500));
    m.creators_address = Some(user_a());
    m.notify_canister = Some(ledger_id());
    m.ledger_canister = Some(ledger_id());
    m.tx_enabled = true;
    m
}

fn notification(from: Principal, amount: u64, memo: u64) -> TransactionNotification {
    TransactionNotification {
        amount: ICPTs { e8s: amount },
        block_height: 12345,
        from,
        from_subaccount: None,
        memo,
        to: user_b(),
        to_subaccount: None,
    }
}

/// Carries out a settlement's payments in order, logging each one.
fn pay_out(market: &mut Marketplace, s: &Settlement) {
    market.send_icp(s.seller.to.to_text(), s.seller.amount, s.seller.memo, 0).unwrap();
    if let Some(c) = &s.creator {
        market.send_icp(c.to.to_text(), c.amount, c.memo, 0).unwrap();
    }
    if let Some(r) = &s.refund {
        market.send_icp(r.to.to_text(), r.amount, r.memo, 0).unwrap();
    }
}

#[test]
fn test_list() {
    let state_owner = user_a();
    let mut state = get_state();
    let mut ledger = Ledger::new();
    let mut market = Marketplace::new();
    let mint_result = state.mint_token_id(&state_owner, &state_owner, 1, &mut ledger, 0);
    // The ledger index of the mint record.
    assert_eq!(mint_result, Ok(0));
    market.tx_enabled = true;
    let list = market.list(&state, &mut ledger, &user_a(), 1, 100000000, 0);
    assert_eq!(list, Ok(1));
}

#[test]
fn test_list_delist() {
    let owner = user_a();
    let mut state = get_state();
    let mut ledger = Ledger::new();
    let mut market = Marketplace::new();
    let mint_result = state.mint_token_id(&owner, &owner, 1, &mut ledger, 0);
    assert_eq!(mint_result, Ok(0));
    market.tx_enabled = true;
    let list = market.list(&state, &mut ledger, &user_a(), 1, 100000000, 0);
    assert_eq!(list, Ok(1));
    let list = market.delist(&state, &mut ledger, &user_a(), 1, 0);
    assert_eq!(list, Ok(2));
}

#[test]
fn test_purchase() {
    let owner = user_a();
    let mut state = get_state();
    let mut ledger = Ledger::new();
    let mut market = get_marketplace();
    let mint_result = state.mint_token_id(&owner, &owner, 1, &mut ledger, 0);
    assert_eq!(mint_result, Ok(0));
    let list = market.list(&state, &mut ledger, &user_a(), 1, 1000000, 0);
    assert_eq!(list, Ok(1));
    let args = notification(owner, 1000000, 1);
    let settlement = market.purchase(&mut state, &mut ledger, &ledger_id(), &args, 0).unwrap();
    assert_eq!(settlement.block, 2);
    pay_out(&mut market, &settlement);
    assert_eq!(market.payments.len(), 2);
}

#[test]
fn end_to_end_sale() {
    let a = user_a();
    let b = user_b();
    let mut state = get_state();
    let mut ledger = Ledger::new();
    let mut market = get_marketplace();
    assert_eq!(state.mint_token_id(&a, &a, 1, &mut ledger, 0), Ok(0));
    assert_eq!(market.list(&state, &mut ledger, &a, 1, 1_000_000, 0), Ok(1));
    assert_eq!(market.delist(&state, &mut ledger, &a, 1, 0), Ok(2));
    assert_eq!(market.list(&state, &mut ledger, &a, 1, 1_000_000, 0), Ok(3));
    let args = notification(b.copy(), 1_000_000, 1);
    let s = market.purchase(&mut state, &mut ledger, &ledger_id(), &args, 0).unwrap();
    assert_eq!(s.block, 4);
    assert_eq!(market.get_listed_count(), 0);
    assert_eq!(state.get_owner(1).unwrap().to_text(), b.to_text());
    assert_eq!(ledger.tx[4].op, Operation::purchase);
    assert_eq!(ledger.tx[4].index, 4);
    assert_eq!(ledger.tx[4].price, Some(1_000_000));
    assert_eq!(market.stats.volume_traded, 1_000_000);
    assert_eq!(market.stats.highest_sell, 1_000_000);
    let st = market.stats(&state);
    assert_eq!(st.listings, 0);
    assert_eq!(st.volume_traded, 1_000_000);
}

#[test]
fn exact_price_pays_seller_and_creator_without_refund() {
    let a = user_a();
    let mut state = get_state();
    let mut ledger = Ledger::new();
    let mut market = get_marketplace();
    state.mint_token_id(&a, &a, 1, &mut ledger, 0).unwrap();
    market.list(&state, &mut ledger, &a, 1, 1_000_000, 0).unwrap();
    let s = market
        .purchase(&mut state, &mut ledger, &ledger_id(), &notification(user_b(), 1_000_000, 1), 0)
        .unwrap();
    // Creator share: 1_000_000 * 2500 / 100000 = 25_000.
    assert_eq!(s.seller.amount, 975_000);
    assert_eq!(s.seller.to.to_text(), a.to_text());
    assert_eq!(s.seller.memo, 1);
    // The creator pays both transfer fees out of the share.
    assert_eq!(s.creator.as_ref().unwrap().amount, 5_000);
    assert!(s.refund.is_none());
}

#[test]
fn surplus_above_fee_is_refunded() {
    let a = user_a();
    let mut state = get_state();
    let mut ledger = Ledger::new();
    let mut market = get_marketplace();
    state.mint_token_id(&a, &a, 1, &mut ledger, 0).unwrap();
    market.list(&state, &mut ledger, &a, 1, 1_000_000, 0).unwrap();
    let s = market
        .purchase(&mut state, &mut ledger, &ledger_id(), &notification(user_b(), 1_050_000, 1), 0)
        .unwrap();
    let r = s.refund.unwrap();
    assert_eq!(r.amount, 40_000);
    assert_eq!(r.to.to_text(), user_b().to_text());
}

#[test]
fn surplus_up_to_fee_is_kept() {
    let a = user_a();
    let mut state = get_state();
    let mut ledger = Ledger::new();
    let mut market = get_marketplace();
    state.mint_token_id(&a, &a, 1, &mut ledger, 0).unwrap();
    market.list(&state, &mut ledger, &a, 1, 1_000_000, 0).unwrap();
    let s = market
        .purchase(&mut state, &mut ledger, &ledger_id(), &notification(user_b(), 1_010_000, 1), 0)
        .unwrap();
    assert!(s.refund.is_none());
}

#[test]
fn small_creator_share_is_not_paid() {
    let a = user_a();
    let mut state = get_state();
    let mut ledger = Ledger::new();
    let mut market = get_marketplace();
    state.mint_token_id(&a, &a, 1, &mut ledger, 0).unwrap();
    market.list(&state, &mut ledger, &a, 1, 1_000_000, 0).unwrap();
    assert!(market.set_creators_fee(1000));
    assert!(!market.set_creators_fee(100001));
    let s = market
        .purchase(&mut state, &mut ledger, &ledger_id(), &notification(user_b(), 1_000_000, 1), 0)
        .unwrap();
    // Share of 10_000 does not cover the two fees.
    assert!(s.creator.is_none());
    assert_eq!(s.seller.amount, 990_000);
}

#[test]
fn second_purchase_of_sold_token_is_not_listed() {
    let a = user_a();
    let mut state = get_state();
    let mut ledger = Ledger::new();
    let mut market = get_marketplace();
    state.mint_token_id(&a, &a, 1, &mut ledger, 0).unwrap();
    market.list(&state, &mut ledger, &a, 1, 1_000_000, 0).unwrap();
    let args = notification(user_b(), 1_000_000, 1);
    let first = market.purchase(&mut state, &mut ledger, &ledger_id(), &args, 0).unwrap();
    // The first sale's payments are still pending when the second arrives.
    let second = market.purchase(&mut state, &mut ledger, &ledger_id(), &args, 0);
    assert_eq!(second.err(), Some(MarketError::NotListed));
    pay_out(&mut market, &first);
    assert_eq!(market.payments.len(), 2);
    assert_eq!(ledger.tx.len(), 3);
}

#[test]
fn low_price_is_refused_and_not_recorded() {
    let a = user_a();
    let mut state = get_state();
    let mut ledger = Ledger::new();
    let mut market = get_marketplace();
    state.mint_token_id(&a, &a, 1, &mut ledger, 0).unwrap();
    assert_eq!(market.list(&state, &mut ledger, &a, 1, 999_999, 0), Err(MarketError::PriceTooLow));
    assert_eq!(market.get_listed_count(), 0);
    assert_eq!(ledger.tx.len(), 1);
    assert_eq!(market.list(&state, &mut ledger, &a, 1, 1_000_000, 0), Ok(1));
}

#[test]
fn list_then_delist_restores_unlisted() {
    let a = user_a();
    let mut state = get_state();
    let mut ledger = Ledger::new();
    let mut market = get_marketplace();
    state.mint_token_id(&a, &a, 1, &mut ledger, 0).unwrap();
    let i1 = market.list(&state, &mut ledger, &a, 1, 2_000_000, 0).unwrap();
    let i2 = market.delist(&state, &mut ledger, &a, 1, 0).unwrap();
    assert!(i1 < i2);
    assert_eq!(market.get_listed_count(), 0);
    assert_eq!(market.delist(&state, &mut ledger, &a, 1, 0), Err(MarketError::NotListed));
}

#[test]
fn relisting_keeps_index_and_updates_price() {
    let a = user_a();
    let mut state = get_state();
    let mut ledger = Ledger::new();
    let mut market = get_marketplace();
    state.mint_token_id(&a, &a, 1, &mut ledger, 0).unwrap();
    market.list(&state, &mut ledger, &a, 1, 2_000_000, 0).unwrap();
    market.list(&state, &mut ledger, &a, 1, 3_000_000, 0).unwrap();
    let l = market.listings.get(&1).unwrap();
    assert_eq!(l.index, 1);
    assert_eq!(l.price, 3_000_000);
    assert_eq!(market.listing_offset, 1);
}

#[test]
fn marketplace_errors() {
    let a = user_a();
    let b = user_b();
    let mut state = get_state();
    let mut ledger = Ledger::new();
    let mut market = get_marketplace();
    state.mint_token_id(&a, &a, 1, &mut ledger, 0).unwrap();
    assert_eq!(market.list(&state, &mut ledger, &a, 2, 1_000_000, 0), Err(MarketError::InvalidToken));
    assert_eq!(market.list(&state, &mut ledger, &b, 1, 1_000_000, 0), Err(MarketError::NotOwner));
    market.list(&state, &mut ledger, &a, 1, 1_000_000, 0).unwrap();
    let args = notification(b.copy(), 999_999, 1);
    assert_eq!(market.purchase(&mut state, &mut ledger, &b, &args, 0).err(), Some(MarketError::Unauthorized));
    assert_eq!(
        market.purchase(&mut state, &mut ledger, &ledger_id(), &args, 0).err(),
        Some(MarketError::InsufficientPayment)
    );
    let other = notification(b.copy(), 1_000_000, 2);
    assert_eq!(market.purchase(&mut state, &mut ledger, &ledger_id(), &other, 0).err(), Some(MarketError::NotListed));
    market.creators_address = None;
    let full = notification(b.copy(), 1_000_000, 1);
    assert_eq!(market.purchase(&mut state, &mut ledger, &ledger_id(), &full, 0).err(), Some(MarketError::CreatorNotSet));
    market.creators_address = Some(a.copy());
    state.burn(&a, 1, &mut ledger, 0).unwrap();
    assert_eq!(market.purchase(&mut state, &mut ledger, &ledger_id(), &full, 0).err(), Some(MarketError::OwnerChanged));
    market.ledger_canister = None;
    assert_eq!(market.purchase(&mut state, &mut ledger, &ledger_id(), &full, 0).err(), Some(MarketError::LedgerNotSet));
    assert_eq!(market.send_icp(String::from("x"), 1, 0, 0).err(), Some(MarketError::LedgerNotSet));
    market.tx_enabled = false;
    assert_eq!(market.list(&state, &mut ledger, &a, 1, 1_000_000, 0), Err(MarketError::TxDisabled));
    assert_eq!(market.purchase(&mut state, &mut ledger, &ledger_id(), &full, 0).err(), Some(MarketError::TxDisabled));
}

#[test]
fn failed_purchase_refunds_less_fee() {
    let r = failure_refund(&notification(user_b(), 500_000, 7)).unwrap();
    assert_eq!(r.amount, 490_000);
    assert_eq!(r.memo, 7);
    assert!(failure_refund(&notification(user_b(), 10_000, 7)).is_none());
}

fn listed_market() -> (State, Ledger, Marketplace) {
    let a = user_a();
    let mut state = get_state();
    let mut ledger = Ledger::new();
    let mut market = get_marketplace();
    state.mint_token_id(&a, &a, 1, &mut ledger, 0).unwrap();
    market.list(&state, &mut ledger, &a, 1, 1_000_000, 0).unwrap();
    (state, ledger, market)
}

#[test]
fn purchase_session_pays_in_order() {
    let (mut state, mut ledger, mut market) = listed_market();
    let args = notification(user_b(), 1_050_000, 1);
    let (s, a) = market.purchase_session(&mut state, &mut ledger, &ledger_id(), &args, 0);
    assert!(matches!(&a, PurchaseAction::Pay(p) if p.amount == 975_000));
    let (s, a) = purchase_step(s.unwrap(), Ok(1));
    assert!(matches!(&a, PurchaseAction::Pay(p) if p.amount == 5_000));
    let (s, a) = purchase_step(s.unwrap(), Ok(2));
    assert!(matches!(&a, PurchaseAction::Pay(p) if p.amount == 40_000));
    // A failed surplus refund does not fail the purchase.
    let (s, a) = purchase_step(s.unwrap(), Err(String::from("busy")));
    assert!(s.is_none());
    assert!(matches!(a, PurchaseAction::Finish(Ok(2))));
}

#[test]
fn purchase_session_compensates_failed_payment() {
    let (mut state, mut ledger, mut market) = listed_market();
    let args = notification(user_b(), 1_000_000, 1);
    let (s, _) = market.purchase_session(&mut state, &mut ledger, &ledger_id(), &args, 0);
    let (s, a) = purchase_step(s.unwrap(), Err(String::from("ledger down")));
    assert!(matches!(&a, PurchaseAction::Pay(p) if p.amount == 990_000 && p.memo == 1));
    let (s, a) = purchase_step(s.unwrap(), Ok(3));
    assert!(s.is_none());
    assert!(matches!(a, PurchaseAction::Finish(Err(PurchaseFailure::Payment(_)))));
}

#[test]
fn refused_purchase_is_returned_less_fee() {
    let (mut state, mut ledger, mut market) = listed_market();
    let args = notification(user_b(), 1_000_000, 2);
    let (s, a) = market.purchase_session(&mut state, &mut ledger, &ledger_id(), &args, 0);
    assert!(matches!(&a, PurchaseAction::Pay(p) if p.amount == 990_000));
    let (s, a) = purchase_step(s.unwrap(), Ok(4));
    assert!(s.is_none());
    assert!(matches!(a, PurchaseAction::Finish(Err(PurchaseFailure::Refused(MarketError::NotListed)))));
    let tiny = notification(user_b(), 10_000, 2);
    let (s, a) = market.purchase_session(&mut state, &mut ledger, &ledger_id(), &tiny, 0);
    assert!(s.is_none());
    assert!(matches!(a, PurchaseAction::Finish(Err(PurchaseFailure::Refused(MarketError::NotListed)))));
}

#[test]
fn payment_outcomes_are_recorded() {
    let mut market = get_marketplace();
    market.send_icp(String::from("aa"), 100, 1, 0).unwrap();
    market.send_icp(String::from("bb"), 200, 2, 0).unwrap();
    assert!(market.record_payment_outcome(2, Err(String::from("refused"))));
    assert!(market.record_payment_outcome(1, Ok(77)));
    assert!(!market.record_payment_outcome(3, Ok(1)));
    assert_eq!(market.payments[0].block_height, Some(77));
    assert_eq!(market.payments[0].error, None);
    assert_eq!(market.payments[1].block_height, None);
    assert_eq!(market.payments[1].error, Some(String::from("refused")));
}

#[test]
fn creator_share_of_exactly_two_fees_is_paid() {
    let a = user_a();
    let mut state = get_state();
    let mut ledger = Ledger::new();
    let mut market = get_marketplace();
    state.mint_token_id(&a, &a, 1, &mut ledger, 0).unwrap();
    market.list(&state, &mut ledger, &a, 1, 1_000_000, 0).unwrap();
    // 1_000_000 * 2000 / 100000 = 20_000, exactly the two transfer fees.
    assert!(market.set_creators_fee(2000));
    let s = market
        .purchase(&mut state, &mut ledger, &ledger_id(), &notification(user_b(), 1_000_000, 1), 0)
        .unwrap();
    assert_eq!(s.seller.amount, 980_000);
    assert_eq!(s.creator.as_ref().unwrap().amount, 0);
    assert!(s.refund.is_none());
}
