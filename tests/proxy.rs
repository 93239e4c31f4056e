use giga721::proxy::{
    check_recipient, check_sender, failure_refund, notification_args, send_transaction,
    AccountIdentifier, ErrType, LedgerTransaction, ProxyError, State, TargetReply, Transfer,
};
use giga721::types::{Principal, TransactionResponse};

fn account(hex: &str) -> AccountIdentifier {
    AccountIdentifier { hex: String::from(hex) }
}

fn configured() -> State {
    let mut s = State::default();
    s.token_canister = Some(Principal::from_text("rrkah-fqaaa-aaaaa-aaaaq-cai"));
    s
}

#[test]
fn test_is_processed() {
    let state = State::default();
    let processed = state.is_processed(1234);
    assert_eq!(processed, Ok(()));
}

#[test]
fn default_configuration() {
    let state = State::default();
    assert_eq!(state.ledger_canister.as_ref().unwrap().to_text(), "ryjl3-tyaaa-aaaaa-aaaba-cai");
    assert_eq!(state.market_fee, 2500);
    assert_eq!(state.count_processed(), 0);
}

#[test]
fn processed_block_is_refused_again() {
    let mut state = configured();
    assert!(state.begin_notify(42).is_ok());
    assert_eq!(state.is_processed(42), Err(ProxyError::AlreadyProcessed));
    assert_eq!(state.begin_notify(42).err(), Some(ProxyError::AlreadyProcessed));
    assert!(state.begin_notify(43).is_ok());
    assert_eq!(state.count_processed(), 2);
    let mut keys = state.get_processed();
    keys.sort();
    assert_eq!(keys, vec![42, 43]);
}

#[test]
fn unconfigured_target_is_refused_and_not_marked() {
    let mut state = State::default();
    assert_eq!(state.begin_notify(7).err(), Some(ProxyError::NotConfigured));
    assert_eq!(state.is_processed(7), Ok(()));
}

#[test]
fn recipient_mismatch_keeps_block_processed() {
    let mut state = configured();
    state.begin_notify(100).unwrap();
    let tx = LedgerTransaction {
        transfer: Some(Transfer::Send {
            from: account("aa"),
            to: account("bb"),
            amount: Some(5_000_000),
        }),
        memo: Some(3),
    };
    let t = send_transaction(Some(tx)).unwrap();
    assert_eq!(t.amount, 5_000_000);
    assert_eq!(t.memo, 3);
    assert_eq!(check_recipient(&account("cc"), &t.to), Err(ProxyError::RecipientMismatch));
    assert_eq!(check_recipient(&account("bb"), &t.to), Ok(()));
    assert_eq!(state.is_processed(100), Err(ProxyError::AlreadyProcessed));
}

#[test]
fn only_send_transfers_are_taken() {
    let burn = LedgerTransaction { transfer: Some(Transfer::Burn), memo: None };
    assert_eq!(send_transaction(Some(burn)).err(), Some(ProxyError::BurnTransfer));
    let mint = LedgerTransaction { transfer: Some(Transfer::Mint), memo: None };
    assert_eq!(send_transaction(Some(mint)).err(), Some(ProxyError::MintTransfer));
    let none = LedgerTransaction { transfer: None, memo: None };
    assert_eq!(send_transaction(Some(none)).err(), Some(ProxyError::NoTransfer));
    assert_eq!(send_transaction(None).err(), Some(ProxyError::NoTransaction));
    let no_amount = LedgerTransaction {
        transfer: Some(Transfer::Send { from: account("a"), to: account("b"), amount: None }),
        memo: None,
    };
    assert_eq!(send_transaction(Some(no_amount)).err(), Some(ProxyError::NoAmount));
    let no_memo = LedgerTransaction {
        transfer: Some(Transfer::Send { from: account("a"), to: account("b"), amount: Some(1) }),
        memo: None,
    };
    assert_eq!(send_transaction(Some(no_memo)).unwrap().memo, 0);
}

#[test]
fn sender_mismatch_goes_to_refund() {
    let e = check_sender(&account("aa"), &account("bb")).unwrap_err();
    assert_eq!(e.id, ErrType::Resp);
    assert_eq!(e.text, "Invalid block! Caller does not match block sender");
    assert!(check_sender(&account("aa"), &account("aa")).is_ok());
    assert_eq!(failure_refund(&e, 1_000_000), Some(990_000));
    assert_eq!(failure_refund(&e, 10_000), None);
}

#[test]
fn settlement_pays_seller_and_keeps_fees() {
    let mut state = State::default();
    let resp = TransactionResponse { seller: Principal::from_text("2vxsx-fae"), creators_fee: 2500 };
    let seller = state.process_response(1_000_000, &resp).unwrap();
    assert_eq!(seller, 950_000);
    let st = state.get_status();
    assert_eq!(st.waiting_market_fee, 25_000);
    assert_eq!(st.total_market_fee, 25_000);
    assert_eq!(st.waiting_creator_fee, 25_000);
    assert_eq!(st.total_creator_fee, 25_000);
    let resp2 = TransactionResponse { seller: Principal::from_text("2vxsx-fae"), creators_fee: 1000 };
    assert_eq!(state.process_response(333_333, &resp2), Ok(333_333 - 8_333 - 3_333));
    assert_eq!(state.get_status().waiting_market_fee, 33_333);
    let greedy = TransactionResponse { seller: Principal::from_text("2vxsx-fae"), creators_fee: 97_501 };
    // The rates add up to more than the whole, but the fees fit in the amount.
    assert_eq!(state.process_response(1_000, &greedy), Ok(0));
    let beyond = TransactionResponse { seller: Principal::from_text("2vxsx-fae"), creators_fee: 200_000 };
    let before = state.get_status();
    assert_eq!(state.process_response(1_000, &beyond), Err(ProxyError::FeeTooHigh));
    assert_eq!(state.get_status(), before);
    assert_eq!(state.process_response(0, &beyond), Ok(0));
}

#[test]
fn replies_are_classified_and_logged() {
    let mut state = configured();
    let caller = Principal::from_text("2vxsx-fae");
    let own = Principal::from_text("qoctq-giaaa-aaaaa-aaaea-cai");
    state.begin_notify(9).unwrap();
    let args = notification_args(&caller, &own, 9, 2_000_000, 4);
    assert_eq!(args.amount.e8s, 2_000_000);
    assert_eq!(args.to.to_text(), own.to_text());
    let r = state.finish_notification(args, TargetReply::CallFailed(String::from("down")), 5);
    let e = r.err().unwrap();
    assert_eq!(e.id, ErrType::Call);
    assert_eq!(e.text, "Error while calling token canister, down");
    assert_eq!(failure_refund(&e, 2_000_000), None);

    let args = notification_args(&caller, &own, 9, 2_000_000, 4);
    let e = state.finish_notification(args, TargetReply::Undecodable, 6).err().unwrap();
    assert_eq!(e.id, ErrType::Decode);
    assert_eq!(failure_refund(&e, 2_000_000), Some(1_990_000));

    let args = notification_args(&caller, &own, 9, 2_000_000, 4);
    let e = state
        .finish_notification(args, TargetReply::Replied(Err(String::from("not listed"))), 7)
        .err()
        .unwrap();
    assert_eq!(e.id, ErrType::Token);
    assert_eq!(e.text, "Error from token canister, not listed");

    let args = notification_args(&caller, &own, 9, 2_000_000, 4);
    let ok = TransactionResponse { seller: caller.copy(), creators_fee: 100 };
    let resp = state.finish_notification(args, TargetReply::Replied(Ok(ok)), 8).ok().unwrap();
    assert_eq!(resp.creators_fee, 100);
    assert_eq!(state.notifications.len(), 4);
    assert_eq!(state.notification_offset, 4);
    assert_eq!(state.notifications[3].timestamp, 8);
}

#[test]
fn payments_are_logged_with_outcome() {
    let mut state = State::default();
    let args = state.payment_args(String::from("abcd"), 950_000, 0).unwrap();
    assert_eq!(args.fee.e8s, 10_000);
    assert_eq!(args.to, "abcd");
    state.record_payment(args, Ok(77), 3);
    assert_eq!(state.payments.len(), 1);
    assert_eq!(state.payments[0].index, 1);
    assert_eq!(state.payments[0].result, Some(Ok(77)));
    state.ledger_canister = None;
    assert_eq!(state.payment_args(String::from("abcd"), 1, 0).err(), Some(ProxyError::LedgerNotSet));
}
