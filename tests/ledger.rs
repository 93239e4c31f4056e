use giga721::ledger::Ledger;
use giga721::types::{Operation, Principal};

#[test]
fn ledger_indices_and_queries() {
    let mut ledger = Ledger::new();
    ledger.offset = 10;
    let a = Principal::from_text("aaaaa-aa");
    let b = Principal::from_text("2vxsx-fae");
    assert_eq!(ledger.add_genesis_record(&a, 1), 10);
    assert_eq!(ledger.mint(&a, &b, 7, 2), 11);
    assert_eq!(ledger.list(&b, 7, 5_000_000, 3), 12);
    assert_eq!(ledger.transfer(&b, &a, 8, 4), 13);
    assert_eq!(ledger.tx_amount(), 4);
    let seven = ledger.get_history_by_token(7);
    assert_eq!(seven.len(), 2);
    assert_eq!(seven[0].op, Operation::mint);
    assert_eq!(seven[1].op, Operation::list);
    assert_eq!(seven[1].price, Some(5_000_000));
    assert!(ledger.get_history_by_index(4).is_none());
    assert_eq!(ledger.get_history_by_index(2).unwrap().index, 12);
    assert_eq!(ledger.all_history().len(), 4);
    assert!(ledger.has_room(1));
    ledger.offset = u64::MAX - 3;
    assert!(!ledger.has_room(1));
}
