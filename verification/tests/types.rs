use xtc::types::{
    Account, Operation, Transaction, TransactionKind, TransactionStatus, TxRecord,
};

fn tx(kind: TransactionKind) -> Transaction {
    Transaction { timestamp: 12, cycles: 400, fee: 7, kind, status: TransactionStatus::SUCCEEDED }
}

#[test]
fn tx_record_from_transaction() {
    let a = Account(1);
    let b = Account(2);
    let c = Account(3);

    let r = TxRecord::from_transaction(tx(TransactionKind::Transfer { from: a, to: b }));
    assert_eq!(r.caller, None);
    assert_eq!((r.from, r.to, r.op), (a, b, Operation::transfer));
    assert_eq!((r.amount, r.fee, r.timestamp, r.index), (400, 7, 12, 0));
    assert_eq!(r.status, TransactionStatus::SUCCEEDED);

    let r = TxRecord::from_transaction(tx(TransactionKind::TransferFrom {
        caller: c,
        from: a,
        to: b,
    }));
    assert_eq!(r.caller, Some(c));
    assert_eq!((r.from, r.to, r.op), (a, b, Operation::transferFrom));

    let r = TxRecord::from_transaction(tx(TransactionKind::Approve { from: a, to: b }));
    assert_eq!((r.caller, r.op), (None, Operation::approve));

    let r = TxRecord::from_transaction(tx(TransactionKind::Mint { to: b }));
    assert_eq!((r.from, r.to, r.op), (b, b, Operation::mint));

    let r = TxRecord::from_transaction(tx(TransactionKind::Burn { from: a, to: b }));
    assert_eq!((r.from, r.to, r.op), (a, b, Operation::burn));

    let r = TxRecord::from_transaction(tx(TransactionKind::CanisterCalled {
        from: a,
        canister: b,
        method_name: "ping".to_string(),
    }));
    assert_eq!((r.from, r.to, r.op), (a, b, Operation::canisterCalled));

    let r = TxRecord::from_transaction(tx(TransactionKind::CanisterCreated {
        from: a,
        canister: b,
    }));
    assert_eq!((r.from, r.to, r.op), (a, b, Operation::canisterCreated));
}

#[test]
fn tx_record_set_index() {
    let r = TxRecord::from_transaction(tx(TransactionKind::Mint { to: Account(2) }));
    assert_eq!(r.index, 0);
    let r = r.setIndex(42);
    assert_eq!(r.index, 42);
    assert_eq!(r.op, Operation::mint);
}
