use xtc::data::HistoryArchive;
use xtc::engine::{BurnError, CallOutcome, CreateOutcome, Engine, Snapshot};
use xtc::fee::compute_fee;
use xtc::ledger::TxError;
use xtc::mock::MockBackend;
use xtc::stats::StatsData;
use xtc::types::{Account, EventsArgs, Transaction, TransactionKind, TransactionStatus};

const FEE: u64 = 2_000_000_000;

fn alice() -> Account {
    Account(1)
}

fn bob() -> Account {
    Account(2)
}

fn fresh_engine() -> Engine<u32> {
    Engine::new(1000, 100)
}

/// Preload balances through a snapshot restore, as an upgrade would.
fn engine_with(balances: Vec<(Account, u64)>) -> Engine<u32> {
    let mut engine = fresh_engine();
    engine.load(Snapshot {
        ledger: balances,
        history: HistoryArchive { offset: 0, events: vec![], buckets: vec![] },
        controller: Account(100),
        stats: StatsData::default(),
    });
    engine
}

#[test]
fn fee_is_flat_and_nonzero() {
    assert_eq!(compute_fee(0), FEE);
    assert_eq!(compute_fee(1), FEE);
    assert_eq!(compute_fee(u64::MAX), FEE);
}

/// Transfer happy path: the recipient gets the amount, the sender pays the
/// amount plus the fee, and the history records one succeeded transfer.
#[test]
fn transfer_happy_path() {
    let mut backend = MockBackend::new();
    let mut engine = engine_with(vec![(alice(), 10_000_000_000)]);

    let id = engine.transfer(&mut backend, alice(), bob(), 1_000, 5_000_000).unwrap();
    assert_eq!(id, 0);
    assert_eq!(engine.balance(alice()), 10_000_000_000 - 1_000 - FEE);
    assert_eq!(engine.balance(bob()), 1_000);

    let event = engine.get_transaction(0, &mut backend).unwrap();
    assert_eq!(
        event,
        Transaction {
            timestamp: 5,
            cycles: 1_000,
            fee: FEE,
            kind: TransactionKind::Transfer { from: alice(), to: bob() },
            status: TransactionStatus::SUCCEEDED,
        }
    );
    assert_eq!(engine.history().len(), 1);
}

#[test]
fn transfer_insufficient_balance() {
    let mut backend = MockBackend::new();
    let mut engine = engine_with(vec![(alice(), 1_000_000_000)]);
    assert_eq!(
        engine.transfer(&mut backend, alice(), bob(), 1_000, 0),
        Err(TxError::InsufficientBalance)
    );
    assert_eq!(engine.balance(alice()), 1_000_000_000);
    assert_eq!(engine.history().len(), 0);
}

#[test]
fn transfer_from_insufficient_allowance() {
    let mut backend = MockBackend::new();
    let mut engine = engine_with(vec![(alice(), 10_000_000_000)]);
    assert_eq!(
        engine.transfer_from(&mut backend, bob(), alice(), Account(3), 1_000, 0),
        Err(TxError::InsufficientAllowance)
    );
}

/// Approve then draw through the engine: the allowance folds in the fee and
/// shrinks by amount plus fee.
#[test]
fn approve_then_transfer_from() {
    let mut backend = MockBackend::new();
    let mut engine = engine_with(vec![(alice(), 30_000_000_000)]);

    let id = engine.approve(&mut backend, alice(), bob(), 5_000_000_000, 1_000_000).unwrap();
    assert_eq!(id, 0);
    assert_eq!(engine.allowance(alice(), bob()), 5_000_000_000 + FEE);
    assert_eq!(engine.balance(alice()), 30_000_000_000 - FEE);

    let id = engine
        .transfer_from(&mut backend, bob(), alice(), Account(3), 3_000_000_000, 2_000_000)
        .unwrap();
    assert_eq!(id, 1);
    assert_eq!(engine.allowance(alice(), bob()), 5_000_000_000 + FEE - 3_000_000_000 - FEE);
    assert_eq!(engine.balance(Account(3)), 3_000_000_000);
    assert_eq!(engine.balance(alice()), 30_000_000_000 - FEE - 3_000_000_000 - FEE);

    let event = engine.get_transaction(1, &mut backend).unwrap();
    assert_eq!(
        event.kind,
        TransactionKind::TransferFrom { caller: bob(), from: alice(), to: Account(3) }
    );
    assert_eq!(event.status, TransactionStatus::SUCCEEDED);
}

/// Burn failure refund: the caller ends exactly one deduced fee short, and
/// the history holds one failed burn with zero cycles.
#[test]
fn burn_failure_refund() {
    let mut backend = MockBackend::new();
    let mut engine = engine_with(vec![(alice(), 3_000_000_000)]);
    let target = Account(9);

    engine.burn_prepare(&mut backend, alice(), 1_000).unwrap();
    let r = engine.burn_settle(alice(), target, 1_000, CallOutcome::Failed, 7_000_000);
    assert_eq!(r, Err(BurnError::InvalidTokenContract));

    assert_eq!(engine.balance(alice()), 3_000_000_000 - FEE);
    let event = engine.get_transaction(0, &mut backend).unwrap();
    assert_eq!(
        event,
        Transaction {
            timestamp: 7,
            cycles: 0,
            fee: FEE,
            kind: TransactionKind::Burn { from: alice(), to: target },
            status: TransactionStatus::FAILED,
        }
    );
}

/// Burn success with a partial refund: the unspent cycles and the fee
/// difference come back, and the entry records what actually moved.
#[test]
fn burn_success_refund() {
    let mut backend = MockBackend::new();
    let mut engine = engine_with(vec![(alice(), 10_000_000_000)]);
    let target = Account(9);

    engine.burn_prepare(&mut backend, alice(), 5_000).unwrap();
    assert_eq!(engine.balance(alice()), 10_000_000_000 - 5_000 - FEE);

    let id = engine
        .burn_settle(alice(), target, 5_000, CallOutcome::Succeeded { refunded: 2_000 }, 0)
        .unwrap();
    assert_eq!(id, 0);
    // The flat fee leaves no fee difference; only the refund comes back.
    assert_eq!(engine.balance(alice()), 10_000_000_000 - 5_000 - FEE + 2_000);
    let event = engine.get_transaction(0, &mut backend).unwrap();
    assert_eq!(event.cycles, 3_000);
    assert_eq!(event.fee, FEE);
    assert_eq!(event.status, TransactionStatus::SUCCEEDED);
}

/// Mint with a delivery too small: nothing changes and the operation fails.
#[test]
fn mint_refund_too_small() {
    let mut backend = MockBackend::new();
    let mut engine = fresh_engine();

    let r = engine.mint(&mut backend, alice(), 1, 0);
    assert_eq!(r, Err(TxError::AmountTooSmall));
    assert_eq!(engine.balance(alice()), 0);
    assert_eq!(engine.history().len(), 0);

    // Exactly the fee is still too small.
    let r = engine.mint(&mut backend, alice(), FEE, 0);
    assert_eq!(r, Err(TxError::AmountTooSmall));
}

#[test]
fn mint_credits_all_above_fee() {
    let mut backend = MockBackend::new();
    let mut engine = fresh_engine();

    let id = engine.mint(&mut backend, alice(), FEE + 5, 3_000_000).unwrap();
    assert_eq!(id, 0);
    assert_eq!(engine.balance(alice()), 5);
    let event = engine.get_transaction(0, &mut backend).unwrap();
    assert_eq!(
        event,
        Transaction {
            timestamp: 3,
            cycles: 5,
            fee: FEE,
            kind: TransactionKind::Mint { to: alice() },
            status: TransactionStatus::SUCCEEDED,
        }
    );
}

/// Forwarding a call to the engine's own process is refused before any
/// withdraw.
#[test]
fn wallet_call_to_self_is_refused() {
    let mut backend = MockBackend::new();
    let mut engine = engine_with(vec![(alice(), 10_000_000_000)]);
    let me = Account(50);
    assert_eq!(
        engine.wallet_call_prepare(&mut backend, alice(), me, me, 1_000),
        Err(TxError::CallFailed)
    );
    assert_eq!(engine.balance(alice()), 10_000_000_000);
}

#[test]
fn wallet_call_failure_forfeits_fee() {
    let mut backend = MockBackend::new();
    let mut engine = engine_with(vec![(alice(), 10_000_000_000)]);
    let target = Account(9);

    engine.wallet_call_prepare(&mut backend, alice(), target, Account(50), 4_000).unwrap();
    let r = engine.wallet_call_settle(
        alice(),
        target,
        "ping".to_string(),
        4_000,
        CallOutcome::Failed,
        0,
    );
    assert_eq!(r, Err(TxError::CallFailed));
    assert_eq!(engine.balance(alice()), 10_000_000_000 - FEE);
    let event = engine.get_transaction(0, &mut backend).unwrap();
    assert_eq!(event.cycles, 0);
    assert_eq!(event.status, TransactionStatus::FAILED);
    assert_eq!(
        event.kind,
        TransactionKind::CanisterCalled {
            from: alice(),
            canister: target,
            method_name: "ping".to_string()
        }
    );
}

#[test]
fn wallet_create_canister_records_new_canister() {
    let mut backend = MockBackend::new();
    let mut engine = engine_with(vec![(alice(), 10_000_000_000)]);

    engine.wallet_create_canister_prepare(&mut backend, alice(), 6_000).unwrap();
    let created = Account(77);
    let id = engine
        .wallet_create_canister_settle(
            alice(),
            6_000,
            CreateOutcome::Succeeded { canister: created, refunded: 0 },
            0,
        )
        .unwrap();
    assert_eq!(id, 0);
    let event = engine.get_transaction(0, &mut backend).unwrap();
    assert_eq!(event.kind, TransactionKind::CanisterCreated { from: alice(), canister: created });
    assert_eq!(event.cycles, 6_000);
}

#[test]
fn wallet_send_records_burn() {
    let mut backend = MockBackend::new();
    let mut engine = engine_with(vec![(alice(), 10_000_000_000)]);
    let target = Account(9);

    engine.wallet_send_prepare(&mut backend, alice(), 2_500).unwrap();
    let id = engine
        .wallet_send_settle(alice(), target, 2_500, CallOutcome::Succeeded { refunded: 0 }, 0)
        .unwrap();
    assert_eq!(id, 0);
    let event = engine.get_transaction(0, &mut backend).unwrap();
    assert_eq!(event.kind, TransactionKind::Burn { from: alice(), to: target });
    assert_eq!(event.cycles, 2_500);
    assert_eq!(event.status, TransactionStatus::SUCCEEDED);
}

/// Only the controller can halt; halting sticks until a restore.
#[test]
fn halt_is_controller_only() {
    let mut engine = fresh_engine();
    engine.init(alice());
    assert_eq!(engine.halt(bob()), Err(TxError::NotController));
    assert!(!engine.is_halted());
    assert_eq!(engine.halt(alice()), Ok(()));
    assert!(engine.is_halted());
}

#[test]
fn finish_pending_tasks_is_controller_only() {
    let mut backend = MockBackend::new();
    let mut engine = fresh_engine();
    engine.init(alice());
    assert_eq!(
        engine.finish_pending_tasks(&mut backend, bob(), 10),
        Err(TxError::NotController)
    );
    assert_eq!(engine.finish_pending_tasks(&mut backend, alice(), 10), Ok(()));
}

/// Snapshot round-trip: a restored engine answers every query as the
/// archived one did, with the halted flag reset.
#[test]
fn snapshot_roundtrip() {
    let mut backend = MockBackend::new();
    let mut engine = fresh_engine();
    engine.init(Account(100));
    engine.mint(&mut backend, alice(), FEE + 700, 0).unwrap();
    engine.transfer(&mut backend, alice(), bob(), 300, 0).unwrap_err();
    engine.mint(&mut backend, bob(), FEE + 40, 0).unwrap();
    engine.halt(Account(100)).unwrap();

    let snapshot = engine.archive();
    let mut restored: Engine<u32> = Engine::new(1000, 100);
    restored.load(snapshot);

    assert_eq!(restored.balance(alice()), 700);
    assert_eq!(restored.balance(bob()), 40);
    assert_eq!(restored.history().len(), 2);
    assert_eq!(
        restored.get_transaction(0, &mut backend),
        engine.get_transaction(0, &mut backend)
    );
    assert_eq!(
        restored.get_transaction(1, &mut backend),
        engine.get_transaction(1, &mut backend)
    );
    assert_eq!(restored.stats(), engine.stats());
    assert!(!restored.is_halted());

    let page = restored.events(EventsArgs { offset: None, limit: 10 }, &backend);
    assert_eq!(page.data.len(), 2);
    assert_eq!(page.data[0].kind, TransactionKind::Mint { to: bob() });
    assert_eq!(page.data[1].kind, TransactionKind::Mint { to: alice() });
}

/// The usage counters follow the emitted entries.
#[test]
fn stats_count_operations() {
    let mut backend = MockBackend::new();
    let mut engine = fresh_engine();
    engine.mint(&mut backend, alice(), FEE + 700, 0).unwrap();
    engine.transfer(&mut backend, alice(), bob(), 100, 0).unwrap_err();
    let stats = engine.stats();
    assert_eq!(stats.mints_count, 1);
    assert_eq!(stats.transfers_count, 0);
    assert_eq!(stats.fee, FEE);
}
