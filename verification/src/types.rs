//! Value types shared by the ledger and the history: accounts, transactions
//! and the paging records of the event log.

use vstd::prelude::*;

verus! {

/// A global transaction index, assigned monotonically starting at 0.
pub type TransactionId = u64;

/// An opaque address on the hosting platform, used both as a ledger key and
/// as the target of outbound calls. It carries value equality only.
#[derive(Clone, Copy, PartialEq, Eq, Structural, Hash, Debug)]
pub struct Account(pub u64);

/// The outcome recorded on a history entry.
#[derive(Clone, Copy, PartialEq, Eq, Structural, Debug)]
pub enum TransactionStatus {
    SUCCEEDED,
    FAILED,
    INPROGRESS,
}

/// What a history entry describes, tagged with the parties involved.
#[derive(PartialEq, Eq, Debug)]
pub enum TransactionKind {
    Transfer { from: Account, to: Account },
    TransferFrom { caller: Account, from: Account, to: Account },
    Approve { from: Account, to: Account },
    Mint { to: Account },
    Burn { from: Account, to: Account },
    CanisterCalled { from: Account, canister: Account, method_name: String },
    CanisterCreated { from: Account, canister: Account },
}

impl Clone for TransactionKind {
    fn clone(&self) -> (res: Self)
        ensures
            res == *self,
    {
        match self {
            TransactionKind::Transfer { from, to } => TransactionKind::Transfer {
                from: *from,
                to: *to,
            },
            TransactionKind::TransferFrom { caller, from, to } => TransactionKind::TransferFrom {
                caller: *caller,
                from: *from,
                to: *to,
            },
            TransactionKind::Approve { from, to } => TransactionKind::Approve {
                from: *from,
                to: *to,
            },
            TransactionKind::Mint { to } => TransactionKind::Mint { to: *to },
            TransactionKind::Burn { from, to } => TransactionKind::Burn {
                from: *from,
                to: *to,
            },
            TransactionKind::CanisterCalled { from, canister, method_name } => {
                TransactionKind::CanisterCalled {
                    from: *from,
                    canister: *canister,
                    method_name: method_name.clone(),
                }
            },
            TransactionKind::CanisterCreated { from, canister } => {
                TransactionKind::CanisterCreated {
                    from: *from,
                    canister: *canister,
                }
            },
        }
    }
}

/// One event of the history: the amount that actually moved, the fee that
/// was charged (never zero on insert), and the operation it records.
#[derive(PartialEq, Eq, Debug)]
pub struct Transaction {
    /// Nanoseconds at emission; normalized to milliseconds on insert.
    pub timestamp: u64,
    /// The amount of cycles that actually moved.
    pub cycles: u64,
    /// The fee charged; non-zero on every inserted entry.
    pub fee: u64,
    pub kind: TransactionKind,
    pub status: TransactionStatus,
}

impl Clone for Transaction {
    fn clone(&self) -> (res: Self)
        ensures
            res == *self,
    {
        Transaction {
            timestamp: self.timestamp,
            cycles: self.cycles,
            fee: self.fee,
            kind: self.kind.clone(),
            status: self.status,
        }
    }
}

/// The operation tag of a flattened transaction record.
#[derive(Clone, Copy, PartialEq, Eq, Structural, Debug)]
#[allow(non_camel_case_types)]
pub enum Operation {
    approve,
    mint,
    transfer,
    transferFrom,
    burn,
    canisterCalled,
    canisterCreated,
}

/// A transaction flattened into one record shape: the parties, the amount
/// and fee, the operation tag and the global index.
#[derive(Clone, Copy, PartialEq, Eq, Debug)]
pub struct TxRecord {
    /// The initiating party, where it differs from `from`.
    pub caller: Option<Account>,
    pub from: Account,
    pub to: Account,
    pub amount: u64,
    pub fee: u64,
    pub op: Operation,
    pub timestamp: u64,
    /// The global transaction index; 0 until [`TxRecord::setIndex`] sets it.
    pub index: u64,
    pub status: TransactionStatus,
}

impl TxRecord {
    /// The record with its global index set.
    #[allow(non_snake_case)]
    pub fn setIndex(self, index: u64) -> (r: Self)
        ensures
            r == (TxRecord { index, ..self }),
    {
        TxRecord { index, ..self }
    }

    /// Flatten a transaction into the record shape: each kind maps to its
    /// operation tag and its parties; a mint's recipient stands in both
    /// party fields, and a canister call or creation names the canister as
    /// the receiving party (the method name is dropped).
    pub fn from_transaction(transaction: Transaction) -> (r: TxRecord)
        ensures
            r.amount == transaction.cycles,
            r.fee == transaction.fee,
            r.timestamp == transaction.timestamp,
            r.index == 0,
            r.status == transaction.status,
            match transaction.kind {
                TransactionKind::Transfer { from, to } => r.caller is None && r.from == from
                    && r.to == to && r.op == Operation::transfer,
                TransactionKind::TransferFrom { caller, from, to } => r.caller == Some(caller)
                    && r.from == from && r.to == to && r.op == Operation::transferFrom,
                TransactionKind::Approve { from, to } => r.caller is None && r.from == from && r.to
                    == to && r.op == Operation::approve,
                TransactionKind::Mint { to } => r.caller is None && r.from == to && r.to == to
                    && r.op == Operation::mint,
                TransactionKind::Burn { from, to } => r.caller is None && r.from == from && r.to
                    == to && r.op == Operation::burn,
                TransactionKind::CanisterCalled { from, canister, .. } => r.caller is None
                    && r.from == from && r.to == canister && r.op == Operation::canisterCalled,
                TransactionKind::CanisterCreated { from, canister } => r.caller is None && r.from
                    == from && r.to == canister && r.op == Operation::canisterCreated,
            },
    {
        let (caller, from, to, op): (Option<Account>, Account, Account, Operation) = match &transaction.kind {
            TransactionKind::Transfer { from, to } => (None, *from, *to, Operation::transfer),
            TransactionKind::TransferFrom { caller, from, to } => (
                Some(*caller),
                *from,
                *to,
                Operation::transferFrom,
            ),
            TransactionKind::Approve { from, to } => (None, *from, *to, Operation::approve),
            TransactionKind::Mint { to } => (None, *to, *to, Operation::mint),
            TransactionKind::Burn { from, to } => (None, *from, *to, Operation::burn),
            TransactionKind::CanisterCalled { from, canister, method_name: _ } => (
                None,
                *from,
                *canister,
                Operation::canisterCalled,
            ),
            TransactionKind::CanisterCreated { from, canister } => (
                None,
                *from,
                *canister,
                Operation::canisterCreated,
            ),
        };
        TxRecord {
            caller,
            from,
            to,
            amount: transaction.cycles,
            fee: transaction.fee,
            op,
            timestamp: transaction.timestamp,
            index: 0,
            status: transaction.status,
        }
    }
}

/// The cursor of a paged read over the history.
pub struct EventsArgs {
    /// Read events strictly older than this id; the newest page when unset.
    pub offset: Option<u64>,
    /// The page size.
    pub limit: u16,
}

/// A page of events, sorted from newest to oldest, together with the cursor
/// at which the enumeration continues and the process that serves it.
pub struct EventsConnection<'a, Address, Event> {
    /// The events of this page, newest first.
    pub data: Vec<&'a Event>,
    /// Pass this offset to the next call to continue the enumeration.
    pub next_offset: TransactionId,
    /// The process to ask for the next page; the enumeration is complete
    /// when this is `None`.
    pub next_canister_id: Option<Address>,
}

/// The constant metadata of a bucket: its global offset and the link to the
/// next-older bucket on the chain.
pub struct SetBucketMetadataArgs<Address> {
    pub from: TransactionId,
    pub next: Option<Address>,
}

} // verus!
