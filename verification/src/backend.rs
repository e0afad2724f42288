//! The abstract collaborator that hosts bucket processes: provisioning,
//! code installation, metadata wiring, batched appends and remote lookups.
//!
//! Every operation may fail with a diagnostic message; the flusher treats
//! any failure as recoverable. Nothing is promised of the results here: the
//! callers state what holds whatever a call returned. The in-memory
//! implementation ([`crate::mock::MockBackend`]) declares its own, stronger
//! ensures on each method, pinning what a direct call does to its stored
//! buckets; a call through this trait still promises nothing.

use vstd::prelude::*;

use crate::types::{SetBucketMetadataArgs, Transaction, TransactionId};

verus! {

/// The six operations the flusher and the history need from the platform.
pub trait Backend<Address> {
    /// Provision a new process to be used as a bucket.
    fn create_canister(&mut self) -> (r: Result<Address, String>);

    /// Install the bucket code on the given process.
    fn install_code(&mut self, canister_id: Address) -> (r: Result<(), String>);

    /// Stamp the bucket's constant metadata: its start offset and the link
    /// to the previous bucket.
    fn write_metadata(&mut self, canister_id: Address, data: SetBucketMetadataArgs<Address>) -> (r:
        Result<(), String>);

    /// Append a batch of events, sorted from oldest to newest, to the given
    /// bucket.
    fn append_transactions(&mut self, canister_id: Address, data: Vec<Transaction>) -> (r: Result<
        (),
        String,
    >);

    /// Ask the given bucket for the event with the given global id.
    fn lookup_transaction(&mut self, canister_id: Address, id: TransactionId) -> (r: Result<
        Option<Transaction>,
        String,
    >);

    /// The address of the hosting process itself.
    fn id(&self) -> (r: Address);
}

} // verus!
