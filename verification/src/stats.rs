//! Usage counters, carried across snapshots. These are display figures
//! only: they saturate instead of overflowing and nothing else depends on
//! them.

use vstd::prelude::*;

use crate::types::TransactionKind;

verus! {

/// How many operations of each kind ran, and the fees charged in all.
#[derive(Clone, Copy, PartialEq, Eq, Structural, Debug)]
pub struct StatsData {
    /// The sum of all fees charged, saturating.
    pub fee: u64,
    pub transfers_count: u64,
    pub transfers_from_count: u64,
    pub approvals_count: u64,
    pub mints_count: u64,
    pub burns_count: u64,
    pub proxy_calls_count: u64,
    pub canisters_created_count: u64,
}

/// `a + b`, stopping at the top of the range.
fn saturating_add(a: u64, b: u64) -> (r: u64)
    ensures
        r == if a + b <= u64::MAX {
            a + b
        } else {
            u64::MAX as int
        },
{
    if a <= u64::MAX - b {
        a + b
    } else {
        u64::MAX
    }
}

impl StatsData {
    /// All counters at zero.
    pub fn default() -> (r: Self)
        ensures
            r == (StatsData {
                fee: 0,
                transfers_count: 0,
                transfers_from_count: 0,
                approvals_count: 0,
                mints_count: 0,
                burns_count: 0,
                proxy_calls_count: 0,
                canisters_created_count: 0,
            }),
    {
        StatsData {
            fee: 0,
            transfers_count: 0,
            transfers_from_count: 0,
            approvals_count: 0,
            mints_count: 0,
            burns_count: 0,
            proxy_calls_count: 0,
            canisters_created_count: 0,
        }
    }

    /// Count one emitted history entry: bump the counter of its kind and
    /// capture its fee.
    pub fn record(&mut self, kind: &TransactionKind, fee: u64) {
        self.fee = saturating_add(self.fee, fee);
        match kind {
            TransactionKind::Transfer { .. } => {
                self.transfers_count = saturating_add(self.transfers_count, 1);
            },
            TransactionKind::TransferFrom { .. } => {
                self.transfers_from_count = saturating_add(self.transfers_from_count, 1);
            },
            TransactionKind::Approve { .. } => {
                self.approvals_count = saturating_add(self.approvals_count, 1);
            },
            TransactionKind::Mint { .. } => {
                self.mints_count = saturating_add(self.mints_count, 1);
            },
            TransactionKind::Burn { .. } => {
                self.burns_count = saturating_add(self.burns_count, 1);
            },
            TransactionKind::CanisterCalled { .. } => {
                self.proxy_calls_count = saturating_add(self.proxy_calls_count, 1);
            },
            TransactionKind::CanisterCreated { .. } => {
                self.canisters_created_count = saturating_add(self.canisters_created_count, 1);
            },
        }
    }
}

} // verus!
