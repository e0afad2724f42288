//! The engine: the operation surface the outer dispatcher calls. Every
//! mutation first gives the flusher one cooperative slot, then runs against
//! the ledger, then emits a history entry whose fee follows
//! [`crate::fee::compute_fee`].
//!
//! Operations that make an outbound call are split at the suspension point:
//! a `*_prepare` function withdraws the principal plus the deduced fee and
//! the host performs the call; a `*_settle` function takes the call's
//! outcome, re-deposits what is owed, and emits the history entry. The
//! withdraw is the commit point for funds leaving the account; the settle
//! compensates on refund or failure.

use vstd::prelude::*;

use crate::backend::Backend;
use crate::data::{events_post, HistoryArchive};
use crate::fee::{compute_fee, lemma_compute_fee_monotone, spec_compute_fee};
use crate::history::History;
use crate::ledger::{Ledger, TxError};
use crate::stats::StatsData;
use crate::types::{
    Account, EventsArgs, EventsConnection, Transaction, TransactionId, TransactionKind,
    TransactionStatus,
};

verus! {

/// What an outbound call came back with.
pub enum CallOutcome {
    /// The call was delivered; the platform refunded this many of the
    /// attached cycles.
    Succeeded { refunded: u64 },
    /// The call failed; all attached cycles came back.
    Failed,
}

/// What a create-canister call came back with.
pub enum CreateOutcome {
    /// The platform created this canister and refunded this many cycles.
    Succeeded { canister: Account, refunded: u64 },
    /// The call failed; all attached cycles came back.
    Failed,
}

/// The errors of the burn operation.
#[derive(Clone, Copy, PartialEq, Eq, Structural, Debug)]
pub enum BurnError {
    InsufficientBalance,
    InvalidTokenContract,
    NotSufficientLiquidity,
}

/// A consistent cross-upgrade image of the engine: balances, history,
/// controller and stats. Allowances are not part of the image, and the
/// halted flag is reset by a restore.
pub struct Snapshot<Address> {
    pub ledger: Vec<(Account, u64)>,
    pub history: HistoryArchive<Address>,
    pub controller: Account,
    pub stats: StatsData,
}

/// The history entry an operation emits: the timestamp is normalized from
/// nanoseconds to milliseconds on insert.
pub open spec fn event_record(
    kind: TransactionKind,
    cycles: u64,
    fee: u64,
    status: TransactionStatus,
    now: u64,
) -> Transaction {
    Transaction { timestamp: (now / 1_000_000) as u64, cycles, fee, kind, status }
}

/// The engine: ledger, history, stats, controller and the halted flag,
/// owned by the hosting dispatcher and passed into every handler.
pub struct Engine<Address> {
    ledger: Ledger,
    history: History<Address>,
    stats: StatsData,
    /// Set once, to the first caller; only it may halt or run maintenance.
    controller: Option<Account>,
    /// While set, every mutating operation is refused; cleared by a restore.
    halted: bool,
}

impl<Address> Engine<Address> {
    pub closed spec fn ledger_spec(&self) -> Ledger {
        self.ledger
    }

    pub closed spec fn history_spec(&self) -> History<Address> {
        self.history
    }

    pub closed spec fn stats_spec(&self) -> StatsData {
        self.stats
    }

    pub closed spec fn controller_spec(&self) -> Option<Account> {
        self.controller
    }

    pub closed spec fn halted_spec(&self) -> bool {
        self.halted
    }

    /// The balance an account holds.
    pub open spec fn balance_of(&self, account: Account) -> u64 {
        self.ledger_spec().balance_spec(account)
    }

    /// The number of events ever emitted.
    pub open spec fn history_size(&self) -> int {
        self.history_spec().size_spec()
    }

    /// The newest emitted event.
    pub open spec fn last_event(&self) -> Transaction {
        self.history_spec().head_events().last()
    }

    pub open spec fn wf(&self) -> bool {
        &&& self.ledger_spec().wf()
        &&& self.history_spec().wf()
    }

    /// A fresh engine: empty ledger and history, no controller yet, not
    /// halted. The flush threshold must strictly exceed the chunk size.
    pub fn new(flush_threshold: usize, chunk_size: usize) -> (r: Self)
        requires
            0 < chunk_size < flush_threshold,
        ensures
            r.wf(),
            r.ledger_spec().balances_spec() == Seq::<(Account, u64)>::empty(),
            r.ledger_spec().allowances_spec() == Seq::<((Account, Account), u64)>::empty(),
            r.history_size() == 0,
            r.controller_spec() is None,
            !r.halted_spec(),
    {
        Engine {
            ledger: Ledger::default(),
            history: History::new(flush_threshold, chunk_size),
            stats: StatsData::default(),
            controller: None,
            halted: false,
        }
    }

    /// Record the first caller as the controller; later calls change
    /// nothing.
    pub fn init(&mut self, caller: Account)
        requires
            old(self).wf(),
        ensures
            final(self).wf(),
            final(self).controller_spec() == if old(self).controller_spec() is Some {
                old(self).controller_spec()
            } else {
                Some(caller)
            },
            final(self).ledger_spec() == old(self).ledger_spec(),
            final(self).history_spec() == old(self).history_spec(),
            final(self).halted_spec() == old(self).halted_spec(),
    {
        if self.controller.is_none() {
            self.controller = Some(caller);
        }
    }

    /// The controller, once one has been recorded.
    pub fn controller(&self) -> (r: Option<Account>)
        ensures
            r == self.controller_spec(),
    {
        self.controller
    }

    /// Whether the engine has been halted by the controller.
    pub fn is_halted(&self) -> (r: bool)
        ensures
            r == self.halted_spec(),
    {
        self.halted
    }

    /// The usage counters.
    pub fn stats(&self) -> (r: StatsData)
        ensures
            r == self.stats_spec(),
    {
        self.stats
    }

    /// The history, for read-only inspection.
    pub fn history(&self) -> (r: &History<Address>)
        ensures
            *r == self.history_spec(),
    {
        &self.history
    }

    /// The balance of the given account.
    pub fn balance(&self, account: Account) -> (r: u64)
        requires
            self.wf(),
        ensures
            r == self.balance_of(account),
    {
        self.ledger.balance(account)
    }

    /// The allowance `owner` has granted `spender`, fee included.
    pub fn allowance(&self, owner: Account, spender: Account) -> (r: u64)
        requires
            self.wf(),
        ensures
            r == self.ledger_spec().allowance_spec(owner, spender),
    {
        self.ledger.allowance(owner, spender)
    }

    /// Give the flusher one cooperative slot; returns whether a backend
    /// call was made. Never touches the ledger, the history's size, the
    /// stats or the control state. A `false` return means the flusher is
    /// gone: pumping until `false` leaves no flush armed, which is what
    /// [`Engine::archive`] demands.
    pub fn progress<B: Backend<Address>>(&mut self, backend: &mut B) -> (r: bool) where
        Address: Copy,

        requires
            old(self).wf(),
        ensures
            final(self).wf(),
            final(self).ledger_spec() == old(self).ledger_spec(),
            final(self).history_size() == old(self).history_size(),
            final(self).stats_spec() == old(self).stats_spec(),
            final(self).controller_spec() == old(self).controller_spec(),
            final(self).halted_spec() == old(self).halted_spec(),
            r <==> (old(self).history_spec().flusher_armed() && !(old(
                self,
            ).history_spec().flusher_spec().unwrap().state_spec() is Done)),
            !r ==> !final(self).history_spec().flusher_armed(),
    {
        self.history.progress(backend)
    }

    /// Emit one history entry, counting it in the stats. Every entry
    /// carries a non-zero fee; the engine refuses a zero-fee entry.
    fn emit(
        &mut self,
        kind: TransactionKind,
        cycles: u64,
        fee: u64,
        status: TransactionStatus,
        now: u64,
    ) -> (id: TransactionId)
        requires
            old(self).wf(),
            fee != 0,
            old(self).history_size() < u64::MAX,
        ensures
            final(self).wf(),
            id == old(self).history_size(),
            final(self).history_size() == old(self).history_size() + 1,
            final(self).last_event() == event_record(kind, cycles, fee, status, now),
            final(self).ledger_spec() == old(self).ledger_spec(),
            final(self).controller_spec() == old(self).controller_spec(),
            final(self).halted_spec() == old(self).halted_spec(),
    {
        self.stats.record(&kind, fee);
        let timestamp = now / 1_000_000;
        self.history.push(Transaction { timestamp, cycles, fee, kind, status })
    }

    /// Transfer `amount` from the caller to `to`, charging the caller the
    /// fee on top, and emit a succeeded transfer entry. Fails with
    /// `InsufficientBalance`, changing nothing, when the caller does not
    /// hold `amount + fee`.
    pub fn transfer<B: Backend<Address>>(
        &mut self,
        backend: &mut B,
        caller: Account,
        to: Account,
        amount: u64,
        now: u64,
    ) -> (r: Result<TransactionId, TxError>) where Address: Copy
        requires
            old(self).wf(),
            !old(self).halted_spec(),
            caller != to,
            amount != 0,
            amount + spec_compute_fee(amount) <= u64::MAX,
            old(self).balance_of(to) + amount <= u64::MAX,
            old(self).history_size() < u64::MAX,
        ensures
            final(self).wf(),
            final(self).controller_spec() == old(self).controller_spec(),
            final(self).halted_spec() == old(self).halted_spec(),
            r is Ok <==> old(self).balance_of(caller) >= amount + spec_compute_fee(amount),
            r matches Err(e) ==> e == TxError::InsufficientBalance && final(self).ledger_spec()
                == old(self).ledger_spec() && final(self).history_size() == old(
                self,
            ).history_size(),
            r matches Ok(id) ==> ({
                let fee = spec_compute_fee(amount);
                &&& id == old(self).history_size()
                &&& final(self).history_size() == old(self).history_size() + 1
                &&& final(self).last_event() == event_record(
                    TransactionKind::Transfer { from: caller, to },
                    amount,
                    fee,
                    TransactionStatus::SUCCEEDED,
                    now,
                )
                &&& final(self).balance_of(caller) == old(self).balance_of(caller) - amount - fee
                &&& final(self).balance_of(to) == old(self).balance_of(to) + amount
                &&& forall|b: Account|
                    b != caller && b != to ==> final(self).balance_of(b) == old(self).balance_of(b)
                &&& final(self).ledger_spec().allowances_spec() == old(
                    self,
                ).ledger_spec().allowances_spec()
                &&& final(self).ledger_spec().total_supply_spec() == old(
                    self,
                ).ledger_spec().total_supply_spec() - fee
            }),
    {
        self.progress(backend);
        let fee = compute_fee(amount);
        match self.ledger.transfer(caller, to, amount, fee) {
            Ok(()) => Ok(
                self.emit(
                    TransactionKind::Transfer { from: caller, to },
                    amount,
                    fee,
                    TransactionStatus::SUCCEEDED,
                    now,
                ),
            ),
            Err(e) => Err(e),
        }
    }

    /// Let `spender` draw up to `amount` from the caller; the caller pays
    /// the fee now and the future transfer fee is folded into the stored
    /// allowance. An amount of zero clears the allowance. Emits a succeeded
    /// approve entry on success.
    pub fn approve<B: Backend<Address>>(
        &mut self,
        backend: &mut B,
        caller: Account,
        spender: Account,
        amount: u64,
        now: u64,
    ) -> (r: Result<TransactionId, TxError>) where Address: Copy
        requires
            old(self).wf(),
            !old(self).halted_spec(),
            caller != spender,
            amount + spec_compute_fee(amount) <= u64::MAX,
            old(self).history_size() < u64::MAX,
        ensures
            final(self).wf(),
            final(self).controller_spec() == old(self).controller_spec(),
            final(self).halted_spec() == old(self).halted_spec(),
            r is Ok <==> old(self).balance_of(caller) >= spec_compute_fee(amount),
            r matches Err(e) ==> e == TxError::InsufficientBalance && final(self).ledger_spec()
                == old(self).ledger_spec() && final(self).history_size() == old(
                self,
            ).history_size(),
            r matches Ok(id) ==> ({
                let fee = spec_compute_fee(amount);
                &&& id == old(self).history_size()
                &&& final(self).history_size() == old(self).history_size() + 1
                &&& final(self).last_event() == event_record(
                    TransactionKind::Approve { from: caller, to: spender },
                    amount,
                    fee,
                    TransactionStatus::SUCCEEDED,
                    now,
                )
                &&& final(self).balance_of(caller) == old(self).balance_of(caller) - fee
                &&& forall|b: Account|
                    b != caller ==> final(self).balance_of(b) == old(self).balance_of(b)
                &&& final(self).ledger_spec().allowance_spec(caller, spender) == if amount == 0 {
                    0
                } else {
                    amount + fee
                }
                &&& forall|o: Account, s: Account|
                    (o, s) != (caller, spender) ==> final(self).ledger_spec().allowance_spec(o, s)
                        == old(self).ledger_spec().allowance_spec(o, s)
                &&& final(self).ledger_spec().total_supply_spec() == old(
                    self,
                ).ledger_spec().total_supply_spec() - fee
            }),
    {
        self.progress(backend);
        let fee = compute_fee(amount);
        match self.ledger.approve(caller, spender, amount, fee) {
            Ok(()) => Ok(
                self.emit(
                    TransactionKind::Approve { from: caller, to: spender },
                    amount,
                    fee,
                    TransactionStatus::SUCCEEDED,
                    now,
                ),
            ),
            Err(e) => Err(e),
        }
    }

    /// Draw `amount` from `from` to `to` on the caller's behalf, consuming
    /// `amount + fee` of the allowance `(from, caller)` and charging the
    /// fee to `from`. Emits a succeeded transfer-from entry on success.
    pub fn transfer_from<B: Backend<Address>>(
        &mut self,
        backend: &mut B,
        caller: Account,
        from: Account,
        to: Account,
        amount: u64,
        now: u64,
    ) -> (r: Result<TransactionId, TxError>) where Address: Copy
        requires
            old(self).wf(),
            !old(self).halted_spec(),
            amount != 0,
            from != to,
            amount + spec_compute_fee(amount) <= u64::MAX,
            old(self).balance_of(to) + amount <= u64::MAX,
            old(self).history_size() < u64::MAX,
        ensures
            final(self).wf(),
            final(self).controller_spec() == old(self).controller_spec(),
            final(self).halted_spec() == old(self).halted_spec(),
            r is Ok <==> ({
                let fee = spec_compute_fee(amount);
                old(self).ledger_spec().allowance_spec(from, caller) >= amount + fee && old(
                    self,
                ).balance_of(from) >= amount + fee
            }),
            r is Err ==> final(self).ledger_spec() == old(self).ledger_spec() && final(self).history_size() == old(self).history_size(),
            r matches Err(e) ==> e == (if old(self).ledger_spec().allowance_spec(from, caller)
                < amount + spec_compute_fee(amount) {
                TxError::InsufficientAllowance
            } else {
                TxError::InsufficientBalance
            }),
            r matches Ok(id) ==> ({
                let fee = spec_compute_fee(amount);
                &&& id == old(self).history_size()
                &&& final(self).history_size() == old(self).history_size() + 1
                &&& final(self).last_event() == event_record(
                    TransactionKind::TransferFrom { caller, from, to },
                    amount,
                    fee,
                    TransactionStatus::SUCCEEDED,
                    now,
                )
                &&& final(self).ledger_spec().allowance_spec(from, caller) == old(
                    self,
                ).ledger_spec().allowance_spec(from, caller) - amount - fee
                &&& forall|o: Account, s: Account|
                    (o, s) != (from, caller) ==> final(self).ledger_spec().allowance_spec(o, s)
                        == old(self).ledger_spec().allowance_spec(o, s)
                &&& final(self).balance_of(from) == old(self).balance_of(from) - amount - fee
                &&& final(self).balance_of(to) == old(self).balance_of(to) + amount
                &&& forall|b: Account|
                    b != from && b != to ==> final(self).balance_of(b) == old(self).balance_of(b)
                &&& final(self).ledger_spec().total_supply_spec() == old(
                    self,
                ).ledger_spec().total_supply_spec() - fee
            }),
    {
        self.progress(backend);
        let fee = compute_fee(amount);
        match self.ledger.transfer_from(caller, from, to, amount, fee) {
            Ok(()) => Ok(
                self.emit(
                    TransactionKind::TransferFrom { caller, from, to },
                    amount,
                    fee,
                    TransactionStatus::SUCCEEDED,
                    now,
                ),
            ),
            Err(e) => Err(e),
        }
    }

    /// Mint by accepting the cycles attached to the inbound message: all of
    /// `available` is claimed, the fee is kept by the system, and the rest
    /// is credited to `to`. Fails with `AmountTooSmall`, changing nothing,
    /// when the delivery does not exceed its own fee.
    pub fn mint<B: Backend<Address>>(
        &mut self,
        backend: &mut B,
        to: Account,
        available: u64,
        now: u64,
    ) -> (r: Result<TransactionId, TxError>) where Address: Copy
        requires
            old(self).wf(),
            !old(self).halted_spec(),
            old(self).balance_of(to) + available <= u64::MAX,
            old(self).history_size() < u64::MAX,
        ensures
            final(self).wf(),
            final(self).controller_spec() == old(self).controller_spec(),
            final(self).halted_spec() == old(self).halted_spec(),
            r is Ok <==> available > spec_compute_fee(available),
            r matches Err(e) ==> e == TxError::AmountTooSmall && final(self).ledger_spec() == old(
                self,
            ).ledger_spec() && final(self).history_size() == old(self).history_size(),
            r matches Ok(id) ==> ({
                let fee = spec_compute_fee(available);
                let cycles = available - fee;
                &&& id == old(self).history_size()
                &&& final(self).history_size() == old(self).history_size() + 1
                &&& final(self).last_event() == event_record(
                    TransactionKind::Mint { to },
                    cycles as u64,
                    fee,
                    TransactionStatus::SUCCEEDED,
                    now,
                )
                &&& final(self).balance_of(to) == old(self).balance_of(to) + cycles
                &&& forall|b: Account|
                    b != to ==> final(self).balance_of(b) == old(self).balance_of(b)
                &&& final(self).ledger_spec().allowances_spec() == old(
                    self,
                ).ledger_spec().allowances_spec()
                &&& final(self).ledger_spec().total_supply_spec() == old(
                    self,
                ).ledger_spec().total_supply_spec() + cycles
            }),
    {
        self.progress(backend);
        let fee = compute_fee(available);
        if available <= fee {
            return Err(TxError::AmountTooSmall);
        }
        let cycles = available - fee;
        self.ledger.deposit(to, cycles);
        Ok(self.emit(TransactionKind::Mint { to }, cycles, fee, TransactionStatus::SUCCEEDED, now))
    }

    /// Withdraw the principal and the deduced fee for an outbound call:
    /// the commit point for funds leaving the caller. The host then makes
    /// the call and hands its outcome to the matching settle function.
    fn prepare_outbound(&mut self, caller: Account, requested: u64) -> (r: Result<(), TxError>)
        requires
            old(self).wf(),
            requested + spec_compute_fee(requested) <= u64::MAX,
        ensures
            final(self).wf(),
            r is Ok <==> old(self).balance_of(caller) >= requested + spec_compute_fee(requested),
            r matches Err(e) ==> e == TxError::InsufficientBalance && final(self).ledger_spec()
                == old(self).ledger_spec(),
            r is Ok ==> final(self).balance_of(caller) == old(self).balance_of(caller) - requested
                - spec_compute_fee(requested) && final(self).ledger_spec().total_supply_spec()
                == old(self).ledger_spec().total_supply_spec() - requested - spec_compute_fee(
                requested,
            ),
            forall|b: Account| b != caller ==> final(self).balance_of(b) == old(self).balance_of(b),
            final(self).ledger_spec().allowances_spec() == old(self).ledger_spec().allowances_spec(),
            final(self).history_spec() == old(self).history_spec(),
            final(self).stats_spec() == old(self).stats_spec(),
            final(self).controller_spec() == old(self).controller_spec(),
            final(self).halted_spec() == old(self).halted_spec(),
    {
        let deduced_fee = compute_fee(requested);
        proof {
            // The fee is never zero, so the withdrawn total is positive and
            // an absent account cannot cover it.
            assert(requested + deduced_fee > 0);
        }
        match self.ledger.withdraw(caller, requested + deduced_fee) {
            Ok(()) => Ok(()),
            Err(()) => Err(TxError::InsufficientBalance),
        }
    }

    /// Settle an outbound call per the refund discipline. On success the
    /// platform refunded `refunded` of the `requested` cycles: the fee is
    /// recomputed on what actually moved, the caller gets back the refund
    /// plus the fee difference (non-negative, the fee being monotone), and
    /// a succeeded entry is emitted. On failure the caller gets back the
    /// principal but forfeits the whole deduced fee, and a failed entry
    /// with zero cycles is emitted.
    fn settle_outbound(
        &mut self,
        caller: Account,
        kind: TransactionKind,
        requested: u64,
        outcome: CallOutcome,
        now: u64,
    ) -> (id: TransactionId)
        requires
            old(self).wf(),
            outcome matches CallOutcome::Succeeded { refunded } ==> refunded <= requested,
            requested + spec_compute_fee(requested) <= u64::MAX,
            old(self).balance_of(caller) + requested + spec_compute_fee(requested) <= u64::MAX,
            old(self).history_size() < u64::MAX,
        ensures
            final(self).wf(),
            id == old(self).history_size(),
            final(self).history_size() == old(self).history_size() + 1,
            match outcome {
                CallOutcome::Succeeded { refunded } => {
                    let deduced_fee = spec_compute_fee(requested);
                    let cycles = requested - refunded;
                    let actual_fee = spec_compute_fee(cycles as u64);
                    &&& final(self).balance_of(caller) == old(self).balance_of(caller) + refunded
                        + deduced_fee - actual_fee
                    &&& final(self).ledger_spec().total_supply_spec() == old(
                        self,
                    ).ledger_spec().total_supply_spec() + refunded + deduced_fee - actual_fee
                    &&& final(self).last_event() == event_record(
                        kind,
                        cycles as u64,
                        actual_fee,
                        TransactionStatus::SUCCEEDED,
                        now,
                    )
                },
                CallOutcome::Failed => {
                    &&& final(self).balance_of(caller) == old(self).balance_of(caller) + requested
                    &&& final(self).ledger_spec().total_supply_spec() == old(
                        self,
                    ).ledger_spec().total_supply_spec() + requested
                    &&& final(self).last_event() == event_record(
                        kind,
                        0,
                        spec_compute_fee(requested),
                        TransactionStatus::FAILED,
                        now,
                    )
                },
            },
            forall|b: Account| b != caller ==> final(self).balance_of(b) == old(self).balance_of(b),
            final(self).ledger_spec().allowances_spec() == old(self).ledger_spec().allowances_spec(),
            final(self).controller_spec() == old(self).controller_spec(),
            final(self).halted_spec() == old(self).halted_spec(),
    {
        let deduced_fee = compute_fee(requested);
        match outcome {
            CallOutcome::Succeeded { refunded } => {
                let cycles = requested - refunded;
                let actual_fee = compute_fee(cycles);
                proof {
                    lemma_compute_fee_monotone(requested, cycles);
                }
                let returned = refunded + (deduced_fee - actual_fee);
                self.ledger.deposit(caller, returned);
                self.emit(kind, cycles, actual_fee, TransactionStatus::SUCCEEDED, now)
            },
            CallOutcome::Failed => {
                self.ledger.deposit(caller, requested);
                self.emit(kind, 0, deduced_fee, TransactionStatus::FAILED, now)
            },
        }
    }

    /// Withdraw the principal and fee for a burn: sending `amount` cycles
    /// to another canister. Pumps the flusher first.
    pub fn burn_prepare<B: Backend<Address>>(
        &mut self,
        backend: &mut B,
        caller: Account,
        amount: u64,
    ) -> (r: Result<(), BurnError>) where Address: Copy
        requires
            old(self).wf(),
            !old(self).halted_spec(),
            amount + spec_compute_fee(amount) <= u64::MAX,
        ensures
            final(self).wf(),
            r is Ok <==> old(self).balance_of(caller) >= amount + spec_compute_fee(amount),
            r matches Err(e) ==> e == BurnError::InsufficientBalance && final(self).ledger_spec()
                == old(self).ledger_spec(),
            r is Ok ==> final(self).balance_of(caller) == old(self).balance_of(caller) - amount
                - spec_compute_fee(amount),
            forall|b: Account| b != caller ==> final(self).balance_of(b) == old(self).balance_of(b),
            final(self).ledger_spec().allowances_spec() == old(self).ledger_spec().allowances_spec(),
            final(self).history_size() == old(self).history_size(),
            final(self).controller_spec() == old(self).controller_spec(),
            final(self).halted_spec() == old(self).halted_spec(),
    {
        self.progress(backend);
        match self.prepare_outbound(caller, amount) {
            Ok(()) => Ok(()),
            Err(_) => Err(BurnError::InsufficientBalance),
        }
    }

    /// Settle a burn from the outcome of the deposit call. A failure
    /// returns the principal to the caller, forfeits the deduced fee, and
    /// surfaces `InvalidTokenContract`.
    pub fn burn_settle(
        &mut self,
        caller: Account,
        canister: Account,
        amount: u64,
        outcome: CallOutcome,
        now: u64,
    ) -> (r: Result<TransactionId, BurnError>)
        requires
            old(self).wf(),
            outcome matches CallOutcome::Succeeded { refunded } ==> refunded <= amount,
            amount + spec_compute_fee(amount) <= u64::MAX,
            old(self).balance_of(caller) + amount + spec_compute_fee(amount) <= u64::MAX,
            old(self).history_size() < u64::MAX,
        ensures
            final(self).wf(),
            final(self).history_size() == old(self).history_size() + 1,
            r is Ok <==> outcome is Succeeded,
            r matches Ok(id) ==> id == old(self).history_size(),
            r matches Err(e) ==> e == BurnError::InvalidTokenContract,
            match outcome {
                CallOutcome::Succeeded { refunded } => {
                    let deduced_fee = spec_compute_fee(amount);
                    let cycles = amount - refunded;
                    let actual_fee = spec_compute_fee(cycles as u64);
                    &&& final(self).balance_of(caller) == old(self).balance_of(caller) + refunded
                        + deduced_fee - actual_fee
                    &&& final(self).last_event() == event_record(
                        TransactionKind::Burn { from: caller, to: canister },
                        cycles as u64,
                        actual_fee,
                        TransactionStatus::SUCCEEDED,
                        now,
                    )
                },
                CallOutcome::Failed => {
                    &&& final(self).balance_of(caller) == old(self).balance_of(caller) + amount
                    &&& final(self).last_event() == event_record(
                        TransactionKind::Burn { from: caller, to: canister },
                        0,
                        spec_compute_fee(amount),
                        TransactionStatus::FAILED,
                        now,
                    )
                },
            },
            forall|b: Account| b != caller ==> final(self).balance_of(b) == old(self).balance_of(b),
            final(self).controller_spec() == old(self).controller_spec(),
            final(self).halted_spec() == old(self).halted_spec(),
    {
        let failed = match &outcome {
            CallOutcome::Succeeded { .. } => false,
            CallOutcome::Failed => true,
        };
        let id = self.settle_outbound(
            caller,
            TransactionKind::Burn { from: caller, to: canister },
            amount,
            outcome,
            now,
        );
        if failed {
            Err(BurnError::InvalidTokenContract)
        } else {
            Ok(id)
        }
    }

    /// Withdraw the principal and fee for a forward call of `cycles` to
    /// another canister. A call forwarded to the engine's own process is
    /// refused outright. Pumps the flusher first.
    pub fn wallet_call_prepare<B: Backend<Address>>(
        &mut self,
        backend: &mut B,
        caller: Account,
        canister: Account,
        self_id: Account,
        cycles: u64,
    ) -> (r: Result<(), TxError>) where Address: Copy
        requires
            old(self).wf(),
            !old(self).halted_spec(),
            cycles + spec_compute_fee(cycles) <= u64::MAX,
        ensures
            final(self).wf(),
            r is Ok <==> (canister != self_id && old(self).balance_of(caller) >= cycles
                + spec_compute_fee(cycles)),
            r matches Err(e) ==> final(self).ledger_spec() == old(self).ledger_spec() && e == (
            if canister == self_id {
                TxError::CallFailed
            } else {
                TxError::InsufficientBalance
            }),
            r is Ok ==> final(self).balance_of(caller) == old(self).balance_of(caller) - cycles
                - spec_compute_fee(cycles),
            forall|b: Account| b != caller ==> final(self).balance_of(b) == old(self).balance_of(b),
            final(self).ledger_spec().allowances_spec() == old(self).ledger_spec().allowances_spec(),
            final(self).history_size() == old(self).history_size(),
            final(self).controller_spec() == old(self).controller_spec(),
            final(self).halted_spec() == old(self).halted_spec(),
    {
        self.progress(backend);
        if canister == self_id {
            return Err(TxError::CallFailed);
        }
        self.prepare_outbound(caller, cycles)
    }

    /// Settle a forward call from its outcome; the returned bytes stay with
    /// the host. A failure surfaces `CallFailed` after refunding the
    /// principal and emitting the failed entry.
    pub fn wallet_call_settle(
        &mut self,
        caller: Account,
        canister: Account,
        method_name: String,
        cycles: u64,
        outcome: CallOutcome,
        now: u64,
    ) -> (r: Result<TransactionId, TxError>)
        requires
            old(self).wf(),
            outcome matches CallOutcome::Succeeded { refunded } ==> refunded <= cycles,
            cycles + spec_compute_fee(cycles) <= u64::MAX,
            old(self).balance_of(caller) + cycles + spec_compute_fee(cycles) <= u64::MAX,
            old(self).history_size() < u64::MAX,
        ensures
            final(self).wf(),
            final(self).history_size() == old(self).history_size() + 1,
            r is Ok <==> outcome is Succeeded,
            r matches Ok(id) ==> id == old(self).history_size(),
            r matches Err(e) ==> e == TxError::CallFailed,
            match outcome {
                CallOutcome::Succeeded { refunded } => {
                    let deduced_fee = spec_compute_fee(cycles);
                    let moved = cycles - refunded;
                    let actual_fee = spec_compute_fee(moved as u64);
                    &&& final(self).balance_of(caller) == old(self).balance_of(caller) + refunded
                        + deduced_fee - actual_fee
                    &&& final(self).last_event() == event_record(
                        TransactionKind::CanisterCalled { from: caller, canister, method_name: method_name },
                        moved as u64,
                        actual_fee,
                        TransactionStatus::SUCCEEDED,
                        now,
                    )
                },
                CallOutcome::Failed => {
                    &&& final(self).balance_of(caller) == old(self).balance_of(caller) + cycles
                    &&& final(self).last_event() == event_record(
                        TransactionKind::CanisterCalled { from: caller, canister, method_name: method_name },
                        0,
                        spec_compute_fee(cycles),
                        TransactionStatus::FAILED,
                        now,
                    )
                },
            },
            forall|b: Account| b != caller ==> final(self).balance_of(b) == old(self).balance_of(b),
            final(self).controller_spec() == old(self).controller_spec(),
            final(self).halted_spec() == old(self).halted_spec(),
    {
        let failed = match &outcome {
            CallOutcome::Succeeded { .. } => false,
            CallOutcome::Failed => true,
        };
        let id = self.settle_outbound(
            caller,
            TransactionKind::CanisterCalled { from: caller, canister, method_name },
            cycles,
            outcome,
            now,
        );
        if failed {
            Err(TxError::CallFailed)
        } else {
            Ok(id)
        }
    }

    /// Withdraw the principal and fee for creating a canister endowed with
    /// `cycles`. Pumps the flusher first.
    pub fn wallet_create_canister_prepare<B: Backend<Address>>(
        &mut self,
        backend: &mut B,
        caller: Account,
        cycles: u64,
    ) -> (r: Result<(), TxError>) where Address: Copy
        requires
            old(self).wf(),
            !old(self).halted_spec(),
            cycles + spec_compute_fee(cycles) <= u64::MAX,
        ensures
            final(self).wf(),
            r is Ok <==> old(self).balance_of(caller) >= cycles + spec_compute_fee(cycles),
            r matches Err(e) ==> e == TxError::InsufficientBalance && final(self).ledger_spec()
                == old(self).ledger_spec(),
            r is Ok ==> final(self).balance_of(caller) == old(self).balance_of(caller) - cycles
                - spec_compute_fee(cycles),
            forall|b: Account| b != caller ==> final(self).balance_of(b) == old(self).balance_of(b),
            final(self).ledger_spec().allowances_spec() == old(self).ledger_spec().allowances_spec(),
            final(self).history_size() == old(self).history_size(),
            final(self).controller_spec() == old(self).controller_spec(),
            final(self).halted_spec() == old(self).halted_spec(),
    {
        self.progress(backend);
        self.prepare_outbound(caller, cycles)
    }

    /// Settle a create-canister call from its outcome. A successful entry
    /// names the created canister; a failed one names the caller, and
    /// surfaces `CallFailed` after refunding the principal.
    pub fn wallet_create_canister_settle(
        &mut self,
        caller: Account,
        cycles: u64,
        outcome: CreateOutcome,
        now: u64,
    ) -> (r: Result<TransactionId, TxError>)
        requires
            old(self).wf(),
            outcome matches CreateOutcome::Succeeded { canister, refunded } ==> refunded <= cycles,
            cycles + spec_compute_fee(cycles) <= u64::MAX,
            old(self).balance_of(caller) + cycles + spec_compute_fee(cycles) <= u64::MAX,
            old(self).history_size() < u64::MAX,
        ensures
            final(self).wf(),
            final(self).history_size() == old(self).history_size() + 1,
            r is Ok <==> outcome is Succeeded,
            r matches Ok(id) ==> id == old(self).history_size(),
            r matches Err(e) ==> e == TxError::CallFailed,
            match outcome {
                CreateOutcome::Succeeded { canister, refunded } => {
                    let deduced_fee = spec_compute_fee(cycles);
                    let moved = cycles - refunded;
                    let actual_fee = spec_compute_fee(moved as u64);
                    &&& final(self).balance_of(caller) == old(self).balance_of(caller) + refunded
                        + deduced_fee - actual_fee
                    &&& final(self).last_event() == event_record(
                        TransactionKind::CanisterCreated { from: caller, canister },
                        moved as u64,
                        actual_fee,
                        TransactionStatus::SUCCEEDED,
                        now,
                    )
                },
                CreateOutcome::Failed => {
                    &&& final(self).balance_of(caller) == old(self).balance_of(caller) + cycles
                    &&& final(self).last_event() == event_record(
                        TransactionKind::CanisterCreated { from: caller, canister: caller },
                        0,
                        spec_compute_fee(cycles),
                        TransactionStatus::FAILED,
                        now,
                    )
                },
            },
            forall|b: Account| b != caller ==> final(self).balance_of(b) == old(self).balance_of(b),
            final(self).controller_spec() == old(self).controller_spec(),
            final(self).halted_spec() == old(self).halted_spec(),
    {
        match outcome {
            CreateOutcome::Succeeded { canister, refunded } => {
                let id = self.settle_outbound(
                    caller,
                    TransactionKind::CanisterCreated { from: caller, canister },
                    cycles,
                    CallOutcome::Succeeded { refunded },
                    now,
                );
                Ok(id)
            },
            CreateOutcome::Failed => {
                self.settle_outbound(
                    caller,
                    TransactionKind::CanisterCreated { from: caller, canister: caller },
                    cycles,
                    CallOutcome::Failed,
                    now,
                );
                Err(TxError::CallFailed)
            },
        }
    }

    /// Withdraw the principal and fee for sending `amount` cycles to a
    /// wallet canister. Pumps the flusher first.
    pub fn wallet_send_prepare<B: Backend<Address>>(
        &mut self,
        backend: &mut B,
        caller: Account,
        amount: u64,
    ) -> (r: Result<(), TxError>) where Address: Copy
        requires
            old(self).wf(),
            !old(self).halted_spec(),
            amount + spec_compute_fee(amount) <= u64::MAX,
        ensures
            final(self).wf(),
            r is Ok <==> old(self).balance_of(caller) >= amount + spec_compute_fee(amount),
            r matches Err(e) ==> e == TxError::InsufficientBalance && final(self).ledger_spec()
                == old(self).ledger_spec(),
            r is Ok ==> final(self).balance_of(caller) == old(self).balance_of(caller) - amount
                - spec_compute_fee(amount),
            forall|b: Account| b != caller ==> final(self).balance_of(b) == old(self).balance_of(b),
            final(self).ledger_spec().allowances_spec() == old(self).ledger_spec().allowances_spec(),
            final(self).history_size() == old(self).history_size(),
            final(self).controller_spec() == old(self).controller_spec(),
            final(self).halted_spec() == old(self).halted_spec(),
    {
        self.progress(backend);
        self.prepare_outbound(caller, amount)
    }

    /// Settle a wallet send from its outcome; the entry records a burn from
    /// the caller to the receiving canister. A failure surfaces
    /// `CallFailed` after refunding the principal.
    pub fn wallet_send_settle(
        &mut self,
        caller: Account,
        canister: Account,
        amount: u64,
        outcome: CallOutcome,
        now: u64,
    ) -> (r: Result<TransactionId, TxError>)
        requires
            old(self).wf(),
            outcome matches CallOutcome::Succeeded { refunded } ==> refunded <= amount,
            amount + spec_compute_fee(amount) <= u64::MAX,
            old(self).balance_of(caller) + amount + spec_compute_fee(amount) <= u64::MAX,
            old(self).history_size() < u64::MAX,
        ensures
            final(self).wf(),
            final(self).history_size() == old(self).history_size() + 1,
            r is Ok <==> outcome is Succeeded,
            r matches Ok(id) ==> id == old(self).history_size(),
            r matches Err(e) ==> e == TxError::CallFailed,
            match outcome {
                CallOutcome::Succeeded { refunded } => {
                    let deduced_fee = spec_compute_fee(amount);
                    let moved = amount - refunded;
                    let actual_fee = spec_compute_fee(moved as u64);
                    &&& final(self).balance_of(caller) == old(self).balance_of(caller) + refunded
                        + deduced_fee - actual_fee
                    &&& final(self).last_event() == event_record(
                        TransactionKind::Burn { from: caller, to: canister },
                        moved as u64,
                        actual_fee,
                        TransactionStatus::SUCCEEDED,
                        now,
                    )
                },
                CallOutcome::Failed => {
                    &&& final(self).balance_of(caller) == old(self).balance_of(caller) + amount
                    &&& final(self).last_event() == event_record(
                        TransactionKind::Burn { from: caller, to: canister },
                        0,
                        spec_compute_fee(amount),
                        TransactionStatus::FAILED,
                        now,
                    )
                },
            },
            forall|b: Account| b != caller ==> final(self).balance_of(b) == old(self).balance_of(b),
            final(self).controller_spec() == old(self).controller_spec(),
            final(self).halted_spec() == old(self).halted_spec(),
    {
        let failed = match &outcome {
            CallOutcome::Succeeded { .. } => false,
            CallOutcome::Failed => true,
        };
        let id = self.settle_outbound(
            caller,
            TransactionKind::Burn { from: caller, to: canister },
            amount,
            outcome,
            now,
        );
        if failed {
            Err(TxError::CallFailed)
        } else {
            Ok(id)
        }
    }

    /// The event with the given global id: answered locally and exactly for
    /// ids in the head bucket's range, through the backend for older ids.
    pub fn get_transaction<B: Backend<Address>>(
        &self,
        id: TransactionId,
        backend: &mut B,
    ) -> (r: Option<Transaction>) where Address: Copy
        requires
            self.wf(),
        ensures
            id >= self.history_spec().head_offset() ==> match r {
                Some(e) => id < self.history_size() && e == self.history_spec().head_events()[id
                    - self.history_spec().head_offset()],
                None => id >= self.history_size(),
            },
    {
        self.history.get_transaction(id, backend)
    }

    /// Read one page of events, newest first, per the paging contract of
    /// the history.
    pub fn events<'a, B: Backend<Address>>(&'a self, args: EventsArgs, backend: &B) -> (r:
        EventsConnection<'a, Address, Transaction>) where Address: Copy
        requires
            self.wf(),
        ensures
            events_post(
                self.history_spec().head_offset(),
                self.history_spec().head_events(),
                self.history_spec().data_spec().head_next(),
                self.history_spec().chain(),
                args.offset,
                args.limit as nat,
                r,
            ),
    {
        self.history.events(args.offset, args.limit as usize, backend)
    }

    /// Halt the engine until the next restore; only the controller may.
    pub fn halt(&mut self, caller: Account) -> (r: Result<(), TxError>)
        requires
            old(self).wf(),
            old(self).controller_spec() is Some,
        ensures
            final(self).wf(),
            r is Ok <==> old(self).controller_spec() == Some(caller),
            r matches Err(e) ==> e == TxError::NotController && final(self).halted_spec() == old(
                self,
            ).halted_spec(),
            r is Ok ==> final(self).halted_spec(),
            final(self).ledger_spec() == old(self).ledger_spec(),
            final(self).history_spec() == old(self).history_spec(),
            final(self).controller_spec() == old(self).controller_spec(),
    {
        match &self.controller {
            Some(controller) => {
                if caller == *controller {
                    self.halted = true;
                    Ok(())
                } else {
                    Err(TxError::NotController)
                }
            },
            None => Err(TxError::NotController),
        }
    }

    /// Pump the flusher up to `limit` times, stopping early once it has
    /// nothing to do; only the controller may.
    pub fn finish_pending_tasks<B: Backend<Address>>(
        &mut self,
        backend: &mut B,
        caller: Account,
        limit: u32,
    ) -> (r: Result<(), TxError>) where Address: Copy
        requires
            old(self).wf(),
            old(self).controller_spec() is Some,
        ensures
            final(self).wf(),
            r is Ok <==> old(self).controller_spec() == Some(caller),
            r matches Err(e) ==> e == TxError::NotController && *final(self) == *old(self),
            final(self).ledger_spec() == old(self).ledger_spec(),
            final(self).history_size() == old(self).history_size(),
            final(self).controller_spec() == old(self).controller_spec(),
            final(self).halted_spec() == old(self).halted_spec(),
            (r is Ok && limit > 0 && !(old(self).history_spec().flusher_armed() && !(old(
                self,
            ).history_spec().flusher_spec().unwrap().state_spec() is Done)))
                ==> !final(self).history_spec().flusher_armed(),
    {
        let allowed = match &self.controller {
            Some(controller) => caller == *controller,
            None => false,
        };
        if !allowed {
            return Err(TxError::NotController);
        }
        if limit == 0 {
            return Ok(());
        }
        // The first pump clears a flusher that already reported done (and
        // is a no-op when none is armed); only an active flush makes the
        // loop go on.
        if !self.progress(backend) {
            return Ok(());
        }
        let mut i: u32 = 1;
        while i < limit
            invariant
                self.wf(),
                old(self).controller_spec() == Some(caller),
                old(self).history_spec().flusher_armed() && !(old(
                    self,
                ).history_spec().flusher_spec().unwrap().state_spec() is Done),
                self.ledger_spec() == old(self).ledger_spec(),
                self.history_size() == old(self).history_size(),
                self.controller_spec() == old(self).controller_spec(),
                self.halted_spec() == old(self).halted_spec(),
            decreases limit - i,
        {
            if !self.progress(backend) {
                return Ok(());
            }
            i = i + 1;
        }
        Ok(())
    }

    /// Export a consistent image of the engine, taking the balance table
    /// out. Forbidden while a flush is armed, which would make the image
    /// capture a partial migration, and before a controller is set.
    pub fn archive(&mut self) -> (r: Snapshot<Address>) where Address: Copy
        requires
            old(self).wf(),
            !old(self).history_spec().flusher_armed(),
            old(self).controller_spec() is Some,
        ensures
            final(self).wf(),
            r.ledger@ == old(self).ledger_spec().balances_spec(),
            r.history.offset == old(self).history_spec().head_offset(),
            r.history.events@ == old(self).history_spec().head_events(),
            r.history.buckets@ == old(self).history_spec().chain(),
            r.history.wf(),
            old(self).history_spec().data_spec().head_next() == if r.history.buckets@.len() == 0 {
                None::<Address>
            } else {
                Some(r.history.buckets@.last().1)
            },
            Some(r.controller) == old(self).controller_spec(),
            r.stats == old(self).stats_spec(),
            crate::ledger::keys_unique(r.ledger@),
            crate::ledger::values_positive(r.ledger@),
    {
        let balances = self.ledger.archive();
        let history = self.history.archive();
        let controller = match &self.controller {
            Some(controller) => *controller,
            None => unreached(),
        };
        Snapshot { ledger: balances, history, controller, stats: self.stats }
    }

    /// Restore the engine from a snapshot: balances, history, controller
    /// and stats are overwritten, and the halted flag is cleared. The
    /// history must be empty.
    pub fn load(&mut self, snapshot: Snapshot<Address>) where Address: Copy
        requires
            old(self).wf(),
            old(self).history_spec().chain().len() == 0,
            old(self).history_spec().head_events().len() == 0,
            !old(self).history_spec().flusher_armed(),
            crate::ledger::keys_unique(snapshot.ledger@),
            crate::ledger::values_positive(snapshot.ledger@),
            snapshot.history.wf(),
        ensures
            final(self).wf(),
            final(self).ledger_spec().balances_spec() == snapshot.ledger@,
            final(self).ledger_spec().allowances_spec() == old(self).ledger_spec().allowances_spec(),
            final(self).history_spec().head_offset() == snapshot.history.offset,
            final(self).history_spec().head_events() == snapshot.history.events@,
            final(self).history_spec().chain() == snapshot.history.buckets@,
            final(self).history_spec().data_spec().head_next() == if snapshot.history.buckets@.len()
                == 0 {
                None::<Address>
            } else {
                Some(snapshot.history.buckets@.last().1)
            },
            final(self).controller_spec() == Some(snapshot.controller),
            final(self).stats_spec() == snapshot.stats,
            !final(self).halted_spec(),
    {
        self.ledger.load(snapshot.ledger);
        self.history.load(snapshot.history);
        self.controller = Some(snapshot.controller);
        self.stats = snapshot.stats;
        self.halted = false;
    }
}

/// Refund correctness: around one outbound operation, the caller's balance
/// moves by `-requested - deduced_fee + refunded + (deduced_fee -
/// actual_fee)` on success — the prepare step withdraws the principal plus
/// the deduced fee, and the settle step returns the refund plus the fee
/// difference — and by exactly `-deduced_fee` on failure, the principal
/// coming back whole. The fee difference is never negative, the fee being
/// monotone in the amount.
pub proof fn lemma_refund_correctness(
    before: u64,
    after_prepare: u64,
    after_settle: u64,
    requested: u64,
    refunded: u64,
    failed: bool,
)
    requires
        refunded <= requested,
        after_prepare == before - requested - spec_compute_fee(requested),
        !failed ==> after_settle == after_prepare + refunded + spec_compute_fee(requested)
            - spec_compute_fee((requested - refunded) as u64),
        failed ==> after_settle == after_prepare + requested,
    ensures
        !failed ==> after_settle == before - requested - spec_compute_fee(requested) + refunded + (
        spec_compute_fee(requested) - spec_compute_fee((requested - refunded) as u64)),
        failed ==> after_settle == before - spec_compute_fee(requested),
        spec_compute_fee(requested) - spec_compute_fee((requested - refunded) as u64) >= 0,
{
    lemma_compute_fee_monotone(requested, (requested - refunded) as u64);
}

/// Snapshot round-trip: an engine restored from an archive answers every
/// public query as the archived engine did — the balances, the history's
/// views, the controller and the stats are reproduced exactly. The halted
/// flag is reset by the restore, and allowances are not part of the image:
/// the round trip reproduces an engine whose allowances were empty.
pub proof fn lemma_snapshot_roundtrip<Address>(
    source: Engine<Address>,
    snapshot: Snapshot<Address>,
    restored: Engine<Address>,
)
    requires
        // What `archive` ensures of the image it produced.
        snapshot.ledger@ == source.ledger_spec().balances_spec(),
        snapshot.history.offset == source.history_spec().head_offset(),
        snapshot.history.events@ == source.history_spec().head_events(),
        snapshot.history.buckets@ == source.history_spec().chain(),
        source.history_spec().data_spec().head_next() == if snapshot.history.buckets@.len() == 0 {
            None::<Address>
        } else {
            Some(snapshot.history.buckets@.last().1)
        },
        Some(snapshot.controller) == source.controller_spec(),
        snapshot.stats == source.stats_spec(),
        // What `load` ensures of the engine restored from that image.
        restored.ledger_spec().balances_spec() == snapshot.ledger@,
        restored.history_spec().head_offset() == snapshot.history.offset,
        restored.history_spec().head_events() == snapshot.history.events@,
        restored.history_spec().chain() == snapshot.history.buckets@,
        restored.history_spec().data_spec().head_next() == if snapshot.history.buckets@.len()
            == 0 {
            None::<Address>
        } else {
            Some(snapshot.history.buckets@.last().1)
        },
        restored.controller_spec() == Some(snapshot.controller),
        restored.stats_spec() == snapshot.stats,
        !restored.halted_spec(),
    ensures
        forall|a: Account| restored.balance_of(a) == source.balance_of(a),
        restored.history_size() == source.history_size(),
        restored.history_spec().head_offset() == source.history_spec().head_offset(),
        restored.history_spec().head_events() == source.history_spec().head_events(),
        restored.history_spec().chain() == source.history_spec().chain(),
        restored.history_spec().data_spec().head_next() == source.history_spec().data_spec().head_next(),
        restored.controller_spec() == source.controller_spec(),
        restored.stats_spec() == source.stats_spec(),
        !restored.halted_spec(),
{
}

} // verus!
