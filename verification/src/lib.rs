//! Core engine of a cycle-denominated token ledger.
//!
//! The engine couples three subsystems:
//!
//! * a balance ledger with per-account balances and per-(owner, spender)
//!   allowances ([`ledger`]);
//! * a paginated, append-only transaction history that flushes its local
//!   buffer into chained bucket processes ([`bucket`], [`data`], [`history`]);
//! * a flusher state machine that migrates events out of the local buffer,
//!   one backend call per tick ([`flush`], [`backend`]).
//!
//! The [`engine`] module ties the ledger and the history together: every
//! user-visible mutation first pumps the flusher one step, then runs against
//! the ledger, then emits a history entry with the fee discipline of
//! [`fee::compute_fee`]. An in-memory backend ([`mock`]) drives the whole
//! machinery without a platform, and [`slice_con`] provides the concatenated
//! read-only view used when serving data gathered from several sources.

pub mod backend;
pub mod bucket;
pub mod data;
pub mod engine;
pub mod fee;
pub mod flush;
pub mod history;
pub mod ledger;
pub mod mock;
pub mod slice_con;
pub mod stats;
pub mod types;
