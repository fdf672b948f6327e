//! A supervisor for long-running daemon processes used in integration tests.
//!
//! The crate models the full lifecycle of a supervised daemon: the
//! `Init -> Running -> Stopped` state machine, the runtime record shared
//! with the two stream-reader loops, the daemon-specific line handlers
//! that accumulate state, and the configuration text written for each
//! daemon before it is launched.  All decisions are made here; the
//! operating-system work (spawning, killing, pipe reads) is done by a
//! thin unverified shell that reports its outcomes back as plain values.

pub mod amount;
pub mod bitcoind;
pub mod elementsd;
pub mod error;
pub mod rpc;
pub mod runner;
pub mod text;

pub use error::{Error, Op};
pub use runner::{DaemonState, ExitStatus, Status, Supervisor};
