//! The error type of the supervisor.

use vstd::prelude::*;

use crate::runner::Status;

verus! {

/// A lifecycle operation, named in `InvalidState` errors so that API
/// misuse is diagnosable without internal inspection.
#[derive(Clone, Copy, Debug, PartialEq, Eq, Structural)]
pub enum Op {
    Start,
    Restart,
    Stop,
}

/// An error from the supervisor core.
///
/// Failures that can only arise in the unverified shell around the core
/// (I/O failures, spawn failures, RPC failures) are represented there;
/// the core itself produces only the variants below.
#[derive(Clone, Debug, PartialEq, Eq)]
pub enum Error {
    /// Invalid configuration provided.
    Config(&'static str),
    /// The daemon is not in the appropriate state for this operation;
    /// carries the attempted operation and the current status.
    InvalidState(Op, Status),
}

/// The name of an operation.
pub open spec fn op_text(op: Op) -> Seq<char> {
    match op {
        Op::Start => "start"@,
        Op::Restart => "restart"@,
        Op::Stop => "stop"@,
    }
}

/// The name of a status.
pub open spec fn status_text(s: Status) -> Seq<char> {
    match s {
        Status::Init => "Init"@,
        Status::Running => "Running"@,
        Status::Stopped(_) => "Stopped"@,
    }
}

/// The message of an error: an `InvalidState` message names both the
/// attempted operation and the current status, so API misuse is
/// diagnosable without internal inspection.
pub open spec fn message_text(e: Error) -> Seq<char> {
    match e {
        Error::Config(m) => "config error: "@ + m@,
        Error::InvalidState(op, st) => "cannot "@ + op_text(op) + ": status is "@ + status_text(
            st,
        ),
    }
}

impl Error {
    /// The human-readable message of this error.
    pub fn message(&self) -> (r: String)
        ensures
            r@ == message_text(*self),
    {
        match self {
            Error::Config(m) => {
                let mut s = String::from_str("config error: ");
                s.append(m);
                assert(s@ =~= message_text(*self));
                s
            },
            Error::InvalidState(op, st) => {
                let mut s = String::from_str("cannot ");
                match op {
                    Op::Start => s.append("start"),
                    Op::Restart => s.append("restart"),
                    Op::Stop => s.append("stop"),
                }
                s.append(": status is ");
                match st {
                    Status::Init => s.append("Init"),
                    Status::Running => s.append("Running"),
                    Status::Stopped(_) => s.append("Stopped"),
                }
                assert(s@ =~= message_text(*self));
                s
            },
        }
    }
}

} // verus!
