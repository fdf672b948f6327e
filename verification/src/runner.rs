//! The process-lifecycle supervisor: the `Init -> Running -> Stopped`
//! state machine and the runtime record shared with the reader loops.
//!
//! The supervisor here is a model of the supervision session: it owns the
//! daemon-defined state and the identity of the spawned process, and it
//! makes every lifecycle decision.  The operating-system steps themselves
//! (spawning a child, sending a kill signal, polling for exit) are carried
//! out by the caller, which reports each outcome back as a plain value.

use vstd::prelude::*;

use crate::error::{Error, Op};

verus! {

/// How a supervised process ended.
#[derive(Clone, Copy, Debug, PartialEq, Eq, Structural)]
pub enum ExitStatus {
    /// The process exited on its own with this exit code.
    Code(i32),
    /// The process was terminated by this signal.
    Signal(i32),
}

/// The lifecycle status of a supervised daemon.
///
/// Transitions are strictly `Init -> Running -> Stopped`; a `Stopped`
/// daemon may return to `Running` only through an explicit restart.
#[derive(Clone, Copy, Debug, PartialEq, Eq, Structural)]
pub enum Status {
    /// No process has ever been spawned.
    Init,
    /// A process was spawned and was still alive at the last check.
    Running,
    /// The process has exited; carries how it ended.
    Stopped(ExitStatus),
}

/// Decides what `start` may do from the given status.
///
/// Starting is valid only from `Init`; from any other status the
/// operation fails with `InvalidState`.
pub open spec fn start_decision(status: Status) -> Result<(), Error> {
    if status is Init {
        Ok(())
    } else {
        Err(Error::InvalidState(Op::Start, status))
    }
}

/// Decides what `stop` may do from the given status.
///
/// `Ok(true)` means a kill signal must be sent; `Ok(false)` means the
/// process already exited and stopping is a no-op.  Stopping from `Init`
/// fails with `InvalidState`.
pub open spec fn stop_decision(status: Status) -> Result<bool, Error> {
    match status {
        Status::Init => Err(Error::InvalidState(Op::Stop, status)),
        Status::Running => Ok(true),
        Status::Stopped(_) => Ok(false),
    }
}

/// Decides what `restart` may do from the given status.
///
/// `Ok(true)` means the daemon is still running and must first be
/// stopped; `Ok(false)` means it may be relaunched at once.  Restarting
/// from `Init` fails with `InvalidState`, since there is no prior record
/// to reuse.
pub open spec fn restart_decision(status: Status) -> Result<bool, Error> {
    match status {
        Status::Init => Err(Error::InvalidState(Op::Restart, status)),
        Status::Running => Ok(true),
        Status::Stopped(_) => Ok(false),
    }
}

/// The state-side contract a daemon type supplies to the supervisor:
/// how each line read from the child's stdout or stderr mutates the
/// daemon-defined state, and how the accumulated text is drained.
///
/// The two `process_*` methods are invoked once per complete line, under
/// the runtime record's lock; a line they do not recognize is silently
/// discarded.  Each method's effect is pinned to a spec function so that
/// facts about whole sequences of lines can be proved once, generically.
pub trait DaemonState: View + Sized {
    /// The state after one stdout line has been handled.
    spec fn stdout_step(pre: Self::V, line: Seq<char>) -> Self::V;

    /// The state after one stderr line has been handled.
    spec fn stderr_step(pre: Self::V, line: Seq<char>) -> Self::V;

    /// The stderr text accumulated so far.
    spec fn stderr_text(v: Self::V) -> Seq<char>;

    /// The state with its accumulated stderr text cleared.
    spec fn drained_stderr(v: Self::V) -> Self::V;

    /// The error messages recognized so far, in order of arrival.
    spec fn error_msgs(v: Self::V) -> Seq<Seq<char>>;

    /// The state with its accumulated error messages cleared.
    spec fn drained_error_msgs(v: Self::V) -> Self::V;

    /// Handle one line of the child's stdout output.
    fn process_stdout(&mut self, line: &str)
        ensures
            final(self)@ == Self::stdout_step(old(self)@, line@),
    ;

    /// Handle one line of the child's stderr output.
    fn process_stderr(&mut self, line: &str)
        ensures
            final(self)@ == Self::stderr_step(old(self)@, line@),
    ;

    /// Take the accumulated stderr text, leaving it empty.
    fn take_stderr(&mut self) -> (r: String)
        ensures
            r@ == Self::stderr_text(old(self)@),
            final(self)@ == Self::drained_stderr(old(self)@),
    ;

    /// Take the accumulated error messages, leaving them empty.
    fn take_error_msgs(&mut self) -> (r: Vec<String>)
        ensures
            r.deep_view() == Self::error_msgs(old(self)@),
            final(self)@ == Self::drained_error_msgs(old(self)@),
    ;
}

/// The command to spawn a daemon process from: the executable and its
/// argument list, ready for the caller to hand to the operating system
/// with both output streams redirected to pipes.
#[derive(Clone, Debug, PartialEq, Eq)]
pub struct Command {
    /// The path of the executable.
    pub program: String,
    /// The arguments, in order.
    pub args: Vec<String>,
}

/// The mutable record shared between the supervisor and its two reader
/// loops for the span of one supervision session.  It is created by the
/// first successful `start` and reused, with the process replaced, by
/// every later `restart`, so daemon-defined state survives restarts.
pub struct RuntimeData<S> {
    /// The daemon-defined state, mutated only by the line handlers and
    /// drained or read by the caller.
    pub state: S,
    /// The OS process id of the most recently spawned process of this
    /// record.
    pub pid: u32,
}

/// The lifecycle supervisor's own slot: `None` until the first
/// successful `start`, then the runtime record of the session.
///
/// Every operation that depends on whether the process is still alive
/// takes the outcome of a fresh non-blocking poll of the child as an
/// argument (`None` while it still runs, `Some` once it has exited), so
/// each method's behaviour is pinned for every possible outcome.
pub struct Supervisor<S> {
    runtime_data: Option<RuntimeData<S>>,
}

impl<S> Supervisor<S> {
    /// The runtime record, as contracts see it.
    pub closed spec fn record(&self) -> Option<RuntimeData<S>> {
        self.runtime_data
    }

    /// The status determined by the given poll outcome: `Init` while no
    /// record exists, otherwise `Running` until a poll reports an exit.
    pub open spec fn status_spec(&self, poll: Option<ExitStatus>) -> Status {
        if self.record() is None {
            Status::Init
        } else {
            match poll {
                None => Status::Running,
                Some(e) => Status::Stopped(e),
            }
        }
    }

    /// A supervisor that has never spawned anything.
    pub fn new() -> (s: Self)
        ensures
            s.record() is None,
    {
        Supervisor { runtime_data: None }
    }

    /// Whether no process has ever been spawned.
    pub fn is_init(&self) -> (b: bool)
        ensures
            b == (self.record() is None),
    {
        self.runtime_data.is_none()
    }

    /// The current status, given the outcome of a non-blocking poll of
    /// the child process.  This is the only operation through which a
    /// caller observes the `Running -> Stopped` transition.
    pub fn status_with(&self, poll: Option<ExitStatus>) -> (st: Status)
        ensures
            st == self.status_spec(poll),
    {
        if self.runtime_data.is_none() {
            Status::Init
        } else {
            match poll {
                None => Status::Running,
                Some(e) => Status::Stopped(e),
            }
        }
    }

    /// The OS process id of the current process, `None` before the
    /// first successful `start`.
    pub fn pid(&self) -> (p: Option<u32>)
        ensures
            match self.record() {
                None => p is None,
                Some(r) => p == Some(r.pid),
            },
    {
        match &self.runtime_data {
            None => None,
            Some(r) => Some(r.pid),
        }
    }

    /// Read access to the daemon-defined state of the current record.
    pub fn state_ref(&self) -> (r: Option<&S>)
        ensures
            match self.record() {
                None => r is None,
                Some(rec) => r matches Some(s) && *s == rec.state,
            },
    {
        match &self.runtime_data {
            None => None,
            Some(r) => Some(&r.state),
        }
    }

    /// Publish the record of a freshly started session: the adapter's
    /// initial state and the pid of the process that was just spawned.
    /// Valid only from `Init`; the caller must have checked the status.
    pub fn complete_start(&mut self, init_state: S, pid: u32)
        requires
            old(self).record() is None,
        ensures
            final(self).record() matches Some(r) && r.state == init_state && r.pid
                == pid,
    {
        self.runtime_data = Some(RuntimeData { state: init_state, pid });
    }

    /// Record the relaunch of a stopped or killed daemon: the existing
    /// record is reused, so all accumulated daemon-defined state is
    /// preserved, and only the process is replaced.
    pub fn complete_restart(&mut self, pid: u32)
        requires
            old(self).record() is Some,
        ensures
            final(self).record() matches Some(r) && r.state == old(self).record().unwrap().state
                && r.pid == pid,
    {
        match &mut self.runtime_data {
            Some(r) => {
                r.pid = pid;
            },
            None => {},
        }
    }
}

impl<S: DaemonState> Supervisor<S> {
    /// Deliver one stdout line of the child to the daemon state.  Does
    /// nothing when no record exists (no reader loop runs then).
    pub fn feed_stdout_line(&mut self, line: &str)
        ensures
            match old(self).record() {
                None => final(self).record() is None,
                Some(r) => final(self).record() matches Some(n) && n.state@ == S::stdout_step(
                    r.state@,
                    line@,
                ) && n.pid == r.pid,
            },
    {
        match &mut self.runtime_data {
            Some(r) => {
                r.state.process_stdout(line);
            },
            None => {},
        }
    }

    /// Deliver one stderr line of the child to the daemon state.  Does
    /// nothing when no record exists.
    pub fn feed_stderr_line(&mut self, line: &str)
        ensures
            match old(self).record() {
                None => final(self).record() is None,
                Some(r) => final(self).record() matches Some(n) && n.state@ == S::stderr_step(
                    r.state@,
                    line@,
                ) && n.pid == r.pid,
            },
    {
        match &mut self.runtime_data {
            Some(r) => {
                r.state.process_stderr(line);
            },
            None => {},
        }
    }

    /// Take the stderr text accumulated by the current record, leaving
    /// it empty; the empty string when no record exists.
    pub fn take_stderr(&mut self) -> (r: String)
        ensures
            match old(self).record() {
                None => final(self).record() is None && r@ == Seq::<char>::empty(),
                Some(rec) => final(self).record() matches Some(n) && n.state@
                    == S::drained_stderr(rec.state@) && n.pid == rec.pid && r@ == S::stderr_text(
                    rec.state@,
                ),
            },
    {
        match &mut self.runtime_data {
            Some(rec) => rec.state.take_stderr(),
            None => String::new(),
        }
    }

    /// Take the error messages accumulated by the current record,
    /// leaving them empty; the empty list when no record exists.
    pub fn take_error_msgs(&mut self) -> (r: Vec<String>)
        ensures
            match old(self).record() {
                None => final(self).record() is None && r.deep_view() == Seq::<Seq<char>>::empty(),
                Some(rec) => final(self).record() matches Some(n) && n.state@
                    == S::drained_error_msgs(rec.state@) && n.pid == rec.pid && r.deep_view()
                    == S::error_msgs(rec.state@),
            },
    {
        match &mut self.runtime_data {
            Some(rec) => rec.state.take_error_msgs(),
            None => Vec::new(),
        }
    }
}

/// The state after a whole sequence of stdout lines, one handler step
/// per line, in order.
pub open spec fn stdout_fold<S: DaemonState>(v: S::V, lines: Seq<Seq<char>>) -> S::V
    decreases lines.len(),
{
    if lines.len() == 0 {
        v
    } else {
        stdout_fold::<S>(S::stdout_step(v, lines[0]), lines.skip(1))
    }
}

/// The state after a whole sequence of stderr lines, one handler step
/// per line, in order.
pub open spec fn stderr_fold<S: DaemonState>(v: S::V, lines: Seq<Seq<char>>) -> S::V
    decreases lines.len(),
{
    if lines.len() == 0 {
        v
    } else {
        stderr_fold::<S>(S::stderr_step(v, lines[0]), lines.skip(1))
    }
}

/// Law: a supervisor without a record reports `Init`, whatever any
/// poll may say.
pub proof fn lemma_status_after_new<S>(s: Supervisor<S>, poll: Option<ExitStatus>)
    requires
        s.record() is None,
    ensures
        s.status_spec(poll) == Status::Init,
{
}

/// Law: a runtime record exists exactly when the status is not
/// `Init`, whatever any poll may say.
pub proof fn lemma_record_iff_not_init<S>(s: Supervisor<S>, poll: Option<ExitStatus>)
    ensures
        (s.record() is Some) <==> s.status_spec(poll) != Status::Init,
{
}

/// Law: once a record exists (as after any successful start), a second
/// start is refused with `InvalidState` naming the current status,
/// whatever a poll of the process says.
pub proof fn lemma_start_after_start<S>(s: Supervisor<S>, poll: Option<ExitStatus>)
    requires
        s.record() is Some,
    ensures
        start_decision(s.status_spec(poll)) == Err::<(), Error>(
            Error::InvalidState(Op::Start, s.status_spec(poll)),
        ),
{
}

/// Law: stopping a supervisor that never started fails with
/// `InvalidState`, whatever a poll may say.
pub proof fn lemma_stop_from_init<S>(s: Supervisor<S>, poll: Option<ExitStatus>)
    requires
        s.record() is None,
    ensures
        stop_decision(s.status_spec(poll)) == Err::<bool, Error>(
            Error::InvalidState(Op::Stop, Status::Init),
        ),
{
}

/// Law: stopping an already-stopped daemon succeeds as a no-op (no
/// kill is sent), and its status remains `Stopped` with the same exit.
pub proof fn lemma_stop_when_stopped<S>(s: Supervisor<S>, e: ExitStatus)
    requires
        s.record() is Some,
    ensures
        stop_decision(s.status_spec(Some(e))) == Ok::<bool, Error>(false),
        s.status_spec(Some(e)) == Status::Stopped(e),
{
}

/// Returns `start_decision(status)`.
pub fn start_plan(status: Status) -> (r: Result<(), Error>)
    ensures
        r == start_decision(status),
{
    match status {
        Status::Init => Ok(()),
        _ => Err(Error::InvalidState(Op::Start, status)),
    }
}

/// Returns `stop_decision(status)`.
pub fn stop_plan(status: Status) -> (r: Result<bool, Error>)
    ensures
        r == stop_decision(status),
{
    match status {
        Status::Init => Err(Error::InvalidState(Op::Stop, status)),
        Status::Running => Ok(true),
        Status::Stopped(_) => Ok(false),
    }
}

/// Returns `restart_decision(status)`.
pub fn restart_plan(status: Status) -> (r: Result<bool, Error>)
    ensures
        r == restart_decision(status),
{
    match status {
        Status::Init => Err(Error::InvalidState(Op::Restart, status)),
        Status::Running => Ok(true),
        Status::Stopped(_) => Ok(false),
    }
}

} // verus!
