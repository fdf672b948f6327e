//! Tests of the lifecycle supervisor: the state machine decisions and
//! the runtime record, driven with explicit poll outcomes.

use daemon_runner::bitcoind::State;
use daemon_runner::runner::{restart_plan, start_plan, stop_plan, Supervisor};
use daemon_runner::{DaemonState, Error, ExitStatus, Op, Status};

fn fresh_state() -> State {
    State { stderr: String::new(), error_msgs: Vec::new() }
}

#[test]
fn status_is_init_after_construction() {
    let sup: Supervisor<State> = Supervisor::new();
    assert_eq!(sup.status_with(None), Status::Init);
    assert_eq!(sup.status_with(Some(ExitStatus::Code(0))), Status::Init);
    assert_eq!(sup.pid(), None);
    assert!(sup.state_ref().is_none());
}

#[test]
fn start_allowed_only_from_init() {
    assert!(start_plan(Status::Init).is_ok());
    assert_eq!(
        start_plan(Status::Running),
        Err(Error::InvalidState(Op::Start, Status::Running))
    );
    assert_eq!(
        start_plan(Status::Stopped(ExitStatus::Code(0))),
        Err(Error::InvalidState(Op::Start, Status::Stopped(ExitStatus::Code(0))))
    );
}

#[test]
fn second_start_fails_with_invalid_state() {
    let mut sup: Supervisor<State> = Supervisor::new();
    assert!(start_plan(sup.status_with(None)).is_ok());
    sup.complete_start(fresh_state(), 100);
    let status = sup.status_with(None);
    assert_eq!(status, Status::Running);
    assert_eq!(
        start_plan(status),
        Err(Error::InvalidState(Op::Start, Status::Running))
    );
}

#[test]
fn stop_from_init_fails_with_invalid_state() {
    let sup: Supervisor<State> = Supervisor::new();
    let status = sup.status_with(None);
    assert_eq!(
        stop_plan(status),
        Err(Error::InvalidState(Op::Stop, Status::Init))
    );
}

#[test]
fn stop_when_stopped_is_noop_and_status_stays_stopped() {
    let mut sup: Supervisor<State> = Supervisor::new();
    sup.complete_start(fresh_state(), 100);
    let exited = Some(ExitStatus::Code(0));
    let status = sup.status_with(exited);
    assert_eq!(status, Status::Stopped(ExitStatus::Code(0)));
    // no-op success: no kill to send
    assert_eq!(stop_plan(status), Ok(false));
    // nothing changed, so the status is still Stopped
    assert_eq!(sup.status_with(exited), Status::Stopped(ExitStatus::Code(0)));
}

#[test]
fn stop_while_running_sends_kill() {
    let mut sup: Supervisor<State> = Supervisor::new();
    sup.complete_start(fresh_state(), 100);
    assert_eq!(stop_plan(sup.status_with(None)), Ok(true));
}

#[test]
fn status_reports_exit_of_immediate_child() {
    // a child that exits at once with code 0: the poll reports the exit
    // and status() turns it into Stopped
    let mut sup: Supervisor<State> = Supervisor::new();
    sup.complete_start(fresh_state(), 555);
    assert_eq!(
        sup.status_with(Some(ExitStatus::Code(0))),
        Status::Stopped(ExitStatus::Code(0))
    );
}

#[test]
fn restart_preserves_state_and_replaces_pid() {
    let mut sup: Supervisor<State> = Supervisor::new();
    sup.complete_start(fresh_state(), 100);
    sup.feed_stdout_line("startup ERROR: disk almost full");
    assert_eq!(sup.pid(), Some(100));

    // the daemon exits; restart is allowed and reuses the record
    let status = sup.status_with(Some(ExitStatus::Code(1)));
    assert_eq!(restart_plan(status), Ok(false));
    sup.complete_restart(200);

    assert_eq!(sup.pid(), Some(200));
    // state accumulated before the restart survives it
    let msgs = sup.take_error_msgs();
    assert_eq!(msgs, vec!["startup ERROR: disk almost full".to_string()]);
}

#[test]
fn restart_from_init_fails_with_invalid_state() {
    assert_eq!(
        restart_plan(Status::Init),
        Err(Error::InvalidState(Op::Restart, Status::Init))
    );
}

#[test]
fn restart_while_running_stops_first() {
    assert_eq!(restart_plan(Status::Running), Ok(true));
}

#[test]
fn feed_lines_reach_the_daemon_state_in_order() {
    let mut sup: Supervisor<State> = Supervisor::new();
    sup.complete_start(fresh_state(), 7);
    sup.feed_stdout_line("ERROR one");
    sup.feed_stdout_line("all good");
    sup.feed_stdout_line("ERROR two");
    sup.feed_stderr_line("warning: a");
    sup.feed_stderr_line("warning: b");
    assert_eq!(
        sup.take_error_msgs(),
        vec!["ERROR one".to_string(), "ERROR two".to_string()]
    );
    assert_eq!(sup.take_stderr(), "warning: a\nwarning: b\n");
    // both drains leave the buffers empty
    assert_eq!(sup.take_error_msgs(), Vec::<String>::new());
    assert_eq!(sup.take_stderr(), "");
}

#[test]
fn take_accessors_without_record_return_empty() {
    let mut sup: Supervisor<State> = Supervisor::new();
    assert_eq!(sup.take_stderr(), "");
    assert_eq!(sup.take_error_msgs(), Vec::<String>::new());
}

#[test]
fn ready_stop_scenario() {
    // the life of a short-lived daemon: start, observe Running, see a
    // marker line on stdout, send the stop signal, poll until Stopped
    let mut sup: Supervisor<State> = Supervisor::new();
    assert_eq!(sup.status_with(None), Status::Init);
    assert!(start_plan(sup.status_with(None)).is_ok());
    sup.complete_start(fresh_state(), 4242);

    assert_eq!(sup.status_with(None), Status::Running);
    sup.feed_stdout_line("ERROR-MARKER READY");

    // stop: the decision says a kill signal must be sent
    assert_eq!(stop_plan(sup.status_with(None)), Ok(true));
    // the caller sends the signal; polls first still see it running,
    // then report the termination
    assert_eq!(sup.status_with(None), Status::Running);
    assert_eq!(
        sup.status_with(Some(ExitStatus::Signal(15))),
        Status::Stopped(ExitStatus::Signal(15))
    );

    // the marker set by the stdout handler is in the state
    let state = sup.state_ref().unwrap();
    assert_eq!(state.error_msgs, vec!["ERROR-MARKER READY".to_string()]);
}

#[test]
fn process_stdout_records_marker_lines_once_in_order() {
    let mut st = fresh_state();
    st.process_stdout("2021-01-01 error: one");
    st.process_stdout("plain progress line");
    st.process_stdout("Error: two");
    st.process_stdout("eRrOr three");
    assert_eq!(
        st.error_msgs,
        vec![
            "2021-01-01 error: one".to_string(),
            "Error: two".to_string(),
            "eRrOr three".to_string()
        ]
    );
    assert_eq!(st.stderr, "");
}

#[test]
fn process_stderr_appends_lines_with_newlines() {
    let mut st = fresh_state();
    st.process_stderr("first");
    st.process_stderr("second");
    assert_eq!(st.stderr, "first\nsecond\n");
    assert_eq!(st.error_msgs, Vec::<String>::new());
    let drained = st.take_stderr();
    assert_eq!(drained, "first\nsecond\n");
    assert_eq!(st.stderr, "");
}

#[test]
fn error_messages_name_operation_and_status() {
    assert_eq!(
        Error::InvalidState(Op::Start, Status::Running).message(),
        "cannot start: status is Running"
    );
    assert_eq!(
        Error::InvalidState(Op::Stop, Status::Init).message(),
        "cannot stop: status is Init"
    );
    assert_eq!(
        Error::InvalidState(Op::Restart, Status::Stopped(ExitStatus::Code(3))).message(),
        "cannot restart: status is Stopped"
    );
    assert_eq!(
        Error::Config("datadir should be an absolute path").message(),
        "config error: datadir should be an absolute path"
    );
}
