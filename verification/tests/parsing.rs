//! Tests of the UpdateTip log-line parser, the elementsd state
//! handlers, and the text helpers.

use daemon_runner::amount::Amount;
use daemon_runner::elementsd::{parse_update_tip, State};
use daemon_runner::text::u64_to_dec;
use daemon_runner::DaemonState;

fn hash64() -> String {
    "0123456789abcdef".repeat(4)
}

#[test]
fn parses_real_update_tip_line() {
    let line = format!(
        "2021-05-01T10:00:00Z UpdateTip: new best={} height=12345 version=0x20000000 log2_work=74.1",
        hash64()
    );
    assert_eq!(parse_update_tip(&line), Some((12345, hash64())));
}

#[test]
fn no_update_tip_marker_gives_none() {
    assert_eq!(parse_update_tip("plain progress line"), None);
    assert_eq!(parse_update_tip(""), None);
    // marker without the rest of the message
    assert_eq!(parse_update_tip("UpdateTip: new best="), None);
    // hash run present but height missing
    let line = format!("UpdateTip: new best={} version=1", hash64());
    assert_eq!(parse_update_tip(&line), None);
}

#[test]
fn last_update_tip_message_wins() {
    let line = format!(
        "UpdateTip: new best={} height=1 version=1 UpdateTip: new best={} height=2 version=1",
        hash64(),
        hash64()
    );
    assert_eq!(parse_update_tip(&line), Some((2, hash64())));
}

#[test]
fn bad_hash_in_last_match_gives_none() {
    // the last matching message carries a hash of the wrong length, so
    // the line is rejected even though an earlier message is fine
    let line = format!(
        "UpdateTip: new best={} height=1 version=1 UpdateTip: new best=abc height=2 version=1",
        hash64()
    );
    assert_eq!(parse_update_tip(&line), None);
}

#[test]
fn upper_case_hash_is_not_matched() {
    let line = format!("UpdateTip: new best={} height=1 version=1", hash64().to_uppercase());
    assert_eq!(parse_update_tip(&line), None);
}

#[test]
fn oversized_height_gives_none() {
    let line = format!(
        "UpdateTip: new best={} height=99999999999999999999 version=1",
        hash64()
    );
    assert_eq!(parse_update_tip(&line), None);
}

#[test]
fn height_at_u64_bounds() {
    let line = format!(
        "UpdateTip: new best={} height=18446744073709551615 version=1",
        hash64()
    );
    assert_eq!(parse_update_tip(&line), Some((u64::MAX, hash64())));
    let line = format!(
        "UpdateTip: new best={} height=18446744073709551616 version=1",
        hash64()
    );
    assert_eq!(parse_update_tip(&line), None);
}

#[test]
fn elementsd_stdout_updates_tip_and_errors() {
    let mut st = State {
        last_update_tip: None,
        stderr: String::new(),
        error_msgs: Vec::new(),
    };
    st.process_stdout(&format!(
        "UpdateTip: new best={} height=7 version=1",
        hash64()
    ));
    assert_eq!(st.last_update_tip(), Some((7, hash64())));

    // an error line is collected, the tip stays
    st.process_stdout("rpc ERROR: oh no");
    assert_eq!(st.last_update_tip(), Some((7, hash64())));
    assert_eq!(st.error_msgs, vec!["rpc ERROR: oh no".to_string()]);

    // a later tip replaces the earlier one
    let other = "f".repeat(64);
    st.process_stdout(&format!("UpdateTip: new best={} height=8 version=1", other));
    assert_eq!(st.last_update_tip(), Some((8, other)));

    // unrecognized lines change nothing
    st.process_stdout("nothing interesting");
    assert_eq!(st.error_msgs.len(), 1);

    let drained = st.take_error_msgs();
    assert_eq!(drained, vec!["rpc ERROR: oh no".to_string()]);
    assert_eq!(st.error_msgs, Vec::<String>::new());
}

#[test]
fn elementsd_stderr_accumulates() {
    let mut st = State {
        last_update_tip: None,
        stderr: String::new(),
        error_msgs: Vec::new(),
    };
    st.process_stderr("boom");
    st.process_stderr("crash");
    assert_eq!(st.stderr, "boom\ncrash\n");
    assert_eq!(st.take_stderr(), "boom\ncrash\n");
    assert_eq!(st.stderr, "");
}

#[test]
fn decimal_rendering() {
    assert_eq!(u64_to_dec(0), "0");
    assert_eq!(u64_to_dec(7), "7");
    assert_eq!(u64_to_dec(10), "10");
    assert_eq!(u64_to_dec(1020304), "1020304");
    assert_eq!(u64_to_dec(u64::MAX), "18446744073709551615");
}

#[test]
fn amount_rendering() {
    assert_eq!(Amount::from_units(0).conf_text(), "0.00000000");
    assert_eq!(Amount::from_units(1).conf_text(), "0.00000001");
    assert_eq!(Amount::from_units(100_000_000).conf_text(), "1.00000000");
    assert_eq!(Amount::from_units(123_456_789).conf_text(), "1.23456789");
    assert_eq!(
        Amount::from_units(u64::MAX).conf_text(),
        "184467440737.09551615"
    );
}
