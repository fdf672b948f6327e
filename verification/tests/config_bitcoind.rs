//! Tests of the bitcoind configuration rendering and daemon handle.

use daemon_runner::amount::Amount;
use daemon_runner::bitcoind::{Config, Daemon, Network, CONFIG_FILENAME, DEFAULT_VERSION};
use daemon_runner::rpc::Auth;
use daemon_runner::Error;

#[test]
fn bitcoind_constants() {
    assert_eq!(CONFIG_FILENAME, "bitcoin.conf");
    assert_eq!(DEFAULT_VERSION, 21_00_00);
}

#[test]
fn full_regtest_config_renders_exactly() {
    let config = Config {
        version: 0,
        datadir: "/tmp/dr-test".to_string(),
        network: Some(Network::Regtest),
        fdefaultconsistencychecks: Some(true),
        debug: true,
        listen: true,
        port: Some(18444),
        proxy: Some("127.0.0.1:9050".to_string()),
        txindex: true,
        connect: vec!["a:1".to_string(), "b:2".to_string()],
        addnodes: vec!["n1".to_string()],
        rpcport: Some(18443),
        rpcuser: Some("user".to_string()),
        rpcpass: Some("pass".to_string()),
        disablewallet: Some(false),
        dbcache: Some(300),
        addresstype: Some("bech32".to_string()),
        blockmintxfee: Some(Amount::from_units(1000)),
        fallbackfee: Some(Amount::from_units(20000)),
        ..Default::default()
    };
    let expected = "datadir=/tmp/dr-test\n\
        regtest=1\n\
        [regtest]\n\
        checkblockindex=1\n\
        checkmempool=1\n\
        debug=1\n\
        printtoconsole=0\n\
        daemon=0\n\
        listen=1\n\
        listenonion=0\n\
        discover=0\n\
        port=18444\n\
        proxy=127.0.0.1:9050\n\
        txindex=1\n\
        connect=a:1\n\
        connect=b:2\n\
        addnode=n1\n\
        server=1\n\
        rpcallowip=127.0.0.1\n\
        rpcbind=127.0.0.1\n\
        rpcport=18443\n\
        rpcuser=user\n\
        rpcpassword=pass\n\
        disablewallet=0\n\
        dbcache=300\n\
        addresstype=bech32\n\
        blockmintxfee=0.00001000\n\
        fallbackfee=0.00020000\n";
    assert_eq!(config.render(), expected);
}

#[test]
fn old_testnet_config_has_no_section_header() {
    // at exactly version 17.0.0 the section header is not yet written
    let config = Config { version: 17_00_00, network: Some(Network::Testnet), ..Default::default() };
    let expected = "testnet=1\n\
        debug=0\n\
        printtoconsole=0\n\
        daemon=0\n\
        listen=0\n\
        listenonion=0\n\
        discover=0\n\
        txindex=0\n";
    assert_eq!(config.render(), expected);
}

#[test]
fn mainnet_network_writes_no_network_line() {
    let config = Config { network: Some(Network::Bitcoin), ..Default::default() };
    let text = config.render();
    assert!(!text.contains("testnet"));
    assert!(!text.contains("regtest"));
}

#[test]
fn cookie_auth_writes_cookie_file_line() {
    let config = Config {
        rpccookie: Some("/tmp/dr/.cookie".to_string()),
        ..Default::default()
    };
    let text = config.render();
    assert!(text.contains("server=1\nrpccookiefile=/tmp/dr/.cookie\n"));
}

#[test]
fn write_into_appends_to_existing_text() {
    let config = Config::default();
    let mut out = "# generated\n".to_string();
    config.write_into(&mut out);
    assert!(out.starts_with("# generated\ndebug=0\n"));
}

#[test]
fn daemon_new_rejects_relative_datadir() {
    let config = Config { datadir: "relative/dir".to_string(), ..Default::default() };
    let err = Daemon::new("/usr/local/bin/bitcoind".to_string(), config).unwrap_err();
    assert_eq!(err, Error::Config("datadir should be an absolute path"));
}

#[test]
fn daemon_prepare_and_command() {
    let config = Config { datadir: "/tmp/dr-cmd".to_string(), ..Default::default() };
    let mut d = Daemon::new("/usr/local/bin/bitcoind".to_string(), config.clone()).unwrap();
    assert_eq!(d.datadir(), "/tmp/dr-cmd");

    let (path, text) = d.prepare_plan().expect("first prepare must write the file");
    assert_eq!(path, "/tmp/dr-cmd/bitcoin.conf");
    assert_eq!(text, config.render());
    d.mark_prepared();
    // preparation is idempotent: nothing left to write
    assert!(d.prepare_plan().is_none());

    let cmd = d.command();
    assert_eq!(cmd.program, "/usr/local/bin/bitcoind");
    assert_eq!(
        cmd.args,
        vec!["-conf=/tmp/dr-cmd/bitcoin.conf".to_string(), "-printtoconsole=1".to_string()]
    );
}

#[test]
fn daemon_name_and_describe() {
    let config = Config { datadir: "/tmp/dr-name".to_string(), ..Default::default() };
    let mut d = Daemon::new("/bin/bitcoind".to_string(), config).unwrap();
    assert_eq!(d.name(), "");
    assert_eq!(d.describe(), "<unnamed> bitcoind");
    d.set_name("alice".to_string());
    assert_eq!(d.name(), "alice");
    assert_eq!(d.describe(), "bitcoind \"alice\"");
}

#[test]
fn daemon_stdout_log_for_old_versions() {
    let old = Config { version: 17_99_99, datadir: "/tmp/dr-log".to_string(), ..Default::default() };
    let d = Daemon::new("/bin/bitcoind".to_string(), old).unwrap();
    assert!(d.wants_stdout_log());
    assert_eq!(d.stdout_log_path(), "/tmp/dr-log/stdout.log");

    let new = Config { version: 18_00_00, datadir: "/tmp/dr-log".to_string(), ..Default::default() };
    let d = Daemon::new("/bin/bitcoind".to_string(), new).unwrap();
    assert!(!d.wants_stdout_log());
}

#[test]
fn rpc_info_variants() {
    let base = Config { datadir: "/tmp/dr-rpc".to_string(), ..Default::default() };

    // no rpc port: no info
    let d = Daemon::new("/bin/bitcoind".to_string(), base.clone()).unwrap();
    assert!(d.rpc_info().is_none());

    // cookie file wins
    let c = Config {
        rpcport: Some(8332),
        rpccookie: Some("/tmp/dr-rpc/.cookie".to_string()),
        rpcuser: Some("ignored".to_string()),
        ..base.clone()
    };
    let d = Daemon::new("/bin/bitcoind".to_string(), c).unwrap();
    let (url, auth) = d.rpc_info().unwrap();
    assert_eq!(url, "http://127.0.0.1:8332");
    assert_eq!(auth, Auth::CookieFile("/tmp/dr-rpc/.cookie".to_string()));

    // user and password
    let c = Config {
        rpcport: Some(18443),
        rpcuser: Some("u".to_string()),
        rpcpass: Some("p".to_string()),
        ..base.clone()
    };
    let d = Daemon::new("/bin/bitcoind".to_string(), c).unwrap();
    let (url, auth) = d.rpc_info().unwrap();
    assert_eq!(url, "http://127.0.0.1:18443");
    assert_eq!(auth, Auth::UserPass("u".to_string(), "p".to_string()));

    // user without password: no info
    let c = Config { rpcport: Some(18443), rpcuser: Some("u".to_string()), ..base };
    let d = Daemon::new("/bin/bitcoind".to_string(), c).unwrap();
    assert!(d.rpc_info().is_none());
}

#[test]
fn init_state_is_empty() {
    let config = Config { datadir: "/tmp/dr-init".to_string(), ..Default::default() };
    let d = Daemon::new("/bin/bitcoind".to_string(), config).unwrap();
    let st = d.init_state();
    assert_eq!(st.stderr, "");
    assert_eq!(st.error_msgs, Vec::<String>::new());
}
