//! Tests of the elementsd configuration rendering, the deployment
//! parameters, and the daemon handle.

use daemon_runner::amount::Amount;
use daemon_runner::elementsd::{
    Config, Daemon, EvbParams, CONFIG_FILENAME, DEFAULT_VERSION, TORV3_ADDR_LEN,
};
use daemon_runner::Error;

#[test]
fn elementsd_constants() {
    assert_eq!(CONFIG_FILENAME, "elements.conf");
    assert_eq!(DEFAULT_VERSION, 21_00_01);
    assert_eq!(TORV3_ADDR_LEN, 62);
}

#[test]
fn evb_params_display() {
    let p = EvbParams {
        start: Some(0),
        end: None,
        period: Some(10),
        threshold: Some(1),
    };
    assert_eq!(p.display_string(), "0::10:1");
    assert_eq!(EvbParams::default().display_string(), ":::");
    let full = EvbParams {
        start: Some(100),
        end: Some(200),
        period: Some(300),
        threshold: Some(400),
    };
    assert_eq!(full.display_string(), "100:200:300:400");
}

#[test]
fn liquidv1_chain_skips_consensus_lines() {
    let config = Config {
        datadir: "/tmp/el".to_string(),
        chain: "liquidv1".to_string(),
        signblockscript: Some("51".to_string()),
        con_mandatorycoinbase: Some("52".to_string()),
        rpccookie: Some("/tmp/el/cookie".to_string()),
        ..Default::default()
    };
    let expected = "datadir=/tmp/el\n\
        chain=liquidv1\n\
        [liquidv1]\n\
        fdefaultconsistencychecks=0\n\
        debug=0\n\
        printtoconsole=0\n\
        daemon=0\n\
        listen=0\n\
        listenonion=0\n\
        discover=0\n\
        txindex=0\n\
        server=1\n\
        rpccookiefile=/tmp/el/cookie\n\
        anyonecanspendaremine=0\n\
        validatepegin=0\n";
    assert_eq!(config.render(), expected);
}

#[test]
fn elementsregtest_config_renders_exactly() {
    let onion = format!("{}.onion", "a".repeat(56));
    assert_eq!(onion.len(), 62);
    let config = Config {
        version: 20_00_00,
        chain: "elementsregtest".to_string(),
        externalip: Some(onion.clone()),
        pak_pubkeys: vec![("02aa".to_string(), "03bb".to_string())],
        con_mandatorycoinbase: Some("51".to_string()),
        dynamic_epoch_length: Some(10),
        evbparams_dynafed: Some(EvbParams {
            start: Some(0),
            end: None,
            period: Some(10),
            threshold: Some(1),
        }),
        blockmaxweight: Some(4000000),
        con_dyna_deploy_signal: Some(true),
        connect: vec!["x:1".to_string()],
        validatepegin: true,
        anyonecanspendaremine: true,
        peginconfirmationdepth: Some(8),
        mainchain_rpchost: Some("127.0.0.1".to_string()),
        mainchain_rpcport: Some(18443),
        minrelaytxfee: Some(Amount::from_units(100_000_000)),
        ..Default::default()
    };
    let expected = format!(
        "chain=elementsregtest\n\
        [elementsregtest]\n\
        fdefaultconsistencychecks=0\n\
        debug=0\n\
        printtoconsole=0\n\
        daemon=0\n\
        listen=0\n\
        listenonion=0\n\
        discover=0\n\
        ;externalip={}\n\
        txindex=0\n\
        pak=02aa03bb\n\
        con_mandatorycoinbase=51\n\
        con_npowtargetspacing=60\n\
        dynamic_epoch_length=10\n\
        pchmessagestart=5319F20E\n\
        evbparams=dynafed:0::10:1\n\
        blockmaxweight=4000000\n\
        con_dyna_deploy_signal=1\n\
        enforce_pak=1\n\
        connect=x:1\n\
        anyonecanspendaremine=1\n\
        peginconfirmationdepth=8\n\
        validatepegin=1\n\
        mainchainrpchost=127.0.0.1\n\
        mainchainrpcport=18443\n\
        minrelaytxfee=1.00000000\n",
        onion
    );
    assert_eq!(config.render(), expected);
}

#[test]
fn current_version_keeps_torv3_externalip() {
    let onion = format!("{}.onion", "b".repeat(56));
    let config = Config {
        version: 21_00_00,
        chain: "elementsregtest".to_string(),
        externalip: Some(onion.clone()),
        ..Default::default()
    };
    let text = config.render();
    assert!(text.contains(&format!("\nexternalip={}\n", onion)));
    assert!(!text.contains(";externalip"));
    // current versions also drop the network-magic compatibility line
    assert!(!text.contains("pchmessagestart"));
}

#[test]
fn short_externalip_is_not_commented() {
    let config = Config {
        version: 20_00_00,
        chain: "elementsregtest".to_string(),
        externalip: Some("203.0.113.5".to_string()),
        ..Default::default()
    };
    let text = config.render();
    assert!(text.contains("\nexternalip=203.0.113.5\n"));
    assert!(!text.contains(";externalip"));
}

#[test]
fn liquidv1test_old_version_magic() {
    let config = Config {
        version: 20_00_00,
        chain: "liquidv1test".to_string(),
        ..Default::default()
    };
    let text = config.render();
    assert!(text.contains("pchmessagestart=143EFCB1\n"));
}

#[test]
fn mainchain_lines_only_with_validatepegin() {
    let config = Config {
        chain: "elementsregtest".to_string(),
        validatepegin: false,
        mainchain_rpchost: Some("127.0.0.1".to_string()),
        mainchain_rpcuser: Some("u".to_string()),
        mainchain_rpcpass: Some("p".to_string()),
        ..Default::default()
    };
    let text = config.render();
    assert!(!text.contains("mainchainrpchost"));
    assert!(!text.contains("mainchainrpcuser"));
    assert!(!text.contains("mainchainrpcpassword"));
}

#[test]
fn daemon_named_rejects_relative_datadir() {
    let config = Config {
        datadir: "not/absolute".to_string(),
        chain: "elementsregtest".to_string(),
        ..Default::default()
    };
    let err = Daemon::named("liq".to_string(), "/bin/elementsd".to_string(), config).unwrap_err();
    assert_eq!(err, Error::Config("datadir should be an absolute path"));
}

#[test]
fn daemon_prepare_and_command_elementsd() {
    let config = Config {
        datadir: "/tmp/el-cmd".to_string(),
        chain: "elementsregtest".to_string(),
        ..Default::default()
    };
    let mut d =
        Daemon::named("liq".to_string(), "/bin/elementsd".to_string(), config.clone()).unwrap();
    assert_eq!(d.name(), "liq");
    assert_eq!(d.describe(), "elementsd \"liq\"");
    assert_eq!(d.datadir(), "/tmp/el-cmd");

    let (path, text) = d.prepare_plan().expect("first prepare must write the file");
    assert_eq!(path, "/tmp/el-cmd/elements.conf");
    assert_eq!(text, config.render());
    d.mark_prepared();
    assert!(d.prepare_plan().is_none());

    let cmd = d.command();
    assert_eq!(cmd.program, "/bin/elementsd");
    assert_eq!(
        cmd.args,
        vec!["-conf=/tmp/el-cmd/elements.conf".to_string(), "-printtoconsole=1".to_string()]
    );

    let st = d.init_state();
    assert!(st.last_update_tip.is_none());
    assert_eq!(st.stderr, "");
    assert_eq!(st.error_msgs, Vec::<String>::new());
}

#[test]
fn daemon_new_is_unnamed() {
    let config = Config {
        datadir: "/tmp/el-new".to_string(),
        chain: "elementsregtest".to_string(),
        ..Default::default()
    };
    let d = Daemon::new("/bin/elementsd".to_string(), config).unwrap();
    assert_eq!(d.name(), "");
    assert_eq!(d.describe(), "<unnamed> elementsd");
}
