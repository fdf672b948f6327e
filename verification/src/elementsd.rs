//! The elementsd daemon adapter: its configuration file, the parser for
//! its UpdateTip log lines, its runtime state, and the daemon handle.

use vstd::prelude::*;

use crate::amount::{amount_text, Amount};
use crate::error::Error;
use crate::rpc::{auth_spec, rpc_info, rpc_url_text, Auth};
use crate::runner::{stderr_fold, stdout_fold, Command, DaemonState};
use crate::text::{
    bool_digit, conf_line, conf_lines, dec_digits, dec_value, digit_end, digit_run_end, hex_end,
    hex_run_end, lemma_digit_run, match_at, parse_u64_digits, push_dec_line,
    push_flag_line, push_line, push_lines, push_text_line, str_is, str_to_chars,
    check_absolute_path, contains_error_marker, contains_error_marker_spec, is_absolute_path,
    joined_lines,
};

verus! {

/// The file name of the written configuration file, inside the data
/// directory.
pub const CONFIG_FILENAME: &'static str = "elements.conf";

/// The configuration file format version assumed when none is given:
/// two digits per section, so `21_00_01` stands for 21.0.1.
pub const DEFAULT_VERSION: u64 = 21_00_01;

/// The length of a version-3 onion address.
pub const TORV3_ADDR_LEN: usize = 62;

/// Version-bits deployment parameters, written as
/// `start:end:period:threshold` with empty slots for unset values.
#[derive(Clone, Debug, PartialEq, Eq)]
pub struct EvbParams {
    pub start: Option<u64>,
    pub end: Option<u64>,
    pub period: Option<u64>,
    pub threshold: Option<u64>,
}

/// The text of one optional number: empty when unset.
pub open spec fn opt_dec_text(v: Option<u64>) -> Seq<char> {
    match v {
        None => Seq::empty(),
        Some(x) => dec_digits(x as nat),
    }
}

/// The deployment-parameter text: the four slots separated by colons.
pub open spec fn evb_text(p: EvbParams) -> Seq<char> {
    opt_dec_text(p.start) + ":"@ + opt_dec_text(p.end) + ":"@ + opt_dec_text(p.period) + ":"@
        + opt_dec_text(p.threshold)
}

/// Appends the text of one optional number to `out`.
fn push_opt_dec(out: &mut String, v: &Option<u64>)
    ensures
        final(out)@ == old(out)@ + opt_dec_text(*v),
{
    match v {
        None => {},
        Some(x) => crate::text::push_dec(out, *x),
    }
}

impl EvbParams {
    /// The `start:end:period:threshold` text of these parameters.
    pub fn display_string(&self) -> (s: String)
        ensures
            s@ == evb_text(*self),
    {
        let mut s = String::new();
        push_opt_dec(&mut s, &self.start);
        s.append(":");
        push_opt_dec(&mut s, &self.end);
        s.append(":");
        push_opt_dec(&mut s, &self.period);
        s.append(":");
        push_opt_dec(&mut s, &self.threshold);
        assert(s@ =~= evb_text(*self));
        s
    }
}

impl Default for EvbParams {
    /// Parameters with every slot unset.
    fn default() -> (p: EvbParams)
        ensures
            p.start is None,
            p.end is None,
            p.period is None,
            p.threshold is None,
    {
        EvbParams { start: None, end: None, period: None, threshold: None }
    }
}

/// The elementsd configuration.  `write_into` renders it in the format
/// the daemon reads from its configuration file.
#[derive(Clone, Debug, PartialEq, Eq)]
pub struct Config {
    /// Not written into the file itself, but decides the file format:
    /// two digits per section, 4 sections, so 0.18.1.0 is `18_01_00`.
    /// Zero means `DEFAULT_VERSION`.
    pub version: u64,
    /// The data directory, as an absolute path.
    pub datadir: String,
    pub debug: bool,
    pub printtoconsole: bool,
    pub daemon: bool,
    pub listen: bool,
    pub listenonion: bool,
    pub discover: bool,
    pub port: Option<u16>,
    pub externalip: Option<String>,
    pub proxy: Option<String>,
    pub bind: Vec<String>,
    pub onlynet: Vec<String>,
    pub txindex: bool,
    pub connect: Vec<String>,
    pub fdefaultconsistencychecks: bool,
    pub rpccookie: Option<String>,
    pub rpcport: Option<u16>,
    pub rpcuser: Option<String>,
    pub rpcpass: Option<String>,
    pub addresstype: Option<String>,
    pub blockmintxfee: Option<Amount>,
    pub minrelaytxfee: Option<Amount>,
    /// The chain to run; must not be empty.
    pub chain: String,
    pub validatepegin: bool,
    pub anyonecanspendaremine: bool,
    pub peginconfirmationdepth: Option<usize>,
    /// The block-signing script, as hexadecimal text.
    pub signblockscript: Option<String>,
    pub con_max_block_sig_size: Option<usize>,
    pub con_mandatorycoinbase: Option<String>,
    /// The federation peg script, as hexadecimal text.
    pub fedpegscript: Option<String>,
    /// Pairs of online and offline keys, each as hexadecimal text.
    pub pak_pubkeys: Vec<(String, String)>,
    pub evbparams_dynafed: Option<EvbParams>,
    pub evbparams_taproot: Option<EvbParams>,
    pub con_taproot_signal_start: Option<u64>,
    pub con_dyna_deploy_start: Option<u64>,
    pub con_dyna_deploy_signal: Option<bool>,
    pub con_nminerconfirmationwindow: Option<u64>,
    pub con_nrulechangeactivationthreshold: Option<u64>,
    pub dynamic_epoch_length: Option<u64>,
    pub blockmaxweight: Option<u64>,
    pub mainchain_rpchost: Option<String>,
    pub mainchain_rpcport: Option<u16>,
    pub mainchain_rpcuser: Option<String>,
    pub mainchain_rpcpass: Option<String>,
}

impl Default for Config {
    /// A configuration with everything unset or off.  A chain must be
    /// set before the configuration can be rendered.
    fn default() -> (c: Config)
        ensures
            c.version == 0,
            c.datadir@ == Seq::<char>::empty(),
            !c.debug,
            !c.printtoconsole,
            !c.daemon,
            !c.listen,
            !c.listenonion,
            !c.discover,
            c.port is None,
            c.externalip is None,
            c.proxy is None,
            c.bind@ == Seq::<String>::empty(),
            c.onlynet@ == Seq::<String>::empty(),
            !c.txindex,
            c.connect@ == Seq::<String>::empty(),
            !c.fdefaultconsistencychecks,
            c.rpccookie is None,
            c.rpcport is None,
            c.rpcuser is None,
            c.rpcpass is None,
            c.addresstype is None,
            c.blockmintxfee is None,
            c.minrelaytxfee is None,
            c.chain@ == Seq::<char>::empty(),
            !c.validatepegin,
            !c.anyonecanspendaremine,
            c.peginconfirmationdepth is None,
            c.signblockscript is None,
            c.con_max_block_sig_size is None,
            c.con_mandatorycoinbase is None,
            c.fedpegscript is None,
            c.pak_pubkeys@ == Seq::<(String, String)>::empty(),
            c.evbparams_dynafed is None,
            c.evbparams_taproot is None,
            c.con_taproot_signal_start is None,
            c.con_dyna_deploy_start is None,
            c.con_dyna_deploy_signal is None,
            c.con_nminerconfirmationwindow is None,
            c.con_nrulechangeactivationthreshold is None,
            c.dynamic_epoch_length is None,
            c.blockmaxweight is None,
            c.mainchain_rpchost is None,
            c.mainchain_rpcport is None,
            c.mainchain_rpcuser is None,
            c.mainchain_rpcpass is None,
    {
        Config {
            version: 0,
            datadir: String::new(),
            debug: false,
            printtoconsole: false,
            daemon: false,
            listen: false,
            listenonion: false,
            discover: false,
            port: None,
            externalip: None,
            proxy: None,
            bind: Vec::new(),
            onlynet: Vec::new(),
            txindex: false,
            connect: Vec::new(),
            fdefaultconsistencychecks: false,
            rpccookie: None,
            rpcport: None,
            rpcuser: None,
            rpcpass: None,
            addresstype: None,
            blockmintxfee: None,
            minrelaytxfee: None,
            chain: String::new(),
            validatepegin: false,
            anyonecanspendaremine: false,
            peginconfirmationdepth: None,
            signblockscript: None,
            con_max_block_sig_size: None,
            con_mandatorycoinbase: None,
            fedpegscript: None,
            pak_pubkeys: Vec::new(),
            evbparams_dynafed: None,
            evbparams_taproot: None,
            con_taproot_signal_start: None,
            con_dyna_deploy_start: None,
            con_dyna_deploy_signal: None,
            con_nminerconfirmationwindow: None,
            con_nrulechangeactivationthreshold: None,
            dynamic_epoch_length: None,
            blockmaxweight: None,
            mainchain_rpchost: None,
            mainchain_rpcport: None,
            mainchain_rpcuser: None,
            mainchain_rpcpass: None,
        }
    }
}

/// The version the file format is written for.
pub open spec fn effective_version(c: Config) -> u64 {
    if c.version > 0 {
        c.version
    } else {
        DEFAULT_VERSION
    }
}

/// The opening lines: data directory, chain selection and its section
/// header, and the consistency-check flag.
pub open spec fn prologue_text(c: Config) -> Seq<char> {
    (if c.datadir@.len() > 0 {
        conf_line("datadir="@, c.datadir@)
    } else {
        Seq::empty()
    }) + conf_line("chain="@, c.chain@) + "["@ + c.chain@ + "]"@ + "\n"@ + conf_line(
        "fdefaultconsistencychecks="@,
        bool_digit(c.fdefaultconsistencychecks),
    )
}

/// The six flag lines that are always written.
pub open spec fn flags_text(c: Config) -> Seq<char> {
    conf_line("debug="@, bool_digit(c.debug)) + conf_line(
        "printtoconsole="@,
        bool_digit(c.printtoconsole),
    ) + conf_line("daemon="@, bool_digit(c.daemon)) + conf_line("listen="@, bool_digit(c.listen))
        + conf_line("listenonion="@, bool_digit(c.listenonion)) + conf_line(
        "discover="@,
        bool_digit(c.discover),
    )
}

/// The leading lines of the file.
pub open spec fn head_text(c: Config) -> Seq<char> {
    prologue_text(c) + flags_text(c)
}

/// Whether the external address is a version-3 onion address, which
/// versions before 21.0.0 cannot handle.
pub open spec fn torv3_externalip(c: Config, v: Seq<char>) -> bool {
    v.len() == TORV3_ADDR_LEN && v.subrange(
        TORV3_ADDR_LEN - 6,
        TORV3_ADDR_LEN as int,
    ) == ".onion"@ && effective_version(c) < 21_00_00
}

/// The peer-to-peer networking lines.  An external address the daemon
/// version cannot handle is left in the file, commented out.
pub open spec fn net_text(c: Config) -> Seq<char> {
    (match c.port {
        None => Seq::empty(),
        Some(p) => conf_line("port="@, dec_digits(p as nat)),
    }) + (match c.proxy {
        None => Seq::empty(),
        Some(v) => conf_line("proxy="@, v@),
    }) + conf_lines("bind="@, c.bind@) + conf_lines("onlynet="@, c.onlynet@) + (
    match c.externalip {
        None => Seq::empty(),
        Some(v) => (if torv3_externalip(c, v@) {
            ";"@
        } else {
            Seq::empty()
        }) + conf_line("externalip="@, v@),
    }) + conf_line("txindex="@, bool_digit(c.txindex))
}

/// One `pak=` line per key pair, from index `i` on.
pub open spec fn pak_lines_from(pairs: Seq<(String, String)>, i: int) -> Seq<char>
    decreases pairs.len() - i,
{
    if i < 0 || i >= pairs.len() {
        Seq::empty()
    } else {
        "pak="@ + pairs[i].0@ + pairs[i].1@ + "\n"@ + pak_lines_from(pairs, i + 1)
    }
}

/// The consensus script lines.
pub open spec fn consensus_scripts_text(c: Config) -> Seq<char> {
    (match c.signblockscript {
        None => Seq::empty(),
        Some(v) => conf_line("signblockscript="@, v@),
    }) + (match c.con_max_block_sig_size {
        None => Seq::empty(),
        Some(v) => conf_line("con_max_block_sig_size="@, dec_digits(v as nat)),
    }) + (match c.fedpegscript {
        None => Seq::empty(),
        Some(v) => conf_line("fedpegscript="@, v@),
    }) + pak_lines_from(c.pak_pubkeys@, 0) + (match c.con_mandatorycoinbase {
        None => Seq::empty(),
        Some(v) => conf_line("con_mandatorycoinbase="@, v@),
    }) + "con_npowtargetspacing=60"@ + "\n"@
}

/// The consensus parameter lines, with the network magic for chains
/// that older versions know under other defaults.
pub open spec fn consensus_params_text(c: Config) -> Seq<char> {
    (match c.con_nminerconfirmationwindow {
        None => Seq::empty(),
        Some(v) => conf_line("con_nminerconfirmationwindow="@, dec_digits(v as nat)),
    }) + (match c.con_nrulechangeactivationthreshold {
        None => Seq::empty(),
        Some(v) => conf_line("con_nrulechangeactivationthreshold="@, dec_digits(v as nat)),
    }) + (match c.dynamic_epoch_length {
        None => Seq::empty(),
        Some(v) => conf_line("dynamic_epoch_length="@, dec_digits(v as nat)),
    }) + (if effective_version(c) < 21_00_00 {
        if c.chain@ == "elementsregtest"@ {
            "pchmessagestart=5319F20E"@ + "\n"@
        } else if c.chain@ == "liquidv1test"@ {
            "pchmessagestart=143EFCB1"@ + "\n"@
        } else {
            Seq::empty()
        }
    } else {
        Seq::empty()
    })
}

/// The deployment lines.
pub open spec fn consensus_deploy_text(c: Config) -> Seq<char> {
    (match c.con_dyna_deploy_start {
        None => Seq::empty(),
        Some(v) => conf_line("con_dyna_deploy_start="@, dec_digits(v as nat)),
    }) + (match c.con_taproot_signal_start {
        None => Seq::empty(),
        Some(v) => conf_line("con_taproot_signal_start="@, dec_digits(v as nat)),
    }) + (match c.evbparams_dynafed {
        None => Seq::empty(),
        Some(p) => "evbparams=dynafed:"@ + evb_text(p) + "\n"@,
    }) + (match c.evbparams_taproot {
        None => Seq::empty(),
        Some(p) => "evbparams=taproot:"@ + evb_text(p) + "\n"@,
    })
}

/// The consensus lines, which have no effect for pre-defined chains
/// and are therefore left out for the production chain.
pub open spec fn consensus_text(c: Config) -> Seq<char> {
    if c.chain@ == "liquidv1"@ {
        Seq::empty()
    } else {
        consensus_scripts_text(c) + consensus_params_text(c) + consensus_deploy_text(c)
    }
}

/// The lines after the consensus block: block weight, the deployment
/// signal, key enforcement, and the peers to connect to.
pub open spec fn post_text(c: Config) -> Seq<char> {
    (match c.blockmaxweight {
        None => Seq::empty(),
        Some(v) => conf_line("blockmaxweight="@, dec_digits(v as nat)),
    }) + (match c.con_dyna_deploy_signal {
        None => Seq::empty(),
        Some(v) => conf_line("con_dyna_deploy_signal="@, bool_digit(v)),
    }) + (if c.pak_pubkeys@.len() > 0 {
        "enforce_pak=1"@ + "\n"@
    } else {
        Seq::empty()
    }) + conf_lines("connect="@, c.connect@)
}

/// The RPC server lines; the server is enabled exactly when some form
/// of credentials is configured.
pub open spec fn rpc_text(c: Config) -> Seq<char> {
    (if c.rpccookie is Some || c.rpcuser is Some {
        "server=1"@ + "\n"@
    } else {
        Seq::empty()
    }) + (match c.rpccookie {
        None => Seq::empty(),
        Some(cf) => conf_line("rpccookiefile="@, cf@),
    }) + (match c.rpcport {
        None => Seq::empty(),
        Some(p) => "rpcallowip=127.0.0.1"@ + "\n"@ + "rpcbind=127.0.0.1"@ + "\n"@ + conf_line(
            "rpcport="@,
            dec_digits(p as nat),
        ),
    }) + (match c.rpcuser {
        None => Seq::empty(),
        Some(u) => conf_line("rpcuser="@, u@),
    }) + (match c.rpcpass {
        None => Seq::empty(),
        Some(p) => conf_line("rpcpassword="@, p@),
    })
}

/// The main-chain RPC endpoint lines.
pub open spec fn mainchain_text(c: Config) -> Seq<char> {
    (match c.mainchain_rpchost {
        None => Seq::empty(),
        Some(v) => conf_line("mainchainrpchost="@, v@),
    }) + (match c.mainchain_rpcport {
        None => Seq::empty(),
        Some(v) => conf_line("mainchainrpcport="@, dec_digits(v as nat)),
    }) + (match c.mainchain_rpcuser {
        None => Seq::empty(),
        Some(v) => conf_line("mainchainrpcuser="@, v@),
    }) + (match c.mainchain_rpcpass {
        None => Seq::empty(),
        Some(v) => conf_line("mainchainrpcpassword="@, v@),
    })
}

/// The peg-in lines; the main-chain RPC endpoint is written only when
/// peg-ins are validated against it.
pub open spec fn pegin_text(c: Config) -> Seq<char> {
    conf_line("anyonecanspendaremine="@, bool_digit(c.anyonecanspendaremine)) + (
    match c.peginconfirmationdepth {
        None => Seq::empty(),
        Some(v) => conf_line("peginconfirmationdepth="@, dec_digits(v as nat)),
    }) + conf_line("validatepegin="@, bool_digit(c.validatepegin)) + (if c.validatepegin {
        mainchain_text(c)
    } else {
        Seq::empty()
    })
}

/// The trailing lines: address type and fee rates.
pub open spec fn tail_text(c: Config) -> Seq<char> {
    (match c.addresstype {
        None => Seq::empty(),
        Some(v) => conf_line("addresstype="@, v@),
    }) + (match c.blockmintxfee {
        None => Seq::empty(),
        Some(a) => conf_line("blockmintxfee="@, amount_text(a.units as nat)),
    }) + (match c.minrelaytxfee {
        None => Seq::empty(),
        Some(a) => conf_line("minrelaytxfee="@, amount_text(a.units as nat)),
    })
}

/// The complete configuration file text.
pub open spec fn config_text(c: Config) -> Seq<char> {
    head_text(c) + net_text(c) + consensus_text(c) + post_text(c) + rpc_text(c) + pegin_text(c)
        + tail_text(c)
}

/// Appends one fee-rate line to `out`.
fn push_fee_line(out: &mut String, key: &str, a: Amount)
    ensures
        final(out)@ == old(out)@ + conf_line(key@, amount_text(a.units as nat)),
{
    out.append(key);
    a.push_conf_text(out);
    out.append("\n");
    assert(final(out)@ =~= old(out)@ + conf_line(key@, amount_text(a.units as nat)));
}

/// Appends one deployment-parameter line to `out`.
fn push_evb_line(out: &mut String, key: &str, p: &EvbParams)
    ensures
        final(out)@ == old(out)@ + key@ + evb_text(*p) + "\n"@,
{
    out.append(key);
    let t = p.display_string();
    out.append(t.as_str());
    out.append("\n");
    assert(final(out)@ =~= old(out)@ + key@ + evb_text(*p) + "\n"@);
}

/// Appends one `pak=` line per key pair, from index `i` on.
fn push_pak_lines_from(out: &mut String, pairs: &Vec<(String, String)>, i: usize)
    requires
        i <= pairs.len(),
    ensures
        final(out)@ == old(out)@ + pak_lines_from(pairs@, i as int),
    decreases pairs.len() - i,
{
    if i < pairs.len() {
        out.append("pak=");
        out.append(pairs[i].0.as_str());
        out.append(pairs[i].1.as_str());
        out.append("\n");
        push_pak_lines_from(out, pairs, i + 1);
        assert(final(out)@ =~= old(out)@ + pak_lines_from(pairs@, i as int));
    } else {
        assert(final(out)@ =~= old(out)@ + pak_lines_from(pairs@, i as int));
    }
}

impl Config {
    /// The version the file format is written for.
    pub fn file_version(&self) -> (v: u64)
        ensures
            v == effective_version(*self),
    {
        if self.version > 0 {
            self.version
        } else {
            DEFAULT_VERSION
        }
    }

    #[verifier::rlimit(50)]
    fn push_prologue(&self, out: &mut String)
        ensures
            final(out)@ == old(out)@ + prologue_text(*self),
    {
        if self.datadir.as_str().unicode_len() > 0 {
            push_line(out, "datadir=", self.datadir.as_str());
        }
        push_line(out, "chain=", self.chain.as_str());
        out.append("[");
        out.append(self.chain.as_str());
        out.append("]");
        out.append("\n");
        push_flag_line(out, "fdefaultconsistencychecks=", self.fdefaultconsistencychecks);
        assert(final(out)@ =~= old(out)@ + prologue_text(*self));
    }

    #[verifier::rlimit(50)]
    fn push_flags(&self, out: &mut String)
        ensures
            final(out)@ == old(out)@ + flags_text(*self),
    {
        push_flag_line(out, "debug=", self.debug);
        push_flag_line(out, "printtoconsole=", self.printtoconsole);
        push_flag_line(out, "daemon=", self.daemon);
        push_flag_line(out, "listen=", self.listen);
        push_flag_line(out, "listenonion=", self.listenonion);
        push_flag_line(out, "discover=", self.discover);
        assert(final(out)@ =~= old(out)@ + flags_text(*self));
    }

    fn push_head(&self, out: &mut String)
        ensures
            final(out)@ == old(out)@ + head_text(*self),
    {
        self.push_prologue(out);
        self.push_flags(out);
        assert(final(out)@ =~= old(out)@ + head_text(*self));
    }

    /// Whether the external address is a version-3 onion address that
    /// this daemon version cannot handle.
    fn torv3_check(&self, v: &String) -> (b: bool)
        ensures
            b == torv3_externalip(*self, v@),
    {
        proof {
            reveal_strlit(".onion");
        }
        let ver = self.file_version();
        if ver >= 21_00_00 {
            return false;
        }
        if v.as_str().unicode_len() != TORV3_ADDR_LEN {
            return false;
        }
        let s = v.as_str();
        let b = s.get_char(56) == '.' && s.get_char(57) == 'o' && s.get_char(58) == 'n'
            && s.get_char(59) == 'i' && s.get_char(60) == 'o' && s.get_char(61) == 'n';
        proof {
            let sub = v@.subrange(TORV3_ADDR_LEN - 6, TORV3_ADDR_LEN as int);
            assert(sub.len() == 6);
            assert(sub[0] == v@[56] && sub[1] == v@[57] && sub[2] == v@[58] && sub[3] == v@[59]
                && sub[4] == v@[60] && sub[5] == v@[61]);
            if b {
                assert(sub =~= ".onion"@);
            } else {
                assert(sub != ".onion"@);
            }
        }
        b
    }

    #[verifier::rlimit(50)]
    fn push_net(&self, out: &mut String)
        ensures
            final(out)@ == old(out)@ + net_text(*self),
    {
        match self.port {
            None => {},
            Some(p) => push_dec_line(out, "port=", p as u64),
        }
        match &self.proxy {
            None => {},
            Some(v) => push_line(out, "proxy=", v.as_str()),
        }
        push_lines(out, "bind=", &self.bind);
        push_lines(out, "onlynet=", &self.onlynet);
        match &self.externalip {
            None => {},
            Some(v) => {
                if self.torv3_check(v) {
                    out.append(";");
                }
                push_line(out, "externalip=", v.as_str());
            },
        }
        push_flag_line(out, "txindex=", self.txindex);
        assert(final(out)@ =~= old(out)@ + net_text(*self));
    }

    #[verifier::rlimit(50)]
    fn push_consensus_scripts(&self, out: &mut String)
        ensures
            final(out)@ == old(out)@ + consensus_scripts_text(*self),
    {
        match &self.signblockscript {
            None => {},
            Some(v) => push_line(out, "signblockscript=", v.as_str()),
        }
        match self.con_max_block_sig_size {
            None => {},
            Some(v) => push_dec_line(out, "con_max_block_sig_size=", v as u64),
        }
        match &self.fedpegscript {
            None => {},
            Some(v) => push_line(out, "fedpegscript=", v.as_str()),
        }
        push_pak_lines_from(out, &self.pak_pubkeys, 0);
        match &self.con_mandatorycoinbase {
            None => {},
            Some(v) => push_line(out, "con_mandatorycoinbase=", v.as_str()),
        }
        push_text_line(out, "con_npowtargetspacing=60");
        assert(final(out)@ =~= old(out)@ + consensus_scripts_text(*self));
    }

    #[verifier::rlimit(50)]
    fn push_consensus_params(&self, out: &mut String)
        ensures
            final(out)@ == old(out)@ + consensus_params_text(*self),
    {
        match self.con_nminerconfirmationwindow {
            None => {},
            Some(v) => push_dec_line(out, "con_nminerconfirmationwindow=", v),
        }
        match self.con_nrulechangeactivationthreshold {
            None => {},
            Some(v) => push_dec_line(out, "con_nrulechangeactivationthreshold=", v),
        }
        match self.dynamic_epoch_length {
            None => {},
            Some(v) => push_dec_line(out, "dynamic_epoch_length=", v),
        }
        if self.file_version() < 21_00_00 {
            if str_is(&self.chain, "elementsregtest") {
                push_text_line(out, "pchmessagestart=5319F20E");
            } else if str_is(&self.chain, "liquidv1test") {
                push_text_line(out, "pchmessagestart=143EFCB1");
            }
        }
        assert(final(out)@ =~= old(out)@ + consensus_params_text(*self));
    }

    #[verifier::rlimit(100)]
    fn push_consensus_deploy(&self, out: &mut String)
        ensures
            final(out)@ == old(out)@ + consensus_deploy_text(*self),
    {
        let ghost s0 = out@;
        let ghost a1 = (match self.con_dyna_deploy_start {
            None => Seq::<char>::empty(),
            Some(v) => conf_line("con_dyna_deploy_start="@, dec_digits(v as nat)),
        });
        let ghost a2 = (match self.con_taproot_signal_start {
            None => Seq::<char>::empty(),
            Some(v) => conf_line("con_taproot_signal_start="@, dec_digits(v as nat)),
        });
        let ghost a3 = (match self.evbparams_dynafed {
            None => Seq::<char>::empty(),
            Some(ref p) => "evbparams=dynafed:"@ + evb_text(*p) + "\n"@,
        });
        let ghost a4 = (match self.evbparams_taproot {
            None => Seq::<char>::empty(),
            Some(ref p) => "evbparams=taproot:"@ + evb_text(*p) + "\n"@,
        });
        match self.con_dyna_deploy_start {
            None => {},
            Some(v) => push_dec_line(out, "con_dyna_deploy_start=", v),
        }
        assert(out@ =~= s0 + a1);
        match self.con_taproot_signal_start {
            None => {},
            Some(v) => push_dec_line(out, "con_taproot_signal_start=", v),
        }
        assert(out@ =~= s0 + (a1 + a2));
        match &self.evbparams_dynafed {
            None => {},
            Some(p) => push_evb_line(out, "evbparams=dynafed:", p),
        }
        assert(out@ =~= s0 + (a1 + a2 + a3));
        match &self.evbparams_taproot {
            None => {},
            Some(p) => push_evb_line(out, "evbparams=taproot:", p),
        }
        assert(out@ =~= s0 + (a1 + a2 + a3 + a4));
    }

    fn push_consensus(&self, out: &mut String)
        ensures
            final(out)@ == old(out)@ + consensus_text(*self),
    {
        if str_is(&self.chain, "liquidv1") {
            return ;
        }
        self.push_consensus_scripts(out);
        self.push_consensus_params(out);
        self.push_consensus_deploy(out);
        assert(final(out)@ =~= old(out)@ + consensus_text(*self));
    }

    #[verifier::rlimit(50)]
    fn push_post(&self, out: &mut String)
        ensures
            final(out)@ == old(out)@ + post_text(*self),
    {
        match self.blockmaxweight {
            None => {},
            Some(v) => push_dec_line(out, "blockmaxweight=", v),
        }
        match self.con_dyna_deploy_signal {
            None => {},
            Some(v) => push_flag_line(out, "con_dyna_deploy_signal=", v),
        }
        if self.pak_pubkeys.len() > 0 {
            push_text_line(out, "enforce_pak=1");
        }
        push_lines(out, "connect=", &self.connect);
        assert(final(out)@ =~= old(out)@ + post_text(*self));
    }

    #[verifier::rlimit(100)]
    fn push_rpc(&self, out: &mut String)
        ensures
            final(out)@ == old(out)@ + rpc_text(*self),
    {
        if self.rpccookie.is_some() || self.rpcuser.is_some() {
            push_text_line(out, "server=1");
        }
        match &self.rpccookie {
            None => {},
            Some(cf) => push_line(out, "rpccookiefile=", cf.as_str()),
        }
        match self.rpcport {
            None => {},
            Some(p) => {
                push_text_line(out, "rpcallowip=127.0.0.1");
                push_text_line(out, "rpcbind=127.0.0.1");
                push_dec_line(out, "rpcport=", p as u64);
            },
        }
        match &self.rpcuser {
            None => {},
            Some(u) => push_line(out, "rpcuser=", u.as_str()),
        }
        match &self.rpcpass {
            None => {},
            Some(p) => push_line(out, "rpcpassword=", p.as_str()),
        }
        assert(final(out)@ =~= old(out)@ + rpc_text(*self));
    }

    /// Appends the main-chain RPC endpoint lines to `out`.
    #[verifier::rlimit(50)]
    fn push_mainchain(&self, out: &mut String)
        ensures
            final(out)@ == old(out)@ + mainchain_text(*self),
    {
        match &self.mainchain_rpchost {
            None => {},
            Some(v) => push_line(out, "mainchainrpchost=", v.as_str()),
        }
        match self.mainchain_rpcport {
            None => {},
            Some(v) => push_dec_line(out, "mainchainrpcport=", v as u64),
        }
        match &self.mainchain_rpcuser {
            None => {},
            Some(v) => push_line(out, "mainchainrpcuser=", v.as_str()),
        }
        match &self.mainchain_rpcpass {
            None => {},
            Some(v) => push_line(out, "mainchainrpcpassword=", v.as_str()),
        }
        assert(final(out)@ =~= old(out)@ + mainchain_text(*self));
    }

    #[verifier::rlimit(100)]
    fn push_pegin(&self, out: &mut String)
        ensures
            final(out)@ == old(out)@ + pegin_text(*self),
    {
        let ghost s0 = out@;
        let ghost a1 = conf_line("anyonecanspendaremine="@, bool_digit(self.anyonecanspendaremine));
        let ghost a2 = (match self.peginconfirmationdepth {
            None => Seq::<char>::empty(),
            Some(v) => conf_line("peginconfirmationdepth="@, dec_digits(v as nat)),
        });
        let ghost a3 = conf_line("validatepegin="@, bool_digit(self.validatepegin));
        push_flag_line(out, "anyonecanspendaremine=", self.anyonecanspendaremine);
        match self.peginconfirmationdepth {
            None => {},
            Some(v) => push_dec_line(out, "peginconfirmationdepth=", v as u64),
        }
        assert(out@ =~= s0 + (a1 + a2));
        push_flag_line(out, "validatepegin=", self.validatepegin);
        assert(out@ =~= s0 + (a1 + a2 + a3));
        if self.validatepegin {
            self.push_mainchain(out);
        }
        assert(final(out)@ =~= old(out)@ + pegin_text(*self));
    }

    #[verifier::rlimit(50)]
    fn push_tail(&self, out: &mut String)
        ensures
            final(out)@ == old(out)@ + tail_text(*self),
    {
        match &self.addresstype {
            None => {},
            Some(v) => push_line(out, "addresstype=", v.as_str()),
        }
        match self.blockmintxfee {
            None => {},
            Some(a) => push_fee_line(out, "blockmintxfee=", a),
        }
        match self.minrelaytxfee {
            None => {},
            Some(a) => push_fee_line(out, "minrelaytxfee=", a),
        }
        assert(final(out)@ =~= old(out)@ + tail_text(*self));
    }

    /// Appends the complete configuration file text to `out`.  A chain
    /// must be configured.
    #[verifier::rlimit(50)]
    pub fn write_into(&self, out: &mut String)
        requires
            self.chain@.len() > 0,
        ensures
            final(out)@ == old(out)@ + config_text(*self),
    {
        self.push_head(out);
        self.push_net(out);
        self.push_consensus(out);
        self.push_post(out);
        self.push_rpc(out);
        self.push_pegin(out);
        self.push_tail(out);
        assert(final(out)@ =~= old(out)@ + config_text(*self));
    }

    /// The complete configuration file text.  A chain must be
    /// configured.
    pub fn render(&self) -> (s: String)
        requires
            self.chain@.len() > 0,
        ensures
            s@ == config_text(*self),
    {
        let mut s = String::new();
        self.write_into(&mut s);
        assert(s@ =~= config_text(*self));
        s
    }
}

/// Whether an UpdateTip message matches at position `p` of `s`: the
/// marker text, then a non-empty run of lower-case hex digits, then
/// ` height=` and a non-empty run of decimal digits, then ` version=`.
/// The runs are maximal, which the characters that must follow them
/// already force.
pub open spec fn tip_match_at(s: Seq<char>, p: int) -> bool {
    let m = "UpdateTip: new best="@;
    let hm = " height="@;
    let vm = " version="@;
    let h0 = p + m.len();
    let h1 = hex_run_end(s, h0);
    let d0 = h1 + hm.len();
    let d1 = digit_run_end(s, d0);
    &&& 0 <= p
    &&& p + m.len() <= s.len()
    &&& s.subrange(p, h0) == m
    &&& h1 > h0
    &&& d0 <= s.len()
    &&& s.subrange(h1, d0) == hm
    &&& d1 > d0
    &&& d1 + vm.len() <= s.len()
    &&& s.subrange(d1, d1 + vm.len()) == vm
}

/// The block hash text captured by the match at `p`.
pub open spec fn tip_hash_at(s: Seq<char>, p: int) -> Seq<char> {
    let h0 = p + "UpdateTip: new best="@.len();
    s.subrange(h0, hex_run_end(s, h0))
}

/// The height digits captured by the match at `p`.
pub open spec fn tip_digits_at(s: Seq<char>, p: int) -> Seq<char> {
    let h0 = p + "UpdateTip: new best="@.len();
    let d0 = hex_run_end(s, h0) + " height="@.len();
    s.subrange(d0, digit_run_end(s, d0))
}

/// Whether an UpdateTip message matches anywhere in `s`.
pub open spec fn has_tip_match(s: Seq<char>) -> bool {
    exists|p: int| tip_match_at(s, p)
}

/// The last position where an UpdateTip message matches; the match
/// there is the one reported, as the ones before it are superseded.
pub open spec fn tip_last_pos(s: Seq<char>) -> int {
    choose|p: int|
        tip_match_at(s, p) && (forall|q: int| q > p ==> !tip_match_at(s, q))
}

/// A position that matches with none after it is the last position.
proof fn lemma_tip_last(s: Seq<char>, p: int)
    requires
        tip_match_at(s, p),
        forall|q: int| q > p ==> !tip_match_at(s, q),
    ensures
        has_tip_match(s),
        tip_last_pos(s) == p,
{
    assert(has_tip_match(s));
    let c = tip_last_pos(s);
    assert(tip_match_at(s, c) && (forall|q: int| q > c ==> !tip_match_at(s, q))) by {
        assert(tip_match_at(s, p) && (forall|q: int| q > p ==> !tip_match_at(s, q)));
    }
    if c > p {
        assert(!tip_match_at(s, c));
    }
    if p > c {
        assert(!tip_match_at(s, p));
    }
}

/// The parse of an UpdateTip log line: the height and the block hash
/// text of the last match, provided the hash has the length of a block
/// hash and the height fits.
pub open spec fn parse_update_tip_spec(s: Seq<char>) -> Option<(u64, Seq<char>)> {
    if has_tip_match(s) {
        let p = tip_last_pos(s);
        let hash = tip_hash_at(s, p);
        let hv = dec_value(tip_digits_at(s, p));
        if hash.len() == 64 && hv <= u64::MAX as nat {
            Some((hv as u64, hash))
        } else {
            None
        }
    } else {
        None
    }
}

/// The parse result as contracts see it.
pub open spec fn tip_view(r: Option<(u64, String)>) -> Option<(u64, Seq<char>)> {
    match r {
        None => None,
        Some((h, s)) => Some((h, s@)),
    }
}

/// Extracts the chain tip from an UpdateTip log line: the height and
/// the block hash, from the last position where the message matches.
/// Returns `None` when no UpdateTip message occurs in the line, and
/// also when the one found carries a hash of the wrong length or a
/// height too large to represent.
pub fn parse_update_tip(msg: &str) -> (r: Option<(u64, String)>)
    ensures
        tip_view(r) == parse_update_tip_spec(msg@),
{
    let v = str_to_chars(msg);
    let m = str_to_chars("UpdateTip: new best=");
    let hm = str_to_chars(" height=");
    let vm = str_to_chars(" version=");
    let n = v.len();
    proof {
        reveal_strlit("UpdateTip: new best=");
        assert(m@.len() == 20);
    }
    if m.len() > n {
        proof {
            assert(forall|q: int| !tip_match_at(msg@, q));
            assert(!has_tip_match(msg@));
        }
        return None;
    }
    let mut p = n - m.len() + 1;
    while p > 0
        invariant
            v@ == msg@,
            m@ == "UpdateTip: new best="@,
            hm@ == " height="@,
            vm@ == " version="@,
            n == v@.len(),
            m@.len() <= n,
            p <= n - m@.len() + 1,
            forall|q: int| q >= p ==> !tip_match_at(msg@, q),
        decreases p,
    {
        p = p - 1;
        if match_at(&v, p, &m) {
            let h0 = p + m.len();
            let h1 = hex_end(&v, h0);
            if h1 > h0 && match_at(&v, h1, &hm) {
                let d0 = h1 + hm.len();
                let d1 = digit_end(&v, d0);
                if d1 > d0 && match_at(&v, d1, &vm) {
                    assert(tip_match_at(msg@, p as int));
                    proof {
                        lemma_tip_last(msg@, p as int);
                        lemma_digit_run(msg@, d0 as int);
                    }
                    if h1 - h0 == 64 {
                        match parse_u64_digits(&v, d0, d1) {
                            Some(height) => {
                                let hash = msg.substring_char(h0, h1).to_owned();
                                return Some((height, hash));
                            },
                            None => {
                                return None;
                            },
                        }
                    } else {
                        return None;
                    }
                } else {
                    assert(!tip_match_at(msg@, p as int));
                }
            } else {
                assert(!tip_match_at(msg@, p as int));
            }
        } else {
            assert(!tip_match_at(msg@, p as int));
        }
    }
    proof {
        assert(forall|q: int| !tip_match_at(msg@, q));
        assert(!has_tip_match(msg@));
    }
    None
}

/// The runtime state of an elementsd daemon, as contracts see it.
pub ghost struct StateView {
    /// The chain tip from the latest UpdateTip line, as height and
    /// block hash text.
    pub last_update_tip: Option<(u64, Seq<char>)>,
    /// All stderr output, line by line.
    pub stderr: Seq<char>,
    /// The stdout lines recognized as error messages, in order.
    pub error_msgs: Seq<Seq<char>>,
}

/// The runtime state of an elementsd daemon, accumulated from its
/// output streams by the reader loops.
#[derive(Debug)]
pub struct State {
    /// The chain tip from the latest UpdateTip line, as height and
    /// block hash text.
    pub last_update_tip: Option<(u64, String)>,
    /// Buffer holding all stderr output.
    pub stderr: String,
    /// Error messages recognized on stdout during runtime.
    pub error_msgs: Vec<String>,
}

impl View for State {
    type V = StateView;

    open spec fn view(&self) -> StateView {
        StateView {
            last_update_tip: tip_view(self.last_update_tip),
            stderr: self.stderr@,
            error_msgs: self.error_msgs.deep_view(),
        }
    }
}

impl DaemonState for State {
    /// A stdout line that carries an UpdateTip message moves the tip;
    /// otherwise a line with the error marker is kept; everything else
    /// is discarded.
    open spec fn stdout_step(pre: StateView, line: Seq<char>) -> StateView {
        match parse_update_tip_spec(line) {
            Some(t) => StateView { last_update_tip: Some(t), ..pre },
            None => if contains_error_marker_spec(line) {
                StateView { error_msgs: pre.error_msgs.push(line), ..pre }
            } else {
                pre
            },
        }
    }

    /// Every stderr line is appended to the stderr buffer.
    open spec fn stderr_step(pre: StateView, line: Seq<char>) -> StateView {
        StateView { stderr: pre.stderr + line + "\n"@, ..pre }
    }

    open spec fn stderr_text(v: StateView) -> Seq<char> {
        v.stderr
    }

    open spec fn drained_stderr(v: StateView) -> StateView {
        StateView { stderr: Seq::empty(), ..v }
    }

    open spec fn error_msgs(v: StateView) -> Seq<Seq<char>> {
        v.error_msgs
    }

    open spec fn drained_error_msgs(v: StateView) -> StateView {
        StateView { error_msgs: Seq::empty(), ..v }
    }

    fn process_stdout(&mut self, line: &str) {
        match parse_update_tip(line) {
            Some(t) => {
                self.last_update_tip = Some(t);
            },
            None => {
                if contains_error_marker(line) {
                    self.error_msgs.push(line.to_owned());
                    assert(self.error_msgs.deep_view() =~= old(self).error_msgs.deep_view().push(
                        line@,
                    ));
                }
            },
        }
    }

    fn process_stderr(&mut self, line: &str) {
        self.stderr.append(line);
        self.stderr.append("\n");
    }

    fn take_stderr(&mut self) -> (r: String) {
        let mut tmp = String::new();
        core::mem::swap(&mut self.stderr, &mut tmp);
        tmp
    }

    fn take_error_msgs(&mut self) -> (r: Vec<String>) {
        let mut tmp: Vec<String> = Vec::new();
        core::mem::swap(&mut self.error_msgs, &mut tmp);
        assert(self.error_msgs.deep_view() =~= Seq::<Seq<char>>::empty());
        tmp
    }
}

impl State {
    /// The chain tip from the latest UpdateTip line, as height and
    /// block hash text.
    pub fn last_update_tip(&self) -> (r: Option<(u64, String)>)
        ensures
            tip_view(r) == self@.last_update_tip,
    {
        match &self.last_update_tip {
            None => None,
            Some((h, s)) => Some((*h, s.clone())),
        }
    }
}

/// The stdout lines that are kept as error messages: the ones that
/// carry the error marker and are not UpdateTip messages, in order.
pub open spec fn error_lines(lines: Seq<Seq<char>>) -> Seq<Seq<char>>
    decreases lines.len(),
{
    if lines.len() == 0 {
        Seq::empty()
    } else {
        (if parse_update_tip_spec(lines[0]) is None && contains_error_marker_spec(lines[0]) {
            seq![lines[0]]
        } else {
            Seq::empty()
        }) + error_lines(lines.skip(1))
    }
}

/// The chain tip after a sequence of stdout lines: that of the last
/// line that parses as an UpdateTip message, or the previous tip when
/// none does.
pub open spec fn last_tip(
    tip: Option<(u64, Seq<char>)>,
    lines: Seq<Seq<char>>,
) -> Option<(u64, Seq<char>)>
    decreases lines.len(),
{
    if lines.len() == 0 {
        tip
    } else {
        last_tip(
            match parse_update_tip_spec(lines[0]) {
                Some(t) => Some(t),
                None => tip,
            },
            lines.skip(1),
        )
    }
}

/// Law: delivering a sequence of stdout lines to the state records
/// exactly the marker-carrying non-tip lines in `error_msgs` - each
/// one once, with its content, in the order delivered - moves the tip
/// to the last UpdateTip message seen, and leaves the stderr buffer
/// alone.
pub proof fn lemma_stdout_lines_once(v: StateView, lines: Seq<Seq<char>>)
    ensures
        stdout_fold::<State>(v, lines).error_msgs == v.error_msgs + error_lines(lines),
        stdout_fold::<State>(v, lines).last_update_tip == last_tip(v.last_update_tip, lines),
        stdout_fold::<State>(v, lines).stderr == v.stderr,
    decreases lines.len(),
{
    if lines.len() == 0 {
        assert(v.error_msgs + error_lines(lines) =~= v.error_msgs);
    } else {
        let v1 = State::stdout_step(v, lines[0]);
        lemma_stdout_lines_once(v1, lines.skip(1));
        assert(v.error_msgs + error_lines(lines) =~= v1.error_msgs + error_lines(lines.skip(1)));
    }
}

/// Law: delivering a sequence of stderr lines to the state appends
/// each line and a newline to the stderr buffer, in the order
/// delivered, and leaves the error messages and the tip alone.
pub proof fn lemma_stderr_lines_in_order(v: StateView, lines: Seq<Seq<char>>)
    ensures
        stderr_fold::<State>(v, lines).stderr == v.stderr + joined_lines(lines),
        stderr_fold::<State>(v, lines).error_msgs == v.error_msgs,
        stderr_fold::<State>(v, lines).last_update_tip == v.last_update_tip,
    decreases lines.len(),
{
    if lines.len() == 0 {
        assert(v.stderr + joined_lines(lines) =~= v.stderr);
    } else {
        let v1 = State::stderr_step(v, lines[0]);
        lemma_stderr_lines_in_order(v1, lines.skip(1));
        assert(v.stderr + joined_lines(lines) =~= v1.stderr + joined_lines(lines.skip(1)));
    }
}

/// An owned handle on one configured elementsd daemon: its name, its
/// executable, its configuration, and whether the configuration file
/// has been written yet.
#[derive(Debug)]
pub struct Daemon {
    name: String,
    executable: String,
    config: Config,
    config_file: Option<String>,
}

/// The path of the configuration file inside the data directory.
pub open spec fn config_path_text(c: Config) -> Seq<char> {
    c.datadir@ + "/"@ + "elements.conf"@
}

/// The display name of a daemon.
pub open spec fn describe_text(name: Seq<char>) -> Seq<char> {
    if name.len() == 0 {
        "<unnamed> elementsd"@
    } else {
        "elementsd \""@ + name + "\""@
    }
}

impl Daemon {
    /// The daemon's name, as contracts see it.
    pub closed spec fn name_spec(&self) -> Seq<char> {
        self.name@
    }

    /// The executable path, as contracts see it.
    pub closed spec fn executable_spec(&self) -> Seq<char> {
        self.executable@
    }

    /// The configuration, as contracts see it.
    pub closed spec fn config_spec(&self) -> Config {
        self.config
    }

    /// The path of the written configuration file, as contracts see
    /// it: `None` until the file has been written.
    pub closed spec fn config_file_spec(&self) -> Option<Seq<char>> {
        match self.config_file {
            None => None,
            Some(p) => Some(p@),
        }
    }

    /// An unnamed daemon from an executable path and a configuration.
    /// The data directory must be an absolute path.
    pub fn new(executable: String, config: Config) -> (r: Result<Daemon, Error>)
        ensures
            match r {
                Ok(d) => is_absolute_path(config.datadir@) && d.name_spec()
                    == Seq::<char>::empty() && d.executable_spec() == executable@ && d.config_spec()
                    == config && d.config_file_spec() is None,
                Err(e) => !is_absolute_path(config.datadir@) && (e matches Error::Config(m) && m@
                    == "datadir should be an absolute path"@),
            },
    {
        Daemon::named(String::new(), executable, config)
    }

    /// A named daemon from an executable path and a configuration.
    /// The data directory must be an absolute path.
    pub fn named(name: String, executable: String, config: Config) -> (r: Result<Daemon, Error>)
        ensures
            match r {
                Ok(d) => is_absolute_path(config.datadir@) && d.name_spec() == name@
                    && d.executable_spec() == executable@ && d.config_spec() == config
                    && d.config_file_spec() is None,
                Err(e) => !is_absolute_path(config.datadir@) && (e matches Error::Config(m) && m@
                    == "datadir should be an absolute path"@),
            },
    {
        if !check_absolute_path(config.datadir.as_str()) {
            return Err(Error::Config("datadir should be an absolute path"));
        }
        Ok(Daemon { name, executable, config, config_file: None })
    }

    /// The daemon's name; empty when never named.
    pub fn name(&self) -> (r: &str)
        ensures
            r@ == self.name_spec(),
    {
        self.name.as_str()
    }

    /// The configured data directory.
    pub fn datadir(&self) -> (r: &str)
        ensures
            r@ == self.config_spec().datadir@,
    {
        self.config.datadir.as_str()
    }

    /// The configured chain.
    pub fn chain(&self) -> (r: &str)
        ensures
            r@ == self.config_spec().chain@,
    {
        self.config.chain.as_str()
    }

    /// The path of the written configuration file; `None` until it has
    /// been written.
    pub fn config_file(&self) -> (r: Option<&String>)
        ensures
            match self.config_file_spec() {
                None => r is None,
                Some(p) => r matches Some(s) && s@ == p,
            },
    {
        self.config_file.as_ref()
    }

    /// The display name of this daemon.
    pub fn describe(&self) -> (r: String)
        ensures
            r@ == describe_text(self.name_spec()),
    {
        if self.name.as_str().unicode_len() == 0 {
            String::from_str("<unnamed> elementsd")
        } else {
            let mut s = String::from_str("elementsd \"");
            s.append(self.name.as_str());
            s.append("\"");
            assert(s@ =~= describe_text(self.name_spec()));
            s
        }
    }

    /// What preparation still has to happen before the first spawn:
    /// `Some` carries the path and the full text of the configuration
    /// file that must be written, `None` means the file was already
    /// written.  Once the caller has written the file it reports so
    /// with `mark_prepared`.
    pub fn prepare_plan(&self) -> (r: Option<(String, String)>)
        requires
            self.config_spec().chain@.len() > 0,
        ensures
            match r {
                None => self.config_file_spec() is Some,
                Some((path, text)) => self.config_file_spec() is None && path@ == config_path_text(
                    self.config_spec(),
                ) && text@ == config_text(self.config_spec()),
            },
    {
        match &self.config_file {
            Some(_) => None,
            None => {
                let mut path = String::new();
                path.append(self.config.datadir.as_str());
                path.append("/");
                path.append(CONFIG_FILENAME);
                assert(path@ =~= config_path_text(self.config_spec()));
                Some((path, self.config.render()))
            },
        }
    }

    /// Records that the configuration file now exists at its path.
    pub fn mark_prepared(&mut self)
        ensures
            final(self).config_file_spec() matches Some(p) && p == config_path_text(
                old(self).config_spec(),
            ),
            final(self).name_spec() == old(self).name_spec(),
            final(self).executable_spec() == old(self).executable_spec(),
            final(self).config_spec() == old(self).config_spec(),
    {
        let mut path = String::new();
        path.append(self.config.datadir.as_str());
        path.append("/");
        path.append(CONFIG_FILENAME);
        assert(path@ =~= config_path_text(self.config_spec()));
        self.config_file = Some(path);
    }

    /// The command to spawn this daemon with.  The configuration file
    /// must have been written first.
    pub fn command(&self) -> (r: Command)
        requires
            self.config_file_spec() is Some,
        ensures
            r.program@ == self.executable_spec(),
            r.args.deep_view() =~= seq![
                "-conf="@ + self.config_file_spec().unwrap(),
                "-printtoconsole=1"@,
            ],
    {
        let conf = self.config_file.as_ref().unwrap();
        let mut arg0 = String::from_str("-conf=");
        arg0.append(conf.as_str());
        let mut args: Vec<String> = Vec::new();
        args.push(arg0);
        args.push(String::from_str("-printtoconsole=1"));
        Command { program: self.executable.clone(), args }
    }

    /// The initial runtime state: everything empty, no tip seen.
    pub fn init_state(&self) -> (s: State)
        ensures
            s@.last_update_tip is None,
            s@.stderr == Seq::<char>::empty(),
            s@.error_msgs == Seq::<Seq<char>>::empty(),
    {
        let s = State { last_update_tip: None, stderr: String::new(), error_msgs: Vec::new() };
        assert(s@.error_msgs =~= Seq::<Seq<char>>::empty());
        s
    }

    /// The RPC endpoint of this daemon, determined by its
    /// configuration.  Meaningful once the daemon has been started.
    pub fn rpc_info(&self) -> (r: Option<(String, Auth)>)
        ensures
            match (self.config_spec().rpcport, auth_spec(
                self.config_spec().rpccookie,
                self.config_spec().rpcuser,
                self.config_spec().rpcpass,
            )) {
                (Some(p), Some(a)) => r matches Some((url, auth)) && url@ == rpc_url_text(p) && auth
                    == a,
                _ => r is None,
            },
    {
        rpc_info(self.config.rpcport, &self.config.rpccookie, &self.config.rpcuser, &self.config.rpcpass)
    }
}

} // verus!
