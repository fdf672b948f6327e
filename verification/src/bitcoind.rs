//! The bitcoind daemon adapter: its configuration file, its runtime
//! state fed from the daemon's output streams, and the daemon handle
//! that ties them together.

use vstd::prelude::*;

use crate::amount::{amount_text, Amount};
use crate::error::Error;
use crate::rpc::{auth_spec, rpc_info, rpc_url_text, Auth};
use crate::runner::{stderr_fold, stdout_fold, Command, DaemonState};
use crate::text::{
    bool_digit, conf_line, conf_lines, contains_error_marker, contains_error_marker_spec,
    dec_digits, is_absolute_path, joined_lines, push_dec_line, push_flag_line, push_line,
    push_lines, push_text_line,
};

verus! {

/// The file name of the written configuration file, inside the data
/// directory.
pub const CONFIG_FILENAME: &'static str = "bitcoin.conf";

/// The configuration file format version assumed when none is given:
/// two digits per section, so `21_00_00` stands for 21.0.0.
pub const DEFAULT_VERSION: u64 = 21_00_00;

/// The network a bitcoind instance runs on.
#[derive(Clone, Copy, Debug, PartialEq, Eq, Structural)]
pub enum Network {
    Bitcoin,
    Testnet,
    Regtest,
}

/// The bitcoind configuration.  `write_into` renders it in the format
/// the daemon reads from its configuration file.
#[derive(Clone, Debug, PartialEq, Eq)]
pub struct Config {
    /// Not written into the file itself, but decides the file format:
    /// two digits per section, 4 sections, so 0.18.1.0 is `18_01_00`.
    /// Zero means `DEFAULT_VERSION`.
    pub version: u64,
    /// The data directory, as an absolute path.
    pub datadir: String,
    pub network: Option<Network>,
    pub fdefaultconsistencychecks: Option<bool>,
    pub debug: bool,
    pub printtoconsole: bool,
    pub daemon: bool,
    pub listen: bool,
    pub listenonion: bool,
    pub discover: bool,
    pub port: Option<u16>,
    pub proxy: Option<String>,
    pub txindex: bool,
    pub connect: Vec<String>,
    pub addnodes: Vec<String>,
    pub rpccookie: Option<String>,
    pub rpcport: Option<u16>,
    pub rpcuser: Option<String>,
    pub rpcpass: Option<String>,
    pub disablewallet: Option<bool>,
    pub dbcache: Option<u32>,
    pub addresstype: Option<String>,
    pub blockmintxfee: Option<Amount>,
    pub minrelaytxfee: Option<Amount>,
    pub fallbackfee: Option<Amount>,
}

/// The version the file format is written for.
pub open spec fn effective_version(c: Config) -> u64 {
    if c.version > 0 {
        c.version
    } else {
        DEFAULT_VERSION
    }
}

/// The data directory line, left out when no data directory is set.
pub open spec fn datadir_text(c: Config) -> Seq<char> {
    if c.datadir@.len() > 0 {
        conf_line("datadir="@, c.datadir@)
    } else {
        Seq::empty()
    }
}

/// The network selection lines; versions past 17.0.0 get a section
/// header as well.
pub open spec fn network_text(c: Config) -> Seq<char> {
    match c.network {
        None => Seq::empty(),
        Some(Network::Bitcoin) => Seq::empty(),
        Some(Network::Testnet) => "testnet=1"@ + "\n"@ + (if effective_version(c) > 17_00_00 {
            "[testnet]"@ + "\n"@
        } else {
            Seq::empty()
        }),
        Some(Network::Regtest) => "regtest=1"@ + "\n"@ + (if effective_version(c) > 17_00_00 {
            "[regtest]"@ + "\n"@
        } else {
            Seq::empty()
        }),
    }
}

/// The consistency-check lines.  bitcoind has no single switch for
/// them, so the one flag is expanded into the two settings it governs.
pub open spec fn consistency_text(c: Config) -> Seq<char> {
    match c.fdefaultconsistencychecks {
        None => Seq::empty(),
        Some(v) => conf_line("checkblockindex="@, bool_digit(v)) + conf_line(
            "checkmempool="@,
            bool_digit(v),
        ),
    }
}

/// The six flag lines that are always written.
pub open spec fn flags_text(c: Config) -> Seq<char> {
    conf_line("debug="@, bool_digit(c.debug)) + conf_line(
        "printtoconsole="@,
        bool_digit(c.printtoconsole),
    ) + conf_line("daemon="@, bool_digit(c.daemon)) + conf_line("listen="@, bool_digit(c.listen))
        + conf_line("listenonion="@, bool_digit(c.listenonion)) + conf_line(
        "discover="@,
        bool_digit(c.discover),
    )
}

/// The peer-to-peer networking lines.
pub open spec fn net_text(c: Config) -> Seq<char> {
    (match c.port {
        None => Seq::empty(),
        Some(p) => conf_line("port="@, dec_digits(p as nat)),
    }) + (match c.proxy {
        None => Seq::empty(),
        Some(v) => conf_line("proxy="@, v@),
    }) + conf_line("txindex="@, bool_digit(c.txindex)) + conf_lines("connect="@, c.connect@)
        + conf_lines("addnode="@, c.addnodes@)
}

/// The RPC server lines; the server is enabled exactly when some form
/// of credentials is configured.
pub open spec fn rpc_text(c: Config) -> Seq<char> {
    (if c.rpccookie is Some || c.rpcuser is Some {
        "server=1"@ + "\n"@
    } else {
        Seq::empty()
    }) + (match c.rpccookie {
        None => Seq::empty(),
        Some(cf) => conf_line("rpccookiefile="@, cf@),
    }) + (match c.rpcport {
        None => Seq::empty(),
        Some(p) => "rpcallowip=127.0.0.1"@ + "\n"@ + "rpcbind=127.0.0.1"@ + "\n"@ + conf_line(
            "rpcport="@,
            dec_digits(p as nat),
        ),
    }) + (match c.rpcuser {
        None => Seq::empty(),
        Some(u) => conf_line("rpcuser="@, u@),
    }) + (match c.rpcpass {
        None => Seq::empty(),
        Some(p) => conf_line("rpcpassword="@, p@),
    })
}

/// The wallet and cache lines.
pub open spec fn wallet_text(c: Config) -> Seq<char> {
    (match c.disablewallet {
        None => Seq::empty(),
        Some(v) => conf_line("disablewallet="@, bool_digit(v)),
    }) + (match c.dbcache {
        None => Seq::empty(),
        Some(v) => conf_line("dbcache="@, dec_digits(v as nat)),
    })
}

/// The address-type and fee-rate lines.
pub open spec fn fees_text(c: Config) -> Seq<char> {
    (match c.addresstype {
        None => Seq::empty(),
        Some(v) => conf_line("addresstype="@, v@),
    }) + (match c.blockmintxfee {
        None => Seq::empty(),
        Some(a) => conf_line("blockmintxfee="@, amount_text(a.units as nat)),
    }) + (match c.minrelaytxfee {
        None => Seq::empty(),
        Some(a) => conf_line("minrelaytxfee="@, amount_text(a.units as nat)),
    }) + (match c.fallbackfee {
        None => Seq::empty(),
        Some(a) => conf_line("fallbackfee="@, amount_text(a.units as nat)),
    })
}

/// The complete configuration file text.
pub open spec fn config_text(c: Config) -> Seq<char> {
    datadir_text(c) + network_text(c) + consistency_text(c) + flags_text(c) + net_text(c)
        + rpc_text(c) + wallet_text(c) + fees_text(c)
}

/// Appends one fee-rate line to `out`.
fn push_fee_line(out: &mut String, key: &str, a: Amount)
    ensures
        final(out)@ == old(out)@ + conf_line(key@, amount_text(a.units as nat)),
{
    out.append(key);
    a.push_conf_text(out);
    out.append("\n");
    assert(final(out)@ =~= old(out)@ + conf_line(key@, amount_text(a.units as nat)));
}

impl Config {
    /// The version the file format is written for.
    pub fn file_version(&self) -> (v: u64)
        ensures
            v == effective_version(*self),
    {
        if self.version > 0 {
            self.version
        } else {
            DEFAULT_VERSION
        }
    }

    fn push_datadir(&self, out: &mut String)
        ensures
            final(out)@ == old(out)@ + datadir_text(*self),
    {
        if self.datadir.as_str().unicode_len() > 0 {
            push_line(out, "datadir=", self.datadir.as_str());
        }
    }

    fn push_network(&self, out: &mut String)
        ensures
            final(out)@ == old(out)@ + network_text(*self),
    {
        let v = self.file_version();
        match self.network {
            None => {},
            Some(Network::Bitcoin) => {},
            Some(Network::Testnet) => {
                push_text_line(out, "testnet=1");
                if v > 17_00_00 {
                    push_text_line(out, "[testnet]");
                }
                assert(final(out)@ =~= old(out)@ + network_text(*self));
            },
            Some(Network::Regtest) => {
                push_text_line(out, "regtest=1");
                if v > 17_00_00 {
                    push_text_line(out, "[regtest]");
                }
                assert(final(out)@ =~= old(out)@ + network_text(*self));
            },
        }
    }

    fn push_consistency(&self, out: &mut String)
        ensures
            final(out)@ == old(out)@ + consistency_text(*self),
    {
        match self.fdefaultconsistencychecks {
            None => {},
            Some(v) => {
                push_flag_line(out, "checkblockindex=", v);
                push_flag_line(out, "checkmempool=", v);
                assert(final(out)@ =~= old(out)@ + consistency_text(*self));
            },
        }
    }

    #[verifier::rlimit(50)]
    fn push_flags(&self, out: &mut String)
        ensures
            final(out)@ == old(out)@ + flags_text(*self),
    {
        push_flag_line(out, "debug=", self.debug);
        push_flag_line(out, "printtoconsole=", self.printtoconsole);
        push_flag_line(out, "daemon=", self.daemon);
        push_flag_line(out, "listen=", self.listen);
        push_flag_line(out, "listenonion=", self.listenonion);
        push_flag_line(out, "discover=", self.discover);
        assert(final(out)@ =~= old(out)@ + flags_text(*self));
    }

    #[verifier::rlimit(50)]
    fn push_net(&self, out: &mut String)
        ensures
            final(out)@ == old(out)@ + net_text(*self),
    {
        match self.port {
            None => {},
            Some(p) => push_dec_line(out, "port=", p as u64),
        }
        match &self.proxy {
            None => {},
            Some(v) => push_line(out, "proxy=", v.as_str()),
        }
        push_flag_line(out, "txindex=", self.txindex);
        push_lines(out, "connect=", &self.connect);
        push_lines(out, "addnode=", &self.addnodes);
        assert(final(out)@ =~= old(out)@ + net_text(*self));
    }

    #[verifier::rlimit(50)]
    fn push_rpc(&self, out: &mut String)
        ensures
            final(out)@ == old(out)@ + rpc_text(*self),
    {
        if self.rpccookie.is_some() || self.rpcuser.is_some() {
            push_text_line(out, "server=1");
        }
        match &self.rpccookie {
            None => {},
            Some(cf) => push_line(out, "rpccookiefile=", cf.as_str()),
        }
        match self.rpcport {
            None => {},
            Some(p) => {
                push_text_line(out, "rpcallowip=127.0.0.1");
                push_text_line(out, "rpcbind=127.0.0.1");
                push_dec_line(out, "rpcport=", p as u64);
            },
        }
        match &self.rpcuser {
            None => {},
            Some(u) => push_line(out, "rpcuser=", u.as_str()),
        }
        match &self.rpcpass {
            None => {},
            Some(p) => push_line(out, "rpcpassword=", p.as_str()),
        }
        assert(final(out)@ =~= old(out)@ + rpc_text(*self));
    }

    fn push_wallet(&self, out: &mut String)
        ensures
            final(out)@ == old(out)@ + wallet_text(*self),
    {
        match self.disablewallet {
            None => {},
            Some(v) => push_flag_line(out, "disablewallet=", v),
        }
        match self.dbcache {
            None => {},
            Some(v) => push_dec_line(out, "dbcache=", v as u64),
        }
        assert(final(out)@ =~= old(out)@ + wallet_text(*self));
    }

    #[verifier::rlimit(50)]
    fn push_fees(&self, out: &mut String)
        ensures
            final(out)@ == old(out)@ + fees_text(*self),
    {
        match &self.addresstype {
            None => {},
            Some(v) => push_line(out, "addresstype=", v.as_str()),
        }
        match self.blockmintxfee {
            None => {},
            Some(a) => push_fee_line(out, "blockmintxfee=", a),
        }
        match self.minrelaytxfee {
            None => {},
            Some(a) => push_fee_line(out, "minrelaytxfee=", a),
        }
        match self.fallbackfee {
            None => {},
            Some(a) => push_fee_line(out, "fallbackfee=", a),
        }
        assert(final(out)@ =~= old(out)@ + fees_text(*self));
    }

    /// Appends the complete configuration file text to `out`.
    #[verifier::rlimit(50)]
    pub fn write_into(&self, out: &mut String)
        ensures
            final(out)@ == old(out)@ + config_text(*self),
    {
        self.push_datadir(out);
        self.push_network(out);
        self.push_consistency(out);
        self.push_flags(out);
        self.push_net(out);
        self.push_rpc(out);
        self.push_wallet(out);
        self.push_fees(out);
        assert(final(out)@ =~= old(out)@ + config_text(*self));
    }

    /// The complete configuration file text.
    pub fn render(&self) -> (s: String)
        ensures
            s@ == config_text(*self),
    {
        let mut s = String::new();
        self.write_into(&mut s);
        assert(s@ =~= config_text(*self));
        s
    }
}

impl Default for Config {
    /// A configuration with everything unset or off.
    fn default() -> (c: Config)
        ensures
            c.version == 0,
            c.datadir@ == Seq::<char>::empty(),
            c.network is None,
            c.fdefaultconsistencychecks is None,
            !c.debug,
            !c.printtoconsole,
            !c.daemon,
            !c.listen,
            !c.listenonion,
            !c.discover,
            c.port is None,
            c.proxy is None,
            !c.txindex,
            c.connect@ == Seq::<String>::empty(),
            c.addnodes@ == Seq::<String>::empty(),
            c.rpccookie is None,
            c.rpcport is None,
            c.rpcuser is None,
            c.rpcpass is None,
            c.disablewallet is None,
            c.dbcache is None,
            c.addresstype is None,
            c.blockmintxfee is None,
            c.minrelaytxfee is None,
            c.fallbackfee is None,
    {
        Config {
            version: 0,
            datadir: String::new(),
            network: None,
            fdefaultconsistencychecks: None,
            debug: false,
            printtoconsole: false,
            daemon: false,
            listen: false,
            listenonion: false,
            discover: false,
            port: None,
            proxy: None,
            txindex: false,
            connect: Vec::new(),
            addnodes: Vec::new(),
            rpccookie: None,
            rpcport: None,
            rpcuser: None,
            rpcpass: None,
            disablewallet: None,
            dbcache: None,
            addresstype: None,
            blockmintxfee: None,
            minrelaytxfee: None,
            fallbackfee: None,
        }
    }
}

/// The runtime state of a bitcoind daemon, as contracts see it.
pub ghost struct StateView {
    /// All stderr output, line by line.
    pub stderr: Seq<char>,
    /// The stdout lines recognized as error messages, in order.
    pub error_msgs: Seq<Seq<char>>,
}

/// The runtime state of a bitcoind daemon, accumulated from its output
/// streams by the reader loops.
#[derive(Debug)]
pub struct State {
    /// Buffer holding all stderr output.
    pub stderr: String,
    /// Error messages recognized on stdout during runtime.
    pub error_msgs: Vec<String>,
}

impl View for State {
    type V = StateView;

    open spec fn view(&self) -> StateView {
        StateView { stderr: self.stderr@, error_msgs: self.error_msgs.deep_view() }
    }
}

impl DaemonState for State {
    /// A stdout line is kept exactly when it carries the error marker;
    /// everything else is discarded.
    open spec fn stdout_step(pre: StateView, line: Seq<char>) -> StateView {
        if contains_error_marker_spec(line) {
            StateView { error_msgs: pre.error_msgs.push(line), ..pre }
        } else {
            pre
        }
    }

    /// Every stderr line is appended to the stderr buffer.
    open spec fn stderr_step(pre: StateView, line: Seq<char>) -> StateView {
        StateView { stderr: pre.stderr + line + "\n"@, ..pre }
    }

    open spec fn stderr_text(v: StateView) -> Seq<char> {
        v.stderr
    }

    open spec fn drained_stderr(v: StateView) -> StateView {
        StateView { stderr: Seq::empty(), ..v }
    }

    open spec fn error_msgs(v: StateView) -> Seq<Seq<char>> {
        v.error_msgs
    }

    open spec fn drained_error_msgs(v: StateView) -> StateView {
        StateView { error_msgs: Seq::empty(), ..v }
    }

    fn process_stdout(&mut self, line: &str) {
        if contains_error_marker(line) {
            self.error_msgs.push(line.to_owned());
            assert(self.error_msgs.deep_view() =~= old(self).error_msgs.deep_view().push(line@));
        }
    }

    fn process_stderr(&mut self, line: &str) {
        self.stderr.append(line);
        self.stderr.append("\n");
    }

    fn take_stderr(&mut self) -> (r: String) {
        let mut tmp = String::new();
        core::mem::swap(&mut self.stderr, &mut tmp);
        tmp
    }

    fn take_error_msgs(&mut self) -> (r: Vec<String>) {
        let mut tmp: Vec<String> = Vec::new();
        core::mem::swap(&mut self.error_msgs, &mut tmp);
        assert(self.error_msgs.deep_view() =~= Seq::<Seq<char>>::empty());
        tmp
    }
}

/// The stdout lines that carry the error marker, in order.
pub open spec fn error_lines(lines: Seq<Seq<char>>) -> Seq<Seq<char>>
    decreases lines.len(),
{
    if lines.len() == 0 {
        Seq::empty()
    } else {
        (if contains_error_marker_spec(lines[0]) {
            seq![lines[0]]
        } else {
            Seq::empty()
        }) + error_lines(lines.skip(1))
    }
}

/// Law: delivering a sequence of stdout lines to the state records
/// exactly the marker-carrying lines in `error_msgs` - each one once,
/// with its content, in the order delivered - and leaves the stderr
/// buffer alone.
pub proof fn lemma_stdout_lines_once(v: StateView, lines: Seq<Seq<char>>)
    ensures
        stdout_fold::<State>(v, lines).error_msgs == v.error_msgs + error_lines(lines),
        stdout_fold::<State>(v, lines).stderr == v.stderr,
    decreases lines.len(),
{
    if lines.len() == 0 {
        assert(v.error_msgs + error_lines(lines) =~= v.error_msgs);
    } else {
        let v1 = State::stdout_step(v, lines[0]);
        lemma_stdout_lines_once(v1, lines.skip(1));
        assert(v.error_msgs + error_lines(lines) =~= v1.error_msgs + error_lines(lines.skip(1)));
    }
}

/// Law: delivering a sequence of stderr lines to the state appends
/// each line and a newline to the stderr buffer, in the order
/// delivered, and leaves the error messages alone.
pub proof fn lemma_stderr_lines_in_order(v: StateView, lines: Seq<Seq<char>>)
    ensures
        stderr_fold::<State>(v, lines).stderr == v.stderr + joined_lines(lines),
        stderr_fold::<State>(v, lines).error_msgs == v.error_msgs,
    decreases lines.len(),
{
    if lines.len() == 0 {
        assert(v.stderr + joined_lines(lines) =~= v.stderr);
    } else {
        let v1 = State::stderr_step(v, lines[0]);
        lemma_stderr_lines_in_order(v1, lines.skip(1));
        assert(v.stderr + joined_lines(lines) =~= v1.stderr + joined_lines(lines.skip(1)));
    }
}

/// An owned handle on one configured bitcoind daemon: its name, its
/// executable, its configuration, and whether the configuration file
/// has been written yet.
#[derive(Debug)]
pub struct Daemon {
    name: String,
    executable: String,
    config: Config,
    config_file: Option<String>,
}

/// The path of the configuration file inside the data directory.
pub open spec fn config_path_text(c: Config) -> Seq<char> {
    c.datadir@ + "/"@ + "bitcoin.conf"@
}

/// The display name of a daemon.
pub open spec fn describe_text(name: Seq<char>) -> Seq<char> {
    if name.len() == 0 {
        "<unnamed> bitcoind"@
    } else {
        "bitcoind \""@ + name + "\""@
    }
}

impl Daemon {
    /// The daemon's name, as contracts see it.
    pub closed spec fn name_spec(&self) -> Seq<char> {
        self.name@
    }

    /// The executable path, as contracts see it.
    pub closed spec fn executable_spec(&self) -> Seq<char> {
        self.executable@
    }

    /// The configuration, as contracts see it.
    pub closed spec fn config_spec(&self) -> Config {
        self.config
    }

    /// The path of the written configuration file, as contracts see
    /// it: `None` until the file has been written.
    pub closed spec fn config_file_spec(&self) -> Option<Seq<char>> {
        match self.config_file {
            None => None,
            Some(p) => Some(p@),
        }
    }

    /// A daemon from an executable path and a configuration.  The data
    /// directory must be an absolute path.
    pub fn new(executable: String, config: Config) -> (r: Result<Daemon, Error>)
        ensures
            match r {
                Ok(d) => is_absolute_path(config.datadir@) && d.name_spec()
                    == Seq::<char>::empty() && d.executable_spec() == executable@ && d.config_spec()
                    == config && d.config_file_spec() is None,
                Err(e) => !is_absolute_path(config.datadir@) && (e matches Error::Config(m) && m@
                    == "datadir should be an absolute path"@),
            },
    {
        if !crate::text::check_absolute_path(config.datadir.as_str()) {
            return Err(Error::Config("datadir should be an absolute path"));
        }
        Ok(Daemon { name: String::new(), executable, config, config_file: None })
    }

    /// Renames the daemon.
    pub fn set_name(&mut self, name: String)
        ensures
            final(self).name_spec() == name@,
            final(self).executable_spec() == old(self).executable_spec(),
            final(self).config_spec() == old(self).config_spec(),
            final(self).config_file_spec() == old(self).config_file_spec(),
    {
        self.name = name;
    }

    /// The daemon's name; empty when never named.
    pub fn name(&self) -> (r: &str)
        ensures
            r@ == self.name_spec(),
    {
        self.name.as_str()
    }

    /// The configured data directory.
    pub fn datadir(&self) -> (r: &str)
        ensures
            r@ == self.config_spec().datadir@,
    {
        self.config.datadir.as_str()
    }

    /// The path of the written configuration file; `None` until it has
    /// been written.
    pub fn config_file(&self) -> (r: Option<&String>)
        ensures
            match self.config_file_spec() {
                None => r is None,
                Some(p) => r matches Some(s) && s@ == p,
            },
    {
        self.config_file.as_ref()
    }

    /// The display name of this daemon.
    pub fn describe(&self) -> (r: String)
        ensures
            r@ == describe_text(self.name_spec()),
    {
        if self.name.as_str().unicode_len() == 0 {
            String::from_str("<unnamed> bitcoind")
        } else {
            let mut s = String::from_str("bitcoind \"");
            s.append(self.name.as_str());
            s.append("\"");
            assert(s@ =~= describe_text(self.name_spec()));
            s
        }
    }

    /// What preparation still has to happen before the first spawn:
    /// `Some` carries the path and the full text of the configuration
    /// file that must be written, `None` means the file was already
    /// written.  Once the caller has written the file it reports so
    /// with `mark_prepared`.
    pub fn prepare_plan(&self) -> (r: Option<(String, String)>)
        ensures
            match r {
                None => self.config_file_spec() is Some,
                Some((path, text)) => self.config_file_spec() is None && path@ == config_path_text(
                    self.config_spec(),
                ) && text@ == config_text(self.config_spec()),
            },
    {
        match &self.config_file {
            Some(_) => None,
            None => {
                let mut path = String::new();
                path.append(self.config.datadir.as_str());
                path.append("/");
                path.append(CONFIG_FILENAME);
                assert(path@ =~= config_path_text(self.config_spec()));
                Some((path, self.config.render()))
            },
        }
    }

    /// Records that the configuration file now exists at its path.
    pub fn mark_prepared(&mut self)
        ensures
            final(self).config_file_spec() matches Some(p) && p == config_path_text(
                old(self).config_spec(),
            ),
            final(self).name_spec() == old(self).name_spec(),
            final(self).executable_spec() == old(self).executable_spec(),
            final(self).config_spec() == old(self).config_spec(),
    {
        let mut path = String::new();
        path.append(self.config.datadir.as_str());
        path.append("/");
        path.append(CONFIG_FILENAME);
        assert(path@ =~= config_path_text(self.config_spec()));
        self.config_file = Some(path);
    }

    /// The command to spawn this daemon with.  The configuration file
    /// must have been written first.
    pub fn command(&self) -> (r: Command)
        requires
            self.config_file_spec() is Some,
        ensures
            r.program@ == self.executable_spec(),
            r.args.deep_view() =~= seq![
                "-conf="@ + self.config_file_spec().unwrap(),
                "-printtoconsole=1"@,
            ],
    {
        let conf = self.config_file.as_ref().unwrap();
        let mut arg0 = String::from_str("-conf=");
        arg0.append(conf.as_str());
        let mut args: Vec<String> = Vec::new();
        args.push(arg0);
        args.push(String::from_str("-printtoconsole=1"));
        Command { program: self.executable.clone(), args }
    }

    /// The initial runtime state: everything empty.
    pub fn init_state(&self) -> (s: State)
        ensures
            s@.stderr == Seq::<char>::empty(),
            s@.error_msgs == Seq::<Seq<char>>::empty(),
    {
        let s = State { stderr: String::new(), error_msgs: Vec::new() };
        assert(s@.error_msgs =~= Seq::<Seq<char>>::empty());
        s
    }

    /// Whether stdout should additionally be copied to a log file in
    /// the data directory, as older daemon versions expect.
    pub fn wants_stdout_log(&self) -> (b: bool)
        ensures
            b == (self.config_spec().version < 18_00_00),
    {
        self.config.version < 18_00_00
    }

    /// The path of the stdout log file inside the data directory.
    pub fn stdout_log_path(&self) -> (r: String)
        ensures
            r@ == self.config_spec().datadir@ + "/"@ + "stdout.log"@,
    {
        let mut path = String::new();
        path.append(self.config.datadir.as_str());
        path.append("/");
        path.append("stdout.log");
        assert(path@ =~= self.config_spec().datadir@ + "/"@ + "stdout.log"@);
        path
    }

    /// The RPC endpoint of this daemon, determined by its
    /// configuration.  Meaningful once the daemon has been started.
    pub fn rpc_info(&self) -> (r: Option<(String, Auth)>)
        ensures
            match (self.config_spec().rpcport, auth_spec(
                self.config_spec().rpccookie,
                self.config_spec().rpcuser,
                self.config_spec().rpcpass,
            )) {
                (Some(p), Some(a)) => r matches Some((url, auth)) && url@ == rpc_url_text(p) && auth
                    == a,
                _ => r is None,
            },
    {
        rpc_info(self.config.rpcport, &self.config.rpccookie, &self.config.rpcuser, &self.config.rpcpass)
    }
}

} // verus!
