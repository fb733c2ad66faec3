//! The agent's settings, and how the command line overrides a settings
//! file.

use vstd::prelude::*;
use vstd::string::StringExecFns;
use crate::state::{copy_opt, opt_text};

verus! {

/// The texts of a list of strings.
pub open spec fn texts(list: Seq<String>) -> Seq<Seq<char>> {
    Seq::new(list.len(), |i: int| list[i]@)
}

/// A copy of a list of strings.
pub fn copy_list(list: &Vec<String>) -> (copy: Vec<String>)
    ensures
        texts(copy@) == texts(list@),
{
    let mut copy: Vec<String> = Vec::new();
    let mut i: usize = 0;
    while i < list.len()
        invariant
            0 <= i <= list@.len(),
            copy@.len() == i,
            forall|j: int| 0 <= j < i ==> (#[trigger] copy@[j])@ == list@[j]@,
        decreases list@.len() - i,
    {
        copy.push(list[i].clone());
        i = i + 1;
    }
    copy
}

/// The port that the API is served on unless set otherwise.
pub fn default_port() -> (port: u16)
    ensures
        port == 3000,
{
    3000
}

/// The database file unless set otherwise.
pub fn default_db_path() -> (path: String)
    ensures
        path@ == "traffic.db"@,
{
    String::from_str("traffic.db")
}

/// Seconds of silence after which a flow is stale, unless set otherwise.
pub fn default_connection_timeout() -> (seconds: u64)
    ensures
        seconds == 60,
{
    60
}

/// Retention unless set otherwise: rows are kept forever.
pub fn default_data_retention() -> (retention: Option<u64>)
    ensures
        retention is None,
{
    None
}

/// Sampling unless set otherwise: every packet is stored.
pub fn default_sample_rate() -> (rate: u32)
    ensures
        rate == 1,
{
    1
}

/// The aggregation window unless set otherwise: none, packets are stored
/// one by one.
pub fn default_aggregation_window() -> (seconds: u64)
    ensures
        seconds == 0,
{
    0
}

/// The interface that the classifier is attached to where none is named.
pub const DEFAULT_INTERFACE: &'static str = "eth0";

/// The agent's settings.
#[derive(Debug)]
pub struct Config {
    /// Interface to observe.
    pub interface: Option<String>,
    /// Port of the API.
    pub port: u16,
    /// Path of the database file.
    pub db_path: String,
    /// Keep only packets from or to this port.
    pub filter_port: Option<u16>,
    /// Keep only packets from or to this address.
    pub filter_ip: Option<String>,
    /// Keep only packets of this protocol.
    pub filter_protocol: Option<String>,
    /// Seconds of silence after which a flow is stale.
    pub connection_timeout: u64,
    /// Whether only errors are logged.
    pub quiet: bool,
    /// Seconds for which rows are kept; `None` keeps them forever.
    pub data_retention_seconds: Option<u64>,
    /// One packet in this many is stored.
    pub sample_rate: u32,
    /// Seconds of one aggregation window; zero stores packets one by one.
    pub aggregation_window_seconds: u64,
    /// Whether addresses are resolved to host names.
    pub resolve_dns: bool,
    /// Address ranges that may use the API; none listed admits all.
    pub allowed_ips: Vec<String>,
}

/// What the command line gave. An option that was not given holds its
/// default.
#[derive(Debug)]
pub struct CliArgs {
    pub interface: Option<String>,
    pub port: u16,
    pub db_path: String,
    /// Path of a settings file to start from.
    pub config: Option<String>,
    pub filter_port: Option<u16>,
    pub filter_ip: Option<String>,
    pub filter_protocol: Option<String>,
    pub connection_timeout: u64,
    pub quiet: bool,
    pub data_retention: Option<u64>,
    pub sample_rate: u32,
    pub aggregation_window: u64,
    pub resolve_dns: bool,
    pub allowed_ips: Vec<String>,
}

/// The mathematical content of a [`Config`].
pub struct ConfigView {
    pub interface: Option<Seq<char>>,
    pub port: u16,
    pub db_path: Seq<char>,
    pub filter_port: Option<u16>,
    pub filter_ip: Option<Seq<char>>,
    pub filter_protocol: Option<Seq<char>>,
    pub connection_timeout: u64,
    pub quiet: bool,
    pub data_retention_seconds: Option<u64>,
    pub sample_rate: u32,
    pub aggregation_window_seconds: u64,
    pub resolve_dns: bool,
    pub allowed_ips: Seq<Seq<char>>,
}

/// The mathematical content of a [`CliArgs`].
pub struct CliView {
    pub interface: Option<Seq<char>>,
    pub port: u16,
    pub db_path: Seq<char>,
    pub config: Option<Seq<char>>,
    pub filter_port: Option<u16>,
    pub filter_ip: Option<Seq<char>>,
    pub filter_protocol: Option<Seq<char>>,
    pub connection_timeout: u64,
    pub quiet: bool,
    pub data_retention: Option<u64>,
    pub sample_rate: u32,
    pub aggregation_window: u64,
    pub resolve_dns: bool,
    pub allowed_ips: Seq<Seq<char>>,
}

impl View for Config {
    type V = ConfigView;

    open spec fn view(&self) -> ConfigView {
        ConfigView {
            interface: opt_text(self.interface),
            port: self.port,
            db_path: self.db_path@,
            filter_port: self.filter_port,
            filter_ip: opt_text(self.filter_ip),
            filter_protocol: opt_text(self.filter_protocol),
            connection_timeout: self.connection_timeout,
            quiet: self.quiet,
            data_retention_seconds: self.data_retention_seconds,
            sample_rate: self.sample_rate,
            aggregation_window_seconds: self.aggregation_window_seconds,
            resolve_dns: self.resolve_dns,
            allowed_ips: texts(self.allowed_ips@),
        }
    }
}

impl View for CliArgs {
    type V = CliView;

    open spec fn view(&self) -> CliView {
        CliView {
            interface: opt_text(self.interface),
            port: self.port,
            db_path: self.db_path@,
            config: opt_text(self.config),
            filter_port: self.filter_port,
            filter_ip: opt_text(self.filter_ip),
            filter_protocol: opt_text(self.filter_protocol),
            connection_timeout: self.connection_timeout,
            quiet: self.quiet,
            data_retention: self.data_retention,
            sample_rate: self.sample_rate,
            aggregation_window: self.aggregation_window,
            resolve_dns: self.resolve_dns,
            allowed_ips: texts(self.allowed_ips@),
        }
    }
}

impl ConfigView {
    /// The settings where nothing was set.
    pub open spec fn initial() -> ConfigView {
        ConfigView {
            interface: None,
            port: 3000,
            db_path: "traffic.db"@,
            filter_port: None,
            filter_ip: None,
            filter_protocol: None,
            connection_timeout: 60,
            quiet: false,
            data_retention_seconds: None,
            sample_rate: 1,
            aggregation_window_seconds: 0,
            resolve_dns: false,
            allowed_ips: Seq::empty(),
        }
    }

    /// The settings with the command line laid over them. An option wins
    /// over the file where it was given: an optional one where it is there,
    /// a switch where it is on, a list where it is not empty, and any other
    /// where it differs from its default.
    pub open spec fn merged(self, cli: CliView) -> ConfigView {
        ConfigView {
            interface: if cli.interface is Some {
                cli.interface
            } else {
                self.interface
            },
            port: if cli.port != 3000 {
                cli.port
            } else {
                self.port
            },
            db_path: if cli.db_path != "traffic.db"@ {
                cli.db_path
            } else {
                self.db_path
            },
            filter_port: if cli.filter_port is Some {
                cli.filter_port
            } else {
                self.filter_port
            },
            filter_ip: if cli.filter_ip is Some {
                cli.filter_ip
            } else {
                self.filter_ip
            },
            filter_protocol: if cli.filter_protocol is Some {
                cli.filter_protocol
            } else {
                self.filter_protocol
            },
            connection_timeout: if cli.connection_timeout != 60 {
                cli.connection_timeout
            } else {
                self.connection_timeout
            },
            quiet: self.quiet || cli.quiet,
            data_retention_seconds: if cli.data_retention is Some {
                cli.data_retention
            } else {
                self.data_retention_seconds
            },
            sample_rate: if cli.sample_rate != 1 {
                cli.sample_rate
            } else {
                self.sample_rate
            },
            aggregation_window_seconds: if cli.aggregation_window != 0 {
                cli.aggregation_window
            } else {
                self.aggregation_window_seconds
            },
            resolve_dns: self.resolve_dns || cli.resolve_dns,
            allowed_ips: if cli.allowed_ips.len() != 0 {
                cli.allowed_ips
            } else {
                self.allowed_ips
            },
        }
    }
}

impl Default for Config {
    fn default() -> (config: Config)
        ensures
            config@ == ConfigView::initial(),
    {
        let config = Config {
            interface: None,
            port: default_port(),
            db_path: default_db_path(),
            filter_port: None,
            filter_ip: None,
            filter_protocol: None,
            connection_timeout: default_connection_timeout(),
            quiet: false,
            data_retention_seconds: default_data_retention(),
            sample_rate: default_sample_rate(),
            aggregation_window_seconds: default_aggregation_window(),
            resolve_dns: false,
            allowed_ips: Vec::new(),
        };
        assert(texts(config.allowed_ips@) =~= Seq::<Seq<char>>::empty());
        config
    }
}

impl Config {
    /// Lays the command line over the settings: what was given on the
    /// command line wins.
    pub fn merge_cli(&mut self, cli: &CliArgs)
        ensures
            final(self)@ == old(self)@.merged(cli@),
    {
        if cli.interface.is_some() {
            self.interface = copy_opt(&cli.interface);
        }
        if cli.port != 3000 {
            self.port = cli.port;
        }
        if cli.db_path != default_db_path() {
            self.db_path = cli.db_path.clone();
        }
        if cli.filter_port.is_some() {
            self.filter_port = cli.filter_port;
        }
        if cli.filter_ip.is_some() {
            self.filter_ip = copy_opt(&cli.filter_ip);
        }
        if cli.filter_protocol.is_some() {
            self.filter_protocol = copy_opt(&cli.filter_protocol);
        }
        if cli.connection_timeout != 60 {
            self.connection_timeout = cli.connection_timeout;
        }
        if cli.quiet {
            self.quiet = true;
        }
        if cli.data_retention.is_some() {
            self.data_retention_seconds = cli.data_retention;
        }
        if cli.sample_rate != 1 {
            self.sample_rate = cli.sample_rate;
        }
        if cli.aggregation_window != 0 {
            self.aggregation_window_seconds = cli.aggregation_window;
        }
        if cli.resolve_dns {
            self.resolve_dns = true;
        }
        if cli.allowed_ips.len() != 0 {
            self.allowed_ips = copy_list(&cli.allowed_ips);
        }
    }

    /// The interface to observe: the one named, or `eth0`.
    pub fn interface_name(&self) -> (name: String)
        ensures
            name@ == match self@.interface {
                Some(text) => text,
                None => DEFAULT_INTERFACE@,
            },
    {
        match &self.interface {
            Some(name) => name.clone(),
            None => String::from_str(DEFAULT_INTERFACE),
        }
    }
}

} // verus!
