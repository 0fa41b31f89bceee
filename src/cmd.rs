//! What the command line asks for, decided from the values given to its
//! options.
use vstd::prelude::*;

use crate::text::{parse_usize, split_commas, split_on, usize_of, views};

verus! {

/// Seconds a TCP relay may take to connect, unless the command line says otherwise.
pub const TCP_TIMEOUT: usize = 300;

/// Seconds a UDP association is kept, unless the command line says otherwise.
pub const UDP_TIMEOUT: usize = 30;

/// The values given on the command line: flags as `bool`, options as the
/// text given, if any.
#[derive(Clone, Debug, PartialEq, Eq, Default)]
pub struct ArgValues {
    pub udp: bool,
    pub fast_open: bool,
    pub zero_copy: bool,
    pub daemon: bool,
    pub config: Option<String>,
    pub local: Option<String>,
    pub remote: Option<String>,
    pub through: Option<String>,
    pub tcp_timeout: Option<String>,
    pub udp_timeout: Option<String>,
    pub log_level: Option<String>,
    pub log_output: Option<String>,
    pub dns_mode: Option<String>,
    pub dns_protocol: Option<String>,
    pub dns_servers: Option<String>,
}

/// One endpoint: listen on `local`, relay to `remote`.
#[derive(Clone, Debug, PartialEq, Eq)]
pub struct EndpointConf {
    pub udp: bool,
    pub fast_open: bool,
    pub zero_copy: bool,
    pub local: String,
    pub remote: String,
    /// The send-through address; empty for none.
    pub through: String,
    pub tcp_timeout: usize,
    pub udp_timeout: usize,
}

/// Settings that override those of a configuration file.
#[derive(Clone, Debug, PartialEq, Eq)]
pub struct GlobalOpts {
    pub log_level: Option<String>,
    pub log_output: Option<String>,
    pub dns_mode: Option<String>,
    pub dns_protocol: Option<String>,
    pub dns_servers: Option<Vec<String>>,
}

/// What to run.
#[derive(Clone, Debug, PartialEq, Eq)]
pub enum CmdInput {
    /// Load the configuration file at this path.
    Config(String, GlobalOpts),
    /// Run the one endpoint given on the command line.
    Endpoint(EndpointConf, GlobalOpts),
    /// Nothing to run.
    Idle,
}

pub open spec fn text_of(o: Option<String>) -> Option<Seq<char>> {
    match o {
        Some(s) => Some(s@),
        None => None,
    }
}

/// The timeout that an option value gives: the number it writes, or the
/// default where it is absent or is not a `usize`.
pub open spec fn timeout_of(v: Option<String>, default: usize) -> usize {
    match v {
        Some(t) => match usize_of(t@) {
            Some(n) => n,
            None => default,
        },
        None => default,
    }
}

/// `g` holds the overrides that `args` gives; the DNS servers are a comma
/// separated list.
pub open spec fn global_opts_of(args: ArgValues, g: GlobalOpts) -> bool {
    &&& text_of(g.log_level) == text_of(args.log_level)
    &&& text_of(g.log_output) == text_of(args.log_output)
    &&& text_of(g.dns_mode) == text_of(args.dns_mode)
    &&& text_of(g.dns_protocol) == text_of(args.dns_protocol)
    &&& match args.dns_servers {
        Some(s) => g.dns_servers matches Some(l) && views(l@) == split_on(s@, ','),
        None => g.dns_servers is None,
    }
}

/// `ep` is the endpoint that `args` gives, where both addresses are given.
pub open spec fn endpoint_of(args: ArgValues, ep: EndpointConf) -> bool {
    &&& ep.udp == args.udp
    &&& ep.fast_open == args.fast_open
    &&& ep.zero_copy == args.zero_copy
    &&& Some(ep.local@) == text_of(args.local)
    &&& Some(ep.remote@) == text_of(args.remote)
    &&& ep.through@ == match args.through {
        Some(t) => t@,
        None => Seq::empty(),
    }
    &&& ep.tcp_timeout == timeout_of(args.tcp_timeout, TCP_TIMEOUT)
    &&& ep.udp_timeout == timeout_of(args.udp_timeout, UDP_TIMEOUT)
}

fn copy_text(o: &Option<String>) -> (r: Option<String>)
    ensures
        text_of(r) == text_of(*o),
{
    match o {
        Some(s) => Some(s.clone()),
        None => None,
    }
}

/// Reads a timeout option, falling back to `default`.
pub fn parse_timeout(v: &Option<String>, default: usize) -> (r: usize)
    ensures
        r == timeout_of(*v, default),
{
    match v {
        Some(t) => match parse_usize(t.as_str()) {
            Some(n) => n,
            None => default,
        },
        None => default,
    }
}

/// The overrides given on the command line.
pub fn parse_global_opts(args: &ArgValues) -> (g: GlobalOpts)
    ensures
        global_opts_of(*args, g),
{
    let dns_servers = match &args.dns_servers {
        Some(s) => Some(split_commas(s.as_str())),
        None => None,
    };
    GlobalOpts {
        log_level: copy_text(&args.log_level),
        log_output: copy_text(&args.log_output),
        dns_mode: copy_text(&args.dns_mode),
        dns_protocol: copy_text(&args.dns_protocol),
        dns_servers,
    }
}

/// The endpoint given on the command line.
pub fn parse_single_ep(args: &ArgValues) -> (ep: EndpointConf)
    requires
        args.local is Some,
        args.remote is Some,
    ensures
        endpoint_of(*args, ep),
{
    let local = match &args.local {
        Some(s) => s.clone(),
        None => String::new(),
    };
    let remote = match &args.remote {
        Some(s) => s.clone(),
        None => String::new(),
    };
    let through = match &args.through {
        Some(s) => s.clone(),
        None => String::new(),
    };
    EndpointConf {
        udp: args.udp,
        fast_open: args.fast_open,
        zero_copy: args.zero_copy,
        local,
        remote,
        through,
        tcp_timeout: parse_timeout(&args.tcp_timeout, TCP_TIMEOUT),
        udp_timeout: parse_timeout(&args.udp_timeout, UDP_TIMEOUT),
    }
}

/// What the command line asks for: a configuration file wins; else an
/// endpoint, where both its addresses are given; else nothing.
pub fn parse_matches(args: &ArgValues) -> (r: CmdInput)
    ensures
        match r {
            CmdInput::Config(path, g) => args.config is Some && path@ == args.config->0@
                && global_opts_of(*args, g),
            CmdInput::Endpoint(ep, g) => args.config is None && args.local is Some
                && args.remote is Some && endpoint_of(*args, ep) && global_opts_of(*args, g),
            CmdInput::Idle => args.config is None && (args.local is None || args.remote is None),
        },
{
    let opts = parse_global_opts(args);
    match &args.config {
        Some(path) => {
            return CmdInput::Config(path.clone(), opts);
        },
        None => {},
    }
    if args.local.is_some() && args.remote.is_some() {
        let ep = parse_single_ep(args);
        return CmdInput::Endpoint(ep, opts);
    }
    CmdInput::Idle
}

} // verus!
