//! The configuration loader: field extraction, cross-field validation and
//! assembly of the immutable service configuration.
//!
//! The whole load has a ghost model, `spec_load`: a mathematical function
//! from the raw settings (and the settings file's name, used only inside
//! error messages) to either a `CfgModel` — the plain values of every
//! configuration field — or the message of the single error that aborts
//! the load. The executable loader is proved to return exactly what the
//! model says, the one exception being the whois server list, which only
//! a read of the file system can produce.
use vstd::prelude::*;
use vstd::string::*;
use crate::errors::ErrorConfig;
use crate::netaddr::{spec_parse_ip, spec_parse_ipv4, spec_parse_sockaddr, parse_ip, parse_ipv4, parse_sockaddr, IpAddress, IpV4Address, SocketAddress};
use crate::numparse::{spec_parse_u64, spec_parse_u32, spec_parse_usize, spec_parse_i64, parse_u64, parse_u32, parse_usize, parse_i64};
use crate::settings::{find_entry, find_section, IniSection, RawSettings};
use crate::strutil::{first_token, first_token_str, split_on, split_str, str_eq, trim_spec, trim_str};
use crate::whois::whois_from_path;

verus! {

/// Which side opens the transport connection, and whether the session
/// speaks BGP or BMP.
#[derive(Debug, Clone, PartialEq, Eq, Structural)]
pub enum PeerMode {
    /// this service connects to a BGP router
    BgpActive,
    /// a BGP router connects to this service
    BgpPassive,
    /// a BMP router connects to this service
    BmpPassive,
    /// this service connects to a BMP router
    BmpActive,
}

/// When the history store records a route update.
#[derive(Debug, Clone, PartialEq, Eq, Structural)]
pub enum HistoryChangeMode {
    /// every update is recorded, duplicates included
    EveryUpdate,
    /// a record is made only when route attributes differ
    OnlyDiffer,
}

impl PeerMode {
    /// The mode a settings value denotes: its first whitespace-separated
    /// token matched against the fixed vocabulary; leading whitespace is
    /// skipped and trailing tokens are ignored.
    pub open spec fn spec_from_str(s: Seq<char>) -> Result<PeerMode, Seq<char>> {
        let t = first_token(s);
        if t == "bgpactive"@ {
            Ok(PeerMode::BgpActive)
        } else if t == "bgppassive"@ {
            Ok(PeerMode::BgpPassive)
        } else if t == "bmppassive"@ {
            Ok(PeerMode::BmpPassive)
        } else if t == "bmpactive"@ {
            Ok(PeerMode::BmpActive)
        } else {
            Err("invalid mode"@)
        }
    }

    /// Parse a peer mode, proved against `spec_from_str`.
    pub fn from_str(s: &str) -> (r: Result<PeerMode, ErrorConfig>)
        ensures
            match r {
                Ok(m) => Self::spec_from_str(s@) == Ok::<PeerMode, Seq<char>>(m),
                Err(e) => Self::spec_from_str(s@) == Err::<PeerMode, Seq<char>>(e@),
            },
    {
        let t = first_token_str(s);
        if str_eq(t.as_str(), "bgpactive") {
            Ok(PeerMode::BgpActive)
        } else if str_eq(t.as_str(), "bgppassive") {
            Ok(PeerMode::BgpPassive)
        } else if str_eq(t.as_str(), "bmppassive") {
            Ok(PeerMode::BmpPassive)
        } else if str_eq(t.as_str(), "bmpactive") {
            Ok(PeerMode::BmpActive)
        } else {
            Err(ErrorConfig::from_str("invalid mode"))
        }
    }
}

impl HistoryChangeMode {
    /// The history mode a settings value denotes: its first
    /// whitespace-separated token matched against the fixed vocabulary;
    /// leading whitespace is skipped and trailing tokens are ignored.
    pub open spec fn spec_from_str(s: Seq<char>) -> Result<HistoryChangeMode, Seq<char>> {
        let t = first_token(s);
        if t == "every"@ {
            Ok(HistoryChangeMode::EveryUpdate)
        } else if t == "differ"@ {
            Ok(HistoryChangeMode::OnlyDiffer)
        } else {
            Err("invalid history mode"@)
        }
    }

    /// Parse a history mode, proved against `spec_from_str`.
    pub fn from_str(s: &str) -> (r: Result<HistoryChangeMode, ErrorConfig>)
        ensures
            match r {
                Ok(m) => Self::spec_from_str(s@) == Ok::<HistoryChangeMode, Seq<char>>(m),
                Err(e) => Self::spec_from_str(s@) == Err::<HistoryChangeMode, Seq<char>>(e@),
            },
    {
        let t = first_token_str(s);
        if str_eq(t.as_str(), "every") {
            Ok(HistoryChangeMode::EveryUpdate)
        } else if str_eq(t.as_str(), "differ") {
            Ok(HistoryChangeMode::OnlyDiffer)
        } else {
            Err(ErrorConfig::from_str("invalid history mode"))
        }
    }
}

/// The fully validated service configuration, constructed only by one
/// total validation pass and never mutated afterwards.
#[derive(Debug)]
pub struct SvcConfig {
    pub routerid: IpV4Address,
    pub bgppeeras: u32,
    pub bgppeer: Option<SocketAddress>,
    pub protolisten: Option<SocketAddress>,
    pub bmppeer: Option<SocketAddress>,
    pub httplisten: SocketAddress,
    pub httproot: String,
    pub historydepth: usize,
    pub httptimeout: u64,
    pub historymode: HistoryChangeMode,
    pub whoisconfig: whois_rust::WhoIs,
    pub whoisdb: String,
    pub whoisreqtimeout: u64,
    pub whoiscachesecs: i64,
    pub whoisdnses: Vec<SocketAddress>,
    pub peermode: PeerMode,
    pub purge_after_withdraws: u64,
    pub purge_every: i64,
}

/// The plain values of every configuration field: the ghost model of one
/// successful load. The opaque whois handle has no place here; everything
/// else of `SvcConfig` does.
pub struct CfgModel {
    pub routerid: IpV4Address,
    pub bgppeeras: u32,
    pub bgppeer: Option<SocketAddress>,
    pub protolisten: Option<SocketAddress>,
    pub bmppeer: Option<SocketAddress>,
    pub httplisten: SocketAddress,
    pub httproot: Seq<char>,
    pub historydepth: usize,
    pub httptimeout: u64,
    pub historymode: HistoryChangeMode,
    pub whoisdb: Seq<char>,
    pub whoisreqtimeout: u64,
    pub whoiscachesecs: i64,
    pub whoisdnses: Seq<SocketAddress>,
    pub peermode: PeerMode,
    pub purge_after_withdraws: u64,
    pub purge_every: i64,
}

/// What the model states of a configuration value.
pub open spec fn conf_model(c: SvcConfig) -> CfgModel {
    CfgModel {
        routerid: c.routerid,
        bgppeeras: c.bgppeeras,
        bgppeer: c.bgppeer,
        protolisten: c.protolisten,
        bmppeer: c.bmppeer,
        httplisten: c.httplisten,
        httproot: c.httproot@,
        historydepth: c.historydepth,
        httptimeout: c.httptimeout,
        historymode: c.historymode,
        whoisdb: c.whoisdb@,
        whoisreqtimeout: c.whoisreqtimeout,
        whoiscachesecs: c.whoiscachesecs,
        whoisdnses: c.whoisdnses@,
        peermode: c.peermode,
        purge_after_withdraws: c.purge_after_withdraws,
        purge_every: c.purge_every,
    }
}

/// The fields settled before the whois server list is read from disk.
pub struct PreModel {
    pub routerid: IpV4Address,
    pub bgppeeras: u32,
    pub bgppeer: Option<SocketAddress>,
    pub protolisten: Option<SocketAddress>,
    pub bmppeer: Option<SocketAddress>,
    pub httplisten: SocketAddress,
    pub httproot: Seq<char>,
    pub historydepth: usize,
    pub httptimeout: u64,
    pub historymode: HistoryChangeMode,
    pub whoisjsonconfig: Seq<char>,
    pub whoisreqtimeout: u64,
    pub whoiscachesecs: i64,
    pub peermode: PeerMode,
    pub purge_after_withdraws: u64,
    pub purge_every: i64,
}

// ---- error messages --------------------------------------------------

pub open spec fn msg_missing_session(inifile: Seq<char>) -> Seq<char> {
    "Missing value 'session' in [main] section ini file "@ + inifile
}

pub open spec fn msg_missing_named_section(name: Seq<char>) -> Seq<char> {
    "Missing section '"@ + name + "' in ini file"@
}

pub open spec fn msg_missing_mode(session: Seq<char>, inifile: Seq<char>) -> Seq<char> {
    "Missing value 'mode' in ["@ + session + "] section ini file "@ + inifile
}

// ---- per-field extraction, as spec functions -------------------------

/// The name of the session section: `main` must exist, hold a `session`
/// value, and the section of that name must exist.
pub open spec fn spec_session(s: RawSettings, inifile: Seq<char>) -> Result<Seq<char>, Seq<char>> {
    match find_section(s.sections@, "main"@) {
        None => Err("Missing section 'main' in ini file"@),
        Some(main) => match find_entry(main.entries@, "session"@) {
            None => Err(msg_missing_session(inifile)),
            Some(None) => Err("No session specified"@),
            Some(Some(v)) => if find_section(s.sections@, v) is Some {
                Ok(v)
            } else {
                Err(msg_missing_named_section(v))
            },
        },
    }
}

/// The section named by `main.session`, once `spec_session` succeeded.
pub open spec fn spec_svc_section(s: RawSettings, inifile: Seq<char>) -> IniSection {
    find_section(s.sections@, spec_session(s, inifile)->Ok_0)->Some_0
}

/// The `main` section, once `spec_session` succeeded.
pub open spec fn spec_main_section(s: RawSettings) -> IniSection {
    find_section(s.sections@, "main"@)->Some_0
}

/// The peer mode: the session section must hold a `mode` value from the
/// fixed vocabulary.
pub open spec fn spec_mode(s: RawSettings, session: Seq<char>, inifile: Seq<char>) -> Result<
    PeerMode,
    Seq<char>,
> {
    let svc = find_section(s.sections@, session)->Some_0;
    match find_entry(svc.entries@, "mode"@) {
        None => Err(msg_missing_mode(session, inifile)),
        Some(None) => Err("No mode (bgpactive|bgppassive|bmpactive|bmppassive) specified"@),
        Some(Some(v)) => PeerMode::spec_from_str(v),
    }
}

/// A peer endpoint: a full `address:port` literal, or a bare address with
/// the field's default port; absence is fatal exactly when the mode
/// requires the field.
pub open spec fn spec_peer_addr(
    look: Option<Option<Seq<char>>>,
    required: bool,
    defport: u16,
    missing: Seq<char>,
    invalid: Seq<char>,
) -> Result<Option<SocketAddress>, Seq<char>> {
    match look {
        None => if required {
            Err(missing)
        } else {
            Ok(None)
        },
        Some(None) => Err(invalid),
        Some(Some(v)) => match spec_parse_sockaddr(v) {
            Some(sa) => Ok(Some(sa)),
            None => match spec_parse_ip(v) {
                Some(ip) => Ok(Some(SocketAddress { ip, port: defport })),
                None => Err(invalid),
            },
        },
    }
}

/// The protocol listener: like a peer endpoint with default port 179,
/// except that a value that is neither a socket address nor a bare
/// address falls back to listening on every interface instead of failing.
pub open spec fn spec_protolisten(look: Option<Option<Seq<char>>>, required: bool) -> Result<
    Option<SocketAddress>,
    Seq<char>,
> {
    match look {
        None => if required {
            Err("protolisten was not specified"@)
        } else {
            Ok(None)
        },
        Some(None) => Err("invalid protolisten was specified"@),
        Some(Some(v)) => match spec_parse_sockaddr(v) {
            Some(sa) => Ok(Some(sa)),
            None => match spec_parse_ip(v) {
                Some(ip) => Ok(Some(SocketAddress { ip, port: 179 })),
                None => Ok(
                    Some(
                        SocketAddress {
                            ip: IpAddress::V4(IpV4Address { a: 0, b: 0, c: 0, d: 0 }),
                            port: 179,
                        },
                    ),
                ),
            },
        },
    }
}

/// The router identifier: an IPv4 literal, defaulting to 1.1.1.1.
pub open spec fn spec_routerid(look: Option<Option<Seq<char>>>) -> Result<IpV4Address, Seq<char>> {
    match look {
        None => Ok(IpV4Address { a: 1, b: 1, c: 1, d: 1 }),
        Some(None) => Err("invalid routerid was specified"@),
        Some(Some(v)) => match spec_parse_ipv4(v) {
            Some(ip) => Ok(ip),
            None => Err("Invalid routerid - invalid IPv4 address"@),
        },
    }
}

/// An unsigned 32-bit field whose parse failure is fatal.
pub open spec fn spec_u32_fatal(
    look: Option<Option<Seq<char>>>,
    default: u32,
    invalid: Seq<char>,
    parse_err: Seq<char>,
) -> Result<u32, Seq<char>> {
    match look {
        None => Ok(default),
        Some(None) => Err(invalid),
        Some(Some(v)) => match spec_parse_u32(v) {
            Some(x) => Ok(x),
            None => Err(parse_err),
        },
    }
}

/// An unsigned 64-bit field whose parse failure is fatal.
pub open spec fn spec_u64_fatal(
    look: Option<Option<Seq<char>>>,
    default: u64,
    invalid: Seq<char>,
    parse_err: Seq<char>,
) -> Result<u64, Seq<char>> {
    match look {
        None => Ok(default),
        Some(None) => Err(invalid),
        Some(Some(v)) => match spec_parse_u64(v) {
            Some(x) => Ok(x),
            None => Err(parse_err),
        },
    }
}

/// A word-sized count field whose parse failure is fatal.
pub open spec fn spec_usize_fatal(
    look: Option<Option<Seq<char>>>,
    default: usize,
    invalid: Seq<char>,
    parse_err: Seq<char>,
) -> Result<usize, Seq<char>> {
    match look {
        None => Ok(default),
        Some(None) => Err(invalid),
        Some(Some(v)) => match spec_parse_usize(v) {
            Some(x) => Ok(x),
            None => Err(parse_err),
        },
    }
}

/// A signed 64-bit field whose parse failure is fatal.
pub open spec fn spec_i64_fatal(
    look: Option<Option<Seq<char>>>,
    default: i64,
    invalid: Seq<char>,
    parse_err: Seq<char>,
) -> Result<i64, Seq<char>> {
    match look {
        None => Ok(default),
        Some(None) => Err(invalid),
        Some(Some(v)) => match spec_parse_i64(v) {
            Some(x) => Ok(x),
            None => Err(parse_err),
        },
    }
}

/// An unsigned 64-bit field that silently falls back to its default when
/// the value does not parse.
pub open spec fn spec_u64_silent(look: Option<Option<Seq<char>>>, default: u64) -> u64 {
    match look {
        Some(Some(v)) => match spec_parse_u64(v) {
            Some(x) => x,
            None => default,
        },
        _ => default,
    }
}

/// A signed 64-bit field that silently falls back to its default when the
/// value does not parse.
pub open spec fn spec_i64_silent(look: Option<Option<Seq<char>>>, default: i64) -> i64 {
    match look {
        Some(Some(v)) => match spec_parse_i64(v) {
            Some(x) => x,
            None => default,
        },
        _ => default,
    }
}

/// A free-form string field that falls back to its default when absent or
/// valueless.
pub open spec fn spec_string_soft(look: Option<Option<Seq<char>>>, default: Seq<char>) -> Seq<
    char,
> {
    match look {
        Some(Some(v)) => v,
        _ => default,
    }
}

/// The HTTP listener: an `address:port` literal, defaulting wholesale to
/// 0.0.0.0:8080 when absent or valueless; no bare-address fallback.
pub open spec fn spec_httplisten(look: Option<Option<Seq<char>>>) -> Result<
    SocketAddress,
    Seq<char>,
> {
    match look {
        Some(Some(v)) => match spec_parse_sockaddr(v) {
            Some(sa) => Ok(sa),
            None => Err("Invalid httplisten - invalid socket address"@),
        },
        _ => Ok(
            SocketAddress {
                ip: IpAddress::V4(IpV4Address { a: 0, b: 0, c: 0, d: 0 }),
                port: 8080,
            },
        ),
    }
}

/// The history mode: defaults when absent, but fails when present and
/// unrecognized.
pub open spec fn spec_historymode(look: Option<Option<Seq<char>>>) -> Result<
    HistoryChangeMode,
    Seq<char>,
> {
    match look {
        None => Ok(HistoryChangeMode::OnlyDiffer),
        Some(None) => Err("invalid historymode was specified"@),
        Some(Some(v)) => match HistoryChangeMode::spec_from_str(v) {
            Ok(m) => Ok(m),
            Err(_) => Err("Invalid historymode - invalid history mode"@),
        },
    }
}

/// The whois JSON configuration path: required, with no default.
pub open spec fn spec_whoisjson(look: Option<Option<Seq<char>>>) -> Result<Seq<char>, Seq<char>> {
    match look {
        Some(Some(v)) => Ok(v),
        _ => Err("Invalid whoisjsonconfig"@),
    }
}

/// The whois cache database path, defaulting when the key is absent but
/// failing on a valueless key.
pub open spec fn spec_whoisdb(look: Option<Option<Seq<char>>>) -> Result<Seq<char>, Seq<char>> {
    match look {
        None => Ok("whoiscache.db"@),
        Some(None) => Err("Invalid whoisdb"@),
        Some(Some(v)) => Ok(v),
    }
}

/// The single resolver substituted when the list would be empty.
pub open spec fn dns_fallback() -> Seq<SocketAddress> {
    seq![SocketAddress { ip: IpAddress::V4(IpV4Address { a: 1, b: 1, c: 1, d: 1 }), port: 53 }]
}

/// The resolvers the comma-separated entries denote, in order: each entry
/// is trimmed and read as a socket address, else as a bare address with
/// port 53; an entry that is neither is dropped.
pub open spec fn dns_entry_addrs(parts: Seq<Seq<char>>) -> Seq<SocketAddress>
    decreases parts.len(),
{
    if parts.len() == 0 {
        Seq::empty()
    } else {
        let rest = dns_entry_addrs(parts.drop_last());
        let t = trim_spec(parts.last());
        match spec_parse_sockaddr(t) {
            Some(sa) => rest + seq![sa],
            None => match spec_parse_ipv4(t) {
                Some(ip) => rest + seq![SocketAddress { ip: IpAddress::V4(ip), port: 53 }],
                None => rest,
            },
        }
    }
}

/// The resolver list a `whoisdns` value denotes.
pub open spec fn spec_dns_list(v: Seq<char>) -> Seq<SocketAddress> {
    dns_entry_addrs(split_on(v, ','))
}

/// The DNS resolver list: never empty; invalid entries are dropped, and
/// an absent key or an empty result falls back to one fixed resolver.
pub open spec fn spec_whoisdns(look: Option<Option<Seq<char>>>) -> Result<
    Seq<SocketAddress>,
    Seq<char>,
> {
    match look {
        None => Ok(dns_fallback()),
        Some(None) => Err("Invalid whoisdns"@),
        Some(Some(v)) => {
            let l = spec_dns_list(v);
            if l.len() == 0 {
                Ok(dns_fallback())
            } else {
                Ok(l)
            }
        },
    }
}

// ---- the load, as one ghost model -------------------------------------

/// Everything the load settles before reading the whois server list, in
/// the order the loader evaluates it: the first stage to fail gives the
/// load's single error.
pub open spec fn spec_pre(s: RawSettings, inifile: Seq<char>) -> Result<PreModel, Seq<char>> {
    let session = spec_session(s, inifile);
    if session is Err {
        Err(session->Err_0)
    } else {
        let sname = session->Ok_0;
        let mode = spec_mode(s, sname, inifile);
        if mode is Err {
            Err(mode->Err_0)
        } else {
            let m = mode->Ok_0;
            let svc = spec_svc_section(s, inifile);
            let main = spec_main_section(s);
            let bgppeer = spec_peer_addr(
                find_entry(svc.entries@, "bgppeer"@),
                m == PeerMode::BgpActive,
                179,
                "bgppeer was not specified"@,
                "invalid bgppeer was specified"@,
            );
            let bmppeer = spec_peer_addr(
                find_entry(svc.entries@, "bmppeer"@),
                m == PeerMode::BmpActive,
                632,
                "bmppeer was not specified"@,
                "invalid bmppeer was specified"@,
            );
            let protolisten = spec_protolisten(
                find_entry(svc.entries@, "protolisten"@),
                m == PeerMode::BmpPassive || m == PeerMode::BgpPassive,
            );
            let routerid = spec_routerid(find_entry(svc.entries@, "routerid"@));
            let peeras = spec_u32_fatal(
                find_entry(svc.entries@, "peeras"@),
                0,
                "invalid bgppeeras was specified"@,
                "Invalid bgp peer as - invalid integer"@,
            );
            let httplisten = spec_httplisten(find_entry(main.entries@, "httplisten"@));
            let historydepth = spec_usize_fatal(
                find_entry(main.entries@, "historydepth"@),
                10,
                "invalid historydepth was specified"@,
                "Invalid historydepth - invalid integer"@,
            );
            let historymode = spec_historymode(find_entry(main.entries@, "historymode"@));
            let purge_after = spec_u64_fatal(
                find_entry(main.entries@, "purge_after_withdraws"@),
                0,
                "invalid purge_after_withdraws was specified"@,
                "Invalid purge_after_withdraws - invalid integer"@,
            );
            let purge_every = spec_i64_fatal(
                find_entry(main.entries@, "purge_every"@),
                300,
                "invalid purge_every was specified"@,
                "Invalid purge_every - invalid integer"@,
            );
            let whoisjson = spec_whoisjson(find_entry(main.entries@, "whoisjsonconfig"@));
            if bgppeer is Err {
                Err(bgppeer->Err_0)
            } else if bmppeer is Err {
                Err(bmppeer->Err_0)
            } else if protolisten is Err {
                Err(protolisten->Err_0)
            } else if routerid is Err {
                Err(routerid->Err_0)
            } else if peeras is Err {
                Err(peeras->Err_0)
            } else if httplisten is Err {
                Err(httplisten->Err_0)
            } else if historydepth is Err {
                Err(historydepth->Err_0)
            } else if historymode is Err {
                Err(historymode->Err_0)
            } else if purge_after is Err {
                Err(purge_after->Err_0)
            } else if purge_every is Err {
                Err(purge_every->Err_0)
            } else if whoisjson is Err {
                Err(whoisjson->Err_0)
            } else {
                Ok(
                    PreModel {
                        routerid: routerid->Ok_0,
                        bgppeeras: peeras->Ok_0,
                        bgppeer: bgppeer->Ok_0,
                        protolisten: protolisten->Ok_0,
                        bmppeer: bmppeer->Ok_0,
                        httplisten: httplisten->Ok_0,
                        httproot: spec_string_soft(
                            find_entry(main.entries@, "httproot"@),
                            "./contrib"@,
                        ),
                        historydepth: historydepth->Ok_0,
                        httptimeout: spec_u64_silent(
                            find_entry(main.entries@, "httptimeout"@),
                            120,
                        ),
                        historymode: historymode->Ok_0,
                        whoisjsonconfig: whoisjson->Ok_0,
                        whoisreqtimeout: spec_u64_silent(
                            find_entry(main.entries@, "whois_request_timeout"@),
                            30,
                        ),
                        whoiscachesecs: spec_i64_silent(
                            find_entry(main.entries@, "whois_cache_seconds"@),
                            1800,
                        ),
                        peermode: m,
                        purge_after_withdraws: purge_after->Ok_0,
                        purge_every: purge_every->Ok_0,
                    },
                )
            }
        }
    }
}

/// The stages after the whois server list: the cache database path and
/// the resolver list, then the assembled configuration.
pub open spec fn spec_finish(s: RawSettings, p: PreModel) -> Result<CfgModel, Seq<char>> {
    let main = spec_main_section(s);
    let db = spec_whoisdb(find_entry(main.entries@, "whoisdb"@));
    let dns = spec_whoisdns(find_entry(main.entries@, "whoisdns"@));
    if db is Err {
        Err(db->Err_0)
    } else if dns is Err {
        Err(dns->Err_0)
    } else {
        Ok(
            CfgModel {
                routerid: p.routerid,
                bgppeeras: p.bgppeeras,
                bgppeer: p.bgppeer,
                protolisten: p.protolisten,
                bmppeer: p.bmppeer,
                httplisten: p.httplisten,
                httproot: p.httproot,
                historydepth: p.historydepth,
                httptimeout: p.httptimeout,
                historymode: p.historymode,
                whoisdb: db->Ok_0,
                whoisreqtimeout: p.whoisreqtimeout,
                whoiscachesecs: p.whoiscachesecs,
                whoisdnses: dns->Ok_0,
                peermode: p.peermode,
                purge_after_withdraws: p.purge_after_withdraws,
                purge_every: p.purge_every,
            },
        )
    }
}

/// The whole load: what one settings file deterministically yields —
/// every field of the configuration, or the message of the single error
/// that aborts the load.
pub open spec fn spec_load(s: RawSettings, inifile: Seq<char>) -> Result<CfgModel, Seq<char>> {
    match spec_pre(s, inifile) {
        Err(e) => Err(e),
        Ok(p) => spec_finish(s, p),
    }
}

// ---- per-field extraction, as executable code -------------------------

fn extract_peer_addr(
    svc: &IniSection,
    key: &str,
    required: bool,
    defport: u16,
    missing: &'static str,
    invalid: &'static str,
) -> (r: Result<Option<SocketAddress>, ErrorConfig>)
    ensures
        match r {
            Ok(v) => spec_peer_addr(find_entry(svc.entries@, key@), required, defport, missing@, invalid@)
                == Ok::<Option<SocketAddress>, Seq<char>>(v),
            Err(e) => spec_peer_addr(find_entry(svc.entries@, key@), required, defport, missing@, invalid@)
                == Err::<Option<SocketAddress>, Seq<char>>(e@),
        },
{
    match svc.get(key) {
        None => if required {
            Err(ErrorConfig::from_str(missing))
        } else {
            Ok(None)
        },
        Some(None) => Err(ErrorConfig::from_str(invalid)),
        Some(Some(v)) => match parse_sockaddr(v.as_str()) {
            Some(sa) => Ok(Some(sa)),
            None => match parse_ip(v.as_str()) {
                Some(ip) => Ok(Some(SocketAddress { ip, port: defport })),
                None => Err(ErrorConfig::from_str(invalid)),
            },
        },
    }
}

fn extract_protolisten(svc: &IniSection, required: bool) -> (r: Result<
    Option<SocketAddress>,
    ErrorConfig,
>)
    ensures
        match r {
            Ok(v) => spec_protolisten(find_entry(svc.entries@, "protolisten"@), required)
                == Ok::<Option<SocketAddress>, Seq<char>>(v),
            Err(e) => spec_protolisten(find_entry(svc.entries@, "protolisten"@), required)
                == Err::<Option<SocketAddress>, Seq<char>>(e@),
        },
{
    match svc.get("protolisten") {
        None => if required {
            Err(ErrorConfig::from_str("protolisten was not specified"))
        } else {
            Ok(None)
        },
        Some(None) => Err(ErrorConfig::from_str("invalid protolisten was specified")),
        Some(Some(v)) => match parse_sockaddr(v.as_str()) {
            Some(sa) => Ok(Some(sa)),
            None => match parse_ip(v.as_str()) {
                Some(ip) => Ok(Some(SocketAddress { ip, port: 179 })),
                None => Ok(
                    Some(
                        SocketAddress {
                            ip: IpAddress::V4(IpV4Address { a: 0, b: 0, c: 0, d: 0 }),
                            port: 179,
                        },
                    ),
                ),
            },
        },
    }
}

fn extract_routerid(svc: &IniSection) -> (r: Result<IpV4Address, ErrorConfig>)
    ensures
        match r {
            Ok(v) => spec_routerid(find_entry(svc.entries@, "routerid"@)) == Ok::<
                IpV4Address,
                Seq<char>,
            >(v),
            Err(e) => spec_routerid(find_entry(svc.entries@, "routerid"@)) == Err::<
                IpV4Address,
                Seq<char>,
            >(e@),
        },
{
    match svc.get("routerid") {
        None => Ok(IpV4Address { a: 1, b: 1, c: 1, d: 1 }),
        Some(None) => Err(ErrorConfig::from_str("invalid routerid was specified")),
        Some(Some(v)) => match parse_ipv4(v.as_str()) {
            Some(ip) => Ok(ip),
            None => Err(ErrorConfig::from_str("Invalid routerid - invalid IPv4 address")),
        },
    }
}

fn extract_u32_fatal(
    sec: &IniSection,
    key: &str,
    default: u32,
    invalid: &'static str,
    parse_err: &'static str,
) -> (r: Result<u32, ErrorConfig>)
    ensures
        match r {
            Ok(v) => spec_u32_fatal(find_entry(sec.entries@, key@), default, invalid@, parse_err@)
                == Ok::<u32, Seq<char>>(v),
            Err(e) => spec_u32_fatal(find_entry(sec.entries@, key@), default, invalid@, parse_err@)
                == Err::<u32, Seq<char>>(e@),
        },
{
    match sec.get(key) {
        None => Ok(default),
        Some(None) => Err(ErrorConfig::from_str(invalid)),
        Some(Some(v)) => match parse_u32(v.as_str()) {
            Some(x) => Ok(x),
            None => Err(ErrorConfig::from_str(parse_err)),
        },
    }
}

fn extract_u64_fatal(
    sec: &IniSection,
    key: &str,
    default: u64,
    invalid: &'static str,
    parse_err: &'static str,
) -> (r: Result<u64, ErrorConfig>)
    ensures
        match r {
            Ok(v) => spec_u64_fatal(find_entry(sec.entries@, key@), default, invalid@, parse_err@)
                == Ok::<u64, Seq<char>>(v),
            Err(e) => spec_u64_fatal(find_entry(sec.entries@, key@), default, invalid@, parse_err@)
                == Err::<u64, Seq<char>>(e@),
        },
{
    match sec.get(key) {
        None => Ok(default),
        Some(None) => Err(ErrorConfig::from_str(invalid)),
        Some(Some(v)) => match parse_u64(v.as_str()) {
            Some(x) => Ok(x),
            None => Err(ErrorConfig::from_str(parse_err)),
        },
    }
}

fn extract_usize_fatal(
    sec: &IniSection,
    key: &str,
    default: usize,
    invalid: &'static str,
    parse_err: &'static str,
) -> (r: Result<usize, ErrorConfig>)
    ensures
        match r {
            Ok(v) => spec_usize_fatal(find_entry(sec.entries@, key@), default, invalid@, parse_err@)
                == Ok::<usize, Seq<char>>(v),
            Err(e) => spec_usize_fatal(find_entry(sec.entries@, key@), default, invalid@, parse_err@)
                == Err::<usize, Seq<char>>(e@),
        },
{
    match sec.get(key) {
        None => Ok(default),
        Some(None) => Err(ErrorConfig::from_str(invalid)),
        Some(Some(v)) => match parse_usize(v.as_str()) {
            Some(x) => Ok(x),
            None => Err(ErrorConfig::from_str(parse_err)),
        },
    }
}

fn extract_i64_fatal(
    sec: &IniSection,
    key: &str,
    default: i64,
    invalid: &'static str,
    parse_err: &'static str,
) -> (r: Result<i64, ErrorConfig>)
    ensures
        match r {
            Ok(v) => spec_i64_fatal(find_entry(sec.entries@, key@), default, invalid@, parse_err@)
                == Ok::<i64, Seq<char>>(v),
            Err(e) => spec_i64_fatal(find_entry(sec.entries@, key@), default, invalid@, parse_err@)
                == Err::<i64, Seq<char>>(e@),
        },
{
    match sec.get(key) {
        None => Ok(default),
        Some(None) => Err(ErrorConfig::from_str(invalid)),
        Some(Some(v)) => match parse_i64(v.as_str()) {
            Some(x) => Ok(x),
            None => Err(ErrorConfig::from_str(parse_err)),
        },
    }
}

fn extract_u64_silent(sec: &IniSection, key: &str, default: u64) -> (r: u64)
    ensures
        r == spec_u64_silent(find_entry(sec.entries@, key@), default),
{
    match sec.get(key) {
        Some(Some(v)) => match parse_u64(v.as_str()) {
            Some(x) => x,
            None => default,
        },
        _ => default,
    }
}

fn extract_i64_silent(sec: &IniSection, key: &str, default: i64) -> (r: i64)
    ensures
        r == spec_i64_silent(find_entry(sec.entries@, key@), default),
{
    match sec.get(key) {
        Some(Some(v)) => match parse_i64(v.as_str()) {
            Some(x) => x,
            None => default,
        },
        _ => default,
    }
}

fn extract_string_soft(sec: &IniSection, key: &str, default: &'static str) -> (r: String)
    ensures
        r@ == spec_string_soft(find_entry(sec.entries@, key@), default@),
{
    match sec.get(key) {
        Some(Some(v)) => v,
        _ => default.to_owned(),
    }
}

fn extract_httplisten(main: &IniSection) -> (r: Result<SocketAddress, ErrorConfig>)
    ensures
        match r {
            Ok(v) => spec_httplisten(find_entry(main.entries@, "httplisten"@)) == Ok::<
                SocketAddress,
                Seq<char>,
            >(v),
            Err(e) => spec_httplisten(find_entry(main.entries@, "httplisten"@)) == Err::<
                SocketAddress,
                Seq<char>,
            >(e@),
        },
{
    match main.get("httplisten") {
        Some(Some(v)) => match parse_sockaddr(v.as_str()) {
            Some(sa) => Ok(sa),
            None => Err(ErrorConfig::from_str("Invalid httplisten - invalid socket address")),
        },
        _ => Ok(
            SocketAddress {
                ip: IpAddress::V4(IpV4Address { a: 0, b: 0, c: 0, d: 0 }),
                port: 8080,
            },
        ),
    }
}

fn extract_historymode(main: &IniSection) -> (r: Result<HistoryChangeMode, ErrorConfig>)
    ensures
        match r {
            Ok(v) => spec_historymode(find_entry(main.entries@, "historymode"@)) == Ok::<
                HistoryChangeMode,
                Seq<char>,
            >(v),
            Err(e) => spec_historymode(find_entry(main.entries@, "historymode"@)) == Err::<
                HistoryChangeMode,
                Seq<char>,
            >(e@),
        },
{
    match main.get("historymode") {
        None => Ok(HistoryChangeMode::OnlyDiffer),
        Some(None) => Err(ErrorConfig::from_str("invalid historymode was specified")),
        Some(Some(v)) => match HistoryChangeMode::from_str(v.as_str()) {
            Ok(m) => Ok(m),
            Err(_) => Err(ErrorConfig::from_str("Invalid historymode - invalid history mode")),
        },
    }
}

fn extract_whoisjson(main: &IniSection) -> (r: Result<String, ErrorConfig>)
    ensures
        match r {
            Ok(v) => spec_whoisjson(find_entry(main.entries@, "whoisjsonconfig"@)) == Ok::<
                Seq<char>,
                Seq<char>,
            >(v@),
            Err(e) => spec_whoisjson(find_entry(main.entries@, "whoisjsonconfig"@)) == Err::<
                Seq<char>,
                Seq<char>,
            >(e@),
        },
{
    match main.get("whoisjsonconfig") {
        Some(Some(v)) => Ok(v),
        _ => Err(ErrorConfig::from_str("Invalid whoisjsonconfig")),
    }
}

fn extract_whoisdb(main: &IniSection) -> (r: Result<String, ErrorConfig>)
    ensures
        match r {
            Ok(v) => spec_whoisdb(find_entry(main.entries@, "whoisdb"@)) == Ok::<
                Seq<char>,
                Seq<char>,
            >(v@),
            Err(e) => spec_whoisdb(find_entry(main.entries@, "whoisdb"@)) == Err::<
                Seq<char>,
                Seq<char>,
            >(e@),
        },
{
    match main.get("whoisdb") {
        None => Ok("whoiscache.db".to_owned()),
        Some(None) => Err(ErrorConfig::from_str("Invalid whoisdb")),
        Some(Some(v)) => Ok(v),
    }
}

fn extract_dnses(main: &IniSection) -> (r: Result<Vec<SocketAddress>, ErrorConfig>)
    ensures
        match r {
            Ok(v) => spec_whoisdns(find_entry(main.entries@, "whoisdns"@)) == Ok::<
                Seq<SocketAddress>,
                Seq<char>,
            >(v@),
            Err(e) => spec_whoisdns(find_entry(main.entries@, "whoisdns"@)) == Err::<
                Seq<SocketAddress>,
                Seq<char>,
            >(e@),
        },
{
    match main.get("whoisdns") {
        None => {
            let mut out: Vec<SocketAddress> = Vec::new();
            out.push(
                SocketAddress { ip: IpAddress::V4(IpV4Address { a: 1, b: 1, c: 1, d: 1 }), port: 53 },
            );
            proof {
                assert(out@ =~= dns_fallback());
            }
            Ok(out)
        },
        Some(None) => Err(ErrorConfig::from_str("Invalid whoisdns")),
        Some(Some(v)) => {
            let parts = split_str(v.as_str(), ',');
            let ghost pv = split_on(v@, ',');
            let mut out: Vec<SocketAddress> = Vec::new();
            let mut i: usize = 0;
            let n = parts.len();
            proof {
                assert(out@ =~= dns_entry_addrs(pv.subrange(0, 0)));
            }
            while i < n
                invariant
                    i <= n,
                    n == parts@.len(),
                    parts@.map_values(|t: String| t@) == pv,
                    out@ == dns_entry_addrs(pv.subrange(0, i as int)),
                decreases n - i,
            {
                proof {
                    assert(parts@.map_values(|t: String| t@)[i as int] == pv[i as int]);
                }
                let t = trim_str(parts[i].as_str());
                match parse_sockaddr(t.as_str()) {
                    Some(sa) => out.push(sa),
                    None => match parse_ipv4(t.as_str()) {
                        Some(ip) => out.push(SocketAddress { ip: IpAddress::V4(ip), port: 53 }),
                        None => {},
                    },
                }
                proof {
                    let pre1 = pv.subrange(0, i + 1);
                    assert(pre1.drop_last() =~= pv.subrange(0, i as int));
                    assert(pre1.last() == pv[i as int]);
                    assert(out@ =~= dns_entry_addrs(pre1));
                }
                i = i + 1;
            }
            proof {
                assert(pv.subrange(0, n as int) =~= pv);
            }
            if out.len() == 0 {
                out.push(
                    SocketAddress {
                        ip: IpAddress::V4(IpV4Address { a: 1, b: 1, c: 1, d: 1 }),
                        port: 53,
                    },
                );
                proof {
                    assert(out@ =~= dns_fallback());
                }
            }
            Ok(out)
        },
    }
}

// ---- assembly ----------------------------------------------------------

/// The fields settled before the whois server list is read, as values.
struct PreCfg {
    routerid: IpV4Address,
    bgppeeras: u32,
    bgppeer: Option<SocketAddress>,
    protolisten: Option<SocketAddress>,
    bmppeer: Option<SocketAddress>,
    httplisten: SocketAddress,
    httproot: String,
    historydepth: usize,
    httptimeout: u64,
    historymode: HistoryChangeMode,
    whoisjsonconfig: String,
    whoisreqtimeout: u64,
    whoiscachesecs: i64,
    peermode: PeerMode,
    purge_after_withdraws: u64,
    purge_every: i64,
}

spec fn pre_model(p: PreCfg) -> PreModel {
    PreModel {
        routerid: p.routerid,
        bgppeeras: p.bgppeeras,
        bgppeer: p.bgppeer,
        protolisten: p.protolisten,
        bmppeer: p.bmppeer,
        httplisten: p.httplisten,
        httproot: p.httproot@,
        historydepth: p.historydepth,
        httptimeout: p.httptimeout,
        historymode: p.historymode,
        whoisjsonconfig: p.whoisjsonconfig@,
        whoisreqtimeout: p.whoisreqtimeout,
        whoiscachesecs: p.whoiscachesecs,
        peermode: p.peermode,
        purge_after_withdraws: p.purge_after_withdraws,
        purge_every: p.purge_every,
    }
}

fn pre_extract(settings: &RawSettings, inifile: &str) -> (r: Result<PreCfg, ErrorConfig>)
    ensures
        match r {
            Ok(p) => spec_pre(*settings, inifile@) == Ok::<PreModel, Seq<char>>(pre_model(p)),
            Err(e) => spec_pre(*settings, inifile@) == Err::<PreModel, Seq<char>>(e@),
        },
{
    let main = match settings.section("main") {
        None => {
            return Err(ErrorConfig::from_str("Missing section 'main' in ini file"));
        },
        Some(m) => m,
    };
    let session: String = match main.get("session") {
        None => {
            let mut m = String::from_str("Missing value 'session' in [main] section ini file ");
            m.append(inifile);
            return Err(ErrorConfig::from_string(m));
        },
        Some(None) => {
            return Err(ErrorConfig::from_str("No session specified"));
        },
        Some(Some(v)) => v,
    };
    let svc = match settings.section(session.as_str()) {
        None => {
            let mut m = String::from_str("Missing section '");
            m.append(session.as_str());
            m.append("' in ini file");
            return Err(ErrorConfig::from_string(m));
        },
        Some(sec) => sec,
    };
    let modev: String = match svc.get("mode") {
        None => {
            let mut m = String::from_str("Missing value 'mode' in [");
            m.append(session.as_str());
            m.append("] section ini file ");
            m.append(inifile);
            return Err(ErrorConfig::from_string(m));
        },
        Some(None) => {
            return Err(
                ErrorConfig::from_str("No mode (bgpactive|bgppassive|bmpactive|bmppassive) specified"),
            );
        },
        Some(Some(v)) => v,
    };
    let peermode = match PeerMode::from_str(modev.as_str()) {
        Err(e) => {
            return Err(e);
        },
        Ok(m) => m,
    };
    let bgppeer = match extract_peer_addr(
        svc,
        "bgppeer",
        peermode == PeerMode::BgpActive,
        179,
        "bgppeer was not specified",
        "invalid bgppeer was specified",
    ) {
        Err(e) => {
            return Err(e);
        },
        Ok(v) => v,
    };
    let bmppeer = match extract_peer_addr(
        svc,
        "bmppeer",
        peermode == PeerMode::BmpActive,
        632,
        "bmppeer was not specified",
        "invalid bmppeer was specified",
    ) {
        Err(e) => {
            return Err(e);
        },
        Ok(v) => v,
    };
    let protolisten = match extract_protolisten(
        svc,
        peermode == PeerMode::BmpPassive || peermode == PeerMode::BgpPassive,
    ) {
        Err(e) => {
            return Err(e);
        },
        Ok(v) => v,
    };
    let routerid = match extract_routerid(svc) {
        Err(e) => {
            return Err(e);
        },
        Ok(v) => v,
    };
    let bgppeeras = match extract_u32_fatal(
        svc,
        "peeras",
        0,
        "invalid bgppeeras was specified",
        "Invalid bgp peer as - invalid integer",
    ) {
        Err(e) => {
            return Err(e);
        },
        Ok(v) => v,
    };
    let httplisten = match extract_httplisten(main) {
        Err(e) => {
            return Err(e);
        },
        Ok(v) => v,
    };
    let httptimeout = extract_u64_silent(main, "httptimeout", 120);
    let httproot = extract_string_soft(main, "httproot", "./contrib");
    let historydepth = match extract_usize_fatal(
        main,
        "historydepth",
        10,
        "invalid historydepth was specified",
        "Invalid historydepth - invalid integer",
    ) {
        Err(e) => {
            return Err(e);
        },
        Ok(v) => v,
    };
    let historymode = match extract_historymode(main) {
        Err(e) => {
            return Err(e);
        },
        Ok(v) => v,
    };
    let purge_after_withdraws = match extract_u64_fatal(
        main,
        "purge_after_withdraws",
        0,
        "invalid purge_after_withdraws was specified",
        "Invalid purge_after_withdraws - invalid integer",
    ) {
        Err(e) => {
            return Err(e);
        },
        Ok(v) => v,
    };
    let purge_every = match extract_i64_fatal(
        main,
        "purge_every",
        300,
        "invalid purge_every was specified",
        "Invalid purge_every - invalid integer",
    ) {
        Err(e) => {
            return Err(e);
        },
        Ok(v) => v,
    };
    let whoisreqtimeout = extract_u64_silent(main, "whois_request_timeout", 30);
    let whoiscachesecs = extract_i64_silent(main, "whois_cache_seconds", 1800);
    let whoisjsonconfig = match extract_whoisjson(main) {
        Err(e) => {
            return Err(e);
        },
        Ok(v) => v,
    };
    Ok(
        PreCfg {
            routerid,
            bgppeeras,
            bgppeer,
            protolisten,
            bmppeer,
            httplisten,
            httproot,
            historydepth,
            httptimeout,
            historymode,
            whoisjsonconfig,
            whoisreqtimeout,
            whoiscachesecs,
            peermode,
            purge_after_withdraws,
            purge_every,
        },
    )
}

fn finish(settings: &RawSettings, p: PreCfg, whoisconfig: whois_rust::WhoIs) -> (r: Result<
    SvcConfig,
    ErrorConfig,
>)
    requires
        find_section(settings.sections@, "main"@) is Some,
    ensures
        match r {
            Ok(c) => spec_finish(*settings, pre_model(p)) == Ok::<CfgModel, Seq<char>>(
                conf_model(c),
            ),
            Err(e) => spec_finish(*settings, pre_model(p)) == Err::<CfgModel, Seq<char>>(e@),
        },
{
    let main = match settings.section("main") {
        None => {
            return Err(ErrorConfig::from_str("Missing section 'main' in ini file"));
        },
        Some(m) => m,
    };
    let whoisdb = match extract_whoisdb(main) {
        Err(e) => {
            return Err(e);
        },
        Ok(v) => v,
    };
    let whoisdnses = match extract_dnses(main) {
        Err(e) => {
            return Err(e);
        },
        Ok(v) => v,
    };
    Ok(
        SvcConfig {
            routerid: p.routerid,
            bgppeeras: p.bgppeeras,
            bgppeer: p.bgppeer,
            protolisten: p.protolisten,
            bmppeer: p.bmppeer,
            httplisten: p.httplisten,
            httproot: p.httproot,
            historydepth: p.historydepth,
            httptimeout: p.httptimeout,
            historymode: p.historymode,
            whoisconfig,
            whoisdb,
            whoisreqtimeout: p.whoisreqtimeout,
            whoiscachesecs: p.whoiscachesecs,
            whoisdnses,
            peermode: p.peermode,
            purge_after_withdraws: p.purge_after_withdraws,
            purge_every: p.purge_every,
        },
    )
}

impl SvcConfig {
    /// Load the configuration from the parsed settings, reading the whois
    /// server list from the path the settings name. Everything but that
    /// read is pinned to the ghost model `spec_load`; when the read fails,
    /// the load fails with the whois configuration error.
    pub fn from_settings(settings: &RawSettings, inifile: &str) -> (r: Result<
        SvcConfig,
        ErrorConfig,
    >)
        ensures
            r matches Ok(c) ==> spec_load(*settings, inifile@) == Ok::<CfgModel, Seq<char>>(
                conf_model(c),
            ),
            r matches Err(e) ==> spec_load(*settings, inifile@) == Err::<CfgModel, Seq<char>>(e@)
                || (e@ == "Invalid whoisjsonconfig"@ && spec_pre(*settings, inifile@) is Ok),
    {
        let p = match pre_extract(settings, inifile) {
            Err(e) => {
                return Err(e);
            },
            Ok(p) => p,
        };
        let whoisconfig = match whois_from_path(p.whoisjsonconfig.as_str()) {
            None => {
                return Err(ErrorConfig::from_str("Invalid whoisjsonconfig"));
            },
            Some(w) => w,
        };
        finish(settings, p, whoisconfig)
    }

    /// Assemble the configuration from the parsed settings and an already
    /// loaded whois handle: the fully deterministic load, returning
    /// exactly what the ghost model `spec_load` says, error for error.
    pub fn assemble_from(settings: &RawSettings, inifile: &str, whoisconfig: whois_rust::WhoIs) -> (r:
        Result<SvcConfig, ErrorConfig>)
        ensures
            match r {
                Ok(c) => spec_load(*settings, inifile@) == Ok::<CfgModel, Seq<char>>(
                    conf_model(c),
                ),
                Err(e) => spec_load(*settings, inifile@) == Err::<CfgModel, Seq<char>>(e@),
            },
    {
        match pre_extract(settings, inifile) {
            Err(e) => Err(e),
            Ok(p) => finish(settings, p, whoisconfig),
        }
    }
}

} // verus!
