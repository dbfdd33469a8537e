use bgpexplorer_config::config::{HistoryChangeMode, PeerMode, SvcConfig};
use bgpexplorer_config::errors::ErrorConfig;
use bgpexplorer_config::netaddr::{parse_ip, parse_ipv4, parse_ipv6, parse_sockaddr, IpAddress, IpV4Address, IpV6Address, SocketAddress};
use bgpexplorer_config::numparse::{parse_i64, parse_u64};
use bgpexplorer_config::settings::{IniSection, RawSettings, SettingEntry};

fn sec(name: &str, entries: &[(&str, Option<&str>)]) -> IniSection {
    IniSection {
        name: name.to_string(),
        entries: entries
            .iter()
            .map(|(k, v)| SettingEntry {
                key: k.to_string(),
                value: v.map(|s| s.to_string()),
            })
            .collect(),
    }
}

fn whois() -> whois_rust::WhoIs {
    whois_rust::WhoIs::from_host("whois.arin.net").unwrap()
}

fn settings(main: &[(&str, Option<&str>)], session: &[(&str, Option<&str>)]) -> RawSettings {
    let mut m: Vec<(&str, Option<&str>)> =
        vec![("session", Some("s1")), ("whoisjsonconfig", Some("whois.json"))];
    m.extend_from_slice(main);
    RawSettings {
        sections: vec![sec("main", &m), sec("s1", session)],
    }
}

fn load(main: &[(&str, Option<&str>)], session: &[(&str, Option<&str>)]) -> Result<SvcConfig, ErrorConfig> {
    SvcConfig::assemble_from(&settings(main, session), "test.ini", whois())
}

fn sa(a: u8, b: u8, c: u8, d: u8, port: u16) -> SocketAddress {
    SocketAddress {
        ip: IpAddress::V4(IpV4Address { a, b, c, d }),
        port,
    }
}

fn v6(s0: u16, s1: u16, s2: u16, s3: u16, s4: u16, s5: u16, s6: u16, s7: u16) -> IpV6Address {
    IpV6Address { s0, s1, s2, s3, s4, s5, s6, s7 }
}

// ---- each peer mode's required endpoint ----

#[test]
fn bgpactive_minimal_loads() {
    let cfg = load(&[], &[("mode", Some("bgpactive")), ("bgppeer", Some("10.0.0.1"))]).unwrap();
    assert_eq!(cfg.peermode, PeerMode::BgpActive);
    assert_eq!(cfg.bgppeer, Some(sa(10, 0, 0, 1, 179)));
    assert_eq!(cfg.bmppeer, None);
    assert_eq!(cfg.protolisten, None);
}

#[test]
fn bgpactive_missing_bgppeer_fails() {
    let e = load(&[], &[("mode", Some("bgpactive"))]).unwrap_err();
    assert_eq!(e.message(), "bgppeer was not specified");
}

#[test]
fn bgppassive_minimal_loads() {
    let cfg = load(&[], &[("mode", Some("bgppassive")), ("protolisten", Some("0.0.0.0:179"))])
        .unwrap();
    assert_eq!(cfg.peermode, PeerMode::BgpPassive);
    assert_eq!(cfg.protolisten, Some(sa(0, 0, 0, 0, 179)));
}

#[test]
fn bgppassive_missing_protolisten_fails() {
    let e = load(&[], &[("mode", Some("bgppassive"))]).unwrap_err();
    assert_eq!(e.message(), "protolisten was not specified");
}

#[test]
fn bmpactive_minimal_loads() {
    let cfg = load(&[], &[("mode", Some("bmpactive")), ("bmppeer", Some("10.0.0.1"))]).unwrap();
    assert_eq!(cfg.peermode, PeerMode::BmpActive);
    assert_eq!(cfg.bmppeer, Some(sa(10, 0, 0, 1, 632)));
}

#[test]
fn bmpactive_missing_bmppeer_fails() {
    let e = load(&[], &[("mode", Some("bmpactive"))]).unwrap_err();
    assert_eq!(e.message(), "bmppeer was not specified");
}

#[test]
fn bmppassive_minimal_loads() {
    let cfg = load(&[], &[("mode", Some("bmppassive")), ("protolisten", Some("10.1.1.1:632"))])
        .unwrap();
    assert_eq!(cfg.peermode, PeerMode::BmpPassive);
    assert_eq!(cfg.protolisten, Some(sa(10, 1, 1, 1, 632)));
}

#[test]
fn bmppassive_missing_protolisten_fails() {
    let e = load(&[], &[("mode", Some("bmppassive"))]).unwrap_err();
    assert_eq!(e.message(), "protolisten was not specified");
}

// ---- bare-address default ports ----

#[test]
fn bare_bgppeer_gets_port_179() {
    let cfg = load(&[], &[("mode", Some("bgpactive")), ("bgppeer", Some("10.0.0.1"))]).unwrap();
    assert_eq!(cfg.bgppeer.unwrap().port, 179);
}

#[test]
fn bare_bmppeer_gets_port_632() {
    let cfg = load(&[], &[("mode", Some("bmpactive")), ("bmppeer", Some("10.0.0.1"))]).unwrap();
    assert_eq!(cfg.bmppeer.unwrap().port, 632);
}

#[test]
fn full_socket_address_keeps_its_port() {
    let cfg = load(&[], &[("mode", Some("bgpactive")), ("bgppeer", Some("10.0.0.1:1790"))])
        .unwrap();
    assert_eq!(cfg.bgppeer, Some(sa(10, 0, 0, 1, 1790)));
}

#[test]
fn invalid_bgppeer_fails() {
    let e = load(&[], &[("mode", Some("bgpactive")), ("bgppeer", Some("notanip"))]).unwrap_err();
    assert_eq!(e.message(), "invalid bgppeer was specified");
}

#[test]
fn invalid_protolisten_falls_back_to_any_interface() {
    let cfg = load(&[], &[("mode", Some("bgppassive")), ("protolisten", Some("notanip"))])
        .unwrap();
    assert_eq!(cfg.protolisten, Some(sa(0, 0, 0, 0, 179)));
}

// ---- HTTP listener ----

#[test]
fn httplisten_defaults() {
    let cfg = load(&[], &[("mode", Some("bgpactive")), ("bgppeer", Some("10.0.0.1"))]).unwrap();
    assert_eq!(cfg.httplisten, sa(0, 0, 0, 0, 8080));
}

#[test]
fn httplisten_explicit() {
    let cfg = load(
        &[("httplisten", Some("127.0.0.1:8000"))],
        &[("mode", Some("bgpactive")), ("bgppeer", Some("10.0.0.1"))],
    )
    .unwrap();
    assert_eq!(cfg.httplisten, sa(127, 0, 0, 1, 8000));
}

#[test]
fn httplisten_bare_ip_fails() {
    let e = load(
        &[("httplisten", Some("127.0.0.1"))],
        &[("mode", Some("bgpactive")), ("bgppeer", Some("10.0.0.1"))],
    )
    .unwrap_err();
    assert_eq!(e.message(), "Invalid httplisten - invalid socket address");
}

// ---- DNS resolver list ----

#[test]
fn whoisdns_drops_bad_entries() {
    let cfg = load(
        &[("whoisdns", Some("8.8.8.8, badvalue, 9.9.9.9"))],
        &[("mode", Some("bgpactive")), ("bgppeer", Some("10.0.0.1"))],
    )
    .unwrap();
    assert_eq!(cfg.whoisdnses, vec![sa(8, 8, 8, 8, 53), sa(9, 9, 9, 9, 53)]);
}

#[test]
fn whoisdns_absent_falls_back() {
    let cfg = load(&[], &[("mode", Some("bgpactive")), ("bgppeer", Some("10.0.0.1"))]).unwrap();
    assert_eq!(cfg.whoisdnses, vec![sa(1, 1, 1, 1, 53)]);
}

#[test]
fn whoisdns_entirely_invalid_falls_back() {
    let cfg = load(
        &[("whoisdns", Some("badvalue, another bad"))],
        &[("mode", Some("bgpactive")), ("bgppeer", Some("10.0.0.1"))],
    )
    .unwrap();
    assert_eq!(cfg.whoisdnses, vec![sa(1, 1, 1, 1, 53)]);
}

#[test]
fn whoisdns_full_socket_addresses_kept() {
    let cfg = load(
        &[("whoisdns", Some("8.8.8.8:5353,9.9.9.9"))],
        &[("mode", Some("bgpactive")), ("bgppeer", Some("10.0.0.1"))],
    )
    .unwrap();
    assert_eq!(cfg.whoisdnses, vec![sa(8, 8, 8, 8, 5353), sa(9, 9, 9, 9, 53)]);
}

// ---- history mode ----

#[test]
fn historymode_defaults_to_only_differ() {
    let cfg = load(&[], &[("mode", Some("bgpactive")), ("bgppeer", Some("10.0.0.1"))]).unwrap();
    assert_eq!(cfg.historymode, HistoryChangeMode::OnlyDiffer);
}

#[test]
fn historymode_every() {
    let cfg = load(
        &[("historymode", Some("every"))],
        &[("mode", Some("bgpactive")), ("bgppeer", Some("10.0.0.1"))],
    )
    .unwrap();
    assert_eq!(cfg.historymode, HistoryChangeMode::EveryUpdate);
}

#[test]
fn historymode_differ() {
    let cfg = load(
        &[("historymode", Some("differ"))],
        &[("mode", Some("bgpactive")), ("bgppeer", Some("10.0.0.1"))],
    )
    .unwrap();
    assert_eq!(cfg.historymode, HistoryChangeMode::OnlyDiffer);
}

#[test]
fn historymode_bogus_fails() {
    let e = load(
        &[("historymode", Some("bogus"))],
        &[("mode", Some("bgpactive")), ("bgppeer", Some("10.0.0.1"))],
    )
    .unwrap_err();
    assert_eq!(e.message(), "Invalid historymode - invalid history mode");
}

// ---- section errors ----

#[test]
fn missing_main_section_fails_naming_main() {
    let raw = RawSettings {
        sections: vec![sec("s1", &[("mode", Some("bgpactive"))])],
    };
    let e = SvcConfig::assemble_from(&raw, "test.ini", whois()).unwrap_err();
    assert_eq!(e.message(), "Missing section 'main' in ini file");
}

#[test]
fn missing_session_named_section_fails_naming_it() {
    let raw = RawSettings {
        sections: vec![sec(
            "main",
            &[("session", Some("s1")), ("whoisjsonconfig", Some("whois.json"))],
        )],
    };
    let e = SvcConfig::assemble_from(&raw, "test.ini", whois()).unwrap_err();
    assert_eq!(e.message(), "Missing section 's1' in ini file");
}

#[test]
fn missing_session_key_fails() {
    let raw = RawSettings {
        sections: vec![sec("main", &[("whoisjsonconfig", Some("whois.json"))])],
    };
    let e = SvcConfig::assemble_from(&raw, "test.ini", whois()).unwrap_err();
    assert_eq!(
        e.message(),
        "Missing value 'session' in [main] section ini file test.ini"
    );
}

#[test]
fn valueless_session_key_fails() {
    let raw = RawSettings {
        sections: vec![sec("main", &[("session", None), ("whoisjsonconfig", Some("whois.json"))])],
    };
    let e = SvcConfig::assemble_from(&raw, "test.ini", whois()).unwrap_err();
    assert_eq!(e.message(), "No session specified");
}

#[test]
fn missing_mode_fails_naming_section_and_file() {
    let e = load(&[], &[]).unwrap_err();
    assert_eq!(
        e.message(),
        "Missing value 'mode' in [s1] section ini file test.ini"
    );
}

#[test]
fn bogus_mode_fails() {
    let e = load(&[], &[("mode", Some("bogus"))]).unwrap_err();
    assert_eq!(e.message(), "invalid mode");
}

// ---- determinism ----

#[test]
fn loading_twice_gives_equal_configurations() {
    let main: &[(&str, Option<&str>)] = &[
        ("httplisten", Some("127.0.0.1:8000")),
        ("historydepth", Some("42")),
        ("whoisdns", Some("8.8.8.8")),
    ];
    let session: &[(&str, Option<&str>)] =
        &[("mode", Some("bgpactive")), ("bgppeer", Some("10.0.0.1"))];
    let a = load(main, session).unwrap();
    let b = load(main, session).unwrap();
    assert_eq!(a.routerid, b.routerid);
    assert_eq!(a.bgppeeras, b.bgppeeras);
    assert_eq!(a.bgppeer, b.bgppeer);
    assert_eq!(a.protolisten, b.protolisten);
    assert_eq!(a.bmppeer, b.bmppeer);
    assert_eq!(a.httplisten, b.httplisten);
    assert_eq!(a.httproot, b.httproot);
    assert_eq!(a.historydepth, b.historydepth);
    assert_eq!(a.httptimeout, b.httptimeout);
    assert_eq!(a.historymode, b.historymode);
    assert_eq!(a.whoisdb, b.whoisdb);
    assert_eq!(a.whoisreqtimeout, b.whoisreqtimeout);
    assert_eq!(a.whoiscachesecs, b.whoiscachesecs);
    assert_eq!(a.whoisdnses, b.whoisdnses);
    assert_eq!(a.peermode, b.peermode);
    assert_eq!(a.purge_after_withdraws, b.purge_after_withdraws);
    assert_eq!(a.purge_every, b.purge_every);
}

// ---- silent-default vs. fail-fast numeric fields ----

#[test]
fn httptimeout_bad_value_silently_defaults() {
    let cfg = load(
        &[("httptimeout", Some("notanumber"))],
        &[("mode", Some("bgpactive")), ("bgppeer", Some("10.0.0.1"))],
    )
    .unwrap();
    assert_eq!(cfg.httptimeout, 120);
}

#[test]
fn historydepth_bad_value_fails() {
    let e = load(
        &[("historydepth", Some("notanumber"))],
        &[("mode", Some("bgpactive")), ("bgppeer", Some("10.0.0.1"))],
    )
    .unwrap_err();
    assert_eq!(e.message(), "Invalid historydepth - invalid integer");
}

#[test]
fn whois_timeouts_silently_default() {
    let cfg = load(
        &[
            ("whois_request_timeout", Some("bad")),
            ("whois_cache_seconds", Some("bad")),
        ],
        &[("mode", Some("bgpactive")), ("bgppeer", Some("10.0.0.1"))],
    )
    .unwrap();
    assert_eq!(cfg.whoisreqtimeout, 30);
    assert_eq!(cfg.whoiscachesecs, 1800);
}

#[test]
fn purge_fields_fail_fast() {
    let e = load(
        &[("purge_after_withdraws", Some("bad"))],
        &[("mode", Some("bgpactive")), ("bgppeer", Some("10.0.0.1"))],
    )
    .unwrap_err();
    assert_eq!(e.message(), "Invalid purge_after_withdraws - invalid integer");
    let e = load(
        &[("purge_every", Some("bad"))],
        &[("mode", Some("bgpactive")), ("bgppeer", Some("10.0.0.1"))],
    )
    .unwrap_err();
    assert_eq!(e.message(), "Invalid purge_every - invalid integer");
}

// ---- defaults ----

#[test]
fn defaults_fill_every_optional_field() {
    let cfg = load(&[], &[("mode", Some("bgpactive")), ("bgppeer", Some("10.0.0.1"))]).unwrap();
    assert_eq!(cfg.routerid, IpV4Address { a: 1, b: 1, c: 1, d: 1 });
    assert_eq!(cfg.bgppeeras, 0);
    assert_eq!(cfg.httproot, "./contrib");
    assert_eq!(cfg.historydepth, 10);
    assert_eq!(cfg.httptimeout, 120);
    assert_eq!(cfg.whoisdb, "whoiscache.db");
    assert_eq!(cfg.whoisreqtimeout, 30);
    assert_eq!(cfg.whoiscachesecs, 1800);
    assert_eq!(cfg.purge_after_withdraws, 0);
    assert_eq!(cfg.purge_every, 300);
}

#[test]
fn explicit_values_override_defaults() {
    let cfg = load(
        &[
            ("httptimeout", Some("60")),
            ("httproot", Some("/srv/www")),
            ("historydepth", Some("42")),
            ("purge_after_withdraws", Some("7")),
            ("purge_every", Some("900")),
            ("whois_request_timeout", Some("10")),
            ("whois_cache_seconds", Some("-5")),
            ("whoisdb", Some("other.db")),
        ],
        &[
            ("mode", Some("bgpactive")),
            ("bgppeer", Some("10.0.0.1")),
            ("routerid", Some("192.0.2.1")),
            ("peeras", Some("65000")),
        ],
    )
    .unwrap();
    assert_eq!(cfg.httptimeout, 60);
    assert_eq!(cfg.httproot, "/srv/www");
    assert_eq!(cfg.historydepth, 42);
    assert_eq!(cfg.purge_after_withdraws, 7);
    assert_eq!(cfg.purge_every, 900);
    assert_eq!(cfg.whoisreqtimeout, 10);
    assert_eq!(cfg.whoiscachesecs, -5);
    assert_eq!(cfg.whoisdb, "other.db");
    assert_eq!(cfg.routerid, IpV4Address { a: 192, b: 0, c: 2, d: 1 });
    assert_eq!(cfg.bgppeeras, 65000);
}

#[test]
fn bad_routerid_fails() {
    let e = load(
        &[],
        &[
            ("mode", Some("bgpactive")),
            ("bgppeer", Some("10.0.0.1")),
            ("routerid", Some("256.1.1.1")),
        ],
    )
    .unwrap_err();
    assert_eq!(e.message(), "Invalid routerid - invalid IPv4 address");
}

#[test]
fn bad_peeras_fails() {
    let e = load(
        &[],
        &[
            ("mode", Some("bgpactive")),
            ("bgppeer", Some("10.0.0.1")),
            ("peeras", Some("4294967296")),
        ],
    )
    .unwrap_err();
    assert_eq!(e.message(), "Invalid bgp peer as - invalid integer");
}

// ---- whois configuration ----

#[test]
fn missing_whoisjsonconfig_fails() {
    let raw = RawSettings {
        sections: vec![
            sec("main", &[("session", Some("s1"))]),
            sec("s1", &[("mode", Some("bgpactive")), ("bgppeer", Some("10.0.0.1"))]),
        ],
    };
    let e = SvcConfig::assemble_from(&raw, "test.ini", whois()).unwrap_err();
    assert_eq!(e.message(), "Invalid whoisjsonconfig");
}

#[test]
fn from_settings_fails_on_unreadable_whois_path() {
    let raw = RawSettings {
        sections: vec![
            sec(
                "main",
                &[("session", Some("s1")), ("whoisjsonconfig", Some("/nonexistent/whois.json"))],
            ),
            sec("s1", &[("mode", Some("bgpactive")), ("bgppeer", Some("10.0.0.1"))]),
        ],
    };
    let e = SvcConfig::from_settings(&raw, "test.ini").unwrap_err();
    assert_eq!(e.message(), "Invalid whoisjsonconfig");
}

#[test]
fn from_settings_reports_deterministic_errors() {
    let raw = RawSettings { sections: vec![] };
    let e = SvcConfig::from_settings(&raw, "test.ini").unwrap_err();
    assert_eq!(e.message(), "Missing section 'main' in ini file");
}

// ---- mode parsing ----

#[test]
fn mode_trailing_tokens_ignored() {
    let cfg = load(
        &[],
        &[("mode", Some("bgpactive and more words")), ("bgppeer", Some("10.0.0.1"))],
    )
    .unwrap();
    assert_eq!(cfg.peermode, PeerMode::BgpActive);
}

#[test]
fn peer_mode_from_str_matches_vocabulary() {
    assert_eq!(PeerMode::from_str("bgpactive").unwrap(), PeerMode::BgpActive);
    assert_eq!(PeerMode::from_str("bgppassive").unwrap(), PeerMode::BgpPassive);
    assert_eq!(PeerMode::from_str("bmppassive").unwrap(), PeerMode::BmpPassive);
    assert_eq!(PeerMode::from_str("bmpactive").unwrap(), PeerMode::BmpActive);
    assert_eq!(PeerMode::from_str("bogus").unwrap_err().message(), "invalid mode");
}

#[test]
fn history_mode_from_str_matches_vocabulary() {
    assert_eq!(
        HistoryChangeMode::from_str("every").unwrap(),
        HistoryChangeMode::EveryUpdate
    );
    assert_eq!(
        HistoryChangeMode::from_str("differ").unwrap(),
        HistoryChangeMode::OnlyDiffer
    );
    assert_eq!(
        HistoryChangeMode::from_str("bogus").unwrap_err().message(),
        "invalid history mode"
    );
}

// ---- the error type ----

#[test]
fn error_config_constructors_keep_the_message() {
    assert_eq!(ErrorConfig::from_str("fixed").message(), "fixed");
    assert_eq!(ErrorConfig::from_string("owned".to_string()).message(), "owned");
}

// ---- the verified parsers ----

#[test]
fn parse_u64_exact_values() {
    assert_eq!(parse_u64("0"), Some(0));
    assert_eq!(parse_u64("+42"), Some(42));
    assert_eq!(parse_u64("18446744073709551615"), Some(u64::MAX));
    assert_eq!(parse_u64("18446744073709551616"), None);
    assert_eq!(parse_u64(""), None);
    assert_eq!(parse_u64("-1"), None);
    assert_eq!(parse_u64("1 2"), None);
}

#[test]
fn parse_i64_exact_values() {
    assert_eq!(parse_i64("-1"), Some(-1));
    assert_eq!(parse_i64("-9223372036854775808"), Some(i64::MIN));
    assert_eq!(parse_i64("9223372036854775807"), Some(i64::MAX));
    assert_eq!(parse_i64("9223372036854775808"), None);
    assert_eq!(parse_i64("-+5"), None);
}

#[test]
fn parse_ipv4_exact_values() {
    assert_eq!(parse_ipv4("10.0.0.1"), Some(IpV4Address { a: 10, b: 0, c: 0, d: 1 }));
    assert_eq!(parse_ipv4("255.255.255.255"), Some(IpV4Address { a: 255, b: 255, c: 255, d: 255 }));
    assert_eq!(parse_ipv4("256.1.1.1"), None);
    assert_eq!(parse_ipv4("01.2.3.4"), None);
    assert_eq!(parse_ipv4("1.2.3"), None);
    assert_eq!(parse_ipv4("1.2.3.4.5"), None);
    assert_eq!(parse_ipv4("a.b.c.d"), None);
}

#[test]
fn parse_sockaddr_exact_values() {
    assert_eq!(parse_sockaddr("10.0.0.1:179"), Some(sa(10, 0, 0, 1, 179)));
    assert_eq!(parse_sockaddr("10.0.0.1:65535"), Some(sa(10, 0, 0, 1, 65535)));
    assert_eq!(parse_sockaddr("10.0.0.1:65536"), None);
    assert_eq!(parse_sockaddr("10.0.0.1"), None);
    assert_eq!(parse_sockaddr("10.0.0.1:"), None);
}

#[test]
fn bare_protolisten_gets_port_179() {
    let cfg = load(&[], &[("mode", Some("bgppassive")), ("protolisten", Some("10.1.1.1"))])
        .unwrap();
    assert_eq!(cfg.protolisten, Some(sa(10, 1, 1, 1, 179)));
}

#[test]
fn invalid_bmppeer_fails() {
    let e = load(&[], &[("mode", Some("bmpactive")), ("bmppeer", Some("notanip"))]).unwrap_err();
    assert_eq!(e.message(), "invalid bmppeer was specified");
}

#[test]
fn valueless_mode_fails() {
    let e = load(&[], &[("mode", None)]).unwrap_err();
    assert_eq!(
        e.message(),
        "No mode (bgpactive|bgppassive|bmpactive|bmppassive) specified"
    );
}

#[test]
fn valueless_keys_fail_with_named_errors() {
    let base: &[(&str, Option<&str>)] =
        &[("mode", Some("bgpactive")), ("bgppeer", Some("10.0.0.1"))];
    assert_eq!(
        load(&[], &[("mode", Some("bgpactive")), ("bgppeer", None)]).unwrap_err().message(),
        "invalid bgppeer was specified"
    );
    assert_eq!(
        load(&[], &[("mode", Some("bgpactive")), ("bgppeer", Some("10.0.0.1")), ("protolisten", None)])
            .unwrap_err()
            .message(),
        "invalid protolisten was specified"
    );
    assert_eq!(
        load(&[], &[("mode", Some("bgpactive")), ("bgppeer", Some("10.0.0.1")), ("routerid", None)])
            .unwrap_err()
            .message(),
        "invalid routerid was specified"
    );
    assert_eq!(
        load(&[], &[("mode", Some("bgpactive")), ("bgppeer", Some("10.0.0.1")), ("peeras", None)])
            .unwrap_err()
            .message(),
        "invalid bgppeeras was specified"
    );
    assert_eq!(
        load(&[("historydepth", None)], base).unwrap_err().message(),
        "invalid historydepth was specified"
    );
    assert_eq!(
        load(&[("historymode", None)], base).unwrap_err().message(),
        "invalid historymode was specified"
    );
    assert_eq!(
        load(&[("purge_after_withdraws", None)], base).unwrap_err().message(),
        "invalid purge_after_withdraws was specified"
    );
    assert_eq!(
        load(&[("purge_every", None)], base).unwrap_err().message(),
        "invalid purge_every was specified"
    );
    assert_eq!(load(&[("whoisdb", None)], base).unwrap_err().message(), "Invalid whoisdb");
    assert_eq!(load(&[("whoisdns", None)], base).unwrap_err().message(), "Invalid whoisdns");
}

// ---- IPv6 ----

#[test]
fn parse_ipv6_exact_values() {
    assert_eq!(
        parse_ipv6("1:2:3:4:5:6:7:8"),
        Some(v6(1, 2, 3, 4, 5, 6, 7, 8))
    );
    assert_eq!(
        parse_ipv6("2001:db8::1"),
        Some(v6(0x2001, 0xdb8, 0, 0, 0, 0, 0, 1))
    );
    assert_eq!(parse_ipv6("::"), Some(v6(0, 0, 0, 0, 0, 0, 0, 0)));
    assert_eq!(parse_ipv6("::1"), Some(v6(0, 0, 0, 0, 0, 0, 0, 1)));
    assert_eq!(parse_ipv6("1::"), Some(v6(1, 0, 0, 0, 0, 0, 0, 0)));
    assert_eq!(
        parse_ipv6("::ffff:10.0.0.1"),
        Some(v6(0, 0, 0, 0, 0, 0xffff, 0x0a00, 0x0001))
    );
    assert_eq!(
        parse_ipv6("1:2:3:4:5:6:10.0.0.1"),
        Some(v6(1, 2, 3, 4, 5, 6, 0x0a00, 0x0001))
    );
    assert_eq!(parse_ipv6("1:2:3:4:5:6:7"), None);
    assert_eq!(parse_ipv6("1:2:3:4:5:6:7:8:9"), None);
    assert_eq!(parse_ipv6("1:2:3:4:5:6:7:8::"), None);
    assert_eq!(parse_ipv6("1::2::3"), None);
    assert_eq!(parse_ipv6(":::"), None);
    assert_eq!(parse_ipv6(":1"), None);
    assert_eq!(parse_ipv6("1:"), None);
    assert_eq!(parse_ipv6("12345::"), None);
    assert_eq!(parse_ipv6("g::"), None);
    assert_eq!(parse_ipv6("10.0.0.1"), None);
}

#[test]
fn parse_ip_picks_the_family() {
    assert_eq!(
        parse_ip("10.0.0.1"),
        Some(IpAddress::V4(IpV4Address { a: 10, b: 0, c: 0, d: 1 }))
    );
    assert_eq!(parse_ip("::1"), Some(IpAddress::V6(v6(0, 0, 0, 0, 0, 0, 0, 1))));
    assert_eq!(parse_ip("neither"), None);
}

#[test]
fn parse_sockaddr_bracketed_ipv6() {
    assert_eq!(
        parse_sockaddr("[2001:db8::1]:179"),
        Some(SocketAddress {
            ip: IpAddress::V6(v6(0x2001, 0xdb8, 0, 0, 0, 0, 0, 1)),
            port: 179,
        })
    );
    assert_eq!(parse_sockaddr("[::1]:65536"), None);
    assert_eq!(parse_sockaddr("[::1]"), None);
    assert_eq!(parse_sockaddr("::1:53"), None);
}

#[test]
fn ipv6_bgppeer_full_and_bare() {
    let cfg = load(
        &[],
        &[("mode", Some("bgpactive")), ("bgppeer", Some("[2001:db8::1]:1790"))],
    )
    .unwrap();
    assert_eq!(
        cfg.bgppeer,
        Some(SocketAddress {
            ip: IpAddress::V6(v6(0x2001, 0xdb8, 0, 0, 0, 0, 0, 1)),
            port: 1790,
        })
    );
    let cfg = load(&[], &[("mode", Some("bgpactive")), ("bgppeer", Some("2001:db8::1"))])
        .unwrap();
    assert_eq!(
        cfg.bgppeer,
        Some(SocketAddress {
            ip: IpAddress::V6(v6(0x2001, 0xdb8, 0, 0, 0, 0, 0, 1)),
            port: 179,
        })
    );
}

#[test]
fn ipv6_whoisdns_entry_kept() {
    let cfg = load(
        &[("whoisdns", Some("[::1]:53, 8.8.8.8"))],
        &[("mode", Some("bgpactive")), ("bgppeer", Some("10.0.0.1"))],
    )
    .unwrap();
    assert_eq!(
        cfg.whoisdnses,
        vec![
            SocketAddress { ip: IpAddress::V6(v6(0, 0, 0, 0, 0, 0, 0, 1)), port: 53 },
            sa(8, 8, 8, 8, 53),
        ]
    );
}

#[test]
fn bare_ipv6_whoisdns_entry_dropped() {
    let cfg = load(
        &[("whoisdns", Some("::1, 8.8.8.8"))],
        &[("mode", Some("bgpactive")), ("bgppeer", Some("10.0.0.1"))],
    )
    .unwrap();
    assert_eq!(cfg.whoisdnses, vec![sa(8, 8, 8, 8, 53)]);
}

// ---- whitespace token splitting ----

#[test]
fn mode_tab_separated_tokens_ignored() {
    let cfg = load(
        &[],
        &[("mode", Some("bgpactive\tmore")), ("bgppeer", Some("10.0.0.1"))],
    )
    .unwrap();
    assert_eq!(cfg.peermode, PeerMode::BgpActive);
}

#[test]
fn mode_leading_whitespace_skipped() {
    let cfg = load(
        &[],
        &[("mode", Some("  bgpactive")), ("bgppeer", Some("10.0.0.1"))],
    )
    .unwrap();
    assert_eq!(cfg.peermode, PeerMode::BgpActive);
}

#[test]
fn historymode_tab_separated_tokens_ignored() {
    let cfg = load(
        &[("historymode", Some("every\tx"))],
        &[("mode", Some("bgpactive")), ("bgppeer", Some("10.0.0.1"))],
    )
    .unwrap();
    assert_eq!(cfg.historymode, HistoryChangeMode::EveryUpdate);
}

#[test]
fn whoisdns_unicode_whitespace_trimmed() {
    let cfg = load(
        &[("whoisdns", Some("\u{a0}8.8.8.8\u{2003}, 9.9.9.9"))],
        &[("mode", Some("bgpactive")), ("bgppeer", Some("10.0.0.1"))],
    )
    .unwrap();
    assert_eq!(cfg.whoisdnses, vec![sa(8, 8, 8, 8, 53), sa(9, 9, 9, 9, 53)]);
}

// ---- error variants ----

#[test]
fn error_config_variants_carry_the_message() {
    assert!(matches!(ErrorConfig::from_str("fixed"), ErrorConfig::Static("fixed")));
    assert!(matches!(
        ErrorConfig::from_string("owned".to_string()),
        ErrorConfig::Str(s) if s == "owned"
    ));
    assert!(matches!(ErrorConfig::from("fixed"), ErrorConfig::Static("fixed")));
}
