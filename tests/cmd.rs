use realm::cmd::{parse_global_opts, parse_matches, parse_single_ep, parse_timeout, ArgValues, CmdInput, TCP_TIMEOUT, UDP_TIMEOUT};
use realm::text::{parse_usize, split_commas};

fn s(v: &str) -> Option<String> {
    Some(v.to_string())
}

#[test]
fn parse_usize_values() {
    assert_eq!(parse_usize("0"), Some(0));
    assert_eq!(parse_usize("120"), Some(120));
    assert_eq!(parse_usize("+7"), Some(7));
    assert_eq!(parse_usize(""), None);
    assert_eq!(parse_usize("+"), None);
    assert_eq!(parse_usize("-1"), None);
    assert_eq!(parse_usize("12a"), None);
    assert_eq!(parse_usize(" 1"), None);
    assert_eq!(parse_usize(&usize::MAX.to_string()), Some(usize::MAX));
    assert_eq!(parse_usize("99999999999999999999999"), None);
    for t in ["1", "42", "+0", "x", "", "18446744073709551616"] {
        assert_eq!(parse_usize(t), t.parse::<usize>().ok());
    }
}

#[test]
fn split_commas_like_str_split() {
    for t in ["", "a", "1.1.1.1,8.8.8.8", ",", "a,,b,", "é,ü"] {
        let expected: Vec<String> = t.split(',').map(String::from).collect();
        assert_eq!(split_commas(t), expected);
    }
}

#[test]
fn timeouts_fall_back() {
    assert_eq!(parse_timeout(&None, TCP_TIMEOUT), 300);
    assert_eq!(parse_timeout(&s("10"), TCP_TIMEOUT), 10);
    assert_eq!(parse_timeout(&s("ten"), UDP_TIMEOUT), 30);
}

#[test]
fn config_wins() {
    let args = ArgValues { config: s("realm.toml"), local: s("0.0.0.0:5000"), remote: s("1.1.1.1:443"), ..Default::default() };
    match parse_matches(&args) {
        CmdInput::Config(path, g) => {
            assert_eq!(path, "realm.toml");
            assert_eq!(g.dns_servers, None);
        }
        other => panic!("unexpected {:?}", other),
    }
}

#[test]
fn endpoint_from_flags() {
    let args = ArgValues {
        udp: true,
        zero_copy: true,
        local: s("0.0.0.0:5000"),
        remote: s("example.com:443"),
        through: s("127.0.0.1"),
        tcp_timeout: s("12"),
        udp_timeout: s("bad"),
        log_level: s("debug"),
        dns_servers: s("8.8.8.8:53,1.1.1.1:53"),
        ..Default::default()
    };
    match parse_matches(&args) {
        CmdInput::Endpoint(ep, g) => {
            assert!(ep.udp && ep.zero_copy && !ep.fast_open);
            assert_eq!(ep.local, "0.0.0.0:5000");
            assert_eq!(ep.remote, "example.com:443");
            assert_eq!(ep.through, "127.0.0.1");
            assert_eq!(ep.tcp_timeout, 12);
            assert_eq!(ep.udp_timeout, 30);
            assert_eq!(g.log_level, s("debug"));
            assert_eq!(g.log_output, None);
            assert_eq!(g.dns_servers, Some(vec!["8.8.8.8:53".to_string(), "1.1.1.1:53".to_string()]));
        }
        other => panic!("unexpected {:?}", other),
    }
}

#[test]
fn nothing_without_both_addresses() {
    let args = ArgValues { local: s("0.0.0.0:5000"), ..Default::default() };
    assert_eq!(parse_matches(&args), CmdInput::Idle);
    assert_eq!(parse_matches(&ArgValues::default()), CmdInput::Idle);
}

#[test]
fn single_endpoint_defaults() {
    let args = ArgValues { local: s("a:1"), remote: s("b:2"), ..Default::default() };
    let ep = parse_single_ep(&args);
    assert_eq!(ep.through, "");
    assert_eq!(ep.tcp_timeout, TCP_TIMEOUT);
    assert_eq!(ep.udp_timeout, UDP_TIMEOUT);
    let g = parse_global_opts(&ArgValues { dns_mode: s("ipv4_only"), dns_protocol: s("tcp"), ..Default::default() });
    assert_eq!(g.dns_mode, s("ipv4_only"));
    assert_eq!(g.dns_protocol, s("tcp"));
}
