use p2p_tunnel::config::{parse_args, parse_i32, ArgsError};
use p2p_tunnel::text::push_signed_decimal;

fn args(items: &[&str]) -> Vec<String> {
    items.iter().map(|s| s.to_string()).collect()
}

#[test]
fn full_command_line() {
    let config = parse_args(&args(&["prog", "node-b", "8501", "9501", "127.0.0.1:9500", "/ip4/127.0.0.1/tcp/8500/p2p/x"])).unwrap();
    assert_eq!(config.node_name, "node-b");
    assert_eq!(config.local_proxy_port, 8501);
    assert_eq!(config.public_router_port, 9501);
    assert_eq!(config.remote_peer_internet_addr, "127.0.0.1:9500");
    assert_eq!(config.bootstrap_mode.as_deref(), Some("/ip4/127.0.0.1/tcp/8500/p2p/x"));
    let config = parse_args(&args(&["prog", "node-a", "8500", "9500", "127.0.0.1:9501"])).unwrap();
    assert!(config.bootstrap_mode.is_none());
}

#[test]
fn short_command_lines() {
    assert!(matches!(parse_args(&args(&["prog", "a", "1", "2"])), Err(ArgsError::Usage)));
    assert!(matches!(parse_args(&args(&["prog", "a", "eighty", "2"])), Err(ArgsError::Usage)));
    assert!(matches!(parse_args(&args(&[])), Err(ArgsError::Usage)));
    let config = parse_args(&args(&["prog", "a", "-1", "+2", "x"])).unwrap();
    assert_eq!((config.local_proxy_port, config.public_router_port), (-1, 2));
}

#[test]
fn i32_parsing_matches_std() {
    for text in ["0", "7", "-7", "+7", "2147483647", "-2147483648", "2147483648", "-2147483649", "", "-", "+", "1a", " 1", "007", "-0", "+-1", "99999999999999999999", "١"] {
        assert_eq!(parse_i32(text), text.parse::<i32>().ok(), "{text:?}");
    }
}

#[test]
fn written_ports_read_back() {
    for n in [0i32, 1, 9, 10, 8500, -1, -10, i32::MAX, i32::MIN] {
        let mut text = String::new();
        push_signed_decimal(&mut text, n as i64);
        assert_eq!(text, n.to_string());
        assert_eq!(parse_i32(&text), Some(n));
    }
}
