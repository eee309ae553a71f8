use solara_server::config::ServerConfig;
use solara_server::config::worker_count;
use solara_server::ip::is_valid_ip_literal;

fn cfg(host: &str, port: u16, max_connections: usize) -> ServerConfig {
    ServerConfig { host: host.to_string(), port, max_connections }
}

#[test]
fn default_config() {
    let c = ServerConfig::default();
    assert_eq!(c.host, "127.0.0.1");
    assert_eq!(c.port, 8000);
    assert_eq!(c.max_connections, 100);
}

#[test]
fn validate_keeps_valid_ipv4_host() {
    let v = cfg("192.168.1.5", 8080, 50).validate();
    assert_eq!(v.host, "192.168.1.5");
    assert_eq!(v.port, 8080);
    assert_eq!(v.max_connections, 50);
}

#[test]
fn validate_keeps_valid_ipv6_host() {
    let v = cfg("::1", 8000, 10).validate();
    assert_eq!(v.host, "::1");
}

#[test]
fn validate_substitutes_loopback_for_unparsable_host() {
    let v = cfg("not an ip", 9000, 25).validate();
    assert_eq!(v.host, "127.0.0.1");
    assert_eq!(v.port, 9000);
    assert_eq!(v.max_connections, 25);
}

#[test]
fn validate_substitutes_loopback_for_hostname() {
    // A DNS name is not an IP literal; the lenient fallback applies.
    let v = cfg("localhost", 8000, 100).validate();
    assert_eq!(v.host, "127.0.0.1");
}

#[test]
fn validate_substitutes_loopback_for_empty_host() {
    let v = cfg("", 8000, 100).validate();
    assert_eq!(v.host, "127.0.0.1");
}

#[test]
fn validate_never_fails_and_is_idempotent() {
    let once = cfg("bad host!", 1, 1).validate();
    let twice = once.clone().validate();
    assert_eq!(once.host, twice.host);
    assert_eq!(once.port, twice.port);
    assert_eq!(once.max_connections, twice.max_connections);
}

#[test]
fn host_was_replaced_reports_the_substitution() {
    let raw = cfg("nope", 8000, 100);
    let v = raw.clone().validate();
    assert!(v.host_was_replaced(&raw));

    let raw_ok = cfg("10.0.0.1", 8000, 100);
    let v_ok = raw_ok.clone().validate();
    assert!(!v_ok.host_was_replaced(&raw_ok));
}

#[test]
fn worker_count_clamps_to_ceiling() {
    assert_eq!(worker_count(&cfg("127.0.0.1", 8000, 100)), 16);
    assert_eq!(worker_count(&cfg("127.0.0.1", 8000, 8)), 8);
    assert_eq!(worker_count(&cfg("127.0.0.1", 8000, 16)), 16);
}

#[test]
fn ipv4_literals() {
    assert!(is_valid_ip_literal("0.0.0.0"));
    assert!(is_valid_ip_literal("127.0.0.1"));
    assert!(is_valid_ip_literal("255.255.255.255"));
    assert!(is_valid_ip_literal("1.2.3.4"));

    assert!(!is_valid_ip_literal("256.0.0.1"));
    assert!(!is_valid_ip_literal("1.2.3"));
    assert!(!is_valid_ip_literal("1.2.3.4.5"));
    assert!(!is_valid_ip_literal("01.2.3.4"));
    assert!(!is_valid_ip_literal("1.2.3.04"));
    assert!(!is_valid_ip_literal(" 1.2.3.4"));
    assert!(!is_valid_ip_literal("1.2.3.4 "));
    assert!(!is_valid_ip_literal("1..2.3"));
    assert!(!is_valid_ip_literal("1234.1.1.1"));
    assert!(!is_valid_ip_literal(""));
}

#[test]
fn ipv6_literals() {
    assert!(is_valid_ip_literal("::"));
    assert!(is_valid_ip_literal("::1"));
    assert!(is_valid_ip_literal("1::"));
    assert!(is_valid_ip_literal("2001:db8::8a2e:370:7334"));
    assert!(is_valid_ip_literal("2001:0db8:0000:0000:0000:ff00:0042:8329"));
    assert!(is_valid_ip_literal("1:2:3:4:5:6:7:8"));
    assert!(is_valid_ip_literal("1:2:3:4:5:6:7::"));
    assert!(is_valid_ip_literal("::ffff:192.168.1.1"));
    assert!(is_valid_ip_literal("1:2:3:4:5:6:1.2.3.4"));
    assert!(is_valid_ip_literal("ABCD:EF01::1"));

    assert!(!is_valid_ip_literal(":"));
    assert!(!is_valid_ip_literal(":::"));
    assert!(!is_valid_ip_literal("1:2:3:4:5:6:7:8:9"));
    assert!(!is_valid_ip_literal("1::2::3"));
    assert!(!is_valid_ip_literal("12345::"));
    assert!(!is_valid_ip_literal("1:2:3:4:5:6:7"));
    assert!(!is_valid_ip_literal("g::1"));
    assert!(!is_valid_ip_literal("fe80::1%eth0"));
    assert!(!is_valid_ip_literal("1:2:3:4:5:6::7:8"));
    assert!(!is_valid_ip_literal("1.2.3.4::"));
    assert!(!is_valid_ip_literal("::1.2.3.4.5"));
}
