use meeting_transcriber::decimal::{i32_to_decimal, parse_u16, u64_to_decimal};
use meeting_transcriber::{greet, sidecar_port, DEFAULT_SIDECAR_PORT};

#[test]
fn greets_by_name() {
    assert_eq!(greet("Ada"), "Hello, Ada! You've been greeted from Rust!");
    assert_eq!(greet(""), "Hello, ! You've been greeted from Rust!");
}

#[test]
fn renders_decimals_like_to_string() {
    for n in [0u64, 1, 9, 10, 16000, 8756, 65535, u64::MAX] {
        assert_eq!(u64_to_decimal(n), n.to_string());
    }
    for i in [0i32, -1, 7, -42, i32::MAX, i32::MIN] {
        assert_eq!(i32_to_decimal(i), i.to_string());
    }
}

#[test]
fn parses_ports_like_str_parse() {
    for s in [
        "8756", "+80", "0", "00080", "65535", "65536", "", "+", "-0", "-1", "12a", " 80", "80 ",
        "99999999999", "+-1", "١٢",
    ] {
        assert_eq!(parse_u16(s), s.parse::<u16>().ok(), "input {s:?}");
    }
}

#[test]
fn port_decimal_round_trip() {
    for n in [0u16, 1, 80, 443, 8756, 65535] {
        assert_eq!(parse_u16(&u64_to_decimal(n as u64)), Some(n));
    }
}

#[test]
fn sidecar_port_falls_back_to_default() {
    assert_eq!(DEFAULT_SIDECAR_PORT, 8756);
    assert_eq!(sidecar_port(None), 8756);
    assert_eq!(sidecar_port(Some("9000")), 9000);
    assert_eq!(sidecar_port(Some("not a port")), 8756);
    assert_eq!(sidecar_port(Some("70000")), 8756);
    assert_eq!(sidecar_port(Some("")), 8756);
}
