use ohttp_relay::addr::{parse_port, port_text};
use ohttp_relay::text::position_of;
use ohttp_relay::{uri_to_addr, UriParts};

fn addr(scheme: Option<&str>, authority: Option<&str>) -> Option<String> {
    uri_to_addr(&UriParts {
        scheme: scheme.map(str::to_owned),
        authority: authority.map(str::to_owned),
        path_and_query: None,
    })
}

#[test]
fn named_port_is_used() {
    assert_eq!(addr(Some("https"), Some("example.com:8080")).as_deref(), Some("example.com:8080"));
    assert_eq!(addr(Some("http"), Some("127.0.0.1:3000")).as_deref(), Some("127.0.0.1:3000"));
    assert_eq!(addr(None, Some("h:0")).as_deref(), Some("h:0"));
    assert_eq!(addr(None, Some("h:65535")).as_deref(), Some("h:65535"));
}

#[test]
fn https_defaults_to_443() {
    assert_eq!(addr(Some("https"), Some("example.com")).as_deref(), Some("example.com:443"));
}

#[test]
fn other_schemes_default_to_80() {
    assert_eq!(addr(Some("http"), Some("example.com")).as_deref(), Some("example.com:80"));
    assert_eq!(addr(Some("HTTPS"), Some("example.com")).as_deref(), Some("example.com:80"));
    assert_eq!(addr(Some("ws"), Some("example.com")).as_deref(), Some("example.com:80"));
    assert_eq!(addr(None, Some("example.com")).as_deref(), Some("example.com:80"));
}

#[test]
fn port_that_is_no_number_gives_way_to_the_default() {
    assert_eq!(addr(Some("https"), Some("example.com:abc")).as_deref(), Some("example.com:443"));
    assert_eq!(addr(Some("https"), Some("example.com:")).as_deref(), Some("example.com:443"));
    assert_eq!(addr(Some("http"), Some("example.com:65536")).as_deref(), Some("example.com:80"));
    assert_eq!(addr(Some("http"), Some("example.com:-1")).as_deref(), Some("example.com:80"));
    assert_eq!(addr(Some("http"), Some("example.com: 80")).as_deref(), Some("example.com:80"));
}

#[test]
fn only_the_text_between_the_first_two_colons_is_the_port() {
    assert_eq!(addr(Some("http"), Some("a:81:82")).as_deref(), Some("a:81"));
    assert_eq!(addr(Some("http"), Some("user:pass@host")).as_deref(), Some("user:80"));
    assert_eq!(addr(Some("https"), Some("[::1]:8080")).as_deref(), Some("[:443"));
    assert_eq!(addr(Some("http"), Some(":8080")).as_deref(), Some(":8080"));
    assert_eq!(addr(Some("http"), Some("")).as_deref(), Some(":80"));
}

#[test]
fn uri_without_authority_has_no_address() {
    assert_eq!(addr(Some("https"), None), None);
    assert_eq!(addr(None, None), None);
}

#[test]
fn parse_port_agrees_with_the_standard_parser() {
    for text in [
        "", "+", "-", "0", "+0", "00080", "80", "+80", "++80", "-80", "65535", "65536", "99999",
        "4294967296", "8a", "a8", " 80", "80 ", "8_0", "٣", "+٣", "000000000000000000000065535",
        "000000000000000000000065536", "18446744073709551616",
    ] {
        assert_eq!(parse_port(text), text.parse::<u16>().ok(), "{:?}", text);
    }
}

#[test]
fn parse_port_reads_exact_values() {
    assert_eq!(parse_port("443"), Some(443));
    assert_eq!(parse_port("+3000"), Some(3000));
    assert_eq!(parse_port("65535"), Some(65535));
    assert_eq!(parse_port("65536"), None);
    assert_eq!(parse_port(""), None);
}

#[test]
fn port_text_writes_decimal() {
    assert_eq!(port_text(0), "0");
    assert_eq!(port_text(7), "7");
    assert_eq!(port_text(10), "10");
    assert_eq!(port_text(80), "80");
    assert_eq!(port_text(443), "443");
    assert_eq!(port_text(3000), "3000");
    assert_eq!(port_text(65535), "65535");
}

#[test]
fn port_text_and_parse_port_are_inverse() {
    for port in [0u16, 1, 9, 10, 99, 100, 1234, 9999, 10000, 65534, 65535] {
        assert_eq!(port_text(port), port.to_string());
        assert_eq!(parse_port(&port_text(port)), Some(port));
    }
}

#[test]
fn position_of_finds_the_first_mark() {
    assert_eq!(position_of("a:b:c", ':'), 1);
    assert_eq!(position_of(":", ':'), 0);
    assert_eq!(position_of("abc", ':'), 3);
    assert_eq!(position_of("", ':'), 0);
    assert_eq!(position_of("żó:x", ':'), 2);
}
