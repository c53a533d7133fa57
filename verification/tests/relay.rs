use http::header::{HeaderMap, HeaderName, HeaderValue};
use ohttp_relay::{
    forward_request, handle_ohttp_relay, into_forward_req, rewrite_target, serve_ohttp_relay,
    GatewayUri, InboundRequest, OutboundRequest, RelayError, Step, UriParts, DEFAULT_PORT,
    EXPECTED_MEDIA_TYPE, OHTTP_RELAY_HOST,
};

fn text(s: &str) -> Option<String> {
    Some(s.to_owned())
}

fn gateway(scheme: Option<&str>, authority: &str) -> GatewayUri {
    GatewayUri::new(UriParts {
        scheme: scheme.map(str::to_owned),
        authority: text(authority),
        path_and_query: text("/"),
    })
    .unwrap()
}

fn headers(fields: &[(&str, &str)]) -> HeaderMap {
    let mut map = HeaderMap::new();
    for (name, value) in fields {
        map.append(
            HeaderName::from_bytes(name.as_bytes()).unwrap(),
            HeaderValue::from_str(value).unwrap(),
        );
    }
    map
}

fn request(method: &str, path_and_query: Option<&str>, fields: &[(&str, &str)]) -> InboundRequest {
    InboundRequest {
        method: method.to_owned(),
        uri: UriParts {
            scheme: None,
            authority: None,
            path_and_query: path_and_query.map(str::to_owned),
        },
        headers: headers(fields),
    }
}

fn ohttp(path_and_query: Option<&str>) -> InboundRequest {
    request("POST", path_and_query, &[("Content-Type", "message/ohttp-req")])
}

fn forwarded(step: Step) -> OutboundRequest {
    match step {
        Step::Forward(out) => out,
        other => panic!("not forwarded: {:?}", other),
    }
}

fn status(step: Step) -> (u16, String) {
    match step {
        Step::Respond(reply) => (reply.status, reply.body),
        other => panic!("not answered: {:?}", other),
    }
}

fn field_list(map: &HeaderMap) -> Vec<(String, Vec<u8>)> {
    let mut list: Vec<(String, Vec<u8>)> =
        map.iter().map(|(n, v)| (n.as_str().to_owned(), v.as_bytes().to_vec())).collect();
    list.sort();
    list
}

#[test]
fn constants_have_their_values() {
    assert_eq!(DEFAULT_PORT, 3000);
    assert_eq!(OHTTP_RELAY_HOST, "0.0.0.0");
    assert_eq!(EXPECTED_MEDIA_TYPE, "message/ohttp-req");
}

#[test]
fn post_submit_is_forwarded_to_the_gateway() {
    let req = request(
        "POST",
        Some("/submit"),
        &[("Content-Type", "message/ohttp-req"), ("Content-Length", "4")],
    );
    let origin = gateway(Some("https"), "gw.example");
    let out = forwarded(serve_ohttp_relay(req, &origin, false));
    assert_eq!(out.method, "POST");
    assert_eq!(out.uri.scheme.as_deref(), Some("https"));
    assert_eq!(out.uri.authority.as_deref(), Some("gw.example"));
    assert_eq!(out.uri.path_and_query.as_deref(), Some("/submit"));
    assert_eq!(
        field_list(&out.headers),
        vec![
            ("content-length".to_owned(), b"4".to_vec()),
            ("host".to_owned(), b"0.0.0.0".to_vec()),
        ]
    );
}

#[test]
fn get_without_bootstrap_is_not_found() {
    let origin = gateway(Some("https"), "gw.example");
    let step = serve_ohttp_relay(request("GET", Some("/"), &[]), &origin, false);
    assert_eq!(status(step), (404, String::new()));
}

#[test]
fn connect_without_bootstrap_is_not_found() {
    let origin = gateway(Some("https"), "gw.example");
    let req = request("CONNECT", None, &[("Content-Type", "message/ohttp-req")]);
    assert_eq!(status(serve_ohttp_relay(req, &origin, false)), (404, String::new()));
}

#[test]
fn unserved_methods_are_not_allowed_by_the_dispatcher() {
    let origin = gateway(Some("https"), "gw.example");
    for method in ["PUT", "DELETE", "PATCH", "HEAD", "OPTIONS", "TRACE", "post", "get", ""] {
        for bootstrap in [false, true] {
            let req = request(method, Some("/"), &[("Content-Type", "message/ohttp-req")]);
            let step = serve_ohttp_relay(req, &origin, bootstrap);
            assert_eq!(status(step), (405, String::new()), "{:?}", method);
        }
    }
}

#[test]
fn get_and_connect_go_to_bootstrap_when_enabled() {
    let origin = gateway(Some("https"), "gw.example");
    for method in ["GET", "CONNECT"] {
        let req = request(method, Some("/keys"), &[("Cookie", "a=b")]);
        match serve_ohttp_relay(req, &origin, true) {
            Step::Bootstrap(req) => {
                assert_eq!(req.method, method);
                assert_eq!(req.uri.path_and_query.as_deref(), Some("/keys"));
                assert_eq!(field_list(&req.headers), vec![("cookie".to_owned(), b"a=b".to_vec())]);
            }
            other => panic!("not handed over: {:?}", other),
        }
    }
}

#[test]
fn post_is_relayed_whether_or_not_bootstrap_is_enabled() {
    let origin = gateway(Some("https"), "gw.example");
    let out = forwarded(serve_ohttp_relay(ohttp(Some("/")), &origin, true));
    assert_eq!(out.uri.authority.as_deref(), Some("gw.example"));
}

#[test]
fn other_methods_on_the_relay_path_are_not_allowed() {
    let origin = gateway(Some("https"), "gw.example");
    for method in ["GET", "PUT", "CONNECT", "post", "POST ", ""] {
        let req = request(method, Some("/"), &[("Content-Type", "message/ohttp-req")]);
        assert_eq!(status(handle_ohttp_relay(req, &origin)), (405, String::new()));
        let req = request(method, Some("/"), &[("Content-Type", "message/ohttp-req")]);
        assert_eq!(into_forward_req(req, &origin).unwrap_err(), RelayError::MethodNotAllowed);
    }
}

#[test]
fn method_is_checked_before_media_type() {
    let origin = gateway(Some("https"), "gw.example");
    let req = request("GET", Some("/"), &[("Content-Type", "text/plain")]);
    assert_eq!(into_forward_req(req, &origin).unwrap_err(), RelayError::MethodNotAllowed);
}

#[test]
fn missing_content_type_is_unsupported() {
    let origin = gateway(Some("https"), "gw.example");
    let req = request("POST", Some("/"), &[("Content-Length", "4")]);
    assert_eq!(status(handle_ohttp_relay(req, &origin)), (415, String::new()));
}

#[test]
fn other_content_types_are_unsupported() {
    let origin = gateway(Some("https"), "gw.example");
    for value in [
        "text/plain",
        "message/ohttp-res",
        "Message/OHTTP-Req",
        "message/ohttp-req; charset=utf-8",
        " message/ohttp-req",
        "message/ohttp-req ",
        "message/ohttp-re",
        "",
    ] {
        let req = request("POST", Some("/"), &[("Content-Type", value)]);
        assert_eq!(into_forward_req(req, &origin).unwrap_err(), RelayError::UnsupportedMediaType);
    }
}

#[test]
fn only_the_first_content_type_counts() {
    let origin = gateway(Some("https"), "gw.example");
    let req = request(
        "POST",
        Some("/"),
        &[("Content-Type", "text/plain"), ("Content-Type", "message/ohttp-req")],
    );
    assert_eq!(into_forward_req(req, &origin).unwrap_err(), RelayError::UnsupportedMediaType);
    let req = request(
        "POST",
        Some("/"),
        &[("Content-Type", "message/ohttp-req"), ("Content-Type", "text/plain")],
    );
    assert!(into_forward_req(req, &origin).is_ok());
}

#[test]
fn client_headers_are_dropped() {
    let origin = gateway(Some("https"), "gw.example");
    let req = request(
        "POST",
        Some("/"),
        &[
            ("Content-Type", "message/ohttp-req"),
            ("X-Forwarded-For", "203.0.113.7"),
            ("Cookie", "session=1"),
            ("User-Agent", "client/1.0"),
            ("Host", "client.example"),
            ("Authorization", "Bearer abc"),
        ],
    );
    let out = into_forward_req(req, &origin).unwrap();
    assert_eq!(field_list(&out.headers), vec![("host".to_owned(), b"0.0.0.0".to_vec())]);
}

#[test]
fn content_length_is_copied_once() {
    let origin = gateway(Some("https"), "gw.example");
    let req = request(
        "POST",
        Some("/"),
        &[("Content-Type", "message/ohttp-req"), ("Content-Length", "12"), ("Content-Length", "99")],
    );
    let out = into_forward_req(req, &origin).unwrap();
    assert_eq!(
        field_list(&out.headers),
        vec![
            ("content-length".to_owned(), b"12".to_vec()),
            ("host".to_owned(), b"0.0.0.0".to_vec()),
        ]
    );
}

#[test]
fn path_and_query_are_kept() {
    let origin = gateway(Some("https"), "gw.example");
    for path in ["/", "/submit", "/a/b/c?x=1&y=2", "/?", "*", "/%20x?q=%23"] {
        let out = into_forward_req(ohttp(Some(path)), &origin).unwrap();
        assert_eq!(out.uri.path_and_query.as_deref(), Some(path));
    }
}

#[test]
fn missing_path_becomes_slash() {
    let origin = gateway(Some("https"), "gw.example");
    let out = into_forward_req(ohttp(None), &origin).unwrap();
    assert_eq!(out.uri.path_and_query.as_deref(), Some("/"));
}

#[test]
fn fragment_is_not_forwarded() {
    let origin = gateway(Some("https"), "gw.example");
    let out = into_forward_req(ohttp(Some("/a?b#c")), &origin).unwrap();
    assert_eq!(out.uri.path_and_query.as_deref(), Some("/a?b"));
    let out = into_forward_req(ohttp(Some("#c")), &origin).unwrap();
    assert_eq!(out.uri.path_and_query.as_deref(), Some("/"));
    let out = into_forward_req(ohttp(Some("")), &origin).unwrap();
    assert_eq!(out.uri.path_and_query.as_deref(), Some("/"));
}

#[test]
fn inbound_scheme_and_authority_are_ignored() {
    let origin = gateway(Some("https"), "gw.example");
    let mut req = ohttp(Some("/x"));
    req.uri.scheme = text("http");
    req.uri.authority = text("client.example:8080");
    let out = into_forward_req(req, &origin).unwrap();
    assert_eq!(out.uri.scheme.as_deref(), Some("https"));
    assert_eq!(out.uri.authority.as_deref(), Some("gw.example"));
    assert_eq!(out.uri.path_and_query.as_deref(), Some("/x"));
}

#[test]
fn scheme_defaults_to_https() {
    let origin = gateway(None, "gw.example:8443");
    let out = into_forward_req(ohttp(Some("/x")), &origin).unwrap();
    assert_eq!(out.uri.scheme.as_deref(), Some("https"));
    assert_eq!(out.uri.authority.as_deref(), Some("gw.example:8443"));
}

#[test]
fn scheme_of_the_gateway_is_used() {
    let origin = gateway(Some("http"), "127.0.0.1:8080");
    let out = into_forward_req(ohttp(Some("/x")), &origin).unwrap();
    assert_eq!(out.uri.scheme.as_deref(), Some("http"));
    assert_eq!(out.uri.authority.as_deref(), Some("127.0.0.1:8080"));
}

#[test]
fn invalid_target_is_a_bad_request() {
    let origin = gateway(Some("https"), "gw.example");
    for path in ["/a b", "no-slash", "/\u{7f}"] {
        let err = into_forward_req(ohttp(Some(path)), &origin).unwrap_err();
        assert_eq!(err, RelayError::BadRequest("Invalid target uri".to_owned()));
        assert_eq!(
            status(handle_ohttp_relay(ohttp(Some(path)), &origin)),
            (400, "Invalid target uri".to_owned())
        );
    }
    let origin = gateway(Some("ht tp"), "gw.example");
    let err = into_forward_req(ohttp(Some("/")), &origin).unwrap_err();
    assert_eq!(err, RelayError::BadRequest("Invalid target uri".to_owned()));
    let origin = gateway(Some("https"), "gw example");
    let err = into_forward_req(ohttp(Some("/")), &origin).unwrap_err();
    assert_eq!(err, RelayError::BadRequest("Invalid target uri".to_owned()));
}

#[test]
fn rewrite_target_maps_both_outcomes() {
    let parts = UriParts {
        scheme: text("https"),
        authority: text("gw.example"),
        path_and_query: text("/x"),
    };
    let out = rewrite_target("POST".to_owned(), headers(&[("host", "0.0.0.0")]), Ok(parts.clone()))
        .unwrap();
    assert_eq!(out.method, "POST");
    assert_eq!(out.uri, parts);
    assert_eq!(field_list(&out.headers), vec![("host".to_owned(), b"0.0.0.0".to_vec())]);
    let failure = http::Request::builder().method("not a method").body(()).unwrap_err();
    let err = rewrite_target("POST".to_owned(), HeaderMap::new(), Err(failure)).unwrap_err();
    assert_eq!(err, RelayError::BadRequest("Invalid target uri".to_owned()));
}

#[test]
fn upstream_failure_is_bad_gateway() {
    let refused: Result<u8, &str> = Err("connection refused");
    assert_eq!(forward_request(refused).unwrap_err(), RelayError::BadGateway);
    let timeout: Result<u8, std::io::Error> =
        Err(std::io::Error::new(std::io::ErrorKind::TimedOut, "timeout"));
    let err = forward_request(timeout).unwrap_err();
    assert_eq!(err, RelayError::BadGateway);
    assert_eq!(err.status(), 502);
    assert_eq!(err.to_response().status, 502);
    assert_eq!(err.to_response().body, "");
}

#[test]
fn upstream_response_is_passed_on() {
    let response: Result<Vec<u8>, ()> = Ok(vec![0xDE, 0xAD, 0xBE, 0xEF]);
    assert_eq!(forward_request(response).unwrap(), vec![0xDE, 0xAD, 0xBE, 0xEF]);
}

#[test]
fn each_error_has_its_status() {
    assert_eq!(RelayError::NotFound.status(), 404);
    assert_eq!(RelayError::MethodNotAllowed.status(), 405);
    assert_eq!(RelayError::UnsupportedMediaType.status(), 415);
    assert_eq!(RelayError::BadRequest("x".to_owned()).status(), 400);
    assert_eq!(RelayError::BadGateway.status(), 502);
}

#[test]
fn only_a_bad_request_has_a_body() {
    assert_eq!(RelayError::NotFound.to_response().body, "");
    assert_eq!(RelayError::MethodNotAllowed.to_response().body, "");
    assert_eq!(RelayError::UnsupportedMediaType.to_response().body, "");
    assert_eq!(RelayError::BadGateway.to_response().body, "");
    let reply = RelayError::BadRequest("Invalid target uri".to_owned()).to_response();
    assert_eq!(reply.status, 400);
    assert_eq!(reply.body, "Invalid target uri");
}

#[test]
fn target_shows_scheme_and_authority_as_given() {
    for (scheme, authority) in [
        ("HTTP", "GW.Example"),
        ("https", "user:pw@gw.example:8443"),
        ("ohttp+x", "[2001:db8::1]:443"),
        ("", "gw.example"),
        ("h", "a"),
    ] {
        let origin = gateway(Some(scheme), authority);
        let out = into_forward_req(ohttp(Some("/p?q")), &origin).unwrap();
        assert_eq!(out.uri.scheme.as_deref(), Some(scheme));
        assert_eq!(out.uri.authority.as_deref(), Some(authority));
        assert_eq!(out.uri.path_and_query.as_deref(), Some("/p?q"));
    }
}

#[test]
fn target_shows_unusual_paths_as_given() {
    let origin = gateway(Some("https"), "gw.example");
    for path in ["?q=1", "/\u{17c}\u{f3}\u{142}w", "/a?b?c", "/{\"k\":1}", "//", "/a/../b"] {
        let out = into_forward_req(ohttp(Some(path)), &origin).unwrap();
        assert_eq!(out.uri.path_and_query.as_deref(), Some(path));
    }
    let out = into_forward_req(ohttp(Some("?q#f")), &origin).unwrap();
    assert_eq!(out.uri.path_and_query.as_deref(), Some("?q"));
    let out = into_forward_req(ohttp(Some("/a#b#c")), &origin).unwrap();
    assert_eq!(out.uri.path_and_query.as_deref(), Some("/a"));
    let out = into_forward_req(ohttp(Some("/a# \n")), &origin).unwrap();
    assert_eq!(out.uri.path_and_query.as_deref(), Some("/a"));
}

#[test]
fn sensitive_content_length_is_carried_as_it_is() {
    let origin = gateway(Some("https"), "gw.example");
    let mut req = ohttp(Some("/"));
    let mut length = HeaderValue::from_static("4");
    length.set_sensitive(true);
    req.headers.insert("content-length", length);
    let out = into_forward_req(req, &origin).unwrap();
    let kept = out.headers.get("content-length").unwrap();
    assert_eq!(kept.as_bytes(), b"4");
    assert!(kept.is_sensitive());
}

#[test]
fn opaque_bytes_in_content_length_are_copied() {
    let origin = gateway(Some("https"), "gw.example");
    let mut req = ohttp(Some("/"));
    req.headers.insert("content-length", HeaderValue::from_bytes(b"\xfa\xfb 1").unwrap());
    let out = into_forward_req(req, &origin).unwrap();
    assert_eq!(out.headers.get("content-length").unwrap().as_bytes(), b"\xfa\xfb 1");
    assert_eq!(out.headers.len(), 2);
}

#[test]
fn large_header_sets_are_dropped_whole() {
    let origin = gateway(Some("https"), "gw.example");
    let mut req = ohttp(Some("/"));
    for i in 0..5000 {
        let name = HeaderName::from_bytes(format!("x-field-{}", i).as_bytes()).unwrap();
        req.headers.append(name, HeaderValue::from_static("v"));
    }
    let out = into_forward_req(req, &origin).unwrap();
    assert_eq!(field_list(&out.headers), vec![("host".to_owned(), b"0.0.0.0".to_vec())]);
}
