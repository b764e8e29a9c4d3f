use cf_route_services::dispatch::{AddressRejection, Body, ClientAddress, Config, Decision, Dispatcher, Reply, Step};
use cf_route_services::headers::{is_blank, Header, RoutingHeaderSet};
use cf_route_services::request_id::{ensure_request_id, propagate_request_id};
use cf_route_services::routing::{classify, is_routing_name, sanitize, validate, HeaderError, Route};

fn hs(pairs: &[(&str, &str)]) -> Vec<Header> {
    pairs.iter().map(|(n, v)| Header::new(n, v)).collect()
}

fn names(h: &[Header]) -> Vec<String> {
    h.iter().map(|x| x.name.clone()).collect()
}

fn dispatcher(disclose: bool) -> Dispatcher {
    Dispatcher::new(Config { behind_proxy: false, disclose_errors: disclose })
}

fn text_of(r: &Reply) -> Option<String> {
    match &r.body {
        Body::Text(t) => Some(t.clone()),
        _ => None,
    }
}

fn reject_text(d: Decision) -> (u16, String) {
    match d {
        Decision::Reject(r) => (r.status, text_of(&r).unwrap()),
        _ => panic!("expected a rejection"),
    }
}

fn all_three() -> Vec<Header> {
    hs(&[
        ("x-cf-forwarded-url", "http://upstream.example/path"),
        ("x-cf-proxy-signature", "sig1"),
        ("x-cf-proxy-metadata", "meta1"),
    ])
}

#[test]
fn signature_only_names_metadata() {
    let (status, body) = reject_text(dispatcher(false).decide(&hs(&[("x-cf-proxy-signature", "sig1")])));
    assert_eq!(status, 400);
    assert_eq!(body, "Did not find x-cf-proxy-metadata header in request");
}

#[test]
fn no_routing_headers_go_local() {
    let d = dispatcher(false).decide(&hs(&[("accept", "*/*"), ("host", "a.example")]));
    assert!(matches!(d, Decision::Local));
    assert!(matches!(dispatcher(true).decide(&Vec::new()), Decision::Local));
}

#[test]
fn all_three_are_relayed() {
    match dispatcher(false).decide(&all_three()) {
        Decision::Relay(p) => {
            assert_eq!(p.forwarded_url, "http://upstream.example/path");
            assert_eq!(p.signature, "sig1");
            assert_eq!(p.metadata, "meta1");
        }
        _ => panic!("expected a relay"),
    }
}

#[test]
fn check_order_is_metadata_signature_url() {
    let d = dispatcher(false);
    let (_, b) = reject_text(d.decide(&hs(&[("x-cf-forwarded-url", "http://u")])));
    assert_eq!(b, "Did not find x-cf-proxy-metadata header in request");
    let (_, b) = reject_text(d.decide(&hs(&[("x-cf-forwarded-url", "http://u"), ("x-cf-proxy-metadata", "m")])));
    assert_eq!(b, "Did not find x-cf-proxy-signature header in request");
    let (s, b) = reject_text(d.decide(&hs(&[("x-cf-proxy-signature", "s"), ("x-cf-proxy-metadata", "m")])));
    assert_eq!(s, 400);
    assert_eq!(b, "Did not find x-cf-forwarded-url header in request");
}

#[test]
fn blank_value_counts_as_missing() {
    let mut h = all_three();
    h[1] = Header::new("x-cf-proxy-signature", " \t ");
    let (s, b) = reject_text(dispatcher(false).decide(&h));
    assert_eq!(s, 400);
    assert_eq!(b, "Did not find x-cf-proxy-signature header in request");
    let mut h = all_three();
    h[2] = Header::new("x-cf-proxy-metadata", "");
    let (_, b) = reject_text(dispatcher(false).decide(&h));
    assert_eq!(b, "Did not find x-cf-proxy-metadata header in request");
}

#[test]
fn header_names_ignore_case() {
    let set = RoutingHeaderSet::new();
    let h = hs(&[("X-CF-Proxy-Metadata", "m")]);
    assert_eq!(classify(&set, &h), Route::ProxyCandidate);
    let h = hs(&[
        ("X-CF-FORWARDED-URL", "http://u"),
        ("x-cf-proxy-SIGNATURE", "s"),
        ("X-Cf-Proxy-Metadata", "m"),
    ]);
    assert!(validate(&set, &h).is_ok());
    assert!(is_routing_name(&set, "X-Cf-Forwarded-Url"));
    assert!(!is_routing_name(&set, "x-request-id"));
}

#[test]
fn first_value_is_the_one_checked() {
    let set = RoutingHeaderSet::new();
    let h = hs(&[
        ("x-cf-forwarded-url", "http://u"),
        ("x-cf-proxy-signature", "  "),
        ("x-cf-proxy-signature", "later"),
        ("x-cf-proxy-metadata", "m"),
    ]);
    match validate(&set, &h) {
        Err(HeaderError::MissingOrEmptyHeader(n)) => assert_eq!(n, "x-cf-proxy-signature"),
        Ok(_) => panic!("expected an error"),
    }
}

#[test]
fn unreachable_upstream_without_disclosure_is_empty_500() {
    let r = dispatcher(false).relay_failure("connection refused");
    assert_eq!(r.status, 500);
    assert!(matches!(r.body, Body::Empty));
}

#[test]
fn unreachable_upstream_with_disclosure_is_structured_500() {
    let r = dispatcher(true).relay_failure("connection refused");
    assert_eq!(r.status, 500);
    match r.body {
        Body::Error(e) => {
            assert_eq!(e.status, 500);
            assert_eq!(e.message, "Internal Error: connection refused");
        }
        _ => panic!("expected a structured error"),
    }
}

#[test]
fn relayed_response_loses_routing_headers_and_gets_request_id() {
    let d = dispatcher(false);
    let mut req = all_three();
    req.push(Header::new("x-request-id", "abc-123"));
    let mut resp = hs(&[("content-type", "text/plain"), ("X-CF-Proxy-Metadata", "stray"), ("content-length", "5")]);
    d.finish_relay(&mut resp);
    propagate_request_id(&req, &mut resp);
    assert_eq!(names(&resp), vec!["content-type", "content-length", "x-request-id"]);
    assert_eq!(resp[2].value, "abc-123");
}

#[test]
fn sanitize_twice_equals_once() {
    let set = RoutingHeaderSet::new();
    let mut once = hs(&[
        ("x-cf-forwarded-url", "u"),
        ("a", "1"),
        ("x-cf-proxy-signature", "s"),
        ("b", "2"),
        ("x-cf-proxy-metadata", "m"),
        ("x-cf-proxy-metadata", "m2"),
    ]);
    sanitize(&set, &mut once);
    assert_eq!(names(&once), vec!["a", "b"]);
    let mut twice = hs(&[("a", "1"), ("b", "2")]);
    sanitize(&set, &mut twice);
    assert_eq!(names(&twice), names(&once));
    let mut empty: Vec<Header> = Vec::new();
    sanitize(&set, &mut empty);
    assert!(empty.is_empty());
}

#[test]
fn request_id_is_added_when_absent() {
    let mut h = hs(&[("accept", "*/*")]);
    ensure_request_id(&mut h);
    assert_eq!(h.len(), 2);
    assert_eq!(h[1].name, "x-request-id");
    assert_eq!(h[1].value.len(), 36);
    let id: Vec<char> = h[1].value.chars().collect();
    for (i, c) in id.iter().enumerate() {
        if i == 8 || i == 13 || i == 18 || i == 23 {
            assert_eq!(*c, '-');
        } else {
            assert!(c.is_ascii_digit() || ('a'..='f').contains(c));
        }
    }
    assert_eq!(id[14], '4');
    assert!(matches!(id[19], '8' | '9' | 'a' | 'b'));
    let mut other = hs(&[("accept", "*/*")]);
    ensure_request_id(&mut other);
    assert_ne!(h[1].value, other[1].value);
}

#[test]
fn request_id_is_kept_when_present() {
    let mut h = hs(&[("X-Request-Id", "given")]);
    ensure_request_id(&mut h);
    assert_eq!(h.len(), 1);
    assert_eq!(h[0].value, "given");
    let mut resp = hs(&[("x-request-id", "from-upstream")]);
    propagate_request_id(&h, &mut resp);
    assert_eq!(resp.len(), 1);
    assert_eq!(resp[0].value, "from-upstream");
}

#[test]
fn local_response_gets_request_id() {
    let req = hs(&[("x-request-id", "r1")]);
    let mut resp: Vec<Header> = Vec::new();
    propagate_request_id(&req, &mut resp);
    assert_eq!(names(&resp), vec!["x-request-id"]);
    assert_eq!(resp[0].value, "r1");
}

#[test]
fn address_rejection_is_shown_as_is() {
    let rej = AddressRejection { status: 500, reason: "Could not extract client IP".to_string() };
    match dispatcher(false).proxy_step(&all_three(), Err(rej)) {
        Step::Respond(r) => {
            assert_eq!(r.status, 500);
            assert_eq!(text_of(&r).unwrap(), "Could not extract client IP");
        }
        Step::Forward(_) => panic!("expected a response"),
    }
}

#[test]
fn proxy_step_forwards_to_target() {
    let addr = ClientAddress::V4([10, 0, 0, 7]);
    match dispatcher(false).proxy_step(&all_three(), Ok(addr)) {
        Step::Forward(ctx) => {
            assert_eq!(ctx.forwarded_url, "http://upstream.example/path");
            assert!(matches!(ctx.client, ClientAddress::V4([10, 0, 0, 7])));
        }
        Step::Respond(_) => panic!("expected a forward"),
    }
}

#[test]
fn proxy_step_without_target_is_400() {
    let addr = ClientAddress::V6([0, 0, 0, 0, 0, 0, 0, 1]);
    match dispatcher(false).proxy_step(&hs(&[("x-cf-proxy-metadata", "m")]), Ok(addr)) {
        Step::Respond(r) => {
            assert_eq!(r.status, 400);
            assert_eq!(text_of(&r).unwrap(), "Header x-cf-forwarded-for needs to be set to proxy request");
        }
        Step::Forward(_) => panic!("expected a response"),
    }
}

#[test]
fn config_is_kept() {
    let d = Dispatcher::new(Config { behind_proxy: true, disclose_errors: false });
    assert_eq!(d.config(), Config { behind_proxy: true, disclose_errors: false });
}

#[test]
fn unicode_white_space_is_blank() {
    assert!(is_blank("\u{3000}\u{2028} \u{85}\u{a0}"));
    assert!(is_blank(""));
    assert!(!is_blank(" m "));
    assert!(!is_blank("\u{200b}"));
    let mut h = all_three();
    h[0] = Header::new("x-cf-forwarded-url", "\u{2003}");
    let (_, b) = reject_text(dispatcher(false).decide(&h));
    assert_eq!(b, "Did not find x-cf-forwarded-url header in request");
}

#[test]
fn dispatcher_knows_routing_names() {
    let d = dispatcher(false);
    assert!(d.is_routing_header("x-cf-proxy-signature"));
    assert!(d.is_routing_header("X-CF-PROXY-METADATA"));
    assert!(!d.is_routing_header("x-cf-proxy"));
    assert!(!d.is_routing_header("content-type"));
}
