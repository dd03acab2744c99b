use trillium_opentelemetry::trace::{
    send_error_description, span_end_attributes, span_start, span_update,
};
use trillium_opentelemetry::{
    AttrValue, Attribute, ConnSnapshot, HostEvent, MirroredHeader, SpanPhase, SpanStep,
};

fn conn(method: &str, status: Option<u16>) -> ConnSnapshot {
    ConnSnapshot {
        method: method.to_string(),
        path: "/some/123".to_string(),
        query: "q=1".to_string(),
        is_secure: true,
        http_version: "HTTP/1.1".to_string(),
        peer_ip: Some("192.0.2.7".to_string()),
        user_agent: Some("test-agent".to_string()),
        content_length: None,
        status,
        response_len: None,
    }
}

fn value<'a>(attrs: &'a [Attribute], key: &str) -> Option<&'a AttrValue> {
    attrs.iter().find(|a| a.key == key).map(|a| &a.value)
}

fn text(s: &str) -> AttrValue {
    AttrValue::Str(s.to_string())
}

fn run_span(events: &[HostEvent]) -> (SpanPhase, Vec<SpanStep>) {
    let mut phase = SpanPhase::Absent;
    let mut steps = vec![];
    for e in events {
        let (next, step) = phase.step(*e);
        phase = next;
        if step != SpanStep::Nothing {
            steps.push(step);
        }
    }
    (phase, steps)
}

#[test]
fn span_start_with_route() {
    let s = span_start(
        &conn("GET", None),
        None,
        &vec![],
        None,
        Some("/some/:path".to_string()),
    );
    assert_eq!(s.name, "GET /some/:path");
    assert!(s.route_was_available);
    assert_eq!(value(&s.attributes, "http.route"), Some(&text("/some/:path")));
}

#[test]
fn span_start_attributes_in_order() {
    let headers = vec![MirroredHeader {
        name: "Accept".to_string(),
        values: vec!["text/html".to_string()],
    }];
    let s = span_start(
        &conn("GET", None),
        Some(("127.0.0.1".to_string(), 8080)),
        &headers,
        None,
        None,
    );
    let keys: Vec<&str> = s.attributes.iter().map(|a| a.key.as_str()).collect();
    assert_eq!(
        keys,
        vec![
            "http.request.method",
            "url.path",
            "url.scheme",
            "url.query",
            "network.protocol.name",
            "network.protocol.version",
            "network.local.address",
            "network.local.port",
            "client.address",
            "http.request.header.accept",
            "user_agent.original",
        ]
    );
    assert_eq!(value(&s.attributes, "url.path"), Some(&text("/some/123")));
    assert_eq!(value(&s.attributes, "url.scheme"), Some(&text("https")));
    assert_eq!(value(&s.attributes, "url.query"), Some(&text("q=1")));
    assert_eq!(value(&s.attributes, "network.local.port"), Some(&AttrValue::Int(8080)));
    assert_eq!(value(&s.attributes, "client.address"), Some(&text("192.0.2.7")));
    assert_eq!(
        value(&s.attributes, "http.request.header.accept"),
        Some(&AttrValue::StrArray(vec!["text/html".to_string()]))
    );
    assert_eq!(value(&s.attributes, "user_agent.original"), Some(&text("test-agent")));
}

#[test]
fn mirrored_header_name_is_lower_cased() {
    let headers = vec![MirroredHeader {
        name: "X-Request-ID".to_string(),
        values: vec!["a".to_string(), "b".to_string()],
    }];
    let s = span_start(&conn("GET", None), None, &headers, None, None);
    assert_eq!(
        value(&s.attributes, "http.request.header.x-request-id"),
        Some(&AttrValue::StrArray(vec!["a".to_string(), "b".to_string()]))
    );
}

#[test]
fn span_server_attributes_only_when_opted_in() {
    let headers = vec![MirroredHeader {
        name: "Host".to_string(),
        values: vec!["attacker.example:1234".to_string()],
    }];
    let s = span_start(&conn("GET", None), None, &headers, None, None);
    assert_eq!(value(&s.attributes, "server.address"), None);
    assert_eq!(value(&s.attributes, "server.port"), None);
    let s = span_start(
        &conn("GET", None),
        None,
        &headers,
        Some(("example.com".to_string(), 443)),
        None,
    );
    assert_eq!(value(&s.attributes, "server.address"), Some(&text("example.com")));
    assert_eq!(value(&s.attributes, "server.port"), Some(&AttrValue::Int(443)));
}

#[test]
fn late_route_renames_span() {
    let c = conn("GET", Some(200));
    let s = span_start(&c, None, &vec![], None, None);
    assert_eq!(s.name, "GET");
    assert!(!s.route_was_available);
    let u = span_update(&c, s.route_was_available, Some("/users/:id".to_string()), None);
    assert_eq!(u.rename, Some("GET /users/:id".to_string()));
    assert_eq!(value(&u.attributes, "http.route"), Some(&text("/users/:id")));
}

#[test]
fn known_route_is_not_resolved_again() {
    let c = conn("GET", Some(200));
    let u = span_update(&c, true, Some("/other".to_string()), None);
    assert_eq!(u.rename, None);
    assert_eq!(value(&u.attributes, "http.route"), None);
}

#[test]
fn unmatched_route_with_server_error() {
    let c = conn("GET", Some(500));
    let s = span_start(&c, None, &vec![], None, None);
    let u = span_update(&c, s.route_was_available, None, None);
    assert!(u.error_status);
    assert_eq!(u.rename, None);
    assert_eq!(s.name, "GET");
    assert_eq!(value(&u.attributes, "error.type"), Some(&text("500")));
    assert_eq!(value(&u.attributes, "http.response.status_code"), Some(&AttrValue::Int(500)));
}

#[test]
fn span_error_type_from_classifier() {
    let c = conn("GET", Some(200));
    let u = span_update(&c, false, None, Some("auth_failed".to_string()));
    assert!(!u.error_status);
    assert_eq!(value(&u.attributes, "error.type"), Some(&text("auth_failed")));
}

#[test]
fn missing_status_is_no_span_error() {
    let c = conn("GET", None);
    let u = span_update(&c, false, None, None);
    assert!(!u.error_status);
    assert_eq!(value(&u.attributes, "error.type"), None);
    assert_eq!(value(&u.attributes, "http.response.status_code"), Some(&AttrValue::Int(404)));
}

#[test]
fn failed_send_marks_span() {
    assert_eq!(send_error_description(), "http send error");
    assert!(span_end_attributes(true).is_empty());
    let a = span_end_attributes(false);
    assert_eq!(a.len(), 1);
    assert_eq!(value(&a, "error.type"), Some(&text("http send error")));
}

#[test]
fn span_ends_once_after_send() {
    let (phase, steps) = run_span(&[
        HostEvent::Run,
        HostEvent::BeforeSend,
        HostEvent::Sent { success: true },
    ]);
    assert_eq!(phase, SpanPhase::Ended);
    assert_eq!(
        steps,
        vec![SpanStep::Start, SpanStep::Update, SpanStep::End { send_failed: false }]
    );
}

#[test]
fn aborted_request_span_ends_once() {
    let (phase, steps) = run_span(&[
        HostEvent::Run,
        HostEvent::BeforeSend,
        HostEvent::BeforeSend,
        HostEvent::Sent { success: false },
        HostEvent::Sent { success: true },
        HostEvent::Run,
    ]);
    assert_eq!(phase, SpanPhase::Ended);
    assert_eq!(
        steps,
        vec![SpanStep::Start, SpanStep::Update, SpanStep::End { send_failed: true }]
    );
}

#[test]
fn request_without_span_never_ends_one() {
    let (phase, steps) = run_span(&[HostEvent::BeforeSend, HostEvent::Sent { success: true }]);
    assert_eq!(phase, SpanPhase::Absent);
    assert!(steps.is_empty());
}
