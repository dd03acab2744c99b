use trillium_opentelemetry::attributes::{
    header_attribute, is_http_version, is_server_error, metrics_attributes, resolve_error_type,
    server_address_and_port_from_host, status_or_not_found, version_number,
};
use trillium_opentelemetry::{AttrValue, Attribute, ConnSnapshot};

fn conn(method: &str, status: Option<u16>) -> ConnSnapshot {
    ConnSnapshot {
        method: method.to_string(),
        path: "/some/123".to_string(),
        query: "a=1".to_string(),
        is_secure: false,
        http_version: "HTTP/1.1".to_string(),
        peer_ip: Some("10.0.0.1".to_string()),
        user_agent: Some("curl/8.0".to_string()),
        content_length: Some("10".to_string()),
        status,
        response_len: Some(2),
    }
}

fn value<'a>(attrs: &'a [Attribute], key: &str) -> Option<&'a AttrValue> {
    attrs.iter().find(|a| a.key == key).map(|a| &a.value)
}

fn text(s: &str) -> AttrValue {
    AttrValue::Str(s.to_string())
}

#[test]
fn version_prefix_is_recognized() {
    assert!(is_http_version("HTTP/1.1"));
    assert!(is_http_version("HTTP/2"));
    assert!(!is_http_version("HTTX/1.1"));
    assert!(!is_http_version("HTTP"));
    assert!(!is_http_version(""));
}

#[test]
fn version_number_drops_prefix() {
    assert_eq!(version_number("HTTP/1.1"), "1.1");
    assert_eq!(version_number("HTTP/2"), "2");
    assert_eq!(version_number("HTTP/0.9"), "0.9");
}

#[test]
fn missing_status_counts_as_not_found() {
    assert_eq!(status_or_not_found(None), 404);
    assert_eq!(status_or_not_found(Some(201)), 201);
}

#[test]
fn server_error_range() {
    assert!(is_server_error(500));
    assert!(is_server_error(599));
    assert!(!is_server_error(600));
    assert!(!is_server_error(499));
    assert!(!is_server_error(200));
}

#[test]
fn classifier_answer_comes_first() {
    assert_eq!(
        resolve_error_type(Some("timeout".to_string()), Some(500)),
        Some("timeout".to_string())
    );
    assert_eq!(
        resolve_error_type(Some("bad_input".to_string()), Some(200)),
        Some("bad_input".to_string())
    );
}

#[test]
fn server_error_status_gives_error_type() {
    assert_eq!(resolve_error_type(None, Some(500)), Some("500".to_string()));
    assert_eq!(resolve_error_type(None, Some(503)), Some("503".to_string()));
    assert_eq!(resolve_error_type(None, Some(599)), Some("599".to_string()));
}

#[test]
fn other_statuses_give_no_error_type() {
    assert_eq!(resolve_error_type(None, Some(200)), None);
    assert_eq!(resolve_error_type(None, Some(404)), None);
    assert_eq!(resolve_error_type(None, None), None);
}

#[test]
fn host_with_port() {
    assert_eq!(
        server_address_and_port_from_host("example.com:8080", false),
        ("example.com".to_string(), 8080)
    );
}

#[test]
fn host_without_port_takes_scheme_default() {
    assert_eq!(
        server_address_and_port_from_host("example.com", true),
        ("example.com".to_string(), 443)
    );
    assert_eq!(
        server_address_and_port_from_host("example.com", false),
        ("example.com".to_string(), 80)
    );
}

#[test]
fn host_with_unreadable_port_is_kept_whole() {
    assert_eq!(
        server_address_and_port_from_host("[::1]:8080", false),
        ("[::1]:8080".to_string(), 80)
    );
    assert_eq!(
        server_address_and_port_from_host("example.com:99999", true),
        ("example.com:99999".to_string(), 443)
    );
}

#[test]
fn header_attribute_key_and_values() {
    let a = header_attribute("accept", vec!["text/html".to_string(), "*/*".to_string()]);
    assert_eq!(a.key, "http.request.header.accept");
    assert_eq!(
        a.value,
        AttrValue::StrArray(vec!["text/html".to_string(), "*/*".to_string()])
    );
}

#[test]
fn metrics_attributes_in_order() {
    let attrs = metrics_attributes(
        &conn("GET", Some(200)),
        Some("/some/:path".to_string()),
        None,
        None,
    );
    let keys: Vec<&str> = attrs.iter().map(|a| a.key.as_str()).collect();
    assert_eq!(
        keys,
        vec![
            "http.request.method",
            "http.response.status_code",
            "network.protocol.name",
            "url.scheme",
            "network.protocol.version",
            "http.route",
        ]
    );
    assert_eq!(value(&attrs, "http.request.method"), Some(&text("GET")));
    assert_eq!(value(&attrs, "http.response.status_code"), Some(&AttrValue::Int(200)));
    assert_eq!(value(&attrs, "network.protocol.name"), Some(&text("http")));
    assert_eq!(value(&attrs, "url.scheme"), Some(&text("http")));
    assert_eq!(value(&attrs, "network.protocol.version"), Some(&text("1.1")));
    assert_eq!(value(&attrs, "http.route"), Some(&text("/some/:path")));
}

#[test]
fn secure_connection_has_https_scheme() {
    let mut c = conn("POST", Some(201));
    c.is_secure = true;
    c.http_version = "HTTP/2".to_string();
    let attrs = metrics_attributes(&c, None, None, None);
    assert_eq!(value(&attrs, "url.scheme"), Some(&text("https")));
    assert_eq!(value(&attrs, "network.protocol.version"), Some(&text("2")));
    assert_eq!(value(&attrs, "http.route"), None);
}

#[test]
fn metrics_error_type_from_classifier() {
    let attrs = metrics_attributes(
        &conn("GET", Some(500)),
        None,
        Some("db_unavailable".to_string()),
        None,
    );
    assert_eq!(value(&attrs, "error.type"), Some(&text("db_unavailable")));
}

#[test]
fn metrics_error_type_from_status() {
    let attrs = metrics_attributes(&conn("GET", Some(502)), None, None, None);
    assert_eq!(value(&attrs, "error.type"), Some(&text("502")));
    let attrs = metrics_attributes(&conn("GET", Some(404)), None, None, None);
    assert_eq!(value(&attrs, "error.type"), None);
    let attrs = metrics_attributes(&conn("GET", None), None, None, None);
    assert_eq!(value(&attrs, "error.type"), None);
    assert_eq!(value(&attrs, "http.response.status_code"), Some(&AttrValue::Int(404)));
}

#[test]
fn metrics_server_attributes_only_when_opted_in() {
    let attrs = metrics_attributes(&conn("GET", Some(200)), None, None, None);
    assert_eq!(value(&attrs, "server.address"), None);
    assert_eq!(value(&attrs, "server.port"), None);
    let attrs = metrics_attributes(
        &conn("GET", Some(200)),
        None,
        None,
        Some(("example.com".to_string(), 8443)),
    );
    assert_eq!(value(&attrs, "server.address"), Some(&text("example.com")));
    assert_eq!(value(&attrs, "server.port"), Some(&AttrValue::Int(8443)));
}
