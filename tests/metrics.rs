use trillium_opentelemetry::metrics::{metrics_plan, HistogramKind};
use trillium_opentelemetry::{
    AttrValue, Attribute, ConnSnapshot, HistogramSetup, HostEvent, Measurement, MetricsPhase,
};
use trillium_opentelemetry::metrics::MetricsStep;

fn conn(status: Option<u16>, content_length: Option<&str>, response_len: Option<u64>) -> ConnSnapshot {
    ConnSnapshot {
        method: "GET".to_string(),
        path: "/some/123".to_string(),
        query: String::new(),
        is_secure: false,
        http_version: "HTTP/1.1".to_string(),
        peer_ip: None,
        user_agent: None,
        content_length: content_length.map(|s| s.to_string()),
        status,
        response_len,
    }
}

fn value<'a>(attrs: &'a [Attribute], key: &str) -> Option<&'a AttrValue> {
    attrs.iter().find(|a| a.key == key).map(|a| &a.value)
}

fn run_metrics(events: &[HostEvent]) -> (MetricsPhase, Vec<MetricsStep>) {
    let mut phase = MetricsPhase::Unmarked;
    let mut steps = vec![];
    for e in events {
        let (next, step) = phase.step(*e);
        phase = next;
        if step != MetricsStep::Nothing {
            steps.push(step);
        }
    }
    (phase, steps)
}

#[test]
fn routed_get_is_measured() {
    let (_, steps) = run_metrics(&[
        HostEvent::Run,
        HostEvent::BeforeSend,
        HostEvent::Sent { success: true },
    ]);
    assert_eq!(steps, vec![MetricsStep::Mark, MetricsStep::Schedule, MetricsStep::Record]);
    let plan = metrics_plan(
        &conn(Some(200), Some("10"), Some(2)),
        Some("/some/:path".to_string()),
        None,
        None,
    );
    assert_eq!(value(&plan.attributes, "http.route"), Some(&AttrValue::Str("/some/:path".to_string())));
    assert_eq!(value(&plan.attributes, "http.request.method"), Some(&AttrValue::Str("GET".to_string())));
    assert_eq!(value(&plan.attributes, "http.response.status_code"), Some(&AttrValue::Int(200)));
    assert_eq!(value(&plan.attributes, "error.type"), None);
    assert_eq!(
        plan.measurements(),
        vec![Measurement::Duration, Measurement::ResponseSize(2), Measurement::RequestSize(10)]
    );
}

#[test]
fn unmatched_server_error_is_measured() {
    let (_, steps) = run_metrics(&[
        HostEvent::Run,
        HostEvent::BeforeSend,
        HostEvent::Sent { success: true },
    ]);
    assert_eq!(steps.iter().filter(|s| **s == MetricsStep::Record).count(), 1);
    let plan = metrics_plan(&conn(Some(500), None, None), None, None, None);
    assert_eq!(value(&plan.attributes, "error.type"), Some(&AttrValue::Str("500".to_string())));
    assert_eq!(value(&plan.attributes, "http.route"), None);
    assert_eq!(plan.measurements(), vec![Measurement::Duration]);
}

#[test]
fn malformed_content_length_is_not_measured() {
    let plan = metrics_plan(&conn(Some(200), Some("ten"), None), None, None, None);
    assert_eq!(plan.request_len, None);
    assert_eq!(plan.measurements(), vec![Measurement::Duration]);
    let plan = metrics_plan(&conn(Some(200), Some("+5"), Some(0)), None, None, None);
    assert_eq!(plan.request_len, Some(5));
    assert_eq!(
        plan.measurements(),
        vec![Measurement::Duration, Measurement::ResponseSize(0), Measurement::RequestSize(5)]
    );
}

#[test]
fn request_never_run_is_not_measured() {
    let (phase, steps) = run_metrics(&[HostEvent::BeforeSend, HostEvent::Sent { success: true }]);
    assert_eq!(phase, MetricsPhase::Unmarked);
    assert!(steps.is_empty());
}

#[test]
fn reentered_request_is_measured_once() {
    let (phase, steps) = run_metrics(&[
        HostEvent::Run,
        HostEvent::Run,
        HostEvent::BeforeSend,
        HostEvent::BeforeSend,
        HostEvent::Sent { success: false },
        HostEvent::Run,
        HostEvent::Sent { success: true },
    ]);
    assert_eq!(phase, MetricsPhase::Recorded);
    assert_eq!(steps, vec![MetricsStep::Mark, MetricsStep::Schedule, MetricsStep::Record]);
}

#[test]
fn boundaries_taken_before_initialization() {
    let mut setup: HistogramSetup<Vec<u32>> = HistogramSetup::new();
    assert!(!setup.is_built());
    assert!(setup.set_boundaries(HistogramKind::Duration, vec![1, 2]));
    assert!(setup.set_boundaries(HistogramKind::ResponseSize, vec![10]));
    let b = setup.initialize().expect("first initialization");
    assert_eq!(b.duration, Some(vec![1, 2]));
    assert_eq!(b.request_size, None);
    assert_eq!(b.response_size, Some(vec![10]));
    assert!(setup.is_built());
}

#[test]
fn setup_after_initialization_is_ignored() {
    let mut setup: HistogramSetup<Vec<u32>> = HistogramSetup::new();
    assert!(setup.initialize().is_some());
    assert!(!setup.set_boundaries(HistogramKind::RequestSize, vec![5]));
    assert!(setup.initialize().is_none());
    assert!(setup.is_built());
}
