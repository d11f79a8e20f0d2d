use mysten_infra::mysten_network::metrics::{
    MetricsCallbackProvider, MetricsHandler, GRPC_ENDPOINT_PATH_HEADER,
};
use mysten_infra::span_latency_prom::{checked_num_buckets, PrometheusSpanError};
use std::sync::{Arc, Mutex};
use std::time::Duration;

#[derive(Clone, Default)]
struct Recorder {
    events: Arc<Mutex<Vec<String>>>,
}

impl MetricsCallbackProvider for Recorder {
    fn on_request(&self, path: String) {
        self.events.lock().unwrap().push(format!("request {}", path));
    }

    fn on_response(&self, path: String, latency: Duration, status: u16) {
        self.events
            .lock()
            .unwrap()
            .push(format!("response {} {} {}", path, latency.as_millis(), status));
    }
}

#[test]
fn handler_reports_to_its_provider() {
    let recorder = Recorder::default();
    let handler = MetricsHandler { metrics_provider: Some(recorder.clone()) };
    assert_eq!(handler.on_request("/a/b".to_string()), Some("/a/b".to_string()));
    assert_eq!(
        handler.on_response("/a/b".to_string(), Duration::from_millis(12), 200),
        Some(("/a/b".to_string(), Duration::from_millis(12), 200))
    );
    assert_eq!(
        *recorder.events.lock().unwrap(),
        vec!["request /a/b".to_string(), "response /a/b 12 200".to_string()]
    );
}

#[test]
fn handler_without_provider_reports_nothing() {
    let handler: MetricsHandler<()> = MetricsHandler { metrics_provider: None };
    assert_eq!(handler.on_request("/a".to_string()), None);
    assert_eq!(handler.on_response("/a".to_string(), Duration::from_millis(1), 404), None);
    assert_eq!(handler.request_report("/a".to_string()), None);
    let unit = MetricsHandler { metrics_provider: Some(()) };
    assert_eq!(
        unit.response_report("/a".to_string(), Duration::from_millis(1), 404),
        Some(("/a".to_string(), Duration::from_millis(1), 404))
    );
    assert_eq!(unit.request_report("/b".to_string()), Some("/b".to_string()));
    assert_eq!(GRPC_ENDPOINT_PATH_HEADER, "grpc-path-req");
}

#[test]
fn bucket_count_must_be_positive() {
    assert!(matches!(checked_num_buckets(0), Err(PrometheusSpanError::ZeroOrNegativeNumBuckets)));
    assert!(matches!(checked_num_buckets(1), Ok(1)));
    assert!(matches!(checked_num_buckets(10), Ok(10)));
}

#[test]
fn prometheus_errors_convert() {
    let e = PrometheusSpanError::from(prometheus::Error::Msg("bad".to_string()));
    assert!(matches!(e, PrometheusSpanError::PromError(prometheus::Error::Msg(m)) if m == "bad"));
}
