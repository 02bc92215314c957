use kube_playground::metrics::{
    any_untyped_family,
    metrics_update, render_metrics, report_text, status_label, MetricsUpdate, ReportError,
    RequestOutcome,
};

#[test]
fn status_labels_are_decimal() {
    assert_eq!(status_label(0), "0");
    assert_eq!(status_label(7), "7");
    assert_eq!(status_label(10), "10");
    assert_eq!(status_label(200), "200");
    assert_eq!(status_label(404), "404");
    assert_eq!(status_label(65535), "65535");
}

#[test]
fn status_labels_match_display_of_status_codes() {
    for code in 0u16..=u16::MAX {
        assert_eq!(status_label(code), code.to_string());
    }
}

#[test]
fn distinct_statuses_get_distinct_labels() {
    assert_ne!(status_label(20), status_label(200));
    assert_ne!(status_label(1), status_label(10));
}

#[test]
fn a_response_is_counted_under_its_status() {
    assert_eq!(
        metrics_update(RequestOutcome::Responded(200)),
        MetricsUpdate::Response { status_label: "200".to_string() }
    );
    assert_eq!(
        metrics_update(RequestOutcome::Responded(500)),
        MetricsUpdate::Response { status_label: "500".to_string() }
    );
}

#[test]
fn a_failure_is_counted_as_failure() {
    assert_eq!(metrics_update(RequestOutcome::Failed), MetricsUpdate::Failure);
}

#[test]
fn report_text_of_encoded_bytes() {
    assert_eq!(report_text(Ok(b"a 1\n".to_vec())), Ok("a 1\n".to_string()));
    assert_eq!(report_text(Ok(Vec::new())), Ok(String::new()));
}

#[test]
fn report_text_of_bytes_that_are_not_utf8() {
    assert_eq!(report_text(Ok(vec![0x80])), Err(ReportError::NotUtf8));
}

#[test]
fn report_text_of_an_encoder_error() {
    let err = prometheus::Error::Msg("no metrics".to_string());
    assert_eq!(report_text(Err(err)), Err(ReportError::Encoding));
}

#[test]
fn render_metrics_of_a_registry() {
    let registry = prometheus::Registry::new();
    let counter = prometheus::IntCounter::new("request_failures_all", "Counts failures").unwrap();
    registry.register(Box::new(counter.clone())).unwrap();
    counter.inc();
    counter.inc();
    let text = render_metrics(&registry.gather()).unwrap();
    assert_eq!(
        text,
        "# HELP request_failures_all Counts failures\n# TYPE request_failures_all counter\nrequest_failures_all 2\n"
    );
}

#[test]
fn render_metrics_of_nothing() {
    assert_eq!(render_metrics(&Vec::new()), Ok(String::new()));
}

#[test]
fn render_metrics_of_an_empty_family_fails() {
    let family = prometheus::proto::MetricFamily::default();
    assert_eq!(render_metrics(&vec![family]), Err(ReportError::Encoding));
}

fn untyped_family() -> prometheus::proto::MetricFamily {
    let mut family = prometheus::proto::MetricFamily::default();
    family.set_name("legacy".to_string());
    family.set_field_type(prometheus::proto::MetricType::UNTYPED);
    family.set_metric(vec![prometheus::proto::Metric::default()]);
    family
}

#[test]
fn render_metrics_of_an_untyped_family() {
    assert_eq!(render_metrics(&vec![untyped_family()]), Err(ReportError::Untyped));
}

#[test]
fn untyped_family_is_found_anywhere() {
    let registry = prometheus::Registry::new();
    let counter = prometheus::IntCounter::new("c", "h").unwrap();
    registry.register(Box::new(counter.clone())).unwrap();
    let mut families = registry.gather();
    assert!(!any_untyped_family(&families));
    assert!(!any_untyped_family(&Vec::new()));
    families.push(untyped_family());
    assert!(any_untyped_family(&families));
    assert_eq!(render_metrics(&families), Err(ReportError::Untyped));
}
