use kube_playground::config::{
    addr, host_ip, join_host_port, or_default, port, sentry_environment, statsd_port, statsd_uri,
    DEFAULT_ENVIRONMENT, DEFAULT_IP, DEFAULT_PORT, DEFAULT_STATSD_PORT,
};

#[test]
fn or_default_prefers_configured_value() {
    assert_eq!(or_default(Some("x".to_string()), "d"), "x");
    assert_eq!(or_default(Some(String::new()), "d"), "");
}

#[test]
fn or_default_falls_back_to_default() {
    assert_eq!(or_default(None, "d"), "d");
}

#[test]
fn defaults_of_the_services() {
    assert_eq!(DEFAULT_IP, "127.0.0.1");
    assert_eq!(DEFAULT_PORT, "8080");
    assert_eq!(DEFAULT_STATSD_PORT, "8125");
    assert_eq!(DEFAULT_ENVIRONMENT, "development");
    assert_eq!(host_ip(None), "127.0.0.1");
    assert_eq!(port(None), "8080");
    assert_eq!(statsd_port(None), "8125");
    assert_eq!(sentry_environment(None), "development");
}

#[test]
fn configured_values_win() {
    assert_eq!(host_ip(Some("0.0.0.0".to_string())), "0.0.0.0");
    assert_eq!(port(Some("9000".to_string())), "9000");
    assert_eq!(statsd_port(Some("9125".to_string())), "9125");
    assert_eq!(sentry_environment(Some("production".to_string())), "production");
}

#[test]
fn join_writes_host_colon_port() {
    assert_eq!(join_host_port("localhost", "80"), "localhost:80");
    assert_eq!(join_host_port("", ""), ":");
}

#[test]
fn statsd_uri_needs_a_host() {
    assert_eq!(statsd_uri(None, "8125".to_string()), None);
    assert_eq!(
        statsd_uri(Some("statsd.local".to_string()), "8125".to_string()),
        Some("statsd.local:8125".to_string())
    );
}

#[test]
fn addr_of_the_defaults() {
    assert_eq!(addr(&host_ip(None), &port(None)), "127.0.0.1:8080");
    assert_eq!(addr("::1", "80"), "::1:80");
}

#[test]
fn release_is_name_at_version() {
    assert_eq!(kube_playground::config::release_name("sentry-test", "0.1.0"), "sentry-test@0.1.0");
    assert_eq!(kube_playground::config::release_name("", ""), "@");
}
