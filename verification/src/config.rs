use vstd::prelude::*;
use vstd::string::*;

verus! {

/// Host the web service binds to when `HOST_IP` is not set.
pub const DEFAULT_IP: &'static str = "127.0.0.1";

/// Port the web service binds to when `PORT` is not set.
pub const DEFAULT_PORT: &'static str = "8080";

/// Port of the statsd daemon when `STATSD_PORT` is not set.
pub const DEFAULT_STATSD_PORT: &'static str = "8125";

/// Sentry environment when `SENTRY_ENVIRONMENT` is not set.
pub const DEFAULT_ENVIRONMENT: &'static str = "development";

/// The configured text if there is one, else the default.
pub open spec fn configured_or(value: Option<String>, default: Seq<char>) -> Seq<char> {
    match value {
        Some(v) => v@,
        None => default,
    }
}

/// A configured value is taken whole, whatever its length or content; the default stands
/// only where nothing is configured.
pub proof fn lemma_configured_value_wins(value: Option<String>, default: Seq<char>)
    ensures
        value matches Some(v) ==> configured_or(value, default) == v@,
        value is None ==> configured_or(value, default) == default,
{
}

/// Picks the configured value when there is one, the default otherwise.
pub fn or_default(value: Option<String>, default: &str) -> (r: String)
    ensures
        r@ == configured_or(value, default@),
        value matches Some(v) ==> r@ == v@,
        value is None ==> r@ == default@,
{
    match value {
        Some(v) => v,
        None => default.to_owned(),
    }
}

/// The web service's host: the value of `HOST_IP`, or [`DEFAULT_IP`].
pub fn host_ip(configured: Option<String>) -> (r: String)
    ensures
        r@ == configured_or(configured, DEFAULT_IP@),
        configured matches Some(v) ==> r@ == v@,
        configured is None ==> r@ == DEFAULT_IP@,
{
    or_default(configured, DEFAULT_IP)
}

/// The web service's port: the value of `PORT`, or [`DEFAULT_PORT`].
pub fn port(configured: Option<String>) -> (r: String)
    ensures
        r@ == configured_or(configured, DEFAULT_PORT@),
        configured matches Some(v) ==> r@ == v@,
        configured is None ==> r@ == DEFAULT_PORT@,
{
    or_default(configured, DEFAULT_PORT)
}

/// The statsd port: the value of `STATSD_PORT`, or [`DEFAULT_STATSD_PORT`].
pub fn statsd_port(configured: Option<String>) -> (r: String)
    ensures
        r@ == configured_or(configured, DEFAULT_STATSD_PORT@),
        configured matches Some(v) ==> r@ == v@,
        configured is None ==> r@ == DEFAULT_STATSD_PORT@,
{
    or_default(configured, DEFAULT_STATSD_PORT)
}

/// The Sentry environment: the value of `SENTRY_ENVIRONMENT`, or [`DEFAULT_ENVIRONMENT`].
pub fn sentry_environment(configured: Option<String>) -> (r: String)
    ensures
        r@ == configured_or(configured, DEFAULT_ENVIRONMENT@),
        configured matches Some(v) ==> r@ == v@,
        configured is None ==> r@ == DEFAULT_ENVIRONMENT@,
{
    or_default(configured, DEFAULT_ENVIRONMENT)
}

/// `host:port`.
pub open spec fn host_port(host: Seq<char>, port: Seq<char>) -> Seq<char> {
    host + ":"@ + port
}

/// `host:port` is the whole host, one colon, then the whole port, for texts of every length:
/// nothing is cut and nothing is added.
pub proof fn lemma_host_port_parts(host: Seq<char>, port: Seq<char>)
    ensures
        host_port(host, port).len() == host.len() + 1 + port.len(),
        host_port(host, port).subrange(0, host.len() as int) == host,
        host_port(host, port)[host.len() as int] == ':',
        host_port(host, port).subrange(host.len() + 1int, host_port(host, port).len() as int)
            == port,
{
    reveal_strlit(":");
    let t = host_port(host, port);
    assert(t.subrange(0, host.len() as int) =~= host);
    assert(t.subrange(host.len() + 1int, t.len() as int) =~= port);
}

/// Writes `host:port`.
pub fn join_host_port(host: &str, port: &str) -> (r: String)
    ensures
        r@ == host_port(host@, port@),
        r@.len() == host@.len() + 1 + port@.len(),
        r@.subrange(0, host@.len() as int) == host@,
        r@[host@.len() as int] == ':',
        r@.subrange(host@.len() + 1int, r@.len() as int) == port@,
{
    let mut text = host.to_owned();
    text.append(":");
    text.append(port);
    proof {
        lemma_host_port_parts(host@, port@);
    }
    text
}

/// The statsd URI: `host:port` when a statsd host is configured, `None` otherwise.
pub fn statsd_uri(host: Option<String>, port: String) -> (r: Option<String>)
    ensures
        r is Some <==> host is Some,
        host matches Some(h) ==> r matches Some(u) && u@ == host_port(h@, port@),
        host matches Some(h) ==> r matches Some(u) && {
            &&& u@.len() == h@.len() + 1 + port@.len()
            &&& u@.subrange(0, h@.len() as int) == h@
            &&& u@[h@.len() as int] == ':'
            &&& u@.subrange(h@.len() + 1int, u@.len() as int) == port@
        },
{
    match host {
        Some(h) => Some(join_host_port(h.as_str(), port.as_str())),
        None => None,
    }
}

/// The release a Sentry client reports: `name@version`.
pub fn release_name(name: &str, version: &str) -> (r: String)
    ensures
        r@ == name@ + "@"@ + version@,
{
    let mut text = name.to_owned();
    text.append("@");
    text.append(version);
    text
}

/// The text of the web service's listening address, `host_ip:port`, which the service then
/// reads as a socket address.
pub fn addr(host_ip: &str, port: &str) -> (r: String)
    ensures
        r@ == host_port(host_ip@, port@),
        r@.len() == host_ip@.len() + 1 + port@.len(),
        r@.subrange(0, host_ip@.len() as int) == host_ip@,
        r@[host_ip@.len() as int] == ':',
        r@.subrange(host_ip@.len() + 1int, r@.len() as int) == port@,
{
    join_host_port(host_ip, port)
}

} // verus!
