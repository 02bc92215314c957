use prometheus::Encoder;
use vstd::prelude::*;
use vstd::string::*;
use vstd::utf8::*;

use crate::text::utf8_to_string;

verus! {

/// The character of the decimal digit `d`.
pub open spec fn digit_char(d: nat) -> char {
    (48 + d) as char
}

/// The decimal writing of `n`, most significant digit first, without leading zeros.
pub open spec fn decimal(n: nat) -> Seq<char>
    decreases n,
{
    if n < 10 {
        seq![digit_char(n)]
    } else {
        decimal(n / 10).push(digit_char(n % 10))
    }
}

/// The text of one decimal digit.
fn digit_str(d: u16) -> (r: &'static str)
    requires
        d < 10,
    ensures
        r@ == seq![digit_char(d as nat)],
{
    proof {
        reveal_strlit("0");
        reveal_strlit("1");
        reveal_strlit("2");
        reveal_strlit("3");
        reveal_strlit("4");
        reveal_strlit("5");
        reveal_strlit("6");
        reveal_strlit("7");
        reveal_strlit("8");
        reveal_strlit("9");
    }
    match d {
        0 => "0",
        1 => "1",
        2 => "2",
        3 => "3",
        4 => "4",
        5 => "5",
        6 => "6",
        7 => "7",
        8 => "8",
        _ => "9",
    }
}

/// The label under which responses with status `status` are counted: the status code
/// in decimal, as an HTTP status code displays.
pub fn status_label(status: u16) -> (r: String)
    ensures
        r@ == decimal(status as nat),
    decreases status,
{
    if status < 10 {
        digit_str(status).to_owned()
    } else {
        let mut label = status_label(status / 10);
        label.append(digit_str(status % 10));
        proof {
            assert(label@ =~= decimal(status as nat));
        }
        label
    }
}

proof fn lemma_decimal_len(n: nat)
    ensures
        n < 10 ==> decimal(n).len() == 1,
        n >= 10 ==> decimal(n).len() >= 2,
    decreases n,
{
    if n >= 10 {
        lemma_decimal_len(n / 10);
    }
}

proof fn lemma_digit_char_injective(a: nat, b: nat)
    requires
        a < 10,
        b < 10,
        digit_char(a) == digit_char(b),
    ensures
        a == b,
{
    assert(digit_char(a) as u32 == 48 + a) by {
        vstd::utf8::char_u32_cast(digit_char(a), (48 + a) as u32);
    }
    assert(digit_char(b) as u32 == 48 + b) by {
        vstd::utf8::char_u32_cast(digit_char(b), (48 + b) as u32);
    }
}

proof fn lemma_decimal_injective(a: nat, b: nat)
    requires
        decimal(a) == decimal(b),
    ensures
        a == b,
    decreases a,
{
    lemma_decimal_len(a);
    lemma_decimal_len(b);
    if a < 10 {
        assert(decimal(a)[0] == digit_char(a));
        assert(decimal(b)[0] == digit_char(b));
        lemma_digit_char_injective(a, b);
    } else {
        assert(decimal(a).last() == digit_char(a % 10));
        assert(decimal(b).last() == digit_char(b % 10));
        lemma_digit_char_injective(a % 10, b % 10);
        assert(decimal(a).drop_last() =~= decimal(a / 10));
        assert(decimal(b).drop_last() =~= decimal(b / 10));
        lemma_decimal_injective(a / 10, b / 10);
    }
}

/// Decimal writing: a digit below ten is its one character `'0'`..`'9'`, and appending a
/// digit `d` to the writing of `m > 0` writes `10 * m + d`. Every character is a digit, and
/// only zero starts with `'0'`.
pub proof fn lemma_decimal_writing(m: nat, d: nat)
    requires
        d < 10,
    ensures
        decimal(d) == seq![(48 + d) as char],
        m > 0 ==> decimal(10 * m + d) == decimal(m) + seq![(48 + d) as char],
        forall|k: int| 0 <= k < decimal(m).len() ==> '0' <= #[trigger] decimal(m)[k] <= '9',
        m > 0 ==> decimal(m)[0] != '0',
{
    if m > 0 {
        assert((10 * m + d) / 10 == m);
        assert((10 * m + d) % 10 == d);
        assert(decimal(10 * m + d) =~= decimal(m) + seq![(48 + d) as char]);
    }
    lemma_decimal_digits(m);
}

proof fn lemma_decimal_digits(m: nat)
    ensures
        forall|k: int| 0 <= k < decimal(m).len() ==> '0' <= #[trigger] decimal(m)[k] <= '9',
        m > 0 ==> decimal(m)[0] != '0',
    decreases m,
{
    lemma_decimal_len(m);
    if m < 10 {
        vstd::utf8::char_u32_cast(digit_char(m), (48 + m) as u32);
    } else {
        lemma_decimal_digits(m / 10);
        lemma_decimal_len(m / 10);
        vstd::utf8::char_u32_cast(digit_char(m % 10), (48 + m % 10) as u32);
        assert forall|k: int| 0 <= k < decimal(m).len() implies '0' <= #[trigger] decimal(m)[k]
            <= '9' by {
            if k < decimal(m / 10).len() {
                assert(decimal(m)[k] == decimal(m / 10)[k]);
            }
        }
        assert(decimal(m)[0] == decimal(m / 10)[0]);
    }
}

/// Responses with different status codes are counted under different labels, so the
/// per-status series never merge.
pub proof fn lemma_status_labels_distinct(a: u16, b: u16)
    requires
        a != b,
    ensures
        decimal(a as nat) != decimal(b as nat),
{
    if decimal(a as nat) == decimal(b as nat) {
        lemma_decimal_injective(a as nat, b as nat);
    }
}

/// How a request through the metrics middleware ended.
#[derive(Debug, Clone, Copy, PartialEq, Eq)]
pub enum RequestOutcome {
    /// The endpoint answered, with this HTTP status code.
    Responded(u16),
    /// The endpoint failed with an error.
    Failed,
}

/// What the metrics middleware records for one request.
#[derive(Debug, Clone, PartialEq, Eq)]
pub enum MetricsUpdate {
    /// Observe the request's duration in the latency histogram and add one to the request
    /// counter, both in the series of this status label.
    Response { status_label: String },
    /// Add one to the failure counter.
    Failure,
}

/// The metrics update for a request that ended with `outcome`: one response counted under
/// its status label, or one failure.
pub fn metrics_update(outcome: RequestOutcome) -> (r: MetricsUpdate)
    ensures
        match outcome {
            RequestOutcome::Responded(status) => r matches MetricsUpdate::Response { status_label }
                && status_label@ == decimal(status as nat),
            RequestOutcome::Failed => r is Failure,
        },
{
    match outcome {
        RequestOutcome::Responded(status) => MetricsUpdate::Response {
            status_label: status_label(status),
        },
        RequestOutcome::Failed => MetricsUpdate::Failure,
    }
}

/// `prometheus::proto::MetricFamily`, one family of samples gathered from a registry, carried
/// through opaquely.
#[verifier::external_type_specification]
#[verifier::external_body]
pub struct ExMetricFamily(prometheus::proto::MetricFamily);

/// `prometheus::Error`, what the encoder fails with, carried through opaquely.
#[verifier::external_type_specification]
#[verifier::external_body]
pub struct ExPrometheusError(prometheus::Error);

/// Whether `<prometheus::proto::MetricFamily>::get_field_type` is `MetricType::UNTYPED`.
pub uninterp spec fn metric_family_untyped(family: prometheus::proto::MetricFamily) -> bool;

/// Whether the text encoder accepts `families` (it checks that each has a name and at least
/// one metric).
pub uninterp spec fn text_encodable(families: Seq<prometheus::proto::MetricFamily>) -> bool;

/// The bytes that the text encoder writes for `families`.
pub uninterp spec fn text_exposition(families: Seq<prometheus::proto::MetricFamily>) -> Seq<u8>;

/// Whether one of `families` is untyped.
pub open spec fn has_untyped_family(families: Seq<prometheus::proto::MetricFamily>) -> bool {
    exists|i: int| 0 <= i < families.len() && metric_family_untyped(#[trigger] families[i])
}

/// The untyped check looks at each family's type and at nothing else: a list with no untyped
/// family, of any length, passes it, and one untyped family anywhere fails it.
pub proof fn lemma_untyped_check_looks_at_types(families: Seq<prometheus::proto::MetricFamily>)
    ensures
        (forall|i: int| 0 <= i < families.len() ==> !metric_family_untyped(#[trigger] families[i]))
            ==> !has_untyped_family(families),
        forall|i: int|
            0 <= i < families.len() && metric_family_untyped(#[trigger] families[i])
                ==> has_untyped_family(families),
{
}

/// Joining two lists of families holds an untyped family exactly when one of them does.
pub proof fn lemma_untyped_check_of_joined_lists(
    a: Seq<prometheus::proto::MetricFamily>,
    b: Seq<prometheus::proto::MetricFamily>,
)
    ensures
        has_untyped_family(a + b) == (has_untyped_family(a) || has_untyped_family(b)),
{
    let ab = a + b;
    if has_untyped_family(a) {
        let i = choose|i: int| 0 <= i < a.len() && metric_family_untyped(#[trigger] a[i]);
        assert(ab[i] == a[i]);
    }
    if has_untyped_family(b) {
        let i = choose|i: int| 0 <= i < b.len() && metric_family_untyped(#[trigger] b[i]);
        assert(ab[a.len() + i] == b[i]);
    }
    if has_untyped_family(ab) {
        let i = choose|i: int| 0 <= i < ab.len() && metric_family_untyped(#[trigger] ab[i]);
        if i < a.len() {
            assert(ab[i] == a[i]);
        } else {
            assert(ab[i] == b[i - a.len()]);
        }
    }
}

/// Calls `MetricFamily::get_field_type` and tells whether it is `MetricType::UNTYPED`; the
/// answer depends on the family alone, and the contract names it.
#[verifier::external_body]
fn family_is_untyped(family: &prometheus::proto::MetricFamily) -> (r: bool)
    ensures
        r == metric_family_untyped(*family),
{
    match family.get_field_type() {
        prometheus::proto::MetricType::UNTYPED => true,
        _ => false,
    }
}

/// Calls `<prometheus::TextEncoder as prometheus::Encoder>::encode` into a new byte buffer.
/// What it writes, and whether it refuses the families, depends on the families alone (a
/// byte buffer never fails to take what is written): the contract names both. In
/// prometheus's source the encoder writes nothing but `&str` pieces, so the bytes are UTF-8.
/// It panics (`unimplemented!`) on an untyped family that it reaches, so no family may be
/// untyped.
#[verifier::external_body]
fn encode_text(families: &Vec<prometheus::proto::MetricFamily>) -> (r: Result<
    Vec<u8>,
    prometheus::Error,
>)
    requires
        !has_untyped_family(families@),
    ensures
        r is Ok <==> text_encodable(families@),
        r matches Ok(bytes) ==> bytes@ == text_exposition(families@) && valid_utf8(bytes@),
{
    let mut buffer = Vec::new();
    match prometheus::TextEncoder::new().encode(families, &mut buffer) {
        Ok(()) => Ok(buffer),
        Err(e) => Err(e),
    }
}

/// Whether one of `families` is untyped.
pub fn any_untyped_family(families: &Vec<prometheus::proto::MetricFamily>) -> (r: bool)
    ensures
        r == has_untyped_family(families@),
        r <==> exists|i: int|
            0 <= i < families@.len() && metric_family_untyped(#[trigger] families@[i]),
{
    let mut i: usize = 0;
    while i < families.len()
        invariant
            i <= families@.len(),
            forall|k: int| 0 <= k < i ==> !metric_family_untyped(#[trigger] families@[k]),
        decreases families@.len() - i,
    {
        if family_is_untyped(&families[i]) {
            assert(metric_family_untyped(families@[i as int]));
            return true;
        }
        i = i + 1;
    }
    false
}

/// Why the metrics report could not be made.
#[derive(Debug, Clone, Copy, PartialEq, Eq)]
pub enum ReportError {
    /// The encoder refused the metric families.
    Encoding,
    /// The encoder's output was not UTF-8 text.
    NotUtf8,
    /// A family is untyped, which the text encoder does not handle.
    Untyped,
}

/// The text of the metrics report from what the text encoder gave back.
pub fn report_text(encoded: Result<Vec<u8>, prometheus::Error>) -> (r: Result<String, ReportError>)
    ensures
        match encoded {
            Ok(bytes) => if valid_utf8(bytes@) {
                r matches Ok(t) && t@ == decode_utf8(bytes@)
            } else {
                r == Err::<String, ReportError>(ReportError::NotUtf8)
            },
            Err(_) => r == Err::<String, ReportError>(ReportError::Encoding),
        },
{
    match encoded {
        Ok(bytes) => {
            if crate::text::is_utf8(bytes.as_slice()) {
                Ok(utf8_to_string(bytes.as_slice()))
            } else {
                Err(ReportError::NotUtf8)
            }
        },
        Err(_) => Err(ReportError::Encoding),
    }
}

/// The metrics report in Prometheus's text format: the families encoded, then read as UTF-8
/// text. An untyped family, which the encoder does not handle, gives `Untyped`; families the
/// encoder refuses give `Encoding`.
pub fn render_metrics(families: &Vec<prometheus::proto::MetricFamily>) -> (r: Result<
    String,
    ReportError,
>)
    ensures
        has_untyped_family(families@) ==> r == Err::<String, ReportError>(ReportError::Untyped),
        (forall|i: int|
            0 <= i < families@.len() ==> !metric_family_untyped(#[trigger] families@[i])) ==> {
            &&& r is Ok <==> text_encodable(families@)
            &&& r matches Ok(t) ==> t@ == decode_utf8(text_exposition(families@))
        },
        !has_untyped_family(families@) ==> {
            &&& r is Ok <==> text_encodable(families@)
            &&& r matches Ok(t) ==> t@ == decode_utf8(text_exposition(families@))
            &&& r is Err ==> r == Err::<String, ReportError>(ReportError::Encoding)
        },
{
    if any_untyped_family(families) {
        return Err(ReportError::Untyped);
    }
    let encoded = encode_text(families);
    report_text(encoded)
}

} // verus!
