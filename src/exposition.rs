use vstd::prelude::*;
use vstd::string::StringExecFns;
use crate::classify::{HttpMethod, RoutePath, StatusFamily};
use crate::registry::{duration_key, status_key, MetricsRegistry, RegistryView, NUM_BUCKETS, NUM_DURATION_KEYS, NUM_STATUS_KEYS};

verus! {

pub open spec fn digit_char(d: int) -> char {
    if d == 0 {
        '0'
    } else if d == 1 {
        '1'
    } else if d == 2 {
        '2'
    } else if d == 3 {
        '3'
    } else if d == 4 {
        '4'
    } else if d == 5 {
        '5'
    } else if d == 6 {
        '6'
    } else if d == 7 {
        '7'
    } else if d == 8 {
        '8'
    } else {
        '9'
    }
}

/// The decimal digits of `n`, most significant first, without leading zeros.
pub open spec fn decimal(n: nat) -> Seq<char>
    decreases n,
{
    if n < 10 {
        seq![digit_char(n as int)]
    } else {
        decimal(n / 10) + seq![digit_char((n % 10) as int)]
    }
}

fn digit_str(d: u64) -> (r: &'static str)
    requires
        d < 10,
    ensures
        r@ == seq![digit_char(d as int)],
{
    proof {
        reveal_strlit("0");
        reveal_strlit("1");
        reveal_strlit("2");
        reveal_strlit("3");
        reveal_strlit("4");
        reveal_strlit("5");
        reveal_strlit("6");
        reveal_strlit("7");
        reveal_strlit("8");
        reveal_strlit("9");
    }
    let r = match d {
        0 => "0",
        1 => "1",
        2 => "2",
        3 => "3",
        4 => "4",
        5 => "5",
        6 => "6",
        7 => "7",
        8 => "8",
        _ => "9",
    };
    assert(r@ =~= seq![digit_char(d as int)]);
    r
}

/// Appends the decimal digits of `n`.
pub fn push_decimal(out: &mut String, n: u64)
    ensures
        final(out)@ == old(out)@ + decimal(n as nat),
    decreases n,
{
    if n >= 10 {
        push_decimal(out, n / 10);
    }
    out.append(digit_str(n % 10));
    assert(out@ =~= old(out)@ + decimal(n as nat));
}

pub open spec fn family_at(i: int) -> StatusFamily {
    if i == 0 {
        StatusFamily::Informational
    } else if i == 1 {
        StatusFamily::Success
    } else if i == 2 {
        StatusFamily::Redirection
    } else if i == 3 {
        StatusFamily::ClientError
    } else {
        StatusFamily::ServerError
    }
}

pub open spec fn method_at(i: int) -> HttpMethod {
    if i == 0 {
        HttpMethod::Get
    } else {
        HttpMethod::Post
    }
}

pub open spec fn route_at(i: int) -> RoutePath {
    if i == 0 {
        RoutePath::Users
    } else {
        RoutePath::Invalid
    }
}

fn family_from_index(i: usize) -> (r: StatusFamily)
    ensures
        r == family_at(i as int),
{
    if i == 0 {
        StatusFamily::Informational
    } else if i == 1 {
        StatusFamily::Success
    } else if i == 2 {
        StatusFamily::Redirection
    } else if i == 3 {
        StatusFamily::ClientError
    } else {
        StatusFamily::ServerError
    }
}

fn method_from_index(i: usize) -> (r: HttpMethod)
    ensures
        r == method_at(i as int),
{
    if i == 0 {
        HttpMethod::Get
    } else {
        HttpMethod::Post
    }
}

fn route_from_index(i: usize) -> (r: RoutePath)
    ensures
        r == route_at(i as int),
{
    if i == 0 {
        RoutePath::Users
    } else {
        RoutePath::Invalid
    }
}

/// The `le` label of cumulative bucket `j`: its bound in milliseconds, or
/// `+Inf` for the last.
pub open spec fn bucket_label(j: int) -> Seq<char> {
    if j == 0 {
        "5"@
    } else if j == 1 {
        "10"@
    } else if j == 2 {
        "25"@
    } else if j == 3 {
        "50"@
    } else if j == 4 {
        "100"@
    } else if j == 5 {
        "250"@
    } else if j == 6 {
        "500"@
    } else if j == 7 {
        "1000"@
    } else if j == 8 {
        "2500"@
    } else if j == 9 {
        "5000"@
    } else if j == 10 {
        "10000"@
    } else {
        "+Inf"@
    }
}

fn bucket_label_str(j: usize) -> (r: &'static str)
    ensures
        r@ == bucket_label(j as int),
{
    if j == 0 {
        "5"
    } else if j == 1 {
        "10"
    } else if j == 2 {
        "25"
    } else if j == 3 {
        "50"
    } else if j == 4 {
        "100"
    } else if j == 5 {
        "250"
    } else if j == 6 {
        "500"
    } else if j == 7 {
        "1000"
    } else if j == 8 {
        "2500"
    } else if j == 9 {
        "5000"
    } else if j == 10 {
        "10000"
    } else {
        "+Inf"
    }
}

/// The line of status counter `k`: its method is `k / 5`, its family `k % 5`.
pub open spec fn status_line(v: RegistryView, k: int) -> Seq<char> {
    "status_codes{http_method=\""@ + method_at(k / 5).label_spec() + "\",http_status_code=\""@
        + family_at(k % 5).label_spec() + "\"} "@ + decimal(v.status[k] as nat) + "\n"@
}

pub open spec fn status_lines(v: RegistryView, n: int) -> Seq<char>
    decreases n,
{
    if n <= 0 {
        Seq::empty()
    } else {
        status_lines(v, n - 1) + status_line(v, n - 1)
    }
}

/// The labels of distribution `dk`: family `dk / 4`, method `dk % 4 / 2`,
/// route `dk % 2`.
pub open spec fn duration_label_text(dk: int) -> Seq<char> {
    "http_method=\""@ + method_at((dk % 4) / 2).label_spec() + "\",http_status_code=\""@
        + family_at(dk / 4).label_spec() + "\",http_target=\""@ + route_at(dk % 2).label_spec()
        + "\""@
}

pub open spec fn bucket_line(v: RegistryView, dk: int, j: int) -> Seq<char> {
    "http_server_duration_bucket{"@ + duration_label_text(dk) + ",le=\""@ + bucket_label(j)
        + "\"} "@ + decimal(v.buckets[dk * 12 + j] as nat) + "\n"@
}

pub open spec fn bucket_lines(v: RegistryView, dk: int, n: int) -> Seq<char>
    decreases n,
{
    if n <= 0 {
        Seq::empty()
    } else {
        bucket_lines(v, dk, n - 1) + bucket_line(v, dk, n - 1)
    }
}

/// Every line of distribution `dk`: its buckets, its sum and its count.
pub open spec fn duration_block(v: RegistryView, dk: int) -> Seq<char> {
    bucket_lines(v, dk, 12) + "http_server_duration_sum{"@ + duration_label_text(dk) + "} "@
        + decimal(v.sums[dk] as nat) + "\n"@ + "http_server_duration_count{"@
        + duration_label_text(dk) + "} "@ + decimal(v.counts[dk] as nat) + "\n"@
}

pub open spec fn duration_blocks(v: RegistryView, n: int) -> Seq<char>
    decreases n,
{
    if n <= 0 {
        Seq::empty()
    } else {
        duration_blocks(v, n - 1) + duration_block(v, n - 1)
    }
}

/// The whole text: each metric's help and type, then one line per label set.
pub open spec fn exposition(v: RegistryView) -> Seq<char> {
    "# HELP incoming_requests Total incoming requests.\n# TYPE incoming_requests counter\nincoming_requests "@
        + decimal(v.incoming as nat) + "\n"@
        + "# HELP status_codes Requests by method and status family.\n# TYPE status_codes counter\n"@
        + status_lines(v, 10)
        + "# HELP http_server_duration Request duration in milliseconds.\n# TYPE http_server_duration histogram\n"@
        + duration_blocks(v, 20)
}

/// The line that `exposition` writes at a status counter's index carries
/// that counter's own method and family.
pub proof fn lemma_status_line_labels(m: HttpMethod, f: StatusFamily)
    ensures
        0 <= status_key(m, f) < NUM_STATUS_KEYS,
        method_at(status_key(m, f) / 5) == m,
        family_at(status_key(m, f) % 5) == f,
{
}

/// The block that `exposition` writes at a distribution's index carries that
/// distribution's own family, method and route.
pub proof fn lemma_duration_block_labels(f: StatusFamily, m: HttpMethod, p: RoutePath)
    ensures
        0 <= duration_key(f, m, p) < NUM_DURATION_KEYS,
        family_at(duration_key(f, m, p) / 4) == f,
        method_at((duration_key(f, m, p) % 4) / 2) == m,
        route_at(duration_key(f, m, p) % 2) == p,
{
}

fn push_status_line(out: &mut String, reg: &MetricsRegistry, k: usize)
    requires
        reg.wf(),
        k < NUM_STATUS_KEYS,
    ensures
        final(out)@ == old(out)@ + status_line(reg@, k as int),
{
    out.append("status_codes{http_method=\"");
    out.append(method_from_index(k / 5).label());
    out.append("\",http_status_code=\"");
    out.append(family_from_index(k % 5).label());
    out.append("\"} ");
    push_decimal(out, reg.status_at(k));
    out.append("\n");
    assert(out@ =~= old(out)@ + status_line(reg@, k as int));
}

fn push_duration_labels(out: &mut String, dk: usize)
    ensures
        final(out)@ == old(out)@ + duration_label_text(dk as int),
{
    out.append("http_method=\"");
    out.append(method_from_index((dk % 4) / 2).label());
    out.append("\",http_status_code=\"");
    out.append(family_from_index(dk / 4).label());
    out.append("\",http_target=\"");
    out.append(route_from_index(dk % 2).label());
    out.append("\"");
    assert(out@ =~= old(out)@ + duration_label_text(dk as int));
}

fn push_bucket_line(out: &mut String, reg: &MetricsRegistry, dk: usize, j: usize)
    requires
        reg.wf(),
        dk < NUM_DURATION_KEYS,
        j < NUM_BUCKETS,
    ensures
        final(out)@ == old(out)@ + bucket_line(reg@, dk as int, j as int),
{
    out.append("http_server_duration_bucket{");
    push_duration_labels(out, dk);
    out.append(",le=\"");
    out.append(bucket_label_str(j));
    out.append("\"} ");
    push_decimal(out, reg.bucket_at(dk * 12 + j));
    out.append("\n");
    assert(out@ =~= old(out)@ + bucket_line(reg@, dk as int, j as int));
}

fn push_duration_block(out: &mut String, reg: &MetricsRegistry, dk: usize)
    requires
        reg.wf(),
        dk < NUM_DURATION_KEYS,
    ensures
        final(out)@ == old(out)@ + duration_block(reg@, dk as int),
{
    let ghost start = out@;
    let mut j: usize = 0;
    while j < NUM_BUCKETS
        invariant
            reg.wf(),
            dk < NUM_DURATION_KEYS,
            j <= NUM_BUCKETS,
            out@ == start + bucket_lines(reg@, dk as int, j as int),
        decreases NUM_BUCKETS - j,
    {
        push_bucket_line(out, reg, dk, j);
        assert(out@ =~= start + bucket_lines(reg@, dk as int, j + 1));
        j = j + 1;
    }
    out.append("http_server_duration_sum{");
    push_duration_labels(out, dk);
    out.append("} ");
    push_decimal(out, reg.sum_at(dk));
    out.append("\n");
    out.append("http_server_duration_count{");
    push_duration_labels(out, dk);
    out.append("} ");
    push_decimal(out, reg.count_at(dk));
    out.append("\n");
    assert(out@ =~= start + duration_block(reg@, dk as int));
}

impl MetricsRegistry {
    /// The current state in the text exposition format: for each metric a
    /// `# HELP` and a `# TYPE` line, then one line per label set with its
    /// value. Rendering changes nothing.
    pub fn render(&self) -> (r: String)
        ensures
            r@ == exposition(self@),
    {
        proof { use_type_invariant(self); }
        let mut out = String::new();
        out.append("# HELP incoming_requests Total incoming requests.\n# TYPE incoming_requests counter\nincoming_requests ");
        push_decimal(&mut out, self.incoming_requests());
        out.append("\n");
        out.append("# HELP status_codes Requests by method and status family.\n# TYPE status_codes counter\n");
        let ghost s1 = out@;
        let mut k: usize = 0;
        while k < NUM_STATUS_KEYS
            invariant
                self.wf(),
                k <= NUM_STATUS_KEYS,
                out@ == s1 + status_lines(self@, k as int),
            decreases NUM_STATUS_KEYS - k,
        {
            push_status_line(&mut out, self, k);
            assert(out@ =~= s1 + status_lines(self@, k + 1));
            k = k + 1;
        }
        out.append("# HELP http_server_duration Request duration in milliseconds.\n# TYPE http_server_duration histogram\n");
        let ghost s2 = out@;
        let mut dk: usize = 0;
        while dk < NUM_DURATION_KEYS
            invariant
                self.wf(),
                dk <= NUM_DURATION_KEYS,
                out@ == s2 + duration_blocks(self@, dk as int),
            decreases NUM_DURATION_KEYS - dk,
        {
            push_duration_block(&mut out, self, dk);
            assert(out@ =~= s2 + duration_blocks(self@, dk + 1));
            dk = dk + 1;
        }
        assert(out@ =~= exposition(self@));
        out
    }
}

} // verus!
