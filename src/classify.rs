use vstd::prelude::*;
use opentelemetry::KeyValue;

verus! {

#[verifier::external_type_specification]
#[verifier::external_body]
pub struct ExKeyValue(KeyValue);

/// The metric label that `KeyValue::new` builds from a key and a value.
pub uninterp spec fn key_value_of(key: Seq<char>, value: Seq<char>) -> KeyValue;

/// Relies on opentelemetry's `KeyValue::new`: the label is made of the key and
/// the value alone.
#[verifier::external_body]
fn key_value(key: &'static str, value: &'static str) -> (r: KeyValue)
    ensures
        r == key_value_of(key@, value@),
{
    KeyValue::new(key, value)
}

/// The leading digit of a recognised status code.
#[derive(Debug, Clone, Copy, PartialEq, Eq, Structural)]
pub enum StatusFamily {
    Informational,
    Success,
    Redirection,
    ClientError,
    ServerError,
}

/// The request methods the service answers.
#[derive(Debug, Clone, Copy, PartialEq, Eq, Structural)]
pub enum HttpMethod {
    Get,
    Post,
}

/// The route label: the users resource, or everything else folded together.
#[derive(Debug, Clone, Copy, PartialEq, Eq, Structural)]
pub enum RoutePath {
    Users,
    Invalid,
}

/// Why a completed request produced no observation.
#[derive(Debug, Clone, Copy, PartialEq, Eq, Structural)]
pub enum ClassifyError {
    UnknownStatusCode,
    UnknownMethod,
}

/// The raw attributes of a completed request.
#[derive(Debug, Clone)]
pub struct RequestInfo {
    pub status: u16,
    pub method: String,
    pub path: String,
    pub elapsed_ms: u64,
}

/// The bounded labels and the duration derived from one completed request.
#[derive(Debug, Clone, Copy, PartialEq, Eq, Structural)]
pub struct ServiceMetrics {
    pub duration_ms: u64,
    pub status_family: StatusFamily,
    pub method: HttpMethod,
    pub path: RoutePath,
}

pub open spec fn status_family_of(code: u16) -> Option<StatusFamily> {
    if 500 <= code <= 599 {
        Some(StatusFamily::ServerError)
    } else if 400 <= code <= 499 {
        Some(StatusFamily::ClientError)
    } else if 300 <= code <= 399 {
        Some(StatusFamily::Redirection)
    } else if 200 <= code <= 299 {
        Some(StatusFamily::Success)
    } else if 100 <= code <= 199 {
        Some(StatusFamily::Informational)
    } else {
        None
    }
}

pub open spec fn method_of(m: Seq<char>) -> Option<HttpMethod> {
    if m == "GET"@ {
        Some(HttpMethod::Get)
    } else if m == "POST"@ {
        Some(HttpMethod::Post)
    } else {
        None
    }
}

pub open spec fn route_of(p: Seq<char>) -> RoutePath {
    if p == "/users"@ {
        RoutePath::Users
    } else {
        RoutePath::Invalid
    }
}

/// The path of the metrics endpoint, which is never classified.
pub open spec fn metrics_path() -> Seq<char> {
    "/metrics"@
}

/// The classification of a completed request.
pub open spec fn classify(
    status: u16,
    method: Seq<char>,
    path: Seq<char>,
    elapsed_ms: u64,
) -> Result<ServiceMetrics, ClassifyError> {
    match status_family_of(status) {
        None => Err(ClassifyError::UnknownStatusCode),
        Some(f) => match method_of(method) {
            None => Err(ClassifyError::UnknownMethod),
            Some(m) => Ok(
                ServiceMetrics {
                    duration_ms: elapsed_ms,
                    status_family: f,
                    method: m,
                    path: route_of(path),
                },
            ),
        },
    }
}

/// What the pipeline records for a completed request: nothing for the
/// metrics endpoint itself or for a request that cannot be classified.
pub open spec fn observation_of(info: RequestInfo) -> Option<ServiceMetrics> {
    if info.path@ == metrics_path() {
        None
    } else {
        match classify(info.status, info.method@, info.path@, info.elapsed_ms) {
            Ok(m) => Some(m),
            Err(_) => None,
        }
    }
}

impl StatusFamily {
    pub open spec fn label_spec(self) -> Seq<char> {
        match self {
            StatusFamily::Informational => "100"@,
            StatusFamily::Success => "200"@,
            StatusFamily::Redirection => "300"@,
            StatusFamily::ClientError => "400"@,
            StatusFamily::ServerError => "500"@,
        }
    }

    /// The label value: the family's leading digit followed by two zeros.
    pub fn label(&self) -> (r: &'static str)
        ensures
            r@ == self.label_spec(),
    {
        match self {
            StatusFamily::Informational => "100",
            StatusFamily::Success => "200",
            StatusFamily::Redirection => "300",
            StatusFamily::ClientError => "400",
            StatusFamily::ServerError => "500",
        }
    }
}

impl HttpMethod {
    pub open spec fn label_spec(self) -> Seq<char> {
        match self {
            HttpMethod::Get => "GET"@,
            HttpMethod::Post => "POST"@,
        }
    }

    /// The label value: the method's name.
    pub fn label(&self) -> (r: &'static str)
        ensures
            r@ == self.label_spec(),
    {
        match self {
            HttpMethod::Get => "GET",
            HttpMethod::Post => "POST",
        }
    }
}

impl RoutePath {
    pub open spec fn label_spec(self) -> Seq<char> {
        match self {
            RoutePath::Users => "/users"@,
            RoutePath::Invalid => "invalid"@,
        }
    }

    /// The label value: `/users`, or `invalid` for any other path.
    pub fn label(&self) -> (r: &'static str)
        ensures
            r@ == self.label_spec(),
    {
        match self {
            RoutePath::Users => "/users",
            RoutePath::Invalid => "invalid",
        }
    }
}

/// Character-wise equality of two strings.
pub fn str_eq(a: &str, b: &str) -> (r: bool)
    ensures
        r == (a@ == b@),
{
    let n = a.unicode_len();
    if n != b.unicode_len() {
        return false;
    }
    let mut i: usize = 0;
    while i < n
        invariant
            n == a@.len(),
            n == b@.len(),
            i <= n,
            forall|j: int| 0 <= j < i ==> a@[j] == b@[j],
        decreases n - i,
    {
        if a.get_char(i) != b.get_char(i) {
            return false;
        }
        i = i + 1;
    }
    assert(a@ =~= b@);
    true
}

/// The family of a status code, or `None` outside 100 to 599.
pub fn status_family(code: u16) -> (r: Option<StatusFamily>)
    ensures
        r == status_family_of(code),
{
    if 500 <= code && code <= 599 {
        Some(StatusFamily::ServerError)
    } else if 400 <= code && code <= 499 {
        Some(StatusFamily::ClientError)
    } else if 300 <= code && code <= 399 {
        Some(StatusFamily::Redirection)
    } else if 200 <= code && code <= 299 {
        Some(StatusFamily::Success)
    } else if 100 <= code && code <= 199 {
        Some(StatusFamily::Informational)
    } else {
        None
    }
}

/// The method label, or `None` for a method the service does not answer.
pub fn http_method(m: &str) -> (r: Option<HttpMethod>)
    ensures
        r == method_of(m@),
{
    if str_eq(m, "GET") {
        Some(HttpMethod::Get)
    } else if str_eq(m, "POST") {
        Some(HttpMethod::Post)
    } else {
        None
    }
}

/// The route label of a path.
pub fn route_path(p: &str) -> (r: RoutePath)
    ensures
        r == route_of(p@),
{
    if str_eq(p, "/users") {
        RoutePath::Users
    } else {
        RoutePath::Invalid
    }
}

/// Whether a path is the metrics endpoint, which is never classified.
pub fn is_metrics_path(p: &str) -> (r: bool)
    ensures
        r == (p@ == metrics_path()),
{
    str_eq(p, "/metrics")
}

impl ServiceMetrics {
    /// Classifies a completed request into bounded labels.
    pub fn try_from(info: &RequestInfo) -> (r: Result<ServiceMetrics, ClassifyError>)
        ensures
            r == classify(info.status, info.method@, info.path@, info.elapsed_ms),
    {
        let status_family = match status_family(info.status) {
            Some(f) => f,
            None => return Err(ClassifyError::UnknownStatusCode),
        };
        let method = match http_method(info.method.as_str()) {
            Some(m) => m,
            None => return Err(ClassifyError::UnknownMethod),
        };
        let path = route_path(info.path.as_str());
        Ok(ServiceMetrics { duration_ms: info.elapsed_ms, status_family, method, path })
    }

    /// The labels of the duration distribution: status family, method, route.
    pub fn duration_labels(&self) -> (r: Vec<KeyValue>)
        ensures
            r@ == seq![
                key_value_of("http.status_code"@, self.status_family.label_spec()),
                key_value_of("http.method"@, self.method.label_spec()),
                key_value_of("http.target"@, self.path.label_spec()),
            ],
    {
        let mut r: Vec<KeyValue> = Vec::new();
        r.push(key_value("http.status_code", self.status_family.label()));
        r.push(key_value("http.method", self.method.label()));
        r.push(key_value("http.target", self.path.label()));
        assert(r@ =~= seq![
            key_value_of("http.status_code"@, self.status_family.label_spec()),
            key_value_of("http.method"@, self.method.label_spec()),
            key_value_of("http.target"@, self.path.label_spec()),
        ]);
        r
    }

    /// The labels of the status-code counter: status family and method.
    pub fn status_code_labels(&self) -> (r: Vec<KeyValue>)
        ensures
            r@ == seq![
                key_value_of("http.status_code"@, self.status_family.label_spec()),
                key_value_of("http.method"@, self.method.label_spec()),
            ],
    {
        let mut r: Vec<KeyValue> = Vec::new();
        r.push(key_value("http.status_code", self.status_family.label()));
        r.push(key_value("http.method", self.method.label()));
        assert(r@ =~= seq![
            key_value_of("http.status_code"@, self.status_family.label_spec()),
            key_value_of("http.method"@, self.method.label_spec()),
        ]);
        r
    }
}

/// The observation to record for a completed request, if any.
pub fn observe(info: &RequestInfo) -> (r: Option<ServiceMetrics>)
    ensures
        r == observation_of(*info),
{
    if is_metrics_path(info.path.as_str()) {
        return None;
    }
    match ServiceMetrics::try_from(info) {
        Ok(m) => Some(m),
        Err(_) => None,
    }
}

/// Classification succeeds on every status code from 100 to 599 with a
/// method the service answers, whatever the path and duration; and it is a
/// function of its inputs alone.
pub proof fn lemma_classify_total(status: u16, method: Seq<char>, path: Seq<char>, elapsed_ms: u64)
    requires
        100 <= status <= 599,
        method == "GET"@ || method == "POST"@,
    ensures
        classify(status, method, path, elapsed_ms) is Ok,
        classify(status, method, path, elapsed_ms).unwrap().duration_ms == elapsed_ms,
        classify(status, method, path, elapsed_ms).unwrap().path == route_of(path),
{
    reveal_strlit("GET");
    reveal_strlit("POST");
}

/// Classification reads nothing but the request's attributes: two requests
/// with the same status, method, path and duration get the same observation,
/// or the same failure.
pub proof fn lemma_classify_deterministic(a: RequestInfo, b: RequestInfo)
    requires
        a.status == b.status,
        a.method@ == b.method@,
        a.path@ == b.path@,
        a.elapsed_ms == b.elapsed_ms,
    ensures
        classify(a.status, a.method@, a.path@, a.elapsed_ms) == classify(
            b.status,
            b.method@,
            b.path@,
            b.elapsed_ms,
        ),
        observation_of(a) == observation_of(b),
{
}

/// Classification fails exactly on a status code outside 100 to 599 or on a
/// method the service does not answer.
pub proof fn lemma_classify_fails(status: u16, method: Seq<char>, path: Seq<char>, elapsed_ms: u64)
    ensures
        (classify(status, method, path, elapsed_ms) is Err) <==> (status < 100 || status > 599
            || (method != "GET"@ && method != "POST"@)),
{
    reveal_strlit("GET");
    reveal_strlit("POST");
}

} // verus!
