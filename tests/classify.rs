use opentelemetry::KeyValue;
use user_service::classify::{
    http_method, is_metrics_path, observe, route_path, status_family, str_eq, ClassifyError,
    HttpMethod, RequestInfo, RoutePath, ServiceMetrics, StatusFamily,
};

fn info(status: u16, method: &str, path: &str, elapsed_ms: u64) -> RequestInfo {
    RequestInfo { status, method: method.to_string(), path: path.to_string(), elapsed_ms }
}

#[test]
fn status_families_by_leading_digit() {
    assert_eq!(status_family(100), Some(StatusFamily::Informational));
    assert_eq!(status_family(199), Some(StatusFamily::Informational));
    assert_eq!(status_family(200), Some(StatusFamily::Success));
    assert_eq!(status_family(201), Some(StatusFamily::Success));
    assert_eq!(status_family(302), Some(StatusFamily::Redirection));
    assert_eq!(status_family(404), Some(StatusFamily::ClientError));
    assert_eq!(status_family(599), Some(StatusFamily::ServerError));
    assert_eq!(status_family(99), None);
    assert_eq!(status_family(600), None);
    assert_eq!(status_family(0), None);
}

#[test]
fn labels_are_bounded_strings() {
    assert_eq!(StatusFamily::ClientError.label(), "400");
    assert_eq!(StatusFamily::Informational.label(), "100");
    assert_eq!(HttpMethod::Post.label(), "POST");
    assert_eq!(RoutePath::Invalid.label(), "invalid");
    assert_eq!(RoutePath::Users.label(), "/users");
}

#[test]
fn methods_and_routes() {
    assert_eq!(http_method("GET"), Some(HttpMethod::Get));
    assert_eq!(http_method("POST"), Some(HttpMethod::Post));
    assert_eq!(http_method("DELETE"), None);
    assert_eq!(http_method("get"), None);
    assert_eq!(route_path("/users"), RoutePath::Users);
    assert_eq!(route_path("/users/1"), RoutePath::Invalid);
    assert_eq!(route_path("/metrics"), RoutePath::Invalid);
    assert!(is_metrics_path("/metrics"));
    assert!(!is_metrics_path("/metric"));
    assert!(str_eq("héllo", "héllo"));
    assert!(!str_eq("ab", "abc"));
}

#[test]
fn unmapped_path_classified_invalid() {
    let m = ServiceMetrics::try_from(&info(404, "GET", "/widgets", 12)).unwrap();
    assert_eq!(m.path, RoutePath::Invalid);
    assert_eq!(m.status_family, StatusFamily::ClientError);
    assert_eq!(m.method, HttpMethod::Get);
    assert_eq!(m.duration_ms, 12);
}

#[test]
fn classification_errors() {
    assert_eq!(ServiceMetrics::try_from(&info(600, "GET", "/users", 1)), Err(ClassifyError::UnknownStatusCode));
    assert_eq!(ServiceMetrics::try_from(&info(42, "PUT", "/users", 1)), Err(ClassifyError::UnknownStatusCode));
    assert_eq!(ServiceMetrics::try_from(&info(200, "PUT", "/users", 1)), Err(ClassifyError::UnknownMethod));
}

#[test]
fn classification_is_repeatable() {
    let a = ServiceMetrics::try_from(&info(201, "POST", "/users", 3));
    let b = ServiceMetrics::try_from(&info(201, "POST", "/users", 3));
    assert_eq!(a, b);
    assert_eq!(
        a,
        Ok(ServiceMetrics {
            duration_ms: 3,
            status_family: StatusFamily::Success,
            method: HttpMethod::Post,
            path: RoutePath::Users,
        })
    );
}

#[test]
fn metrics_endpoint_never_observed() {
    assert_eq!(observe(&info(200, "GET", "/metrics", 1)), None);
    assert_eq!(observe(&info(200, "DELETE", "/users", 1)), None);
    assert!(observe(&info(200, "GET", "/users", 1)).is_some());
}

#[test]
fn label_lists() {
    let m = ServiceMetrics::try_from(&info(503, "POST", "/x", 9)).unwrap();
    assert_eq!(
        m.duration_labels(),
        vec![
            KeyValue::new("http.status_code", "500"),
            KeyValue::new("http.method", "POST"),
            KeyValue::new("http.target", "invalid"),
        ]
    );
    assert_eq!(
        m.status_code_labels(),
        vec![KeyValue::new("http.status_code", "500"), KeyValue::new("http.method", "POST")]
    );
    assert_ne!(m.status_code_labels()[0], KeyValue::new("http.status_code", "http.status_code"));
}
