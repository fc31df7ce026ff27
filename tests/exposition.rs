use user_service::classify::RequestInfo;
use user_service::exposition::push_decimal;
use user_service::registry::{record_metrics, MetricsRegistry};

fn decimal(n: u64) -> String {
    let mut s = String::from(">");
    push_decimal(&mut s, n);
    s
}

#[test]
fn decimal_digits() {
    assert_eq!(decimal(0), ">0");
    assert_eq!(decimal(7), ">7");
    assert_eq!(decimal(10), ">10");
    assert_eq!(decimal(1234567890), ">1234567890");
    assert_eq!(decimal(u64::MAX), ">18446744073709551615");
}

#[test]
fn empty_registry_text() {
    let text = MetricsRegistry::new().render();
    assert!(text.starts_with(
        "# HELP incoming_requests Total incoming requests.\n# TYPE incoming_requests counter\nincoming_requests 0\n"
    ));
    assert!(text.contains("# TYPE status_codes counter\n"));
    assert!(text.contains("# TYPE http_server_duration histogram\n"));
    assert!(text.contains("status_codes{http_method=\"GET\",http_status_code=\"100\"} 0\n"));
    assert_eq!(text.lines().count(), 3 + 2 + 10 + 2 + 20 * 14);
}

#[test]
fn recorded_request_shows_in_text() {
    let mut r = MetricsRegistry::new();
    record_metrics(
        &mut r,
        &RequestInfo { status: 404, method: "GET".to_string(), path: "/widgets".to_string(), elapsed_ms: 7 },
    );
    let text = r.render();
    assert!(text.contains("\nincoming_requests 1\n"));
    assert!(text.contains("status_codes{http_method=\"GET\",http_status_code=\"400\"} 1\n"));
    assert!(text.contains("status_codes{http_method=\"POST\",http_status_code=\"400\"} 0\n"));
    let labels = "http_method=\"GET\",http_status_code=\"400\",http_target=\"invalid\"";
    assert!(text.contains(&format!("http_server_duration_bucket{{{},le=\"5\"}} 0\n", labels)));
    assert!(text.contains(&format!("http_server_duration_bucket{{{},le=\"10\"}} 1\n", labels)));
    assert!(text.contains(&format!("http_server_duration_bucket{{{},le=\"+Inf\"}} 1\n", labels)));
    assert!(text.contains(&format!("http_server_duration_sum{{{}}} 7\n", labels)));
    assert!(text.contains(&format!("http_server_duration_count{{{}}} 1\n", labels)));
}

#[test]
fn rendering_twice_gives_same_text() {
    let mut r = MetricsRegistry::new();
    record_metrics(
        &mut r,
        &RequestInfo { status: 201, method: "POST".to_string(), path: "/users".to_string(), elapsed_ms: 300 },
    );
    let a = r.render();
    let b = r.render();
    assert_eq!(a, b);
    assert_eq!(r.incoming_requests(), 1);
}
