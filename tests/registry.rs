use user_service::classify::{HttpMethod, RequestInfo, RoutePath, ServiceMetrics, StatusFamily};
use user_service::registry::{record_metrics, MetricsRegistry};

fn info(status: u16, method: &str, path: &str, elapsed_ms: u64) -> RequestInfo {
    RequestInfo { status, method: method.to_string(), path: path.to_string(), elapsed_ms }
}

fn obs(f: StatusFamily, m: HttpMethod, p: RoutePath, d: u64) -> ServiceMetrics {
    ServiceMetrics { duration_ms: d, status_family: f, method: m, path: p }
}

fn snapshot(r: &MetricsRegistry) -> Vec<u64> {
    let fams = [
        StatusFamily::Informational,
        StatusFamily::Success,
        StatusFamily::Redirection,
        StatusFamily::ClientError,
        StatusFamily::ServerError,
    ];
    let mut out = vec![r.incoming_requests()];
    for f in fams {
        for m in [HttpMethod::Get, HttpMethod::Post] {
            out.push(r.status_count(m, f));
            for p in [RoutePath::Users, RoutePath::Invalid] {
                for j in 0..12 {
                    out.push(r.duration_bucket(f, m, p, j));
                }
                out.push(r.duration_sum(f, m, p));
                out.push(r.duration_count(f, m, p));
            }
        }
    }
    out
}

#[test]
fn new_registry_is_zero() {
    let r = MetricsRegistry::new();
    assert!(snapshot(&r).iter().all(|x| *x == 0));
}

#[test]
fn unmapped_path_counts_once() {
    let mut r = MetricsRegistry::new();
    let before = r.status_count(HttpMethod::Get, StatusFamily::ClientError);
    record_metrics(&mut r, &info(404, "GET", "/widgets", 7));
    assert_eq!(r.status_count(HttpMethod::Get, StatusFamily::ClientError), before + 1);
    assert_eq!(r.incoming_requests(), 1);
    assert_eq!(r.duration_count(StatusFamily::ClientError, HttpMethod::Get, RoutePath::Invalid), 1);
    assert_eq!(r.duration_sum(StatusFamily::ClientError, HttpMethod::Get, RoutePath::Invalid), 7);
    assert_eq!(r.duration_count(StatusFamily::ClientError, HttpMethod::Get, RoutePath::Users), 0);
}

#[test]
fn skipped_requests_leave_registry_unchanged() {
    let mut r = MetricsRegistry::new();
    record_metrics(&mut r, &info(200, "GET", "/metrics", 1));
    record_metrics(&mut r, &info(200, "PATCH", "/users", 1));
    record_metrics(&mut r, &info(700, "GET", "/users", 1));
    assert!(snapshot(&r).iter().all(|x| *x == 0));
}

#[test]
fn buckets_are_cumulative() {
    let mut r = MetricsRegistry::new();
    let (f, m, p) = (StatusFamily::Success, HttpMethod::Get, RoutePath::Users);
    r.record(&obs(f, m, p, 30));
    r.record(&obs(f, m, p, 5));
    r.record(&obs(f, m, p, 20000));
    let expected: [u64; 12] = [1, 1, 1, 2, 2, 2, 2, 2, 2, 2, 2, 3];
    for j in 0..12 {
        assert_eq!(r.duration_bucket(f, m, p, j), expected[j]);
    }
    assert_eq!(r.duration_sum(f, m, p), 20035);
    assert_eq!(r.duration_count(f, m, p), 3);
}

#[test]
fn recording_order_does_not_matter() {
    let list = vec![
        obs(StatusFamily::Success, HttpMethod::Get, RoutePath::Users, 3),
        obs(StatusFamily::ClientError, HttpMethod::Post, RoutePath::Invalid, 400),
        obs(StatusFamily::Success, HttpMethod::Get, RoutePath::Users, 9000),
        obs(StatusFamily::ServerError, HttpMethod::Get, RoutePath::Users, 12),
    ];
    let mut a = MetricsRegistry::new();
    for o in list.iter() {
        a.record(o);
    }
    let mut b = MetricsRegistry::new();
    for o in list.iter().rev() {
        b.record(o);
    }
    assert_eq!(snapshot(&a), snapshot(&b));
    assert_eq!(a.incoming_requests(), 4);
    assert_eq!(a.status_count(HttpMethod::Get, StatusFamily::Success), 2);
}

#[test]
fn total_never_decreases_during_burst() {
    let mut r = MetricsRegistry::new();
    let mut last = r.incoming_requests();
    for i in 0..50u64 {
        record_metrics(&mut r, &info(201, "POST", "/users", i));
        let seen = r.incoming_requests();
        assert!(seen >= last);
        last = seen;
    }
    assert_eq!(last, 50);
    assert_eq!(r.status_count(HttpMethod::Post, StatusFamily::Success), 50);
}
