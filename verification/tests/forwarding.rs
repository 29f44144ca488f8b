//! Forwarded-target construction and the per-request forwarding plan.
use rrproxy::ForwardError;
use rrproxy::RoundRobin;
use rrproxy::UpstreamPool;
use rrproxy::build_target;
use rrproxy::plan_forward;
use rrproxy::plan_forward_drawn;

fn pool_of(servers: &[&str]) -> UpstreamPool {
    let owned: Vec<String> = servers.iter().map(|s| s.to_string()).collect();
    UpstreamPool::new(owned).unwrap()
}

#[test]
fn target_is_exact_concatenation() {
    assert_eq!(build_target("http://a:1", "/x?y=1"), "http://a:1/x?y=1");
}

#[test]
fn target_is_not_normalized() {
    // A base that already ends with a path segment is concatenated verbatim:
    // the double slash stays.
    assert_eq!(build_target("http://a:1/", "/x"), "http://a:1//x");
    assert_eq!(build_target("http://a:1/base", "/x"), "http://a:1/base/x");
}

#[test]
fn plan_walks_the_pool_in_cyclic_order() {
    let pool = pool_of(&["http://a:1", "http://b:2"]);
    let mut rr = RoundRobin::new();

    let p0 = plan_forward(&pool, &mut rr, "/x?y=1").unwrap();
    assert_eq!(p0.index, 0);
    assert_eq!(p0.target, "http://a:1/x?y=1");
    assert_eq!(p0.uri.to_string(), "http://a:1/x?y=1");

    let p1 = plan_forward(&pool, &mut rr, "/x?y=1").unwrap();
    assert_eq!(p1.index, 1);
    assert_eq!(p1.target, "http://b:2/x?y=1");

    let p2 = plan_forward(&pool, &mut rr, "/other").unwrap();
    assert_eq!(p2.index, 0);
    assert_eq!(p2.target, "http://a:1/other");
}

#[test]
fn plan_from_drawn_sequence_number() {
    let pool = pool_of(&["http://a:1", "http://b:2", "http://c:3"]);
    let p = plan_forward_drawn(&pool, 7, "/q").unwrap();
    assert_eq!(p.index, 1);
    assert_eq!(p.target, "http://b:2/q");
}

#[test]
fn malformed_target_is_a_forwarding_error() {
    // A space cannot appear in a URI, so the concatenated target fails to
    // parse and the request is reported as one opaque forwarding failure.
    let pool = pool_of(&["http://bad host:1"]);
    let mut rr = RoundRobin::new();
    let r = plan_forward(&pool, &mut rr, "/x");
    match r {
        Err(e) => assert_eq!(e, ForwardError::TargetNotAUri),
        Ok(_) => panic!("a target with a space must not parse"),
    }
    // The cursor still advanced exactly once: no retry against another
    // upstream, and the next request draws the next sequence number.
    let two = pool_of(&["http://bad host:1", "http://ok:2"]);
    let mut rr2 = RoundRobin::new();
    assert!(plan_forward(&two, &mut rr2, "/x").is_err());
    let p = plan_forward(&two, &mut rr2, "/x").unwrap();
    assert_eq!(p.index, 1);
    assert_eq!(p.target, "http://ok:2/x");
}
