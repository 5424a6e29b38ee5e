use v2ex::{RateHeaders, RateLimit, RateTracker, RateUpdate};

fn headers(limit: Option<&str>, remaining: Option<&str>, reset: Option<&str>) -> RateHeaders {
    RateHeaders {
        limit: limit.map(|s| s.to_string()),
        remaining: remaining.map(|s| s.to_string()),
        reset: reset.map(|s| s.to_string()),
    }
}

#[test]
fn tracker_takes_all_three_headers() {
    let t = RateTracker::new();
    let u = t.observe(&headers(Some("600"), Some("599"), Some("3600")));
    assert_eq!(u, RateUpdate { limit: Some(600), remaining: Some(599), reset: Some(3600) });
    assert_eq!(t.limit(), 600);
    assert_eq!(t.remaining(), 599);
    assert_eq!(t.reset(), 3600);
    assert_eq!(t.snapshot(), RateLimit { limit: 600, remaining: 599, reset: 3600 });
}

#[test]
fn tracker_starts_at_zero() {
    let t = RateTracker::new();
    assert_eq!(t.snapshot(), RateLimit { limit: 0, remaining: 0, reset: 0 });
    assert_eq!(RateLimit::new(), RateLimit { limit: 0, remaining: 0, reset: 0 });
}

#[test]
fn missing_headers_keep_cells() {
    let t = RateTracker::new();
    t.observe(&headers(Some("600"), Some("599"), Some("3600")));
    let u = t.observe(&headers(None, Some("598"), None));
    assert_eq!(u, RateUpdate { limit: None, remaining: Some(598), reset: None });
    assert_eq!(t.snapshot(), RateLimit { limit: 600, remaining: 598, reset: 3600 });
    t.observe(&headers(None, None, None));
    assert_eq!(t.snapshot(), RateLimit { limit: 600, remaining: 598, reset: 3600 });
}

#[test]
fn unreadable_headers_keep_cells() {
    let mut w = RateLimit { limit: 600, remaining: 10, reset: 60 };
    w.observe(&headers(Some("abc"), Some("70000"), Some("")));
    assert_eq!(w, RateLimit { limit: 600, remaining: 10, reset: 60 });
    w.observe(&headers(Some("-1"), Some(" 5"), Some("9223372036854775808")));
    assert_eq!(w, RateLimit { limit: 600, remaining: 10, reset: 60 });
    w.observe(&headers(Some("+"), Some("5 "), Some("-")));
    assert_eq!(w, RateLimit { limit: 600, remaining: 10, reset: 60 });
}

#[test]
fn header_numbers_at_the_edges() {
    let mut w = RateLimit::new();
    w.observe(&headers(Some("65535"), Some("+0"), Some("-9223372036854775808")));
    assert_eq!(w, RateLimit { limit: 65535, remaining: 0, reset: i64::MIN });
    w.observe(&headers(Some("007"), Some("1"), Some("-30")));
    assert_eq!(w, RateLimit { limit: 7, remaining: 1, reset: -30 });
}

#[test]
fn update_reads_each_header_alone() {
    let u = RateUpdate::from_headers(&headers(Some("x"), Some("42"), Some("+17")));
    assert_eq!(u, RateUpdate { limit: None, remaining: Some(42), reset: Some(17) });
    let mut w = RateLimit { limit: 5, remaining: 5, reset: 5 };
    w.apply(&u);
    assert_eq!(w, RateLimit { limit: 5, remaining: 42, reset: 17 });
}
