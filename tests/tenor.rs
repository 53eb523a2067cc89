use time_for::tenor::{
    candidate_limit, considered_pool, pick_webm, random_webm, SearchResponse, TenorError, TransportFailure,
};

fn urls(n: usize) -> SearchResponse {
    SearchResponse::Results((0..n).map(|i| format!("https://media/{i}.webm")).collect())
}

#[test]
fn pool_is_the_smaller_of_limit_and_results() {
    assert_eq!(considered_pool(Some(5), 3), 3);
    assert_eq!(considered_pool(Some(5), 8), 5);
    assert_eq!(considered_pool(Some(1), 1), 1);
    assert_eq!(considered_pool(None, 30), 10);
    assert_eq!(considered_pool(None, 4), 4);
    assert_eq!(considered_pool(Some(200), 1000), 200);
    assert_eq!(considered_pool(Some(7), 0), 0);
    assert_eq!(candidate_limit(None), 10);
    assert_eq!(candidate_limit(Some(16)), 16);
}

#[test]
fn pick_returns_the_drawn_result() {
    assert_eq!(pick_webm("cat", Some(5), urls(3), 2).ok().unwrap(), "https://media/2.webm");
    assert_eq!(pick_webm("cat", Some(5), urls(9), 0).ok().unwrap(), "https://media/0.webm");
}

#[test]
fn empty_pool_is_no_gif_found() {
    match random_webm("nothing", Some(5), urls(0)) {
        Err(TenorError::NoGifFound { query }) => assert_eq!(query, "nothing"),
        _ => panic!("expected NoGifFound"),
    }
    match random_webm("zero", Some(0), urls(4)) {
        Err(TenorError::NoGifFound { query }) => assert_eq!(query, "zero"),
        _ => panic!("expected NoGifFound"),
    }
    assert!(random_webm("one", Some(1), urls(1)).is_ok());
}

#[test]
fn service_error_is_passed_on() {
    let r = random_webm("cat", Some(5), SearchResponse::Error { code: 3, message: "bad key".to_string() });
    match r {
        Err(TenorError::TenorApi { code, message }) => {
            assert_eq!(code, 3);
            assert_eq!(message, "bad key");
        },
        _ => panic!("expected TenorApi"),
    }
}

#[test]
fn coffee_picks_among_three_results() {
    for _ in 0..50 {
        let url = random_webm("coffee", Some(5), urls(3)).ok().unwrap();
        assert!(["https://media/0.webm", "https://media/1.webm", "https://media/2.webm"].contains(&url.as_str()));
    }
}

#[test]
fn pick_is_roughly_uniform_over_the_pool() {
    let mut counts = [0usize; 10];
    let trials = 6000;
    for _ in 0..trials {
        let url = random_webm("q", Some(4), urls(10)).ok().unwrap();
        let i: usize = url.trim_start_matches("https://media/").trim_end_matches(".webm").parse().unwrap();
        counts[i] += 1;
    }
    for c in &counts[..4] {
        assert!(*c > trials / 4 * 8 / 10 && *c < trials / 4 * 12 / 10, "{counts:?}");
    }
    assert!(counts[4..].iter().all(|c| *c == 0));
}

fn failure(body: bool, decode: bool, timeout: bool, status: bool) -> TransportFailure {
    TransportFailure { body, decode, timeout, status, message: "m".to_string() }
}

#[test]
fn transport_failures_are_sorted() {
    assert!(matches!(TenorError::from(failure(false, false, false, false)), TenorError::Request { .. }));
    assert!(matches!(TenorError::from(failure(true, false, false, false)), TenorError::Response { .. }));
    assert!(matches!(TenorError::from(failure(false, true, false, false)), TenorError::Response { .. }));
    assert!(matches!(TenorError::from(failure(false, false, true, false)), TenorError::Response { .. }));
    assert!(matches!(TenorError::from(failure(false, false, false, true)), TenorError::Response { .. }));
}
