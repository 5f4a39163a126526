use rsfq::metadata::{classify_response, fetch_init, fetch_pending, fetch_step, FetchDecision};

#[test]
fn lookup_accepts_first_good_response() {
    let mut s = fetch_init(10);
    let resp = classify_response(200, "run_accession\nSRR000001\n");
    assert!(fetch_pending(&s));
    let d = fetch_step(&mut s, &resp);
    assert_eq!(d, FetchDecision::Accept);
    assert_eq!(s.failures, 0, "a first-try success makes no retries");
}

#[test]
fn lookup_retries_empty_bodies_then_succeeds() {
    // Three empty bodies, then a valid record: exactly three retry
    // sleeps before success.
    let mut s = fetch_init(10);
    let mut sleeps = 0;
    for _ in 0..3 {
        assert!(fetch_pending(&s));
        let resp = classify_response(200, "run_accession\n");
        let d = fetch_step(&mut s, &resp);
        assert_eq!(d, FetchDecision::RetryAfterSleep);
        sleeps += 1;
    }
    assert!(fetch_pending(&s));
    let resp = classify_response(200, "run_accession\nERR000002\n");
    let d = fetch_step(&mut s, &resp);
    assert_eq!(d, FetchDecision::Accept);
    assert_eq!(sleeps, 3);
    assert_eq!(s.failures, 3);
}

#[test]
fn lookup_gives_up_after_budget() {
    let mut s = fetch_init(2);
    let resp = classify_response(503, "unavailable");
    assert_eq!(fetch_step(&mut s, &resp), FetchDecision::RetryAfterSleep);
    assert_eq!(fetch_step(&mut s, &resp), FetchDecision::RetryAfterSleep);
    assert_eq!(fetch_step(&mut s, &resp), FetchDecision::GiveUp);
    assert!(!fetch_pending(&s), "no further requests after giving up");
    assert_eq!(s.failures, 3, "three requests were made for a budget of two retries");
}
