use rsfq::batch::{all_resolved, batch_init, can_start, finish_one, start_one, BatchState, DEFAULT_QUEUE_SIZE};

#[test]
fn default_cap() {
    assert_eq!(DEFAULT_QUEUE_SIZE, 50);
}

#[test]
fn batch_of_hundred_respects_cap_of_fifty() {
    // Start as eagerly as the cap allows, finish one at a time: the
    // in-flight count never exceeds the cap and all jobs resolve.
    let mut b = batch_init(100, 50);
    let mut max_in_flight = 0;
    let mut steps = 0;
    while !all_resolved(&b) {
        while can_start(&b) {
            start_one(&mut b);
        }
        let in_flight = b.started - b.finished;
        assert!(in_flight <= 50, "cap exceeded");
        if in_flight > max_in_flight {
            max_in_flight = in_flight;
        }
        assert!(in_flight > 0, "a batch that is not done can always move");
        finish_one(&mut b);
        steps += 1;
        assert!(steps <= 1000, "batch failed to resolve");
    }
    assert_eq!(b.finished, 100);
    assert_eq!(b.started, 100);
    assert_eq!(max_in_flight, 50, "the cap is actually reached");
}

#[test]
fn small_batch_never_fills_cap() {
    let mut b = batch_init(3, 50);
    while can_start(&b) {
        start_one(&mut b);
    }
    assert_eq!(b.started, 3);
    assert_eq!(b.started - b.finished, 3);
    finish_one(&mut b);
    finish_one(&mut b);
    finish_one(&mut b);
    assert!(all_resolved(&b));
}

#[test]
fn finished_jobs_free_cap_slots() {
    let mut b = batch_init(4, 2);
    start_one(&mut b);
    start_one(&mut b);
    assert!(!can_start(&b), "cap of two is full");
    finish_one(&mut b);
    assert!(can_start(&b), "a completion frees a slot");
    start_one(&mut b);
    assert_eq!(b, BatchState { total: 4, started: 3, finished: 1, cap: 2 });
}
