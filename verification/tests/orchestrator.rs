use upstream_sync::orchestrator::FirstFailure;
use upstream_sync::orchestrator::Orchestrator;
use upstream_sync::orchestrator::MAX_NETWORK_CONCURRENCY;

#[test]
fn bound_is_respected() {
    let mut o = Orchestrator::new(5, 2);
    assert_eq!(o.start_next(), Some(0));
    assert_eq!(o.start_next(), Some(1));
    // two in flight: the bound refuses a third
    assert_eq!(o.start_next(), None);
    o.task_done(true);
    assert_eq!(o.start_next(), Some(2));
    assert_eq!(o.start_next(), None);
}

#[test]
fn run_to_completion() {
    let mut o = Orchestrator::new(4, 2);
    let mut started = 0;
    let mut active = 0;
    while !o.finished() {
        while let Some(_) = o.start_next() {
            started += 1;
            active += 1;
            assert!(active <= 2);
        }
        o.task_done(true);
        active -= 1;
    }
    assert_eq!(started, 4);
    assert!(!o.has_failed());
}

#[test]
fn fail_fast_stops_intake() {
    let mut o = Orchestrator::new(5, 2);
    assert_eq!(o.start_next(), Some(0));
    assert_eq!(o.start_next(), Some(1));
    o.task_done(true);
    assert_eq!(o.start_next(), Some(2));
    // the second declared upstream fails while task 2 is still in flight
    o.task_done(false);
    assert!(o.has_failed());
    // no further intake, ever
    assert_eq!(o.start_next(), None);
    assert!(!o.finished());
    // the in-flight task still runs to its own completion
    o.task_done(true);
    assert_eq!(o.start_next(), None);
    assert!(o.finished());
    assert!(o.has_failed());
}

#[test]
fn first_failure_is_kept_later_ones_discarded() {
    let mut failures: FirstFailure<&str> = FirstFailure::new();
    assert!(!failures.has_failure());
    failures.record("second upstream failed");
    failures.record("fourth upstream failed");
    assert!(failures.has_failure());
    assert_eq!(failures.take(), Some("second upstream failed"));
}

#[test]
fn no_failure_means_success() {
    let failures: FirstFailure<String> = FirstFailure::new();
    assert_eq!(failures.take(), None);
}

#[test]
fn default_concurrency_bound() {
    let mut o = Orchestrator::new(100, MAX_NETWORK_CONCURRENCY);
    let mut admitted = 0;
    while let Some(_) = o.start_next() {
        admitted += 1;
    }
    assert_eq!(admitted, MAX_NETWORK_CONCURRENCY);
}
