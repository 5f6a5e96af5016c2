use ferrisfetcher::client::{
    Admission, AttemptOutcome, AttemptPlan, Entry, RequestGate, RequestStage, RetryDecision,
    RetryState, Settlement,
};
use ferrisfetcher::types::{Fraction, Multiplier, RetryPolicy};
use ferrisfetcher::{Config, FerrisFetcherError, HttpClient, RequestStats};
use std::time::Duration;

#[test]
fn test_client_creation() {
    let config = Config::default();
    let client = HttpClient::new(config).unwrap();
    assert_eq!(client.max_concurrent_requests(), 10);
    assert!(client.has_rate_limiting());
}

#[test]
fn client_refuses_invalid_configuration() {
    match HttpClient::new(Config::new().with_max_concurrent_requests(0)) {
        Err(FerrisFetcherError::ConfigError(message)) => {
            assert_eq!(message, "Max concurrent requests must be greater than 0")
        }
        other => panic!("unexpected outcome: {:?}", other),
    }
}

fn policy(max_attempts: u32) -> RetryPolicy {
    RetryPolicy {
        max_attempts,
        base_delay: Duration::from_millis(500),
        max_delay: Duration::from_millis(10_000),
        exponential_backoff: true,
        backoff_multiplier: Multiplier::whole(2),
    }
}

/// Drives a request against a transport that answers with `answer` every
/// time; returns the attempts made, the pauses taken and the final plan.
fn drive(
    max_attempts: u32,
    answer: fn() -> AttemptOutcome,
) -> (u32, Vec<Duration>, Result<(), FerrisFetcherError>) {
    let mut state = RetryState::new(policy(max_attempts));
    let mut attempts = 0;
    let mut pauses = Vec::new();
    loop {
        match state.next_attempt(true) {
            AttemptPlan::Abort(e) => return (attempts, pauses, Err(e)),
            AttemptPlan::Send { attempt } => {
                attempts += 1;
                assert_eq!(attempt, attempts);
                assert_eq!(state.attempts(), attempts);
                match state.record(answer()) {
                    RetryDecision::Deliver => return (attempts, pauses, Ok(())),
                    RetryDecision::Backoff(delay) => pauses.push(delay),
                    RetryDecision::Exhausted => {}
                }
            }
        }
    }
}

#[test]
fn server_errors_use_every_attempt() {
    for n in 1..=5 {
        let (attempts, pauses, end) = drive(n, || AttemptOutcome::Response { status: 503 });
        assert_eq!(attempts, n);
        assert_eq!(pauses.len() as u32, n - 1);
        match end {
            Err(FerrisFetcherError::NetworkError(message)) => {
                assert_eq!(message, "Server error: 503 Service Unavailable")
            }
            other => panic!("unexpected end: {:?}", other),
        }
    }
}

#[test]
fn transport_failures_use_every_attempt() {
    let (attempts, pauses, end) =
        drive(3, || AttemptOutcome::TransportFailure("connection reset".to_string()));
    assert_eq!(attempts, 3);
    assert_eq!(pauses, vec![Duration::from_millis(500), Duration::from_millis(1000)]);
    match end {
        Err(FerrisFetcherError::HttpError(message)) => assert_eq!(message, "connection reset"),
        other => panic!("unexpected end: {:?}", other),
    }
}

#[test]
fn success_and_client_errors_are_delivered_at_once() {
    for status in [200u16, 204, 299, 301, 404, 429, 499, 600, 100] {
        let mut state = RetryState::new(policy(3));
        assert!(matches!(state.next_attempt(true), AttemptPlan::Send { attempt: 1 }));
        assert!(matches!(
            state.record(AttemptOutcome::Response { status }),
            RetryDecision::Deliver
        ));
    }
}

#[test]
fn status_boundaries_of_server_errors() {
    for (status, retried) in [(499u16, false), (500, true), (599, true), (600, false)] {
        let mut state = RetryState::new(policy(2));
        assert!(matches!(state.next_attempt(true), AttemptPlan::Send { attempt: 1 }));
        let decision = state.record(AttemptOutcome::Response { status });
        assert_eq!(matches!(decision, RetryDecision::Backoff(_)), retried, "status {}", status);
    }
}

#[test]
fn recovery_after_a_server_error() {
    let mut state = RetryState::new(policy(3));
    assert!(matches!(state.next_attempt(true), AttemptPlan::Send { attempt: 1 }));
    match state.record(AttemptOutcome::Response { status: 500 }) {
        RetryDecision::Backoff(delay) => assert_eq!(delay, Duration::from_millis(500)),
        other => panic!("unexpected answer: {:?}", other),
    }
    assert!(matches!(state.next_attempt(true), AttemptPlan::Send { attempt: 2 }));
    assert!(matches!(state.record(AttemptOutcome::Response { status: 200 }), RetryDecision::Deliver));
}

#[test]
fn no_attempts_permitted_means_exhausted() {
    let mut state = RetryState::new(policy(0));
    assert!(matches!(
        state.next_attempt(true),
        AttemptPlan::Abort(FerrisFetcherError::RetryExhausted)
    ));
}

#[test]
fn the_last_failure_is_handed_out_once() {
    let mut state = RetryState::new(policy(1));
    assert!(matches!(state.next_attempt(true), AttemptPlan::Send { attempt: 1 }));
    assert!(matches!(state.record(AttemptOutcome::Response { status: 502 }), RetryDecision::Exhausted));
    match state.next_attempt(true) {
        AttemptPlan::Abort(FerrisFetcherError::NetworkError(message)) => {
            assert_eq!(message, "Server error: 502 Bad Gateway")
        }
        other => panic!("unexpected plan: {:?}", other),
    }
    assert!(matches!(
        state.next_attempt(true),
        AttemptPlan::Abort(FerrisFetcherError::RetryExhausted)
    ));
}

#[test]
fn body_that_cannot_be_replayed_fails_fast() {
    let mut state = RetryState::new(policy(3));
    match state.next_attempt(false) {
        AttemptPlan::Abort(FerrisFetcherError::ConfigError(message)) => {
            assert_eq!(message, "Request body is not cloneable for retry")
        }
        other => panic!("unexpected plan: {:?}", other),
    }
    assert_eq!(state.attempts(), 0);
}

#[test]
fn backoff_doubles_and_is_capped() {
    let p = policy(10);
    assert_eq!(p.backoff_delay(1), Duration::from_millis(500));
    assert_eq!(p.backoff_delay(2), Duration::from_millis(1000));
    assert_eq!(p.backoff_delay(3), Duration::from_millis(2000));
    assert_eq!(p.backoff_delay(5), Duration::from_millis(8000));
    assert_eq!(p.backoff_delay(6), Duration::from_millis(10_000));
    assert_eq!(p.backoff_delay(u32::MAX), Duration::from_millis(10_000));
    let capped = RetryPolicy { max_delay: Duration::from_millis(1500), ..p };
    assert_eq!(capped.backoff_delay(3), Duration::from_millis(1500));
}

#[test]
fn backoff_edge_cases() {
    let constant = RetryPolicy { exponential_backoff: false, ..policy(3) };
    assert_eq!(constant.backoff_delay(1), Duration::from_millis(500));
    assert_eq!(constant.backoff_delay(7), Duration::from_millis(500));
    let constant_above_cap = RetryPolicy { max_delay: Duration::from_millis(100), ..constant };
    assert_eq!(constant_above_cap.backoff_delay(2), Duration::from_millis(500));
    let steady = RetryPolicy { backoff_multiplier: Multiplier::whole(1), ..policy(3) };
    assert_eq!(steady.backoff_delay(9), Duration::from_millis(500));
    let vanishing = RetryPolicy { backoff_multiplier: Multiplier::whole(0), ..policy(3) };
    assert_eq!(vanishing.backoff_delay(1), Duration::from_millis(500));
    assert_eq!(vanishing.backoff_delay(2), Duration::ZERO);
    let no_base = RetryPolicy { base_delay: Duration::ZERO, ..policy(3) };
    assert_eq!(no_base.backoff_delay(40), Duration::ZERO);
    let tripling = RetryPolicy {
        base_delay: Duration::new(1, 500),
        max_delay: Duration::MAX,
        backoff_multiplier: Multiplier::whole(3),
        ..policy(3)
    };
    assert_eq!(tripling.backoff_delay(3), Duration::new(9, 4500));
    assert_eq!(tripling.backoff_delay(200), Duration::MAX);
    let huge = RetryPolicy {
        base_delay: Duration::MAX,
        max_delay: Duration::MAX,
        backoff_multiplier: Multiplier::from_thousandths(u32::MAX),
        ..policy(3)
    };
    assert_eq!(huge.backoff_delay(2), Duration::MAX);
}

#[test]
fn client_calculates_the_delay_of_its_policy() {
    let client = HttpClient::new(Config::new().with_retry_policy(policy(3))).unwrap();
    assert_eq!(client.calculate_retry_delay(3), Duration::from_millis(2000));
}

#[test]
fn gate_never_admits_more_than_its_ceiling() {
    let mut gate = RequestGate::new(2, Some(Duration::from_millis(5)));
    let mut admitted = 0;
    for _ in 0..5 {
        match gate.try_acquire() {
            Admission::Admitted { delay } => {
                assert_eq!(delay, Some(Duration::from_millis(5)));
                admitted += 1;
            }
            Admission::Busy => {}
            Admission::Closed => panic!("gate is open"),
        }
        assert!(gate.in_flight() <= gate.ceiling());
    }
    assert_eq!(admitted, 2);
    assert_eq!(gate.in_flight(), 2);
    gate.release();
    assert_eq!(gate.in_flight(), 1);
    assert!(matches!(gate.try_acquire(), Admission::Admitted { .. }));
    assert!(matches!(gate.try_acquire(), Admission::Busy));
    gate.release();
    gate.release();
    gate.release();
    assert_eq!(gate.in_flight(), 0);
}

#[test]
fn closed_gate_turns_everyone_away() {
    let mut gate = RequestGate::new(1, None);
    assert!(matches!(gate.try_acquire(), Admission::Admitted { delay: None }));
    gate.close();
    gate.release();
    assert!(matches!(gate.try_acquire(), Admission::Closed));
    assert_eq!(gate.in_flight(), 0);
}

#[test]
fn gate_without_slots_is_always_busy() {
    let mut gate = RequestGate::new(0, None);
    assert!(matches!(gate.try_acquire(), Admission::Busy));
}

#[test]
fn request_flow_takes_and_returns_its_slot() {
    let mut client =
        HttpClient::new(Config::new().with_max_concurrent_requests(1).with_retry_policy(policy(2)))
            .unwrap();
    let mut first = client.new_request();
    assert_eq!(first.stage(), RequestStage::Queued);
    assert!(!first.holds_slot());
    match client.enter(&mut first) {
        Entry::Admitted { delay } => assert_eq!(delay, Some(Duration::from_millis(1000))),
        other => panic!("unexpected answer: {:?}", other),
    }
    assert_eq!(first.stage(), RequestStage::Admitted);
    assert!(first.holds_slot());

    let mut second = client.new_request();
    assert!(matches!(client.enter(&mut second), Entry::Wait));
    assert_eq!(second.stage(), RequestStage::Queued);

    let url = client.check_address(&mut first, "https://example.com/", Duration::from_millis(1)).unwrap();
    assert_eq!(url.as_str(), "https://example.com/");
    assert!(matches!(client.attempt(&mut first, true, Duration::from_millis(2)), AttemptPlan::Send { attempt: 1 }));
    assert_eq!(first.stage(), RequestStage::Sending);
    match client.settle(
        &mut first,
        AttemptOutcome::Response { status: 500 },
        Duration::from_millis(50),
        None,
    ) {
        Settlement::Pause(delay) => assert_eq!(delay, Duration::from_millis(500)),
        other => panic!("unexpected answer: {:?}", other),
    }
    assert!(first.holds_slot());
    assert!(matches!(client.enter(&mut second), Entry::Wait));
    assert!(matches!(client.attempt(&mut first, true, Duration::from_millis(2)), AttemptPlan::Send { attempt: 2 }));
    assert_eq!(first.attempts(), 2);
    assert!(matches!(
        client.settle(
            &mut first,
            AttemptOutcome::Response { status: 404 },
            Duration::from_millis(120),
            Some(2048)
        ),
        Settlement::Deliver
    ));
    assert_eq!(first.stage(), RequestStage::Finished);
    assert!(!first.holds_slot());

    assert!(matches!(client.enter(&mut second), Entry::Admitted { .. }));
    let stats = client.get_stats();
    assert_eq!(stats.total_requests, 1);
    assert_eq!(stats.successful_requests, 1);
    assert_eq!(stats.failed_requests, 0);
    assert_eq!(stats.total_bytes, 2048);
    assert_eq!(stats.total_time_ms, 120);
    let unpaced = HttpClient::new(Config::new().without_rate_limit()).unwrap();
    assert!(!unpaced.has_rate_limiting());
}

#[test]
fn every_way_out_gives_the_slot_back() {
    let mut client =
        HttpClient::new(Config::new().with_max_concurrent_requests(1).with_retry_policy(policy(1)))
            .unwrap();

    // An invalid address.
    let mut flow = client.new_request();
    assert!(matches!(client.enter(&mut flow), Entry::Admitted { .. }));
    match client.check_address(&mut flow, "not a url", Duration::from_millis(3)) {
        Err(FerrisFetcherError::InvalidUrl(message)) => {
            assert_eq!(message, "relative URL without a base")
        }
        other => panic!("unexpected outcome: {:?}", other),
    }
    assert_eq!(flow.stage(), RequestStage::Finished);

    // A body that cannot be sent again.
    let mut flow = client.new_request();
    assert!(matches!(client.enter(&mut flow), Entry::Admitted { .. }));
    assert!(matches!(
        client.attempt(&mut flow, false, Duration::from_millis(4)),
        AttemptPlan::Abort(FerrisFetcherError::ConfigError(_))
    ));
    assert_eq!(flow.stage(), RequestStage::Finished);

    // The last attempt fails.
    let mut flow = client.new_request();
    assert!(matches!(client.enter(&mut flow), Entry::Admitted { .. }));
    assert!(matches!(client.attempt(&mut flow, true, Duration::from_millis(2)), AttemptPlan::Send { attempt: 1 }));
    match client.settle(
        &mut flow,
        AttemptOutcome::TransportFailure("timed out".to_string()),
        Duration::from_millis(5),
        None,
    ) {
        Settlement::Fail(FerrisFetcherError::HttpError(message)) => {
            assert_eq!(message, "timed out")
        }
        other => panic!("unexpected answer: {:?}", other),
    }
    assert_eq!(flow.stage(), RequestStage::Finished);

    // The caller goes away, before and after being let in.
    let mut flow = client.new_request();
    let mut waiting = client.new_request();
    assert!(matches!(client.enter(&mut flow), Entry::Admitted { .. }));
    assert!(matches!(client.enter(&mut waiting), Entry::Wait));
    client.abandon(&mut waiting, Duration::from_millis(6));
    assert_eq!(waiting.stage(), RequestStage::Finished);
    let mut other = client.new_request();
    assert!(matches!(client.enter(&mut other), Entry::Wait));
    client.abandon(&mut flow, Duration::from_millis(7));
    client.abandon(&mut flow, Duration::from_millis(70));
    assert_eq!(flow.stage(), RequestStage::Finished);
    assert!(matches!(client.enter(&mut other), Entry::Admitted { .. }));

    // Each of the four requests that had been let in counts as failed, with
    // the time it took; the one that only waited leaves no trace.
    let stats = client.get_stats();
    assert_eq!(stats.total_requests, 4);
    assert_eq!(stats.failed_requests, 4);
    assert_eq!(stats.successful_requests, 0);
    assert_eq!(stats.total_bytes, 0);
    assert_eq!(stats.total_time_ms, 3 + 4 + 5 + 7);
}

#[test]
fn a_request_whose_every_attempt_fails_is_counted_as_failed() {
    let mut client =
        HttpClient::new(Config::new().with_retry_policy(policy(3))).unwrap();
    client.update_stats(true, Duration::from_millis(10), Some(100));
    let before = client.get_stats();
    let mut flow = client.new_request();
    assert!(matches!(client.enter(&mut flow), Entry::Admitted { .. }));
    let mut attempts = 0;
    let end = loop {
        match client.attempt(&mut flow, true, Duration::from_millis(1)) {
            AttemptPlan::Send { .. } => attempts += 1,
            AttemptPlan::Abort(e) => break e,
        }
        match client.settle(
            &mut flow,
            AttemptOutcome::Response { status: 503 },
            Duration::from_millis(250),
            None,
        ) {
            Settlement::Deliver => panic!("nothing to deliver"),
            Settlement::Pause(_) => {}
            Settlement::Fail(e) => break e,
        }
    };
    assert_eq!(attempts, 3);
    assert!(matches!(end, FerrisFetcherError::NetworkError(_)));
    let after = client.get_stats();
    assert_eq!(after.total_requests, before.total_requests + 1);
    assert_eq!(after.failed_requests, before.failed_requests + 1);
    assert_eq!(after.successful_requests, before.successful_requests);
    assert_eq!(after.total_bytes, before.total_bytes);
    assert_eq!(after.total_time_ms, before.total_time_ms + 250);
    assert_eq!(after.success_rate(), Fraction { numerator: 1, denominator: 2 });
}

#[test]
fn fractional_multipliers_grow_the_delay() {
    let p = RetryPolicy { backoff_multiplier: Multiplier::from_thousandths(1500), ..policy(9) };
    assert_eq!(p.backoff_delay(1), Duration::from_millis(500));
    assert_eq!(p.backoff_delay(2), Duration::from_millis(750));
    assert_eq!(p.backoff_delay(3), Duration::from_millis(1125));
    assert_eq!(p.backoff_delay(9), Duration::from_millis(10_000));
    let halving = RetryPolicy { backoff_multiplier: Multiplier::from_thousandths(500), ..policy(9) };
    assert_eq!(halving.backoff_delay(2), Duration::from_millis(250));
    assert_eq!(halving.backoff_delay(4), Duration::from_micros(62_500));
    assert_eq!(halving.backoff_delay(u32::MAX), Duration::ZERO);
    let from_above = RetryPolicy {
        base_delay: Duration::from_secs(100),
        max_delay: Duration::from_secs(30),
        ..halving
    };
    assert_eq!(from_above.backoff_delay(1), Duration::from_secs(30));
    assert_eq!(from_above.backoff_delay(2), Duration::from_secs(30));
    assert_eq!(from_above.backoff_delay(3), Duration::from_secs(25));
    // Every step is rounded down to a whole nanosecond.
    let tiny = RetryPolicy {
        base_delay: Duration::from_nanos(3),
        backoff_multiplier: Multiplier::from_thousandths(1500),
        ..policy(9)
    };
    assert_eq!(tiny.backoff_delay(2), Duration::from_nanos(4));
    assert_eq!(tiny.backoff_delay(3), Duration::from_nanos(6));
    let stuck = RetryPolicy {
        base_delay: Duration::from_nanos(1),
        backoff_multiplier: Multiplier::from_thousandths(1999),
        ..policy(9)
    };
    assert_eq!(stuck.backoff_delay(u32::MAX), Duration::from_nanos(1));
}

#[test]
fn whole_multipliers() {
    assert_eq!(Multiplier::whole(2).thousandths, 2000);
    assert_eq!(Multiplier::whole(0).thousandths, 0);
    assert_eq!(Multiplier::whole(4_294_967).thousandths, 4_294_967_000);
    assert_eq!(Multiplier::whole(4_294_968).thousandths, u32::MAX);
    assert_eq!(Multiplier::from_thousandths(1250).thousandths, 1250);
}

#[test]
fn closed_admission_cancels_those_who_wait() {
    let mut client = HttpClient::new(Config::new().with_max_concurrent_requests(1)).unwrap();
    let mut holder = client.new_request();
    let mut waiter = client.new_request();
    assert!(matches!(client.enter(&mut holder), Entry::Admitted { .. }));
    assert!(matches!(client.enter(&mut waiter), Entry::Wait));
    client.close();
    assert!(matches!(
        client.enter(&mut waiter),
        Entry::Cancelled(FerrisFetcherError::TaskCancelled)
    ));
    assert_eq!(waiter.stage(), RequestStage::Finished);
    assert!(holder.holds_slot());
    assert!(matches!(client.attempt(&mut holder, true, Duration::from_millis(2)), AttemptPlan::Send { attempt: 1 }));
}

#[test]
fn url_check() {
    let url = HttpClient::parse_url("https://example.com/a?b=1").unwrap();
    assert_eq!(url.host_str(), Some("example.com"));
    match HttpClient::parse_url("not a url") {
        Err(FerrisFetcherError::InvalidUrl(message)) => {
            assert_eq!(message, "relative URL without a base")
        }
        other => panic!("unexpected outcome: {:?}", other),
    }
}

fn ratio(f: Fraction) -> f64 {
    f.numerator as f64 / f.denominator as f64
}

#[test]
fn success_rate_three_of_four() {
    let mut stats = RequestStats::new();
    stats.record(true, Duration::from_millis(10), Some(100));
    stats.record(true, Duration::from_millis(20), None);
    stats.record(false, Duration::from_millis(30), None);
    stats.record(true, Duration::from_millis(40), Some(50));
    assert_eq!(stats.total_requests, 4);
    assert_eq!(stats.successful_requests, 3);
    assert_eq!(stats.failed_requests, 1);
    assert_eq!(stats.total_bytes, 150);
    assert_eq!(stats.total_time_ms, 100);
    assert_eq!(stats.success_rate(), Fraction { numerator: 3, denominator: 4 });
    assert_eq!(ratio(stats.success_rate()), 0.75);
    assert_eq!(stats.avg_response_time_ms(), Fraction { numerator: 100, denominator: 4 });
    assert_eq!(ratio(stats.avg_response_time_ms()), 25.0);
}

#[test]
fn reset_gives_zero_total_and_a_defined_rate() {
    let mut client = HttpClient::new(Config::default()).unwrap();
    client.update_stats(true, Duration::from_millis(7), Some(1));
    client.update_stats(false, Duration::from_millis(7), None);
    assert_eq!(client.get_stats().total_requests, 2);
    client.reset_stats();
    let stats = client.get_stats();
    assert_eq!(stats, RequestStats::new());
    assert_eq!(stats.total_requests, 0);
    assert_eq!(stats.success_rate(), Fraction { numerator: 0, denominator: 1 });
    assert_eq!(ratio(stats.success_rate()), 0.0);
    assert!(!ratio(stats.success_rate()).is_nan());
    assert_eq!(ratio(stats.avg_response_time_ms()), 0.0);
    assert_eq!(RequestStats::default(), RequestStats::new());
}

#[test]
fn counters_stop_at_the_maximum() {
    let mut stats = RequestStats {
        total_requests: u64::MAX,
        successful_requests: u64::MAX - 1,
        failed_requests: 0,
        total_bytes: u64::MAX - 5,
        total_time_ms: 0,
    };
    stats.record(true, Duration::MAX, Some(10));
    assert_eq!(stats.total_requests, u64::MAX);
    assert_eq!(stats.successful_requests, u64::MAX);
    assert_eq!(stats.total_bytes, u64::MAX);
    assert_eq!(stats.total_time_ms, u64::MAX);
    stats.record(true, Duration::from_millis(1), None);
    assert_eq!(stats.successful_requests, u64::MAX);
}

#[test]
fn elapsed_time_counts_whole_milliseconds() {
    let mut stats = RequestStats::new();
    stats.record(true, Duration::from_micros(1999), None);
    assert_eq!(stats.total_time_ms, 1);
}

#[test]
fn transport_settings_follow_the_configuration() {
    let client = HttpClient::new(Config::default()).unwrap();
    let settings = client.transport_settings();
    assert_eq!(settings.timeout, Duration::from_secs(30));
    assert_eq!(settings.connect_timeout, Duration::from_secs(10));
    assert_eq!(settings.tcp_keep_alive, Duration::from_secs(60));
    assert_eq!(settings.pool_max_idle_per_host, 25);
    assert_eq!(settings.pool_idle_timeout, Duration::from_secs(60));
    assert_eq!(settings.redirect_limit, Some(5));
    assert!(settings.cookie_store);
    let client =
        HttpClient::new(Config::new().without_redirects().without_cookies()).unwrap();
    assert_eq!(client.transport_settings().redirect_limit, None);
    assert!(!client.transport_settings().cookie_store);
}
