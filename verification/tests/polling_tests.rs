use pipeman::polling::{
    poll_until_step, server_poll_step, session_retry_after_failure, PollDecision, RetryDecision,
    ServerPollState, ServerPollStep, RESOURCE_POLL_INTERVAL, SERVER_POLL_LIMIT,
    SESSION_RETRY_LIMIT,
};

#[test]
fn poll_until_returns_on_match() {
    let status = String::from("available");
    let expected = String::from("available");
    let d = poll_until_step(&status, &expected, RESOURCE_POLL_INTERVAL);
    assert_eq!(d, PollDecision::Done);
}

#[test]
fn poll_until_waits_configured_interval() {
    let status = String::from("creating");
    let expected = String::from("available");
    let d = poll_until_step(&status, &expected, RESOURCE_POLL_INTERVAL);
    assert_eq!(d, PollDecision::Wait(3));
    let d = poll_until_step(&status, &expected, 7);
    assert_eq!(d, PollDecision::Wait(7));
}

#[test]
fn server_poll_matches_without_sleep() {
    let st = ServerPollState::init();
    let (step, next) = server_poll_step(st, true);
    assert_eq!(step, ServerPollStep::Matched);
    assert_eq!(next.waited, 0);
}

#[test]
fn server_poll_interval_sequence_and_timeout() {
    // intervals 5, 10, 15, ...; fatal once the accumulated wait reaches 1200
    let mut st = ServerPollState::init();
    let mut sleeps: Vec<u64> = Vec::new();
    let mut rounds = 0u32;
    loop {
        let (step, next) = server_poll_step(st, false);
        rounds += 1;
        st = next;
        match step {
            ServerPollStep::Sleep(s) => sleeps.push(s),
            ServerPollStep::FatalTimeout => break,
            ServerPollStep::Matched => unreachable!(),
        }
        assert!(st.waited < SERVER_POLL_LIMIT);
    }
    // 21 sleeps of 5,10,...,105 accumulate 1155; the 22nd round would pass
    // 1200, so it is the fatal timeout and no further poll is allowed
    assert_eq!(rounds, 22);
    assert_eq!(sleeps.len(), 21);
    assert_eq!(sleeps[0], 5);
    assert_eq!(sleeps[1], 10);
    assert_eq!(sleeps[20], 105);
    assert!(st.waited >= SERVER_POLL_LIMIT);
    assert_eq!(st.waited, 1265);
}

#[test]
fn session_retry_timeout_at_cap() {
    // each failure adds five seconds; the fatal timeout comes when the
    // accumulated wait reaches 600
    let mut waited = 0u64;
    let mut failures = 0u32;
    loop {
        let (d, next) = session_retry_after_failure(waited);
        waited = next;
        failures += 1;
        match d {
            RetryDecision::Retry => assert!(waited < SESSION_RETRY_LIMIT),
            RetryDecision::FatalTimeout => break,
        }
    }
    assert_eq!(failures, 120);
    assert_eq!(waited, 600);
}

#[test]
fn session_retry_continues_below_cap() {
    let (d, next) = session_retry_after_failure(0);
    assert_eq!(d, RetryDecision::Retry);
    assert_eq!(next, 5);
    let (d, next) = session_retry_after_failure(590);
    assert_eq!(d, RetryDecision::Retry);
    assert_eq!(next, 595);
    let (d, next) = session_retry_after_failure(595);
    assert_eq!(d, RetryDecision::FatalTimeout);
    assert_eq!(next, 600);
}
