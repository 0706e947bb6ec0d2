//! Decision logic of the engine's three wait loops: the poll-until-state
//! primitive with a fixed interval, server polling with a linearly increasing
//! interval and a hard ceiling, and session acquisition with retry. The loops
//! themselves sleep and perform I/O outside the library; every decision about
//! matching, waiting and timing out is taken here.
use vstd::prelude::*;

verus! {

/// Seconds between two polls of an image, volume or snapshot.
pub const RESOURCE_POLL_INTERVAL: u64 = 3;

/// First interval (seconds) of the server poll sequence 5, 10, 15, ...
pub const SERVER_POLL_START_INTERVAL: u64 = 5;

/// Accumulated wait (seconds) at which server polling aborts fatally.
pub const SERVER_POLL_LIMIT: u64 = 1200;

/// Seconds slept between attempts to reach a host that may still be booting.
pub const SESSION_RETRY_INTERVAL: u64 = 5;

/// Accumulated wait (seconds) at which session acquisition aborts fatally.
pub const SESSION_RETRY_LIMIT: u64 = 600;

/// What a poll loop does after one status observation.
#[derive(Debug, Clone, Copy, PartialEq, Eq, Structural)]
pub enum PollDecision {
    /// The resource reached the target status: return without sleeping.
    Done,
    /// Sleep this many seconds, then fetch the resource again.
    Wait(u64),
}

/// One round of the poll-until-state primitive: the loop returns as soon as
/// the observed status equals the expected status by exact match, and
/// otherwise waits exactly the configured interval before the next fetch.
pub fn poll_until_step(status: &String, expected: &String, interval: u64) -> (d: PollDecision)
    ensures
        status@ == expected@ ==> d == PollDecision::Done,
        status@ != expected@ ==> d == PollDecision::Wait(interval),
{
    if status.eq(expected) {
        PollDecision::Done
    } else {
        PollDecision::Wait(interval)
    }
}

/// Progress of one server poll loop: the interval to sleep before the next
/// attempt and the wait accumulated so far.
#[derive(Debug, Clone, Copy, PartialEq, Eq, Structural)]
pub struct ServerPollState {
    /// Seconds the next sleep will take: 5, then 10, 15, ...
    pub interval: u64,
    /// Seconds slept so far in this loop.
    pub waited: u64,
}

impl ServerPollState {
    /// States the loop can actually reach: the interval grows from the start
    /// value by one step per sleep, so it never runs ahead of the
    /// accumulated wait.
    pub open spec fn wf(&self) -> bool {
        &&& SERVER_POLL_START_INTERVAL <= self.interval
        &&& self.interval <= self.waited + SERVER_POLL_START_INTERVAL
    }

    /// The state before the first poll.
    pub fn init() -> (st: Self)
        ensures
            st.interval == SERVER_POLL_START_INTERVAL,
            st.waited == 0,
            st.wf(),
    {
        ServerPollState { interval: SERVER_POLL_START_INTERVAL, waited: 0 }
    }
}

/// What the server poll loop does after one status observation.
#[derive(Debug, Clone, Copy, PartialEq, Eq, Structural)]
pub enum ServerPollStep {
    /// The server reached the expected status: return it without sleeping.
    Matched,
    /// Sleep this many seconds, then fetch the server again.
    Sleep(u64),
    /// The accumulated wait reached the ceiling: abort fatally, no further
    /// poll attempt is made.
    FatalTimeout,
}

/// One round of server polling. The loop returns as soon as the comparison
/// matches; otherwise the current interval is slept and the interval grows by
/// the start step. Once the accumulated wait reaches the 1200-second ceiling
/// the step is the fatal timeout, and the `requires` clause forbids any
/// further attempt past that point.
pub fn server_poll_step(st: ServerPollState, matched: bool) -> (r: (ServerPollStep, ServerPollState))
    requires
        st.wf(),
        st.waited < SERVER_POLL_LIMIT,
    ensures
        r.1.wf(),
        matched ==> r.0 == ServerPollStep::Matched && r.1 == st,
        !matched ==> r.1.waited == st.waited + st.interval && r.1.interval == st.interval
            + SERVER_POLL_START_INTERVAL,
        !matched && st.waited + st.interval >= SERVER_POLL_LIMIT ==> r.0
            == ServerPollStep::FatalTimeout,
        !matched && st.waited + st.interval < SERVER_POLL_LIMIT ==> r.0 == ServerPollStep::Sleep(
            st.interval,
        ),
{
    if matched {
        (ServerPollStep::Matched, st)
    } else {
        let next = ServerPollState {
            interval: st.interval + SERVER_POLL_START_INTERVAL,
            waited: st.waited + st.interval,
        };
        if next.waited >= SERVER_POLL_LIMIT {
            (ServerPollStep::FatalTimeout, next)
        } else {
            (ServerPollStep::Sleep(st.interval), next)
        }
    }
}

/// The wait accumulated after `k` sleeps of the server poll sequence:
/// 5 + 10 + ... + 5k seconds.
pub open spec fn server_poll_waited(k: nat) -> nat
    decreases k,
{
    if k == 0 {
        0
    } else {
        server_poll_waited((k - 1) as nat) + 5 * k
    }
}

/// Law: the server poll intervals are 5, 10, 15, ... seconds, each round adds
/// the next interval to the accumulated wait, and the 1200-second ceiling is
/// first reached by the 22nd sleep — so a server poll loop makes at most 22
/// status observations after the first.
pub proof fn lemma_server_poll_schedule(k: nat)
    ensures
        server_poll_waited(k + 1) == server_poll_waited(k) + 5 * (k + 1),
        server_poll_waited(21) < SERVER_POLL_LIMIT,
        server_poll_waited(22) >= SERVER_POLL_LIMIT,
{
    assert(server_poll_waited(21) == 1155 && server_poll_waited(22) == 1265) by {
        reveal_with_fuel(server_poll_waited, 24);
    }
}

/// What session acquisition does after one failed connection attempt and the
/// five-second sleep that follows it.
#[derive(Debug, Clone, Copy, PartialEq, Eq, Structural)]
pub enum RetryDecision {
    /// Try to connect again.
    Retry,
    /// The accumulated wait reached the cap: abort fatally, no further
    /// connection attempt is made.
    FatalTimeout,
}

/// The retry policy of session acquisition, evaluated after each failed
/// attempt has slept its five seconds: the accumulated wait grows by the
/// interval, and once it reaches the 600-second cap the decision is the
/// fatal timeout. The `requires` clause forbids any attempt past that point.
pub fn session_retry_after_failure(waited: u64) -> (r: (RetryDecision, u64))
    requires
        waited < SESSION_RETRY_LIMIT,
    ensures
        r.1 == waited + SESSION_RETRY_INTERVAL,
        r.1 >= SESSION_RETRY_LIMIT ==> r.0 == RetryDecision::FatalTimeout,
        r.1 < SESSION_RETRY_LIMIT ==> r.0 == RetryDecision::Retry,
{
    let next = waited + SESSION_RETRY_INTERVAL;
    if next >= SESSION_RETRY_LIMIT {
        (RetryDecision::FatalTimeout, next)
    } else {
        (RetryDecision::Retry, next)
    }
}

} // verus!
