//! Bounded polling for the backend to accept connections.
use vstd::prelude::*;

verus! {

/// Where to probe and for how long: a `host:port` address, the overall
/// timeout and the pause between failed attempts, both in milliseconds.
pub struct ReadinessTarget {
    pub address: String,
    pub timeout_ms: u64,
    pub poll_interval_ms: u64,
}

/// What the probe does next.
#[derive(PartialEq, Eq, Structural, Clone, Copy, Debug)]
pub enum ProbeAction {
    /// Try to connect to the address.
    Connect,
    /// Sleep this many milliseconds, then ask again.
    Sleep(u64),
    /// Stop: `true` when a connection succeeded, `false` on timeout.
    Finish(bool),
}

/// The action before an attempt, `elapsed` milliseconds after the probe began.
pub open spec fn action_before_attempt(timeout: int, elapsed: int) -> ProbeAction {
    if elapsed < timeout {
        ProbeAction::Connect
    } else {
        ProbeAction::Finish(false)
    }
}

/// The action after an attempt that connected, or not.
pub open spec fn action_after_attempt(poll_interval: u64, connected: bool) -> ProbeAction {
    if connected {
        ProbeAction::Finish(true)
    } else {
        ProbeAction::Sleep(poll_interval)
    }
}

/// Whether an address that accepts connections from time `ready_at` on
/// (never, for `None`) accepts one at time `now`.
pub open spec fn accepts_at(ready_at: Option<int>, now: int) -> bool {
    ready_at matches Some(t) && t <= now
}

/// The probe driven from time `now` on, with connection attempts taking no
/// time and each sleep taking exactly its interval: whether it reported
/// ready, and the time at which it finished.
pub open spec fn probe_run(timeout: int, poll_interval: u64, ready_at: Option<int>, now: int) -> (
    bool,
    int,
)
    decreases (if now < timeout {
        timeout - now
    } else {
        0
    }),
    when poll_interval > 0
{
    match action_before_attempt(timeout, now) {
        ProbeAction::Connect => match action_after_attempt(
            poll_interval,
            accepts_at(ready_at, now),
        ) {
            ProbeAction::Sleep(d) => probe_run(timeout, poll_interval, ready_at, now + d),
            ProbeAction::Finish(r) => (r, now),
            ProbeAction::Connect => (false, now),
        },
        ProbeAction::Finish(r) => (r, now),
        ProbeAction::Sleep(_) => (false, now),
    }
}

impl ReadinessTarget {
    pub fn new(address: String, timeout_ms: u64, poll_interval_ms: u64) -> (r: Self)
        ensures
            r.address == address,
            r.timeout_ms == timeout_ms,
            r.poll_interval_ms == poll_interval_ms,
    {
        ReadinessTarget { address, timeout_ms, poll_interval_ms }
    }

    /// The backend's loopback address, probed for ten seconds, every quarter
    /// of a second.
    pub fn service_default() -> (r: Self)
        ensures
            r.address@ == "127.0.0.1:7600"@,
            r.timeout_ms == 10_000,
            r.poll_interval_ms == 250,
    {
        ReadinessTarget { address: "127.0.0.1:7600".to_owned(), timeout_ms: 10_000, poll_interval_ms: 250 }
    }

    /// The probe's decision before each attempt: connect while the elapsed
    /// time is below the timeout, otherwise report not ready.
    pub fn before_attempt(&self, elapsed_ms: u64) -> (r: ProbeAction)
        ensures
            r == action_before_attempt(self.timeout_ms as int, elapsed_ms as int),
    {
        if elapsed_ms < self.timeout_ms {
            ProbeAction::Connect
        } else {
            ProbeAction::Finish(false)
        }
    }

    /// The probe's decision after an attempt: report ready at once on a
    /// connection, otherwise sleep for the poll interval.
    pub fn after_attempt(&self, connected: bool) -> (r: ProbeAction)
        ensures
            r == action_after_attempt(self.poll_interval_ms, connected),
    {
        if connected {
            ProbeAction::Finish(true)
        } else {
            ProbeAction::Sleep(self.poll_interval_ms)
        }
    }
}

proof fn lemma_ready_from(timeout: int, poll_interval: u64, ready_at: int, n: nat, k: nat)
    requires
        poll_interval > 0,
        0 <= ready_at <= n * poll_interval,
        n * poll_interval < timeout,
        k <= n,
    ensures
        probe_run(timeout, poll_interval, Some(ready_at), k * poll_interval) matches (r, t) && r
            && ready_at <= t <= n * poll_interval,
    decreases n - k,
{
    let p = poll_interval as int;
    let now = k * p;
    assert(now <= n * p) by (nonlinear_arith)
        requires
            k <= n,
            p > 0,
            now == k * p,
    ;
    assert((k + 1) * p == now + p) by (nonlinear_arith)
        requires
            now == k * p,
    ;
    if now < ready_at {
        assert(k < n);
        lemma_ready_from(timeout, poll_interval, ready_at, n, k + 1);
    }
}

proof fn lemma_gives_up_from(timeout: int, poll_interval: u64, now: int)
    requires
        poll_interval > 0,
    ensures
        probe_run(timeout, poll_interval, None, now) matches (r, t) && !r && timeout <= t
            && (now < timeout ==> t < timeout + poll_interval) && (now >= timeout ==> t == now),
    decreases (if now < timeout {
        timeout - now
    } else {
        0
    }),
{
    if now < timeout {
        lemma_gives_up_from(timeout, poll_interval, now + poll_interval);
    }
}

/// A probe of an address that starts accepting connections at `ready_at`,
/// within `n` poll intervals of the start, reports ready no later than the
/// `n`-th interval boundary, and not before the address accepts, provided
/// that boundary comes before the timeout.
pub proof fn probe_ready_within_intervals(timeout_ms: u64, poll_interval_ms: u64, ready_at: int, n: nat)
    requires
        poll_interval_ms > 0,
        0 <= ready_at <= n * poll_interval_ms,
        n * poll_interval_ms < timeout_ms,
    ensures
        probe_run(timeout_ms as int, poll_interval_ms, Some(ready_at), 0) matches (r, t) && r
            && ready_at <= t <= n * poll_interval_ms,
{
    lemma_ready_from(timeout_ms as int, poll_interval_ms, ready_at, n, 0);
    assert(0 * poll_interval_ms == 0);
}

/// A probe of an address that never accepts a connection reports not ready,
/// at or after the timeout and less than one poll interval past it.
pub proof fn probe_gives_up_in_time(timeout_ms: u64, poll_interval_ms: u64)
    requires
        poll_interval_ms > 0,
    ensures
        probe_run(timeout_ms as int, poll_interval_ms, None, 0) matches (r, t) && !r
            && timeout_ms <= t < timeout_ms + poll_interval_ms,
{
    lemma_gives_up_from(timeout_ms as int, poll_interval_ms, 0);
}

} // verus!
