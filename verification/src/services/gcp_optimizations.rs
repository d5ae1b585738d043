//! Resilience of the calls to outside services: a circuit breaker and a batch processor.

use vstd::prelude::*;
use crate::clock::{utc_millis, utc_seconds};
use crate::config::settings::{BatchProcessingConfig, CircuitBreakerConfig};
use crate::text::owned;

verus! {

/// State of a closed circuit: calls go through.
pub const CLOSED: u32 = 0;

/// State of an open circuit: calls are refused.
pub const OPEN: u32 = 1;

/// State of a half-open circuit: a few calls go through to probe the service.
pub const HALF_OPEN: u32 = 2;

/// A circuit breaker: it opens after enough failures in a row, lets calls through again
/// once its timeout has passed, and closes after enough successes.
#[derive(Debug)]
pub struct SimpleCircuitBreaker {
    config: CircuitBreakerConfig,
    failure_count: u32,
    last_failure_time: u64,
    state: u32,
    success_count: u32,
}

/// The counters and state of a circuit breaker.
pub struct BreakerView {
    pub failure_count: u32,
    pub last_failure_time: u64,
    pub state: u32,
    pub success_count: u32,
}

/// Seconds between `last` and `now`, wrapping around as unsigned subtraction does.
pub open spec fn elapsed_seconds(now: u64, last: u64) -> int {
    if now >= last {
        now - last
    } else {
        now - last + 0x1_0000_0000_0000_0000
    }
}

/// Whether a call may go through at `now`, and the state after the check: an open circuit
/// whose timeout has passed turns half-open with no successes counted.
pub open spec fn check(c: CircuitBreakerConfig, s: BreakerView, now: u64) -> (bool, BreakerView) {
    if s.state == CLOSED {
        (true, s)
    } else if s.state == OPEN {
        if elapsed_seconds(now, s.last_failure_time) > c.timeout_duration {
            (true, BreakerView { state: HALF_OPEN, success_count: 0, ..s })
        } else {
            (false, s)
        }
    } else if s.state == HALF_OPEN {
        (s.success_count < c.half_open_max_calls, s)
    } else {
        (false, s)
    }
}

/// `n + 1` in 32 bits, wrapping around.
pub open spec fn next_count(n: u32) -> u32 {
    if n == u32::MAX {
        0
    } else {
        (n + 1) as u32
    }
}

/// The state after a successful call: a half-open circuit counts it and closes, clearing
/// the failures, once enough successes are counted; a closed circuit clears its failures.
pub open spec fn after_success(c: CircuitBreakerConfig, s: BreakerView) -> BreakerView {
    if s.state == HALF_OPEN {
        if s.success_count + 1 >= c.success_threshold {
            BreakerView { state: CLOSED, failure_count: 0, success_count: next_count(s.success_count), ..s }
        } else {
            BreakerView { success_count: next_count(s.success_count), ..s }
        }
    } else if s.state == CLOSED {
        BreakerView { failure_count: 0, ..s }
    } else {
        s
    }
}

/// The state after a failed call at `now`: the failure is counted and timed, and the
/// circuit opens once enough failures are counted.
pub open spec fn after_failure(c: CircuitBreakerConfig, s: BreakerView, now: u64) -> BreakerView {
    let t = BreakerView { failure_count: next_count(s.failure_count), last_failure_time: now, ..s };
    if s.failure_count + 1 >= c.failure_threshold {
        BreakerView { state: OPEN, ..t }
    } else {
        t
    }
}

/// A state that a circuit breaker can be in.
pub open spec fn well_formed(s: BreakerView) -> bool {
    s.state == CLOSED || s.state == OPEN || s.state == HALF_OPEN
}

/// A fresh, closed circuit.
pub open spec fn fresh() -> BreakerView {
    BreakerView { failure_count: 0, last_failure_time: 0, state: CLOSED, success_count: 0 }
}

impl SimpleCircuitBreaker {
    /// The counters and state.
    pub closed spec fn view(&self) -> BreakerView {
        BreakerView {
            failure_count: self.failure_count,
            last_failure_time: self.last_failure_time,
            state: self.state,
            success_count: self.success_count,
        }
    }

    /// The thresholds.
    pub closed spec fn config(&self) -> CircuitBreakerConfig {
        self.config
    }

    /// A closed circuit with no failures.
    pub fn new(config: CircuitBreakerConfig) -> (r: Self)
        ensures
            r@ == fresh(),
            r.config() == config,
    {
        SimpleCircuitBreaker { config, failure_count: 0, last_failure_time: 0, state: CLOSED, success_count: 0 }
    }

    /// Whether a call may go through at `now` (seconds since the Unix epoch).
    pub fn can_execute_at(&mut self, now: u64) -> (r: bool)
        ensures
            (r, final(self)@) == check(old(self).config(), old(self)@, now),
            final(self).config() == old(self).config(),
    {
        if self.state == CLOSED {
            true
        } else if self.state == OPEN {
            let elapsed = now.wrapping_sub(self.last_failure_time);
            assert(elapsed == elapsed_seconds(now, self.last_failure_time)) by {
                if now < self.last_failure_time {
                    assert(elapsed == now - self.last_failure_time + 0x1_0000_0000_0000_0000);
                }
            }
            if elapsed > self.config.timeout_duration {
                self.state = HALF_OPEN;
                self.success_count = 0;
                true
            } else {
                false
            }
        } else if self.state == HALF_OPEN {
            self.success_count < self.config.half_open_max_calls
        } else {
            false
        }
    }

    /// Whether a call may go through now.
    pub fn can_execute(&mut self) -> (r: bool)
        ensures
            final(self).config() == old(self).config(),
            exists|now: u64| (r, final(self)@) == check(old(self).config(), old(self)@, now),
    {
        let now = utc_seconds() as u64;
        self.can_execute_at(now)
    }

    /// Records a successful call.
    pub fn on_success(&mut self)
        ensures
            final(self)@ == after_success(old(self).config(), old(self)@),
            final(self).config() == old(self).config(),
    {
        if self.state == HALF_OPEN {
            let before = self.success_count;
            self.success_count = before.wrapping_add(1);
            assert(self.success_count == next_count(before));
            if before as u64 + 1 >= self.config.success_threshold as u64 {
                self.state = CLOSED;
                self.failure_count = 0;
            }
        } else if self.state == CLOSED {
            self.failure_count = 0;
        }
    }

    /// Records a failed call at `now` (seconds since the Unix epoch).
    pub fn on_failure_at(&mut self, now: u64)
        ensures
            final(self)@ == after_failure(old(self).config(), old(self)@, now),
            final(self).config() == old(self).config(),
    {
        let before = self.failure_count;
        self.failure_count = before.wrapping_add(1);
        assert(self.failure_count == next_count(before));
        self.last_failure_time = now;
        if before as u64 + 1 >= self.config.failure_threshold as u64 {
            self.state = OPEN;
        }
    }

    /// Records a failed call now.
    pub fn on_failure(&mut self)
        ensures
            final(self).config() == old(self).config(),
            exists|now: u64| final(self)@ == after_failure(old(self).config(), old(self)@, now),
    {
        let now = utc_seconds() as u64;
        self.on_failure_at(now)
    }

    /// The guard of a call at `now` (seconds since the Unix epoch): `Ok` lets the operation
    /// run; a circuit that refuses calls answers "Circuit breaker is open" and the operation
    /// is not run.
    pub fn guard_call_at(&mut self, now: u64) -> (r: Result<(), String>)
        ensures
            (r is Ok, final(self)@) == check(old(self).config(), old(self)@, now),
            r matches Err(e) ==> e@ == "Circuit breaker is open"@,
            final(self).config() == old(self).config(),
    {
        if self.can_execute_at(now) {
            Ok(())
        } else {
            Err(owned("Circuit breaker is open"))
        }
    }

    /// The guard of a call now, as [`Self::guard_call_at`] at the time of the clock.
    pub fn guard_call(&mut self) -> (r: Result<(), String>)
        ensures
            final(self).config() == old(self).config(),
            r matches Err(e) ==> e@ == "Circuit breaker is open"@,
            exists|now: u64| (r is Ok, final(self)@) == check(old(self).config(), old(self)@, now),
    {
        let now = utc_seconds() as u64;
        self.guard_call_at(now)
    }

    /// Records the outcome of an operation that was let through, at `now`, and hands it
    /// back: a success as [`Self::on_success`], a failure as [`Self::on_failure_at`].
    pub fn complete_at<T>(&mut self, outcome: Result<T, String>, now: u64) -> (r: Result<T, String>)
        ensures
            r == outcome,
            outcome is Ok ==> final(self)@ == after_success(old(self).config(), old(self)@),
            outcome is Err ==> final(self)@ == after_failure(old(self).config(), old(self)@, now),
            final(self).config() == old(self).config(),
    {
        match outcome {
            Ok(v) => {
                self.on_success();
                Ok(v)
            },
            Err(e) => {
                self.on_failure_at(now);
                Err(e)
            },
        }
    }

    /// Records the outcome of an operation that was let through, now, and hands it back.
    pub fn complete<T>(&mut self, outcome: Result<T, String>) -> (r: Result<T, String>)
        ensures
            r == outcome,
            outcome is Ok ==> final(self)@ == after_success(old(self).config(), old(self)@),
            outcome is Err ==> exists|now: u64| final(self)@ == after_failure(old(self).config(), old(self)@, now),
            final(self).config() == old(self).config(),
    {
        let now = utc_seconds() as u64;
        self.complete_at(outcome, now)
    }

    /// The state: 0 closed, 1 open, 2 half-open.
    pub fn get_state(&self) -> (r: u32)
        ensures
            r == self@.state,
    {
        self.state
    }
}

/// Every step keeps the breaker in one of its three states.
pub proof fn lemma_steps_keep_state(c: CircuitBreakerConfig, s: BreakerView, now: u64)
    requires
        well_formed(s),
    ensures
        well_formed(check(c, s, now).1),
        well_formed(after_success(c, s)),
        well_formed(after_failure(c, s, now)),
{
}

/// A closed circuit lets every call through.
pub proof fn lemma_closed_lets_through(c: CircuitBreakerConfig, s: BreakerView, now: u64)
    requires
        s.state == CLOSED,
    ensures
        check(c, s, now).0,
        check(c, s, now).1 == s,
{
}

/// An open circuit refuses calls until more than its timeout has passed since the last
/// failure, and then lets one through as a half-open circuit.
pub proof fn lemma_open_waits_for_timeout(c: CircuitBreakerConfig, s: BreakerView, now: u64)
    requires
        s.state == OPEN,
        now >= s.last_failure_time,
    ensures
        now - s.last_failure_time <= c.timeout_duration ==> !check(c, s, now).0 && check(c, s, now).1 == s,
        now - s.last_failure_time > c.timeout_duration ==> check(c, s, now).0 && check(c, s, now).1.state == HALF_OPEN
            && check(c, s, now).1.success_count == 0,
{
}

/// A success on a closed circuit forgets its failures.
pub proof fn lemma_success_clears_failures(c: CircuitBreakerConfig, s: BreakerView)
    requires
        s.state == CLOSED,
    ensures
        after_success(c, s).failure_count == 0,
        after_success(c, s).state == CLOSED,
{
}

/// The state after `n` failures in a row at `now`.
pub open spec fn failures(c: CircuitBreakerConfig, s: BreakerView, n: nat, now: u64) -> BreakerView
    decreases n,
{
    if n == 0 {
        s
    } else {
        after_failure(c, failures(c, s, (n - 1) as nat, now), now)
    }
}

/// The state after `n` successful calls.
pub open spec fn successes(c: CircuitBreakerConfig, s: BreakerView, n: nat) -> BreakerView
    decreases n,
{
    if n == 0 {
        s
    } else {
        after_success(c, successes(c, s, (n - 1) as nat))
    }
}

/// From a fresh breaker, `n` failures in a row count `n` failures, and the circuit is open
/// exactly when `n` reaches the failure threshold.
pub proof fn lemma_failures_open_circuit(c: CircuitBreakerConfig, n: nat, now: u64)
    requires
        0 < n <= u32::MAX,
    ensures
        failures(c, fresh(), n, now).failure_count == n,
        failures(c, fresh(), n, now).last_failure_time == now,
        (failures(c, fresh(), n, now).state == OPEN) == (n >= c.failure_threshold),
        failures(c, fresh(), n, now).state == OPEN || failures(c, fresh(), n, now).state == CLOSED,
    decreases n,
{
    assert(failures(c, fresh(), 0, now) == fresh());
    if n > 1 {
        lemma_failures_open_circuit(c, (n - 1) as nat, now);
        assert(next_count((n - 1) as u32) == n);
    }
}

/// From a half-open circuit with no successes counted, `n` successes close the circuit
/// exactly when `n` reaches the success threshold; closing forgets the failures.
pub proof fn lemma_successes_close_circuit(c: CircuitBreakerConfig, s: BreakerView, n: nat)
    requires
        s.state == HALF_OPEN,
        s.success_count == 0,
        0 < n <= u32::MAX,
        c.success_threshold > 0,
    ensures
        (successes(c, s, n).state == CLOSED) == (n >= c.success_threshold),
        n >= c.success_threshold ==> successes(c, s, n).failure_count == 0,
        n < c.success_threshold ==> successes(c, s, n).success_count == n,
        successes(c, s, n).state == CLOSED || successes(c, s, n).state == HALF_OPEN,
    decreases n,
{
    assert(successes(c, s, 0) == s);
    if n > 1 {
        lemma_successes_close_circuit(c, s, (n - 1) as nat);
        assert(next_count((n - 1) as u32) == n);
    }
}

// ---------------------------------------------------------------------------------------
// Batches

/// A task waiting in a batch.
#[derive(Debug, Clone)]
pub struct BatchTask {
    pub task_id: String,
    pub payload: String,
    /// When the task arrived, in milliseconds since the Unix epoch.
    pub created_at: i64,
}

/// Collects tasks and hands them out in batches.
pub struct BatchProcessor {
    config: BatchProcessingConfig,
    pending_tasks: Vec<BatchTask>,
}

/// Whole seconds from `then` to `now` (milliseconds), rounded toward zero.
pub open spec fn whole_seconds(now: i64, then: i64) -> int {
    let d = now - then;
    if d >= 0 {
        d / 1000
    } else {
        -((-d) / 1000)
    }
}

/// Whether the pending tasks make a batch at `now`: there are some, and there are enough
/// or the oldest has waited the batch timeout.
pub open spec fn batch_ready(c: BatchProcessingConfig, pending: Seq<BatchTask>, now: i64) -> bool {
    pending.len() > 0 && (pending.len() >= c.batch_size || whole_seconds(now, pending[0].created_at)
        >= c.batch_timeout)
}

impl BatchProcessor {
    /// The tasks waiting, oldest first.
    pub closed spec fn pending(&self) -> Seq<BatchTask> {
        self.pending_tasks@
    }

    /// The settings.
    pub closed spec fn config(&self) -> BatchProcessingConfig {
        self.config
    }

    /// A processor with no pending tasks.
    pub fn new(config: BatchProcessingConfig) -> (r: Self)
        ensures
            r.pending() == Seq::<BatchTask>::empty(),
            r.config() == config,
    {
        BatchProcessor { config, pending_tasks: Vec::new() }
    }

    /// Adds a task after those already waiting.
    pub fn add_task(&mut self, task: BatchTask)
        ensures
            final(self).pending() == old(self).pending().push(task),
            final(self).config() == old(self).config(),
    {
        self.pending_tasks.push(task);
    }

    /// The number of tasks waiting.
    pub fn pending_len(&self) -> (r: usize)
        ensures
            r == self.pending().len(),
    {
        self.pending_tasks.len()
    }

    /// All the pending tasks, in order, when they make a batch at `now` (milliseconds since
    /// the Unix epoch); nothing is taken otherwise.
    pub fn get_batch_if_ready_at(&mut self, now: i64) -> (r: Option<Vec<BatchTask>>)
        ensures
            final(self).config() == old(self).config(),
            batch_ready(old(self).config(), old(self).pending(), now) ==> {
                &&& r matches Some(b) && b@ == old(self).pending()
                &&& final(self).pending() == Seq::<BatchTask>::empty()
            },
            !batch_ready(old(self).config(), old(self).pending(), now) ==> {
                &&& r.is_none()
                &&& final(self).pending() == old(self).pending()
            },
    {
        if self.pending_tasks.len() == 0 {
            return None;
        }
        let first = self.pending_tasks[0].created_at;
        let d: i128 = now as i128 - first as i128;
        let secs: i128 = if d >= 0 {
            d / 1000
        } else {
            -((-d) / 1000)
        };
        let timed_out = secs >= self.config.batch_timeout as i128;
        if self.pending_tasks.len() >= self.config.batch_size || timed_out {
            let mut batch: Vec<BatchTask> = Vec::new();
            std::mem::swap(&mut batch, &mut self.pending_tasks);
            Some(batch)
        } else {
            None
        }
    }

    /// All the pending tasks when they make a batch now.
    pub fn get_batch_if_ready(&mut self) -> (r: Option<Vec<BatchTask>>)
        ensures
            final(self).config() == old(self).config(),
            r.is_none() ==> final(self).pending() == old(self).pending(),
            r matches Some(b) ==> b@ == old(self).pending() && final(self).pending() == Seq::<BatchTask>::empty(),
            exists|now: i64| (r is Some) == batch_ready(old(self).config(), old(self).pending(), now),
    {
        self.get_batch_if_ready_at(utc_millis())
    }
}

/// As many pending tasks as the batch size make a batch, whatever the time.
pub proof fn lemma_full_batch_is_ready(c: BatchProcessingConfig, tasks: Seq<BatchTask>, now: i64)
    requires
        tasks.len() >= c.batch_size,
        tasks.len() > 0,
    ensures
        batch_ready(c, tasks, now),
{
}

} // verus!
