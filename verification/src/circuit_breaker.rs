//! The circuit breaker's decisions. Batches go to the primary sink until it
//! fails a number of times in a row; the circuit then opens and batches go
//! to the fallback sink until a timeout has passed, after which the primary
//! sink is tried again. A success on the primary sink closes the circuit.
//!
//! Time is a count of milliseconds on a monotonic clock that the caller
//! reads; the sinks are called by the caller too.

use vstd::prelude::*;
use crate::config::PipelineConfig;

verus! {

/// Which sink takes a batch.
#[derive(Debug, Clone, Copy, PartialEq, Eq, Structural)]
pub enum Route {
    Primary,
    Fallback,
}

/// The breaker as a mathematical value.
pub struct BreakerView {
    /// How long the circuit stays open after a failure that opens it.
    pub timeout_ms: nat,
    /// The instant until which the circuit is open, once it has opened.
    pub open_until: Option<nat>,
    /// Consecutive failures that open the circuit.
    pub threshold: nat,
    /// Failures of the primary sink since its last success.
    pub error_count: nat,
}

/// The instant `timeout_ms` after `now`, held at the clock's last instant
/// where it would pass it.
pub open spec fn deadline(now: nat, timeout_ms: nat) -> nat {
    if now + timeout_ms > u64::MAX { u64::MAX as nat } else { now + timeout_ms }
}

impl BreakerView {
    pub open spec fn is_open(self, now: nat) -> bool {
        match self.open_until {
            Some(deadline) => now < deadline,
            None => false,
        }
    }

    pub open spec fn route(self, now: nat) -> Route {
        if self.is_open(now) { Route::Fallback } else { Route::Primary }
    }

    /// The breaker with its circuit closed and its failures forgotten.
    pub open spec fn reset(self) -> BreakerView {
        BreakerView { open_until: None, error_count: 0, ..self }
    }

    /// The breaker after the primary sink took a batch.
    pub open spec fn after_success(self) -> BreakerView {
        if self.error_count != 0 {
            self.reset()
        } else {
            self
        }
    }

    /// The breaker after the primary sink failed at `now`.
    pub open spec fn after_failure(self, now: nat) -> BreakerView {
        let count = self.error_count + 1;
        if count >= self.threshold {
            BreakerView { open_until: Some(deadline(now, self.timeout_ms)), error_count: count, ..self }
        } else {
            BreakerView { error_count: count, ..self }
        }
    }

    /// The breaker after the primary sink failed at each instant of `times`.
    pub open spec fn after_failures(self, times: Seq<nat>) -> BreakerView
        decreases times.len(),
    {
        if times.len() == 0 {
            self
        } else {
            self.after_failures(times.drop_last()).after_failure(times.last())
        }
    }

    /// What every breaker satisfies: an open circuit follows at least one
    /// failure, and as many failures as the threshold, since the last
    /// success.
    pub open spec fn inv(self) -> bool {
        self.open_until is Some ==> self.error_count >= 1 && self.error_count >= self.threshold
    }
}

/// Failures in a row that reach the threshold open the circuit until the
/// timeout has passed after the last of them; until then every batch goes
/// to the fallback sink.
pub proof fn lemma_failures_open_circuit(b: BreakerView, times: Seq<nat>, now: nat)
    requires
        times.len() > 0,
        b.error_count + times.len() >= b.threshold,
        times.last() <= now < deadline(times.last(), b.timeout_ms),
    ensures
        b.after_failures(times).error_count == b.error_count + times.len(),
        b.after_failures(times).open_until == Some(deadline(times.last(), b.timeout_ms)),
        b.after_failures(times).route(now) == Route::Fallback,
{
    lemma_failures_count(b, times);
}

/// Failures add to the count one by one, and leave the settings alone.
pub proof fn lemma_failures_count(b: BreakerView, times: Seq<nat>)
    ensures
        b.after_failures(times).error_count == b.error_count + times.len(),
        b.after_failures(times).timeout_ms == b.timeout_ms,
        b.after_failures(times).threshold == b.threshold,
    decreases times.len(),
{
    if times.len() > 0 {
        lemma_failures_count(b, times.drop_last());
    }
}

/// Failures that stay below the threshold leave the circuit as it was.
pub proof fn lemma_failures_below_threshold_keep_circuit(b: BreakerView, times: Seq<nat>)
    requires
        b.error_count + times.len() < b.threshold,
    ensures
        b.after_failures(times).open_until == b.open_until,
    decreases times.len(),
{
    if times.len() > 0 {
        lemma_failures_below_threshold_keep_circuit(b, times.drop_last());
        lemma_failures_count(b, times.drop_last());
    }
}

/// Once the timeout after the opening failure has passed, the primary sink
/// is tried again.
pub proof fn lemma_primary_retried_after_timeout(b: BreakerView, now: nat)
    requires
        b.open_until matches Some(deadline) && deadline <= now,
    ensures
        b.route(now) == Route::Primary,
{
}

/// Once the timeout of an open circuit has passed, the next batch goes to
/// the primary sink; if it fails the circuit opens again at once until the
/// timeout has passed anew, and if it succeeds the circuit closes.
pub proof fn lemma_failure_after_timeout_reopens(b: BreakerView, now: nat)
    requires
        b.inv(),
        b.open_until matches Some(deadline) && deadline <= now,
    ensures
        b.route(now) == Route::Primary,
        b.after_failure(now).open_until == Some(deadline(now, b.timeout_ms)),
        b.after_failure(now).route(now) == (if now < deadline(now, b.timeout_ms) { Route::Fallback } else { Route::Primary }),
        b.after_success().open_until is None,
        b.after_success().error_count == 0,
{
}

/// Resetting the circuit closes it and clears the failure count, from any
/// state; resetting it again changes nothing.
pub proof fn lemma_reset_is_idempotent(b: BreakerView, now: nat)
    ensures
        b.reset().open_until is None,
        b.reset().error_count == 0,
        b.reset().route(now) == Route::Primary,
        b.reset().reset() == b.reset(),
        b.reset().inv(),
{
}

/// Every step keeps the invariant, and on a reachable breaker a success on
/// the primary sink closes the circuit and clears the failure count.
pub proof fn lemma_success_closes_circuit(b: BreakerView, now: nat)
    requires
        b.inv(),
    ensures
        b.after_success().inv(),
        b.after_failure(now).inv(),
        b.after_success().open_until is None,
        b.after_success().error_count == 0,
        b.after_success().route(now) == Route::Primary,
{
}

/// The breaker: its settings, when its circuit is open until, and the
/// failures counted since the last success.
pub struct CircuitBreaker {
    timeout_ms: u64,
    open_until: Option<u64>,
    threshold: usize,
    error_count: usize,
}

impl View for CircuitBreaker {
    type V = BreakerView;

    closed spec fn view(&self) -> BreakerView {
        BreakerView {
            timeout_ms: self.timeout_ms as nat,
            open_until: match self.open_until {
                Some(d) => Some(d as nat),
                None => None,
            },
            threshold: self.threshold as nat,
            error_count: self.error_count as nat,
        }
    }
}

impl CircuitBreaker {
    #[verifier::type_invariant]
    spec fn wf(self) -> bool {
        self@.inv()
    }

    /// A closed breaker with the configured threshold and timeout.
    pub fn new(pipeline_config: &PipelineConfig) -> (cb: CircuitBreaker)
        ensures
            cb@ == (BreakerView {
                timeout_ms: pipeline_config.circuit_breaker_timeout as nat,
                open_until: None,
                threshold: pipeline_config.circuit_breaker_threshold as nat,
                error_count: 0,
            }),
            cb@.inv(),
    {
        CircuitBreaker {
            timeout_ms: pipeline_config.circuit_breaker_timeout,
            open_until: None,
            threshold: pipeline_config.circuit_breaker_threshold,
            error_count: 0,
        }
    }

    fn is_open(&self, now: u64) -> (open: bool)
        ensures
            open == self@.is_open(now as nat),
    {
        match self.open_until {
            Some(deadline) => now < deadline,
            None => false,
        }
    }

    fn open_circuit(&mut self, now: u64)
        requires
            old(self)@.error_count >= 1,
            old(self)@.error_count >= old(self)@.threshold,
        ensures
            final(self)@ == (BreakerView { open_until: Some(deadline(now as nat, old(self)@.timeout_ms)), ..old(self)@ }),
    {
        let until = if self.timeout_ms > u64::MAX - now { u64::MAX } else { now + self.timeout_ms };
        self.open_until = Some(until);
    }

    /// Closes the circuit and forgets the failures counted; the settings
    /// stay. A second reset changes nothing.
    pub fn reset_circuit(&mut self)
        ensures
            final(self)@ == old(self)@.reset(),
            final(self)@.open_until is None,
            final(self)@.error_count == 0,
            final(self)@.timeout_ms == old(self)@.timeout_ms,
            final(self)@.threshold == old(self)@.threshold,
    {
        self.open_until = None;
        self.error_count = 0;
    }

    fn record_failure(&mut self, now: u64)
        requires
            old(self)@.error_count < usize::MAX,
        ensures
            final(self)@ == old(self)@.after_failure(now as nat),
    {
        proof {
            use_type_invariant(&*self);
        }
        let prev = self.error_count;
        self.error_count = prev + 1;
        if prev + 1 >= self.threshold {
            self.open_circuit(now);
        }
    }

    /// Consecutive failures that open the circuit.
    pub fn threshold(&self) -> (n: usize)
        ensures
            n == self@.threshold,
    {
        self.threshold
    }

    /// How long the circuit stays open after the failure that opens it.
    pub fn timeout_ms(&self) -> (t: u64)
        ensures
            t == self@.timeout_ms,
    {
        self.timeout_ms
    }

    /// Failures of the primary sink since its last success.
    pub fn error_count(&self) -> (n: usize)
        ensures
            n == self@.error_count,
    {
        self.error_count
    }

    /// The instant until which the circuit is open, once it has opened.
    pub fn open_until(&self) -> (d: Option<u64>)
        ensures
            d matches Some(t) ==> self@.open_until == Some(t as nat),
            d is None ==> self@.open_until is None,
    {
        self.open_until
    }

    /// The sink that takes a batch sent at `now`: the fallback sink while
    /// the circuit is open, the primary sink otherwise.
    pub fn route(&self, now: u64) -> (r: Route)
        ensures
            r == self@.route(now as nat),
    {
        if self.is_open(now) { Route::Fallback } else { Route::Primary }
    }

    /// Records what the primary sink did with a batch, at `now`. A success
    /// closes the circuit and clears the failure count; a failure is counted,
    /// and a failure that reaches the threshold, or comes while the circuit
    /// has opened (its timeout passed), opens the circuit until `now` plus
    /// the timeout (or the clock's last instant, where that would pass it).
    pub fn record_primary_outcome(&mut self, now: u64, succeeded: bool)
        requires
            !succeeded ==> old(self)@.error_count < usize::MAX,
        ensures
            final(self)@ == if succeeded { old(self)@.after_success() } else { old(self)@.after_failure(now as nat) },
            final(self)@.inv(),
            succeeded ==> final(self)@.open_until is None && final(self)@.error_count == 0,
            !succeeded && (old(self)@.open_until is Some || old(self)@.error_count + 1 >= old(self)@.threshold)
                ==> final(self)@.open_until == Some(deadline(now as nat, old(self)@.timeout_ms)),
    {
        proof {
            use_type_invariant(&*self);
        }
        if succeeded {
            if self.error_count != 0 {
                self.reset_circuit();
            }
        } else {
            self.record_failure(now);
        }
    }
}

} // verus!
