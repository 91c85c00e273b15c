//! The delay between polls: short while polls succeed, doubling with every
//! failure in a row, up to a cap.

use vstd::arithmetic::mul::{lemma_mul_inequality, lemma_mul_is_commutative};
use vstd::arithmetic::power2::{
    lemma2_to64, lemma_pow2_pos, lemma_pow2_strictly_increases, lemma_pow2_unfold, pow2,
};
use vstd::prelude::*;

verus! {

/// The three times that a deployment sets, in seconds.
#[derive(Clone, Copy, Debug, PartialEq, Eq, Structural)]
pub struct BackoffConfig {
    /// Delay before a poll that follows a success, and before the first poll.
    pub base_interval: u64,
    /// What the delay after failures is doubled from.
    pub base_delay: u64,
    /// The longest delay after a failure.
    pub max_delay: u64,
}

/// The delay after `failures` polls failed in a row, `failures` being one or
/// more: `base_delay * 2^failures`, but no more than `max_delay`.
pub open spec fn failure_delay(config: BackoffConfig, failures: nat) -> int {
    if config.base_delay * pow2(failures) <= config.max_delay {
        config.base_delay * pow2(failures)
    } else {
        config.max_delay as int
    }
}

/// The delay before the next poll when the last `failures` polls failed.
pub open spec fn delay_after(config: BackoffConfig, failures: nat) -> int {
    if failures == 0 {
        config.base_interval as int
    } else {
        failure_delay(config, failures)
    }
}

/// `base * 2^n` does not shrink as `n` grows.
pub proof fn lemma_doubling_grows(base: nat, low: nat, high: nat)
    requires
        low <= high,
    ensures
        base * pow2(low) <= base * pow2(high),
{
    if low < high {
        lemma_pow2_strictly_increases(low, high);
    }
    lemma_mul_inequality(pow2(low) as int, pow2(high) as int, base as int);
    lemma_mul_is_commutative(base as int, pow2(low) as int);
    lemma_mul_is_commutative(base as int, pow2(high) as int);
}

/// Every further failure in a row lengthens the delay, until the delay is the
/// cap, where it stays. This needs a base delay above zero: doubling zero
/// gives zero.
pub proof fn lemma_failures_lengthen_delay(config: BackoffConfig, failures: nat)
    requires
        config.base_delay > 0,
        failures >= 1,
    ensures
        delay_after(config, failures) < delay_after(config, failures + 1) || (delay_after(
            config,
            failures,
        ) == config.max_delay && delay_after(config, failures + 1) == config.max_delay),
{
    let base = config.base_delay as int;
    lemma_pow2_unfold(failures + 1);
    lemma_pow2_pos(failures);
    assert(base * pow2(failures + 1) == 2 * (base * pow2(failures))) by (nonlinear_arith)
        requires
            pow2(failures + 1) == 2 * pow2(failures),
    ;
    assert(base * pow2(failures) >= 1) by (nonlinear_arith)
        requires
            base >= 1,
            pow2(failures) >= 1,
    ;
}

/// The delay never shrinks from one failure to a later one of the same run.
pub proof fn lemma_delay_is_monotone(config: BackoffConfig, fewer: nat, more: nat)
    requires
        1 <= fewer <= more,
    ensures
        delay_after(config, fewer) <= delay_after(config, more),
{
    lemma_doubling_grows(config.base_delay as nat, fewer, more);
}

/// The delay after a failure is never above the cap.
pub proof fn lemma_delay_is_capped(config: BackoffConfig, failures: nat)
    requires
        failures >= 1,
    ensures
        0 <= delay_after(config, failures) <= config.max_delay,
{
    lemma_pow2_pos(failures);
    assert(config.base_delay * pow2(failures) >= 0) by (nonlinear_arith)
        requires
            config.base_delay >= 0,
            pow2(failures) >= 0,
    ;
}

/// Computes `failure_delay` by doubling, stopping at the cap.
fn capped_delay(config: &BackoffConfig, failures: u32) -> (delay: u64)
    requires
        failures >= 1,
    ensures
        delay == failure_delay(*config, failures as nat),
{
    let base: u64 = config.base_delay;
    let cap: u64 = config.max_delay;
    if base == 0 {
        assert(0 * pow2(failures as nat) == 0) by (nonlinear_arith);
        return 0;
    }
    proof {
        lemma2_to64();
    }
    if base > cap {
        proof {
            lemma_doubling_grows(base as nat, 0, failures as nat);
        }
        return cap;
    }
    let mut delay: u64 = base;
    let mut doubled: u32 = 0;
    while doubled < failures
        invariant
            doubled <= failures,
            base == config.base_delay,
            cap == config.max_delay,
            delay == base * pow2(doubled as nat),
            delay <= cap,
        decreases failures - doubled,
    {
        proof {
            lemma_pow2_unfold((doubled + 1) as nat);
            assert(base * pow2((doubled + 1) as nat) == 2 * (base * pow2(doubled as nat)))
                by (nonlinear_arith)
                requires
                    pow2((doubled + 1) as nat) == 2 * pow2(doubled as nat),
            ;
        }
        if delay > cap - delay {
            proof {
                lemma_doubling_grows(base as nat, (doubled + 1) as nat, failures as nat);
            }
            return cap;
        }
        delay = delay + delay;
        doubled = doubled + 1;
    }
    delay
}

/// What a backoff controller stands for: the times it works with, the number
/// of polls that failed since the last success, and whether a poll is under
/// way. The delay before the next poll follows from the first two: see
/// `delay`.
pub struct BackoffView {
    pub config: BackoffConfig,
    pub failures: nat,
    pub polling: bool,
}

impl BackoffView {
    /// Seconds to wait before the next poll.
    pub open spec fn delay(self) -> int {
        delay_after(self.config, self.failures)
    }

    /// The state once a poll was begun.
    pub open spec fn begun(self) -> BackoffView {
        BackoffView { polling: true, ..self }
    }

    /// The state after a poll succeeded.
    pub open spec fn succeeded(self) -> BackoffView {
        BackoffView { failures: 0, polling: false, ..self }
    }

    /// The count of failures is one that the controller can hold.
    pub open spec fn within_bound(self) -> bool {
        self.failures <= u32::MAX
    }

    /// From this state to `next` the delay after a failure grew, or both are
    /// the cap.
    pub open spec fn lengthens_to(self, next: BackoffView) -> bool {
        self.delay() < next.delay() || (self.delay() == self.config.max_delay && next.delay()
            == self.config.max_delay)
    }

    /// The state after a poll failed. The count stops at `u32::MAX`.
    pub open spec fn failed(self) -> BackoffView {
        BackoffView {
            failures: if self.failures < u32::MAX {
                self.failures + 1
            } else {
                self.failures
            },
            polling: false,
            ..self
        }
    }
}

/// A failure that follows a failure lengthens the delay, or leaves it at the
/// cap: so it is for every count that the controller can hold, the last one
/// too, at which the count stops. This needs a base delay above zero.
pub proof fn lemma_failure_after_failure_lengthens_delay(view: BackoffView)
    requires
        view.within_bound(),
        view.failures >= 1,
        view.config.base_delay > 0,
    ensures
        view.lengthens_to(view.failed()),
{
    if view.failures < u32::MAX {
        lemma_failures_lengthen_delay(view.config, view.failures);
    } else {
        let base = view.config.base_delay as int;
        lemma2_to64();
        lemma_pow2_strictly_increases(64, view.failures);
        assert(base * pow2(view.failures) > u64::MAX) by (nonlinear_arith)
            requires
                base >= 1,
                pow2(view.failures) > u64::MAX,
        ;
    }
}

/// The backoff controller. It is idle or polling; a poll ends in success or
/// in failure, and either way the controller is idle again, with the delay
/// before the next poll set.
#[derive(Clone, Copy, Debug)]
pub struct Backoff {
    config: BackoffConfig,
    failures: u32,
    delay: u64,
    polling: bool,
}

impl View for Backoff {
    type V = BackoffView;

    closed spec fn view(&self) -> BackoffView {
        BackoffView {
            config: self.config,
            failures: self.failures as nat,
            polling: self.polling,
        }
    }
}

impl Backoff {
    /// The stored delay is always the one that belongs to the failure count.
    #[verifier::type_invariant]
    closed spec fn consistent(self) -> bool {
        self.delay == delay_after(self.config, self.failures as nat)
    }

    /// A controller before its first poll: idle, no failures, and the base
    /// interval to wait.
    pub fn new(config: BackoffConfig) -> (backoff: Backoff)
        ensures
            backoff@ == (BackoffView { config, failures: 0, polling: false }),
            backoff@.within_bound(),
    {
        Backoff { config, failures: 0, delay: config.base_interval, polling: false }
    }

    /// The count of failures of a controller never passes `u32::MAX`.
    pub proof fn lemma_count_is_within_bound(self)
        ensures
            self@.within_bound(),
    {
    }

    /// The times this controller works with.
    pub fn config(&self) -> (config: BackoffConfig)
        ensures
            config == self@.config,
    {
        self.config
    }

    /// How many polls failed since the last success.
    pub fn failures(&self) -> (failures: u32)
        ensures
            failures == self@.failures,
    {
        self.failures
    }

    /// Whether a poll is under way.
    pub fn is_polling(&self) -> (polling: bool)
        ensures
            polling == self@.polling,
    {
        self.polling
    }

    /// Seconds to wait before the next poll.
    pub fn delay(&self) -> (delay: u64)
        ensures
            delay == self@.delay(),
    {
        proof {
            use_type_invariant(self);
        }
        self.delay
    }

    /// Begins a poll if none is under way. The result says whether this call
    /// began one; either way the controller is polling afterwards.
    pub fn begin_poll(&mut self) -> (begun: bool)
        ensures
            begun == !old(self)@.polling,
            final(self)@ == old(self)@.begun(),
            final(self)@.within_bound(),
    {
        proof {
            use_type_invariant(&*self);
        }
        let begun = !self.polling;
        *self = Backoff {
            config: self.config,
            failures: self.failures,
            delay: self.delay,
            polling: true,
        };
        begun
    }

    /// A poll succeeded: the failure count goes back to zero and the next
    /// poll comes after the base interval, which is returned.
    pub fn on_success(&mut self) -> (delay: u64)
        ensures
            final(self)@ == old(self)@.succeeded(),
            final(self)@.within_bound(),
            delay == final(self)@.delay(),
            delay == old(self)@.config.base_interval,
    {
        let delay: u64 = self.config.base_interval;
        *self = Backoff { config: self.config, failures: 0, delay, polling: false };
        delay
    }

    /// A poll failed: the failure count goes up by one and the next poll
    /// comes after the delay for that count, which is returned. After a
    /// failure that follows a failure the delay is longer than it was, or is
    /// the cap as it was, provided that the base delay is above zero.
    pub fn on_failure(&mut self) -> (delay: u64)
        ensures
            final(self)@ == old(self)@.failed(),
            final(self)@.within_bound(),
            delay == final(self)@.delay(),
            old(self)@.failures >= 1 && old(self)@.config.base_delay > 0 ==> old(
                self,
            )@.lengthens_to(final(self)@),
    {
        proof {
            if self@.failures >= 1 && self@.config.base_delay > 0 {
                lemma_failure_after_failure_lengthens_delay(self@);
            }
        }
        let failures: u32 = if self.failures < u32::MAX {
            self.failures + 1
        } else {
            self.failures
        };
        let delay: u64 = capped_delay(&self.config, failures);
        *self = Backoff { config: self.config, failures, delay, polling: false };
        delay
    }

    /// Records how a poll ended and returns the delay before the next one.
    pub fn record(&mut self, success: bool) -> (delay: u64)
        ensures
            final(self)@ == if success {
                old(self)@.succeeded()
            } else {
                old(self)@.failed()
            },
            final(self)@.within_bound(),
            delay == final(self)@.delay(),
            !success && old(self)@.failures >= 1 && old(self)@.config.base_delay > 0 ==> old(
                self,
            )@.lengthens_to(final(self)@),
    {
        if success {
            self.on_success()
        } else {
            self.on_failure()
        }
    }
}

} // verus!
