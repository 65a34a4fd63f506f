//! The retry schedule used when none was given: waits that grow by a constant factor
//! until they reach a ceiling, where they stay forever.

use std::time::Duration;
use vstd::arithmetic::power::pow;
use vstd::prelude::*;

verus! {

/// The duration of `millis` milliseconds, as `Duration::from_millis` gives it.
pub uninterp spec fn duration_from_millis(millis: u64) -> Duration;

/// Calls `std::time::Duration::from_millis`. Its result is named by
/// [`duration_from_millis`] of the argument; nothing more is stated of it (a
/// `Duration` is opaque here).
#[verifier::external_body]
fn millis_to_duration(millis: u64) -> (d: Duration)
    ensures
        d == duration_from_millis(millis),
{
    Duration::from_millis(millis)
}

/// The `k`-th wait of a schedule (counted from 0), in milliseconds: `min` grown `k`
/// times by `factor`, but never above `max`.
pub open spec fn backoff_millis(min: nat, factor: nat, max: nat, k: nat) -> nat {
    let grown = min * pow(factor as int, k);
    if grown <= max {
        grown as nat
    } else {
        max
    }
}

/// What an [`ExpBackoffStrategy`] holds.
pub struct BackoffView {
    pub min_millis: nat,
    pub factor: nat,
    pub max_millis: nat,
    /// How many waits were handed out so far.
    pub handed_out: nat,
}

/// A schedule of waits that start at a minimum, grow by a factor after each wait, and
/// stop growing at a maximum.
pub struct ExpBackoffStrategy {
    min_millis: u64,
    factor: u64,
    max_millis: u64,
    next_millis: u64,
    handed_out: Ghost<nat>,
}

impl View for ExpBackoffStrategy {
    type V = BackoffView;

    closed spec fn view(&self) -> BackoffView {
        BackoffView {
            min_millis: self.min_millis as nat,
            factor: self.factor as nat,
            max_millis: self.max_millis as nat,
            handed_out: self.handed_out@,
        }
    }
}

proof fn lemma_backoff_first(min: nat, factor: nat, max: nat)
    ensures
        backoff_millis(min, factor, max, 0) == (if min <= max {
            min
        } else {
            max
        }),
{
    reveal(pow);
    assert(pow(factor as int, 0) == 1);
}

proof fn lemma_pow_nonnegative(factor: nat, k: nat)
    ensures
        pow(factor as int, k) >= 0,
    decreases k,
{
    reveal(pow);
    if k > 0 {
        lemma_pow_nonnegative(factor, (k - 1) as nat);
        let p = pow(factor as int, (k - 1) as nat);
        assert(factor * p >= 0) by (nonlinear_arith)
            requires
                p >= 0,
        ;
    }
}

/// The next wait is the current one grown by the factor, capped at the maximum.
proof fn lemma_backoff_step(min: nat, factor: nat, max: nat, k: nat)
    ensures
        backoff_millis(min, factor, max, k + 1) == (if backoff_millis(min, factor, max, k)
            * factor <= max {
            backoff_millis(min, factor, max, k) * factor
        } else {
            max
        }),
{
    reveal(pow);
    let p = pow(factor as int, k);
    assert(pow(factor as int, k + 1) == factor * p);
    lemma_pow_nonnegative(factor, k);
    let a = min * p;
    assert(min * (factor * p) == a * factor) by (nonlinear_arith)
        requires
            a == min * p,
    ;
    assert(a >= 0) by (nonlinear_arith)
        requires
            p >= 0,
            a == min * p,
    ;
    if a > max {
        if factor >= 1 {
            assert(a * factor >= a) by (nonlinear_arith)
                requires
                    factor >= 1,
                    a >= 0,
            ;
            assert(max * factor >= max) by (nonlinear_arith)
                requires
                    factor >= 1,
            ;
        } else {
            assert(a * factor == 0 && max * factor == 0) by (nonlinear_arith)
                requires
                    factor == 0,
            ;
        }
    }
}

impl ExpBackoffStrategy {
    #[verifier::type_invariant]
    spec fn inv(self) -> bool {
        self.next_millis as nat == backoff_millis(
            self.min_millis as nat,
            self.factor as nat,
            self.max_millis as nat,
            self.handed_out@,
        )
    }

    /// A schedule whose first wait is `min_millis` milliseconds, each wait `factor`
    /// times the one before, and no wait longer than `max_millis` milliseconds.
    pub fn new(min_millis: u64, factor: u64, max_millis: u64) -> (strategy: Self)
        ensures
            strategy@ == (BackoffView {
                min_millis: min_millis as nat,
                factor: factor as nat,
                max_millis: max_millis as nat,
                handed_out: 0,
            }),
    {
        proof {
            lemma_backoff_first(min_millis as nat, factor as nat, max_millis as nat);
        }
        let next_millis = if min_millis <= max_millis {
            min_millis
        } else {
            max_millis
        };
        ExpBackoffStrategy { min_millis, factor, max_millis, next_millis, handed_out: Ghost(0) }
    }

    /// Hands out the next wait: the `k`-th wait, where `k` waits were handed out before.
    pub fn next_delay(&mut self) -> (delay: Duration)
        ensures
            delay == duration_from_millis(
                backoff_millis(
                    old(self)@.min_millis,
                    old(self)@.factor,
                    old(self)@.max_millis,
                    old(self)@.handed_out,
                ) as u64,
            ),
            final(self)@ == (BackoffView { handed_out: old(self)@.handed_out + 1, ..old(self)@ }),
    {
        proof {
            use_type_invariant(&*self);
            lemma_backoff_step(
                self.min_millis as nat,
                self.factor as nat,
                self.max_millis as nat,
                self.handed_out@,
            );
        }
        let delay = millis_to_duration(self.next_millis);
        let grown = match self.next_millis.checked_mul(self.factor) {
            Some(product) => if product <= self.max_millis {
                product
            } else {
                self.max_millis
            },
            None => self.max_millis,
        };
        *self = ExpBackoffStrategy {
            min_millis: self.min_millis,
            factor: self.factor,
            max_millis: self.max_millis,
            next_millis: grown,
            handed_out: Ghost(self.handed_out@ + 1),
        };
        delay
    }
}

impl Default for ExpBackoffStrategy {
    /// Starts at 4 seconds, doubles after each wait, and ends up waiting 30 minutes
    /// between attempts forever.
    fn default() -> (strategy: Self)
        ensures
            strategy@ == (BackoffView {
                min_millis: 4_000,
                factor: 2,
                max_millis: 1_800_000,
                handed_out: 0,
            }),
    {
        ExpBackoffStrategy::new(4_000, 2, 1_800_000)
    }
}

proof fn lemma_pow_exceeds_exponent(factor: nat, k: nat)
    requires
        factor >= 2,
    ensures
        pow(factor as int, k) > k,
    decreases k,
{
    reveal(pow);
    if k > 0 {
        lemma_pow_exceeds_exponent(factor, (k - 1) as nat);
        let p = pow(factor as int, (k - 1) as nat);
        assert(pow(factor as int, k) == factor * p);
        assert(factor * p >= 2 * p) by (nonlinear_arith)
            requires
                factor >= 2,
                p >= 0,
        ;
    } else {
        assert(pow(factor as int, 0) == 1);
    }
}

/// The waits never get shorter, and a schedule that starts above zero and at least
/// doubles reaches its maximum and keeps it forever: from the `max`-th wait on, every
/// wait is the maximum.
pub proof fn lemma_backoff_grows_then_settles(min: nat, factor: nat, max: nat, k: nat)
    requires
        factor >= 1,
    ensures
        backoff_millis(min, factor, max, k) <= backoff_millis(min, factor, max, k + 1),
        min >= 1 && factor >= 2 && k >= max ==> backoff_millis(min, factor, max, k) == max,
{
    lemma_backoff_step(min, factor, max, k);
    let b = backoff_millis(min, factor, max, k);
    assert(b * factor >= b) by (nonlinear_arith)
        requires
            factor >= 1,
    ;
    lemma_pow_nonnegative(factor, k);
    let p0 = pow(factor as int, k);
    assert(min * p0 >= 0) by (nonlinear_arith)
        requires
            p0 >= 0,
    ;
    assert(b <= max);
    if min >= 1 && factor >= 2 && k >= max {
        lemma_pow_exceeds_exponent(factor, k);
        let p = pow(factor as int, k);
        assert(min * p >= p) by (nonlinear_arith)
            requires
                min >= 1,
                p >= 0,
        ;
    }
}

/// The default schedule waits 4 seconds and doubles the wait after each attempt
/// (4, 8, 16, ... 1024 seconds) until, from the tenth wait on, it tries every 30 minutes
/// forever.
pub proof fn lemma_default_schedule(k: nat)
    ensures
        k < 9 ==> backoff_millis(4_000, 2, 1_800_000, k) == 4_000 * pow(2, k),
        k >= 9 ==> backoff_millis(4_000, 2, 1_800_000, k) == 1_800_000,
{
    reveal_with_fuel(pow, 10);
    assert(pow(2, 8) == 256);
    if k >= 9 {
        vstd::arithmetic::power::lemma_pow_increases(2, 9, k);
        assert(pow(2, 9) == 512);
        let p = pow(2, k);
        assert(4_000 * p >= 4_000 * 512) by (nonlinear_arith)
            requires
                p >= 512,
        ;
    } else {
        vstd::arithmetic::power::lemma_pow_increases(2, k, 8);
        let p = pow(2, k);
        assert(4_000 * p <= 4_000 * 256) by (nonlinear_arith)
            requires
                p <= 256,
        ;
    }
}

} // verus!
