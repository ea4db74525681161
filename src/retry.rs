//! Backoff-with-jitter retry policy. The caller runs the operation and
//! sleeps; the policy decides, after each failure, whether to try again and
//! after how long.

use crate::random::random_below;
use vstd::prelude::*;

verus! {

/// The growth factor of the increasing policy, in thousandths (×1.5).
pub const DEFAULT_GROWTH_PERMILLE: u64 = 1500;

/// The cap on the increasing policy's delay before jitter, in milliseconds.
pub const DEFAULT_MAX_DELAY_MS: u64 = 20000;

/// When and how often a failing operation is tried again. Durations are in
/// milliseconds; the growth factor is in thousandths.
#[derive(Clone, Copy, Debug, PartialEq, Eq, Structural)]
pub struct RetryPolicy {
    /// Retries after the first attempt.
    pub max_retries: u32,
    pub min_delay_ms: u64,
    /// Jitter is drawn from `0..step_ms`; it is also the delay that growth starts from.
    pub step_ms: u64,
    pub max_delay_ms: u64,
    pub growth_permille: u64,
}

/// Progress of one retried operation.
#[derive(Clone, Copy, Debug, PartialEq, Eq, Structural)]
pub struct RetryState {
    /// Retries made so far.
    pub retries: u32,
    /// The delay slept before the latest retry (the starting delay before any).
    pub delay_ms: u64,
}

/// What to do after a failed attempt.
#[derive(Clone, Copy, Debug, PartialEq, Eq, Structural)]
pub enum RetryAction {
    /// Sleep this many milliseconds, then attempt again.
    Retry { delay_ms: u64 },
    /// Stop and hand the last error to the caller.
    GiveUp,
}

/// `x` brought up to `lo` after being capped at `hi`.
pub open spec fn clamp(x: int, lo: int, hi: int) -> int {
    let capped = if x > hi {
        hi
    } else {
        x
    };
    if capped < lo {
        lo
    } else {
        capped
    }
}

/// A jitter draw the policy can make: from `0..step_ms`, or zero without a step.
pub open spec fn valid_jitter(p: RetryPolicy, jitter: nat) -> bool {
    if p.step_ms == 0 {
        jitter == 0
    } else {
        jitter < p.step_ms
    }
}

/// The delay after `delay`: grown, clamped to the bounds, plus the jitter.
pub open spec fn next_delay(p: RetryPolicy, delay: nat, jitter: nat) -> nat {
    (clamp(delay * p.growth_permille / 1000, p.min_delay_ms as int, p.max_delay_ms as int)
        + jitter) as nat
}

/// The delays slept by a run in which every attempt fails, from `state`,
/// where `jitters[k]` is the jitter drawn before retry `k`.
pub open spec fn failing_run(p: RetryPolicy, delay: nat, retries: nat, jitters: Seq<nat>) -> Seq<nat>
    decreases p.max_retries - retries,
{
    if retries >= p.max_retries {
        Seq::empty()
    } else {
        let d = next_delay(p, delay, jitters[retries as int]);
        seq![d] + failing_run(p, d, retries + 1, jitters)
    }
}

/// The sum of a list of delays.
pub open spec fn total(ds: Seq<nat>) -> nat
    decreases ds.len(),
{
    if ds.len() == 0 {
        0
    } else {
        ds[0] + total(ds.drop_first())
    }
}

impl RetryPolicy {
    /// The sums that the policy forms stay within `u64`.
    pub open spec fn wf(&self) -> bool {
        &&& self.min_delay_ms + self.step_ms <= u64::MAX
        &&& self.max_delay_ms + self.step_ms <= u64::MAX
    }

    /// Tries again every `interval_ms` milliseconds, up to `max_retries` times.
    pub fn fixed(max_retries: u32, interval_ms: u64) -> (p: RetryPolicy)
        ensures
            p.wf(),
            p == (RetryPolicy {
                max_retries,
                min_delay_ms: interval_ms,
                step_ms: 0,
                max_delay_ms: interval_ms,
                growth_permille: 1000,
            }),
            forall|delay: nat, jitter: nat| valid_jitter(p, jitter) ==> #[trigger] next_delay(p, delay, jitter) == interval_ms,
    {
        RetryPolicy {
            max_retries,
            min_delay_ms: interval_ms,
            step_ms: 0,
            max_delay_ms: interval_ms,
            growth_permille: 1000,
        }
    }

    /// Tries again up to `max_retries` times, each delay half as long again as
    /// the one before, kept within `min_delay_ms..=20000`, plus a jitter below
    /// `step_ms`.
    pub fn increasing(max_retries: u32, min_delay_ms: u64, step_ms: u64) -> (p: RetryPolicy)
        requires
            min_delay_ms + step_ms <= u64::MAX,
            DEFAULT_MAX_DELAY_MS + step_ms <= u64::MAX,
        ensures
            p.wf(),
            p == (RetryPolicy {
                max_retries,
                min_delay_ms,
                step_ms,
                max_delay_ms: DEFAULT_MAX_DELAY_MS,
                growth_permille: DEFAULT_GROWTH_PERMILLE,
            }),
    {
        RetryPolicy {
            max_retries,
            min_delay_ms,
            step_ms,
            max_delay_ms: DEFAULT_MAX_DELAY_MS,
            growth_permille: DEFAULT_GROWTH_PERMILLE,
        }
    }

    /// The state before the first attempt.
    pub fn start(&self) -> (s: RetryState)
        ensures
            s.retries == 0,
            s.delay_ms == self.step_ms,
    {
        RetryState { retries: 0, delay_ms: self.step_ms }
    }

    /// The delay that follows `delay_ms`, with the jitter `jitter_ms`.
    pub fn backoff(&self, delay_ms: u64, jitter_ms: u64) -> (r: u64)
        requires
            self.wf(),
            valid_jitter(*self, jitter_ms as nat),
        ensures
            r == next_delay(*self, delay_ms as nat, jitter_ms as nat),
    {
        assert((delay_ms as int) * (self.growth_permille as int) <= u128::MAX) by (nonlinear_arith)
            requires
                delay_ms <= u64::MAX,
                self.growth_permille <= u64::MAX,
        ;
        let grown: u128 = (delay_ms as u128) * (self.growth_permille as u128) / 1000;
        let capped: u64 = if grown > self.max_delay_ms as u128 {
            self.max_delay_ms
        } else {
            grown as u64
        };
        let clamped: u64 = if capped < self.min_delay_ms {
            self.min_delay_ms
        } else {
            capped
        };
        clamped + jitter_ms
    }

    /// Called after a failed attempt: gives up once `max_retries` retries
    /// have been made, and otherwise draws a jitter and returns the delay
    /// before the next attempt.
    pub fn on_failure(&self, state: &mut RetryState) -> (r: RetryAction)
        requires
            self.wf(),
        ensures
            old(state).retries >= self.max_retries ==> r == RetryAction::GiveUp && *final(state) == *old(state),
            old(state).retries < self.max_retries ==> exists|jitter: nat|
                {
                    &&& valid_jitter(*self, jitter)
                    &&& #[trigger] next_delay(*self, old(state).delay_ms as nat, jitter) == final(state).delay_ms
                    &&& r == RetryAction::Retry { delay_ms: final(state).delay_ms }
                    &&& final(state).retries == old(state).retries + 1
                },
    {
        if state.retries >= self.max_retries {
            return RetryAction::GiveUp;
        }
        let jitter = if self.step_ms > 0 {
            random_below(self.step_ms)
        } else {
            0
        };
        let delay = self.backoff(state.delay_ms, jitter);
        state.retries = state.retries + 1;
        state.delay_ms = delay;
        RetryAction::Retry { delay_ms: delay }
    }
}

/// A permanently failing operation sleeps exactly `max_retries` times, so it
/// is attempted exactly `max_retries + 1` times; each delay between attempts is at least `min_delay_ms`, so the
/// total is at least `max_retries * min_delay_ms`, and each is below
/// `max(min_delay_ms, max_delay_ms) + step_ms` (at most that bound when there
/// is no jitter).
pub proof fn lemma_failing_run_bounds(p: RetryPolicy, delay: nat, retries: nat, jitters: Seq<nat>)
    requires
        retries <= p.max_retries,
        jitters.len() >= p.max_retries,
        forall|k: int| retries <= k < p.max_retries ==> valid_jitter(p, #[trigger] jitters[k]),
    ensures
        failing_run(p, delay, retries, jitters).len() == p.max_retries - retries,
        forall|k: int| 0 <= k < failing_run(p, delay, retries, jitters).len() ==> {
            let d = #[trigger] failing_run(p, delay, retries, jitters)[k];
            &&& p.min_delay_ms <= d
            &&& p.step_ms == 0 ==> d <= clamp(p.max_delay_ms as int, p.min_delay_ms as int, p.max_delay_ms as int)
            &&& p.step_ms > 0 ==> d < clamp(p.max_delay_ms as int, p.min_delay_ms as int, p.max_delay_ms as int) + p.step_ms
        },
    decreases p.max_retries - retries,
{
    if retries < p.max_retries {
        let d = next_delay(p, delay, jitters[retries as int]);
        lemma_failing_run_bounds(p, d, retries + 1, jitters);
        let rest = failing_run(p, d, retries + 1, jitters);
        let run = failing_run(p, delay, retries, jitters);
        assert(run == seq![d] + rest);
        assert forall|k: int| 0 <= k < run.len() implies {
            let x = #[trigger] run[k];
            &&& p.min_delay_ms <= x
            &&& p.step_ms == 0 ==> x <= clamp(p.max_delay_ms as int, p.min_delay_ms as int, p.max_delay_ms as int)
            &&& p.step_ms > 0 ==> x < clamp(p.max_delay_ms as int, p.min_delay_ms as int, p.max_delay_ms as int) + p.step_ms
        } by {
            if k > 0 {
                assert(run[k] == rest[k - 1]);
            }
        }
    }
}

/// The total delay of a permanently failing run with `n = max_retries`
/// retries lies within `[n * min_delay_ms, n * max_delay_ms]` when the policy
/// draws no jitter and its bounds are ordered. With jitter, which is added
/// after the clamp, the lower bound still holds and the total is at most
/// `n * (max_delay_ms + step_ms)`.
pub proof fn lemma_failing_run_total(p: RetryPolicy, delay: nat, retries: nat, jitters: Seq<nat>)
    requires
        retries <= p.max_retries,
        jitters.len() >= p.max_retries,
        forall|k: int| retries <= k < p.max_retries ==> valid_jitter(p, #[trigger] jitters[k]),
    ensures
        total(failing_run(p, delay, retries, jitters)) >= (p.max_retries - retries) * p.min_delay_ms,
        p.step_ms == 0 && p.min_delay_ms <= p.max_delay_ms ==> total(failing_run(p, delay, retries, jitters))
            <= (p.max_retries - retries) * p.max_delay_ms,
        p.min_delay_ms <= p.max_delay_ms ==> total(failing_run(p, delay, retries, jitters))
            <= (p.max_retries - retries) * (p.max_delay_ms + p.step_ms),
    decreases p.max_retries - retries,
{
    if retries < p.max_retries {
        let d = next_delay(p, delay, jitters[retries as int]);
        lemma_failing_run_total(p, d, retries + 1, jitters);
        let rest = failing_run(p, d, retries + 1, jitters);
        let run = failing_run(p, delay, retries, jitters);
        assert(run.drop_first() =~= rest);
        assert(total(run) == d + total(rest));
        assert(valid_jitter(p, jitters[retries as int]));
        assert(d >= p.min_delay_ms);
        assert(p.step_ms == 0 && p.min_delay_ms <= p.max_delay_ms ==> d <= p.max_delay_ms);
        let n: int = p.max_retries - retries - 1;
        assert((n + 1) * p.min_delay_ms == n * p.min_delay_ms + p.min_delay_ms) by (nonlinear_arith);
        assert((n + 1) * p.max_delay_ms == n * p.max_delay_ms + p.max_delay_ms) by (nonlinear_arith);
        assert(p.min_delay_ms <= p.max_delay_ms ==> d <= p.max_delay_ms + p.step_ms);
        assert((n + 1) * (p.max_delay_ms + p.step_ms) == n * (p.max_delay_ms + p.step_ms) + (p.max_delay_ms
            + p.step_ms)) by (nonlinear_arith);
    } else {
        let n: int = p.max_retries - retries;
        assert(n * p.min_delay_ms == 0 && n * p.max_delay_ms == 0 && n * (p.max_delay_ms + p.step_ms) == 0)
            by (nonlinear_arith)
            requires
                n == 0,
        ;
    }
}

} // verus!
