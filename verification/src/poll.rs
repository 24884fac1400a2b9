//! The polling interval and the rules by which it grows and shrinks.

use vstd::prelude::*;
use crate::error::TeslaError;

verus! {

/// Seconds between two polls while the vehicle answers.
pub const DEFAULT_POLL_INTERVAL: u64 = 10;

/// The longest pause between two polls, in seconds.
pub const MAX_POLL_INTERVAL: u64 = 600;

/// Two to the power `n`.
pub open spec fn two_to(n: nat) -> nat
    decreases n,
{
    if n == 0 {
        1
    } else {
        2 * two_to((n - 1) as nat)
    }
}

/// The smaller of two numbers.
pub open spec fn least(a: int, b: int) -> int {
    if a <= b {
        a
    } else {
        b
    }
}

/// How long the scheduler waits between polls, and when the next is due.
/// Times and intervals are in seconds.
#[derive(Debug, Clone, Copy, PartialEq, Eq, Structural)]
pub struct PollState {
    pub current_interval: u64,
    pub default_interval: u64,
    pub max_interval: u64,
    pub next_poll_at: u64,
}

impl PollState {
    /// The interval never leaves the range from the default to the maximum.
    pub open spec fn wf(self) -> bool {
        self.default_interval <= self.current_interval <= self.max_interval
    }

    /// Whether the next poll time can be computed at time `now`.
    pub open spec fn fits(self, now: u64) -> bool {
        now + self.max_interval <= u64::MAX
    }

    /// The state after a cycle that failed at time `now`: the interval
    /// doubles, up to the maximum.
    pub open spec fn backed_off(self, now: u64) -> PollState {
        let interval = least(2 * self.current_interval, self.max_interval as int) as u64;
        PollState {
            current_interval: interval,
            next_poll_at: (now + interval) as u64,
            ..self
        }
    }

    /// The state after a cycle that succeeded at time `now`: the interval
    /// is the default again.
    pub open spec fn restored(self, now: u64) -> PollState {
        PollState {
            current_interval: self.default_interval,
            next_poll_at: (now + self.default_interval) as u64,
            ..self
        }
    }

    /// The state after one failed cycle at each of the given times, in
    /// order.
    pub open spec fn after_failures(self, times: Seq<u64>) -> PollState
        decreases times.len(),
    {
        if times.len() == 0 {
            self
        } else {
            self.after_failures(times.drop_last()).backed_off(times.last())
        }
    }

    /// A state that polls at once and then every `default_interval`
    /// seconds. A default above the maximum is refused.
    pub fn new(default_interval: u64, max_interval: u64, now: u64) -> (made: Result<
        PollState,
        TeslaError,
    >)
        ensures
            default_interval <= max_interval ==> made == Ok::<PollState, TeslaError>(
                PollState {
                    current_interval: default_interval,
                    default_interval,
                    max_interval,
                    next_poll_at: now,
                },
            ),
            default_interval <= max_interval ==> made->Ok_0.wf(),
            default_interval > max_interval ==> made is Err && made->Err_0 is SystemError,
    {
        if default_interval > max_interval {
            Err(TeslaError::SystemError)
        } else {
            Ok(
                PollState {
                    current_interval: default_interval,
                    default_interval,
                    max_interval,
                    next_poll_at: now,
                },
            )
        }
    }

    /// The state with which the daemon starts: ten seconds, at most ten
    /// minutes.
    pub fn standard(now: u64) -> (made: PollState)
        ensures
            made == (PollState {
                current_interval: DEFAULT_POLL_INTERVAL,
                default_interval: DEFAULT_POLL_INTERVAL,
                max_interval: MAX_POLL_INTERVAL,
                next_poll_at: now,
            }),
            made.wf(),
    {
        PollState {
            current_interval: DEFAULT_POLL_INTERVAL,
            default_interval: DEFAULT_POLL_INTERVAL,
            max_interval: MAX_POLL_INTERVAL,
            next_poll_at: now,
        }
    }

    /// Records a failed cycle: doubles the interval, up to the maximum, and
    /// sets the next poll that far after `now`.
    pub fn back_off(&mut self, now: u64)
        requires
            old(self).wf(),
            old(self).fits(now),
        ensures
            *final(self) == old(self).backed_off(now),
            final(self).wf(),
    {
        let interval: u64 = if self.current_interval >= self.max_interval - self.current_interval {
            self.max_interval
        } else {
            2 * self.current_interval
        };
        self.current_interval = interval;
        self.next_poll_at = now + interval;
    }

    /// Records a successful cycle: the interval is the default again, and
    /// the next poll is that far after `now`.
    pub fn restore(&mut self, now: u64)
        requires
            old(self).wf(),
            old(self).fits(now),
        ensures
            *final(self) == old(self).restored(now),
            final(self).wf(),
    {
        self.current_interval = self.default_interval;
        self.next_poll_at = now + self.default_interval;
    }

    /// Whether the time of the next poll has passed at time `now`.
    pub fn is_due(&self, now: u64) -> (due: bool)
        ensures
            due == (now > self.next_poll_at),
    {
        now > self.next_poll_at
    }
}

/// Failed cycles keep a valid state valid, and leave the default and the
/// maximum as they were.
pub proof fn lemma_failures_keep_bounds(s: PollState, times: Seq<u64>)
    requires
        s.wf(),
    ensures
        s.after_failures(times).wf(),
        s.after_failures(times).default_interval == s.default_interval,
        s.after_failures(times).max_interval == s.max_interval,
    decreases times.len(),
{
    if times.len() > 0 {
        lemma_failures_keep_bounds(s, times.drop_last());
    }
}

/// Backoff is monotonic and capped: starting from the default interval,
/// after `n` failed cycles in a row the interval is the default times two
/// to the `n`, or the maximum where that is smaller.
pub proof fn lemma_backoff_closed_form(s: PollState, times: Seq<u64>)
    requires
        s.wf(),
        s.current_interval == s.default_interval,
    ensures
        s.after_failures(times).current_interval == least(
            s.default_interval * two_to(times.len()),
            s.max_interval as int,
        ),
    decreases times.len(),
{
    let d = s.default_interval as int;
    if times.len() == 0 {
        assert(two_to(0) == 1);
        assert(d * 1 == d);
    } else {
        let shorter = times.drop_last();
        lemma_backoff_closed_form(s, shorter);
        lemma_failures_keep_bounds(s, shorter);
        let p = two_to(shorter.len()) as int;
        let before = s.after_failures(shorter);
        assert(s.after_failures(times) == before.backed_off(times.last()));
        assert(two_to(times.len()) == 2 * p);
        assert(d * (2 * p) == 2 * (d * p)) by (nonlinear_arith);
        assert(d * p >= 0) by (nonlinear_arith)
            requires
                d >= 0,
                p >= 0,
        ;
    }
}

/// One success undoes any number of failures: the interval is the default
/// again.
pub proof fn lemma_success_resets(s: PollState, times: Seq<u64>, now: u64)
    requires
        s.wf(),
    ensures
        s.after_failures(times).restored(now).current_interval == s.default_interval,
        s.after_failures(times).restored(now).wf(),
{
    lemma_failures_keep_bounds(s, times);
}

/// A failed cycle never shortens the interval.
pub proof fn lemma_backoff_monotonic(s: PollState, now: u64)
    requires
        s.wf(),
    ensures
        s.backed_off(now).current_interval >= s.current_interval,
        s.backed_off(now).current_interval <= s.max_interval,
{
}

} // verus!
