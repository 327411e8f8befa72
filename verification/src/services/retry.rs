//! The retry policy of a launch: at most three attempts within a time
//! budget, spaced by the delays of an exponential backoff.

use crate::types::errors::{AppError, AppErrorView};
use backoff::backoff::Backoff;
use backoff::ExponentialBackoff;
use std::time::Duration;
use vstd::prelude::*;

verus! {

/// The number of launch attempts after which a start gives up.
pub const MAX_RETRIES: u32 = 3;

/// The time budget of a start in seconds: no wait ends after it, and the
/// backoff yields no delay once it is spent.
pub const MAX_ELAPSED_SECS: u64 = 30;

/// The seconds at which the backoff's interval stops growing.
pub const MAX_INTERVAL_SECS: u64 = 10;

/// `backoff::SystemClock`, the clock of the backoff. Opaque.
#[verifier::external_type_specification]
#[verifier::external_body]
pub struct ExSystemClock(backoff::SystemClock);

/// `backoff::exponential::ExponentialBackoff`. Opaque: its intervals, its
/// limits and its clock are not visible to a contract.
#[verifier::external_type_specification]
#[verifier::external_body]
#[verifier::reject_recursive_types(C)]
pub struct ExExponentialBackoff<C>(backoff::exponential::ExponentialBackoff<C>);

/// Builds a `backoff::ExponentialBackoff` whose `max_elapsed_time` and
/// `max_interval` are the given seconds and whose other fields are the
/// crate's defaults: it begins at half a second and grows by half at each
/// delay, up to `max_interval`. Both limits are at most a day, so that no
/// interval of the backoff comes near what a `Duration` can hold. Nothing is
/// claimed of the value: it is opaque here.
#[verifier::external_body]
fn exponential_backoff(max_elapsed_secs: u64, max_interval_secs: u64) -> ExponentialBackoff
    requires
        max_elapsed_secs <= 86_400,
        max_interval_secs <= 86_400,
{
    ExponentialBackoff {
        max_elapsed_time: Some(Duration::from_secs(max_elapsed_secs)),
        max_interval: Duration::from_secs(max_interval_secs),
        ..Default::default()
    }
}

/// Calls `Backoff::next_backoff` of `backoff::ExponentialBackoff` and hands
/// the delay out as whole seconds and the nanoseconds beyond them. The answer
/// depends on the clock and on a random number, so nothing is claimed of it:
/// `None` means that the backoff sees its time budget spent, `Some` is the
/// delay that it proposes. The call adds the elapsed time and the delay;
/// every backoff of this library is built by `exponential_backoff`, whose
/// intervals stay below a day and a half, so that sum is far from overflow.
#[verifier::external_body]
fn next_backoff(policy: &mut ExponentialBackoff) -> Option<TimeSpan> {
    policy.next_backoff().map(|d| TimeSpan { secs: d.as_secs(), nanos: d.subsec_nanos() })
}

/// A length of time: whole seconds, and nanoseconds beyond them.
#[derive(Debug, Clone, Copy, PartialEq, Eq)]
pub struct TimeSpan {
    pub secs: u64,
    pub nanos: u32,
}

impl TimeSpan {
    /// The length in nanoseconds.
    pub open spec fn total_nanos(self) -> nat {
        (self.secs * 1_000_000_000 + self.nanos) as nat
    }

    /// The length in nanoseconds.
    pub fn as_nanos(&self) -> (n: u128)
        ensures
            n == self.total_nanos(),
    {
        let secs: u128 = self.secs as u128;
        let nanos: u128 = self.nanos as u128;
        secs * 1_000_000_000 + nanos
    }
}

/// The time budget of a start in nanoseconds: `MAX_ELAPSED_SECS` seconds.
pub open spec fn max_elapsed_nanos() -> nat {
    (MAX_ELAPSED_SECS * 1_000_000_000) as nat
}

/// The longest wait between two attempts in nanoseconds: `MAX_INTERVAL_SECS`
/// seconds.
pub open spec fn max_interval_nanos() -> nat {
    (MAX_INTERVAL_SECS * 1_000_000_000) as nat
}

/// A proposed delay, cut to `MAX_INTERVAL_SECS` seconds where it is longer.
pub open spec fn capped(delay: TimeSpan) -> TimeSpan {
    if delay.total_nanos() > max_interval_nanos() {
        TimeSpan { secs: MAX_INTERVAL_SECS, nanos: 0 }
    } else {
        delay
    }
}

/// Cuts a proposed delay to `MAX_INTERVAL_SECS` seconds where it is longer.
pub fn cap_delay(delay: TimeSpan) -> (r: TimeSpan)
    ensures
        r == capped(delay),
        r.total_nanos() <= max_interval_nanos(),
        r.total_nanos() <= delay.total_nanos(),
{
    let longest: u128 = MAX_INTERVAL_SECS as u128 * 1_000_000_000;
    if delay.as_nanos() > longest {
        TimeSpan { secs: MAX_INTERVAL_SECS, nanos: 0 }
    } else {
        delay
    }
}

/// What to do after a failed launch.
#[derive(Debug, PartialEq, Eq)]
pub enum RetryStep {
    /// Wait this long, then launch again.
    Wait(TimeSpan),
    /// Stop and report this failure.
    GiveUp(AppError),
}

/// A `RetryStep` with its failure as a view.
pub enum RetryStepView {
    Wait(TimeSpan),
    GiveUp(AppErrorView),
}

impl View for RetryStep {
    type V = RetryStepView;

    open spec fn view(&self) -> RetryStepView {
        match self {
            RetryStep::Wait(d) => RetryStepView::Wait(*d),
            RetryStep::GiveUp(e) => RetryStepView::GiveUp(e@),
        }
    }
}

/// The number of failed attempts once one more has failed; it stops at `MAX_RETRIES`.
pub open spec fn attempts_after_failure(attempts: u32) -> u32 {
    if attempts < MAX_RETRIES {
        (attempts + 1) as u32
    } else {
        MAX_RETRIES
    }
}

/// Whether the backoff is asked for a delay after attempt number `attempt`
/// failed at `elapsed` nanoseconds: only while both limits leave room.
pub open spec fn asks_backoff(attempt: u32, elapsed: nat) -> bool {
    attempt < MAX_RETRIES && elapsed <= max_elapsed_nanos()
}

/// The step after attempt number `attempt` of server `name` failed with
/// `last_error`, `elapsed` nanoseconds after the start began, where `delay`
/// is what the backoff proposed. Whichever limit is reached first decides.
/// The attempts come first: the last one that is allowed ends the start with
/// `RetryExhausted`. Before that the time budget decides: the start ends
/// with `RetryTimeout` where the budget is spent, where the backoff proposes
/// nothing, or where the proposed delay would end after the budget. A delay
/// that passes is waited for, cut to `MAX_INTERVAL_SECS` seconds where the
/// backoff proposed more.
pub open spec fn step_after_failure(
    name: Seq<char>,
    attempt: u32,
    last_error: Seq<char>,
    elapsed: nat,
    delay: Option<TimeSpan>,
) -> RetryStepView {
    if attempt >= MAX_RETRIES {
        RetryStepView::GiveUp(AppErrorView::RetryExhausted { name, attempts: attempt, last_error })
    } else if elapsed > max_elapsed_nanos() {
        RetryStepView::GiveUp(AppErrorView::RetryTimeout { name })
    } else {
        match delay {
            Some(d) => if elapsed + d.total_nanos() <= max_elapsed_nanos() {
                RetryStepView::Wait(capped(d))
            } else {
                RetryStepView::GiveUp(AppErrorView::RetryTimeout { name })
            },
            None => RetryStepView::GiveUp(AppErrorView::RetryTimeout { name }),
        }
    }
}

/// Decides the step after attempt number `attempt` failed at `elapsed`,
/// given what the backoff proposed.
pub fn decide(
    name: &str,
    attempt: u32,
    last_error: String,
    elapsed: TimeSpan,
    delay: Option<TimeSpan>,
) -> (step: RetryStep)
    ensures
        step@ == step_after_failure(name@, attempt, last_error@, elapsed.total_nanos(), delay),
{
    let budget: u128 = MAX_ELAPSED_SECS as u128 * 1_000_000_000;
    if attempt >= MAX_RETRIES {
        return RetryStep::GiveUp(
            AppError::RetryExhausted { name: name.to_owned(), attempts: attempt, last_error },
        );
    }
    let spent = elapsed.as_nanos();
    if spent > budget {
        return RetryStep::GiveUp(AppError::RetryTimeout { name: name.to_owned() });
    }
    match delay {
        Some(d) => {
            if d.as_nanos() <= budget - spent {
                RetryStep::Wait(cap_delay(d))
            } else {
                RetryStep::GiveUp(AppError::RetryTimeout { name: name.to_owned() })
            }
        },
        None => RetryStep::GiveUp(AppError::RetryTimeout { name: name.to_owned() }),
    }
}

/// A count of failed attempts that stops at `MAX_RETRIES`.
#[derive(Debug)]
pub struct AttemptCounter {
    failed: u32,
}

impl AttemptCounter {
    #[verifier::type_invariant]
    spec fn bounded(self) -> bool {
        self.failed <= MAX_RETRIES
    }

    /// The attempts that have failed.
    pub closed spec fn count(&self) -> u32 {
        self.failed
    }

    /// No attempt has failed.
    pub fn new() -> (counter: Self)
        ensures
            counter.count() == 0,
    {
        AttemptCounter { failed: 0 }
    }

    /// The attempts that have failed.
    pub fn get(&self) -> (n: u32)
        ensures
            n == self.count(),
            n <= MAX_RETRIES,
    {
        proof {
            use_type_invariant(self);
        }
        self.failed
    }

    /// Counts one more failed attempt and returns the new count.
    pub fn record_failure(&mut self) -> (n: u32)
        ensures
            n == final(self).count(),
            n == attempts_after_failure(old(self).count()),
            1 <= n <= MAX_RETRIES,
    {
        proof {
            use_type_invariant(&*self);
        }
        let n = if self.failed < MAX_RETRIES {
            self.failed + 1
        } else {
            MAX_RETRIES
        };
        self.failed = n;
        n
    }
}

/// The progress of one start: its backoff and the attempts that failed so far.
#[derive(Debug)]
pub struct RetryState {
    backoff: ExponentialBackoff,
    counter: AttemptCounter,
}

impl RetryState {
    /// The number of attempts that have failed, at most `MAX_RETRIES`.
    pub closed spec fn attempts(&self) -> u32 {
        self.counter.count()
    }

    /// A fresh policy: no attempt has failed, and the delays come from a
    /// backoff that is made now, with `MAX_ELAPSED_SECS` and
    /// `MAX_INTERVAL_SECS` as its limits. The backoff holds the time at which
    /// it was made, so which backoff it is cannot be told beforehand.
    pub fn new() -> (state: Self)
        ensures
            state.attempts() == 0,
    {
        RetryState {
            backoff: exponential_backoff(MAX_ELAPSED_SECS, MAX_INTERVAL_SECS),
            counter: AttemptCounter::new(),
        }
    }

    /// The number of attempts that have failed.
    pub fn failed_attempts(&self) -> (n: u32)
        ensures
            n == self.attempts(),
            n <= MAX_RETRIES,
    {
        self.counter.get()
    }

    /// Records that a launch failed with `error`, `elapsed` after the start
    /// began, and decides what follows. While both limits leave room the
    /// backoff is asked for the delay, and the step is `step_after_failure`
    /// of whatever it proposed.
    pub fn on_failure(&mut self, name: &str, error: &AppError, elapsed: TimeSpan) -> (step:
        RetryStep)
        ensures
            final(self).attempts() == attempts_after_failure(old(self).attempts()),
            exists|delay: Option<TimeSpan>|
                step@ == #[trigger] step_after_failure(
                    name@,
                    final(self).attempts(),
                    error@.message(),
                    elapsed.total_nanos(),
                    delay,
                ),
            !asks_backoff(final(self).attempts(), elapsed.total_nanos()) ==> step@
                == step_after_failure(
                name@,
                final(self).attempts(),
                error@.message(),
                elapsed.total_nanos(),
                None,
            ),
            step@ matches RetryStepView::Wait(d) ==> final(self).attempts() < MAX_RETRIES
                && elapsed.total_nanos() + d.total_nanos() <= max_elapsed_nanos()
                && d.total_nanos() <= max_interval_nanos(),
    {
        let attempt = self.counter.record_failure();
        let budget: u128 = MAX_ELAPSED_SECS as u128 * 1_000_000_000;
        let delay = if attempt < MAX_RETRIES && elapsed.as_nanos() <= budget {
            next_backoff(&mut self.backoff)
        } else {
            None
        };
        let step = decide(name, attempt, error.to_string(), elapsed, delay);
        assert(step@ == step_after_failure(
            name@,
            attempt,
            error@.message(),
            elapsed.total_nanos(),
            delay,
        ));
        step
    }

    /// After a launch succeeded: the number of the attempt that did, if it
    /// was not the first. A caller reports it as a recovery.
    pub fn recovered_after(&self) -> (r: Option<u32>)
        ensures
            r == if self.attempts() >= 1 {
                Some((self.attempts() + 1) as u32)
            } else {
                None::<u32>
            },
    {
        let failed = self.counter.get();
        if failed >= 1 {
            Some(failed + 1)
        } else {
            None
        }
    }
}

/// Three failed attempts: while the time budget leaves room for the delays
/// that the backoff proposes, the first two are answered by a wait for the
/// delay, cut to the longest wait; the third is answered by `RetryExhausted`
/// with `attempts` 3 whatever the time and the backoff say, and the count
/// goes no further.
pub proof fn law_third_failure_exhausts(
    name: Seq<char>,
    errors: (Seq<char>, Seq<char>, Seq<char>),
    elapsed: (nat, nat, nat),
    delays: (TimeSpan, TimeSpan, Option<TimeSpan>),
)
    requires
        elapsed.0 + delays.0.total_nanos() <= max_elapsed_nanos(),
        elapsed.1 + delays.1.total_nanos() <= max_elapsed_nanos(),
    ensures
        attempts_after_failure(0) == 1,
        attempts_after_failure(1) == 2,
        attempts_after_failure(2) == MAX_RETRIES,
        attempts_after_failure(MAX_RETRIES) == MAX_RETRIES,
        step_after_failure(name, 1, errors.0, elapsed.0, Some(delays.0)) == RetryStepView::Wait(
            capped(delays.0),
        ),
        step_after_failure(name, 2, errors.1, elapsed.1, Some(delays.1)) == RetryStepView::Wait(
            capped(delays.1),
        ),
        step_after_failure(name, MAX_RETRIES, errors.2, elapsed.2, delays.2)
            == RetryStepView::GiveUp(
            AppErrorView::RetryExhausted { name, attempts: 3, last_error: errors.2 },
        ),
{
}

/// Once more than the time budget has elapsed, a failure before the last
/// attempt ends the start with `RetryTimeout`, whatever the backoff
/// proposes: no further attempt follows. The same holds where the backoff
/// proposes nothing.
pub proof fn law_spent_budget_times_out(
    name: Seq<char>,
    attempt: u32,
    last_error: Seq<char>,
    elapsed: nat,
    delay: Option<TimeSpan>,
)
    requires
        attempt < MAX_RETRIES,
    ensures
        elapsed > max_elapsed_nanos() ==> step_after_failure(
            name,
            attempt,
            last_error,
            elapsed,
            delay,
        ) == RetryStepView::GiveUp(AppErrorView::RetryTimeout { name }),
        step_after_failure(name, attempt, last_error, elapsed, None) == RetryStepView::GiveUp(
            AppErrorView::RetryTimeout { name },
        ),
{
}

/// Every wait stays within the three limits: it was decided before the
/// third failure, it is at most `MAX_INTERVAL_SECS` seconds long, and it
/// ends within `MAX_ELAPSED_SECS` seconds of the start. It is the delay that
/// the backoff proposed, or the longest wait where that was longer.
pub proof fn law_waits_stay_within_limits(
    name: Seq<char>,
    attempt: u32,
    last_error: Seq<char>,
    elapsed: nat,
    delay: Option<TimeSpan>,
)
    ensures
        step_after_failure(name, attempt, last_error, elapsed, delay) matches RetryStepView::Wait(
            d,
        ) ==> {
            &&& attempt < MAX_RETRIES
            &&& delay is Some
            &&& d == capped(delay->Some_0)
            &&& d.total_nanos() <= max_interval_nanos()
            &&& elapsed + d.total_nanos() <= max_elapsed_nanos()
        },
{
}

} // verus!
