//! Polling with a bounded number of attempts and a fixed pause after each
//! failed one. The decisions are made here; the attempts themselves and the
//! pauses are the caller's.

use crate::error::BootError;
use vstd::prelude::*;

verus! {

/// How often to try, and how long to pause after a failed attempt.
#[derive(Clone, Copy, Debug, PartialEq, Eq, Structural)]
pub struct PollPolicy {
    pub max_attempts: u32,
    pub delay_ms: u32,
}

/// What to do once an attempt's outcome is known.
#[derive(Debug, PartialEq, Eq)]
pub enum PollStep<T> {
    /// The attempt succeeded: stop polling, this is the value.
    Done(T),
    /// Pause for so many milliseconds, then attempt again.
    RetryAfter(u32),
    /// Pause for so many milliseconds, then fail: the budget is spent.
    GiveUpAfter(u32),
}

/// One turn of a wait that fails with a boot error once its budget is spent.
#[derive(Debug)]
pub enum Turn<T> {
    /// The attempt succeeded: the wait is over, this is the value.
    Ready(T),
    /// Pause for so many milliseconds, then attempt again.
    Retry { pause_ms: u32 },
    /// Pause for so many milliseconds, then fail with this error.
    Failed { pause_ms: u32, error: BootError },
}

/// How a whole run of polling ends, given what each attempt yields.
#[derive(Debug, PartialEq, Eq)]
pub enum PollRun<T> {
    /// An attempt succeeded. `attempts` counts it; `waited_ms` is the total
    /// of the pauses before it.
    Ready { value: T, attempts: u32, waited_ms: u64 },
    /// Every attempt of the budget failed.
    TimedOut { attempts: u32, waited_ms: u64 },
    /// The known outcomes all failed and the budget is not yet spent.
    Pending { attempts: u32, waited_ms: u64 },
}

/// The decision after an attempt, when `failed` attempts had failed before it.
pub open spec fn step_of<T>(policy: PollPolicy, failed: int, outcome: Option<T>) -> PollStep<T> {
    if failed >= policy.max_attempts {
        PollStep::GiveUpAfter(0)
    } else {
        match outcome {
            Some(value) => PollStep::Done(value),
            None => if failed + 1 < policy.max_attempts {
                PollStep::RetryAfter(policy.delay_ms)
            } else {
                PollStep::GiveUpAfter(policy.delay_ms)
            },
        }
    }
}

/// The number of failed attempts after an attempt's outcome is recorded.
pub open spec fn failed_after<T>(policy: PollPolicy, failed: int, outcome: Option<T>) -> int {
    if failed < policy.max_attempts && outcome is None {
        failed + 1
    } else {
        failed
    }
}

/// The end of a run in which the first `failed` attempts have failed and
/// attempt number `i` (from zero) would yield `outcomes[i]`.
pub open spec fn run_from<T>(policy: PollPolicy, outcomes: Seq<Option<T>>, failed: int) -> PollRun<
    T,
>
    decreases outcomes.len() - failed,
{
    let waited = (failed * policy.delay_ms) as u64;
    if failed < 0 || failed >= policy.max_attempts {
        PollRun::TimedOut { attempts: policy.max_attempts, waited_ms: waited }
    } else if failed >= outcomes.len() {
        PollRun::Pending { attempts: failed as u32, waited_ms: waited }
    } else {
        match outcomes[failed] {
            Some(value) => PollRun::Ready {
                value,
                attempts: (failed + 1) as u32,
                waited_ms: waited,
            },
            None => run_from(policy, outcomes, failed + 1),
        }
    }
}

/// The end of a run from its start.
pub open spec fn run_of<T>(policy: PollPolicy, outcomes: Seq<Option<T>>) -> PollRun<T> {
    run_from(policy, outcomes, 0)
}

/// The progress of one run of polling.
pub struct Poller {
    policy: PollPolicy,
    failed: u32,
}

impl Poller {
    /// The policy this run follows.
    pub closed spec fn policy(&self) -> PollPolicy {
        self.policy
    }

    /// The number of attempts that have failed so far.
    pub closed spec fn failed(&self) -> int {
        self.failed as int
    }

    /// The failures never outnumber the budget.
    pub closed spec fn wf(&self) -> bool {
        self.failed <= self.policy.max_attempts
    }

    /// A run that has made no attempt yet.
    pub fn new(policy: PollPolicy) -> (poller: Poller)
        ensures
            poller.wf(),
            poller.policy() == policy,
            poller.failed() == 0,
    {
        Poller { policy, failed: 0 }
    }

    /// Whether another attempt is within the budget.
    pub fn may_attempt(&self) -> (may: bool)
        ensures
            may == (self.failed() < self.policy().max_attempts),
    {
        self.failed < self.policy.max_attempts
    }

    /// The number of attempts that have failed so far.
    pub fn failed_attempts(&self) -> (n: u32)
        ensures
            n == self.failed(),
    {
        self.failed
    }

    /// The total of the pauses that the failed attempts called for.
    pub fn waited_ms(&self) -> (ms: u64)
        ensures
            ms == self.failed() * self.policy().delay_ms,
    {
        proof {
            assert(self.failed * self.policy.delay_ms <= 0xffff_ffff * 0xffff_ffff)
                by (nonlinear_arith)
                requires
                    self.failed <= 0xffff_ffff,
                    self.policy.delay_ms <= 0xffff_ffff,
            ;
        }
        let failed: u64 = self.failed.into();
        let delay: u64 = self.policy.delay_ms.into();
        failed * delay
    }

    /// Records the outcome of an attempt and says what to do next. Once the
    /// budget is spent the outcome is ignored and the run stays given up.
    pub fn record<T>(&mut self, outcome: Option<T>) -> (step: PollStep<T>)
        requires
            old(self).wf(),
        ensures
            final(self).wf(),
            final(self).policy() == old(self).policy(),
            step == step_of(old(self).policy(), old(self).failed(), outcome),
            final(self).failed() == failed_after(old(self).policy(), old(self).failed(), outcome),
    {
        if self.failed >= self.policy.max_attempts {
            return PollStep::GiveUpAfter(0);
        }
        match outcome {
            Some(value) => PollStep::Done(value),
            None => {
                self.failed = self.failed + 1;
                if self.failed < self.policy.max_attempts {
                    PollStep::RetryAfter(self.policy.delay_ms)
                } else {
                    PollStep::GiveUpAfter(self.policy.delay_ms)
                }
            },
        }
    }
}

/// Whether `turn` says what `step` says, with a failure once the budget is
/// spent.
pub open spec fn turn_follows<T>(turn: Turn<T>, step: PollStep<T>) -> bool {
    match turn {
        Turn::Ready(value) => step == PollStep::Done(value),
        Turn::Retry { pause_ms } => step == PollStep::<T>::RetryAfter(pause_ms),
        Turn::Failed { pause_ms, .. } => step == PollStep::<T>::GiveUpAfter(pause_ms),
    }
}

/// Runs the poller over outcomes known in advance: attempt number `i` yields
/// `outcomes[i]`. Outcomes after the one that ends the run are never looked at.
pub fn replay<T: Copy>(policy: PollPolicy, outcomes: &Vec<Option<T>>) -> (run: PollRun<T>)
    ensures
        run == run_of(policy, outcomes@),
{
    let mut poller = Poller::new(policy);
    let mut i: usize = 0;
    while i < outcomes.len()
        invariant
            poller.wf(),
            poller.policy() == policy,
            poller.failed() == i,
            i <= outcomes.len(),
            run_from(policy, outcomes@, i as int) == run_of(policy, outcomes@),
        decreases outcomes.len() - i,
    {
        if !poller.may_attempt() {
            return PollRun::TimedOut { attempts: policy.max_attempts, waited_ms: poller.waited_ms() };
        }
        let waited = poller.waited_ms();
        match poller.record(outcomes[i]) {
            PollStep::Done(value) => {
                return PollRun::Ready { value, attempts: poller.failed_attempts() + 1, waited_ms: waited };
            },
            PollStep::RetryAfter(_) => {},
            PollStep::GiveUpAfter(_) => {},
        }
        i = i + 1;
    }
    if poller.may_attempt() {
        PollRun::Pending { attempts: poller.failed_attempts(), waited_ms: poller.waited_ms() }
    } else {
        PollRun::TimedOut { attempts: policy.max_attempts, waited_ms: poller.waited_ms() }
    }
}

/// The first success ends the run at once: if attempt number `k` is within
/// the budget and is the first to succeed, the run is ready with its value
/// after `k + 1` attempts and `k` pauses, whatever later attempts would yield.
pub proof fn first_success_ends_run<T>(policy: PollPolicy, outcomes: Seq<Option<T>>, k: int)
    requires
        0 <= k < outcomes.len(),
        k < policy.max_attempts,
        outcomes[k] is Some,
        forall|j: int| 0 <= j < k ==> outcomes[j] is None,
    ensures
        run_of(policy, outcomes) == (PollRun::Ready {
            value: outcomes[k]->0,
            attempts: (k + 1) as u32,
            waited_ms: (k * policy.delay_ms) as u64,
        }),
        k + 1 <= u32::MAX,
        k * policy.delay_ms <= u64::MAX,
{
    assert(k * policy.delay_ms <= 0xffff_ffff * 0xffff_ffff) by (nonlinear_arith)
        requires
            0 <= k <= 0xffff_ffff,
            policy.delay_ms <= 0xffff_ffff,
    ;
    run_reaches(policy, outcomes, 0, k);
}

/// A run does not depend on what lies beyond the attempt that ends it.
pub proof fn later_outcomes_are_ignored<T>(
    policy: PollPolicy,
    outcomes: Seq<Option<T>>,
    longer: Seq<Option<T>>,
)
    requires
        outcomes.len() <= longer.len(),
        forall|j: int| 0 <= j < outcomes.len() ==> longer[j] == outcomes[j],
        !(run_of(policy, outcomes) is Pending),
    ensures
        run_of(policy, longer) == run_of(policy, outcomes),
{
    prefix_decides(policy, outcomes, longer, 0);
}

/// A run in which every attempt of the budget fails times out after exactly
/// the budgeted number of attempts and as many pauses, and never later.
pub proof fn exhausted_budget_times_out<T>(policy: PollPolicy, outcomes: Seq<Option<T>>)
    requires
        outcomes.len() >= policy.max_attempts,
        forall|j: int| 0 <= j < policy.max_attempts ==> outcomes[j] is None,
    ensures
        run_of(policy, outcomes) == (PollRun::<T>::TimedOut {
            attempts: policy.max_attempts,
            waited_ms: (policy.max_attempts * policy.delay_ms) as u64,
        }),
        policy.max_attempts * policy.delay_ms <= u64::MAX,
{
    assert(policy.max_attempts * policy.delay_ms <= 0xffff_ffff * 0xffff_ffff) by (nonlinear_arith)
        requires
            policy.max_attempts <= 0xffff_ffff,
            policy.delay_ms <= 0xffff_ffff,
    ;
    run_reaches(policy, outcomes, 0, policy.max_attempts as int);
}

/// No run makes more attempts than the budget allows.
pub proof fn attempts_stay_within_budget<T>(policy: PollPolicy, outcomes: Seq<Option<T>>)
    ensures
        match run_of(policy, outcomes) {
            PollRun::Ready { attempts, .. } => 1 <= attempts <= policy.max_attempts,
            PollRun::TimedOut { attempts, .. } => attempts == policy.max_attempts,
            PollRun::Pending { attempts, .. } => attempts < policy.max_attempts,
        },
{
    attempts_bounded_from(policy, outcomes, 0);
}

proof fn run_reaches<T>(policy: PollPolicy, outcomes: Seq<Option<T>>, from: int, to: int)
    requires
        0 <= from <= to <= outcomes.len(),
        to <= policy.max_attempts,
        forall|j: int| from <= j < to ==> outcomes[j] is None,
    ensures
        run_from(policy, outcomes, from) == run_from(policy, outcomes, to),
    decreases to - from,
{
    if from < to {
        run_reaches(policy, outcomes, from + 1, to);
    }
}

proof fn prefix_decides<T>(
    policy: PollPolicy,
    outcomes: Seq<Option<T>>,
    longer: Seq<Option<T>>,
    from: int,
)
    requires
        0 <= from,
        outcomes.len() <= longer.len(),
        forall|j: int| 0 <= j < outcomes.len() ==> longer[j] == outcomes[j],
        !(run_from(policy, outcomes, from) is Pending),
    ensures
        run_from(policy, longer, from) == run_from(policy, outcomes, from),
    decreases outcomes.len() - from,
{
    if from < policy.max_attempts && from < outcomes.len() && outcomes[from] is None {
        prefix_decides(policy, outcomes, longer, from + 1);
    }
}

proof fn attempts_bounded_from<T>(policy: PollPolicy, outcomes: Seq<Option<T>>, from: int)
    requires
        0 <= from,
    ensures
        match run_from(policy, outcomes, from) {
            PollRun::Ready { attempts, .. } => from + 1 <= attempts <= policy.max_attempts,
            PollRun::TimedOut { attempts, .. } => attempts == policy.max_attempts,
            PollRun::Pending { attempts, .. } => attempts < policy.max_attempts,
        },
    decreases outcomes.len() - from,
{
    if from < policy.max_attempts && from < outcomes.len() && outcomes[from] is None {
        attempts_bounded_from(policy, outcomes, from + 1);
    }
}

} // verus!
