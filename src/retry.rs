use vstd::prelude::*;

verus! {

/// A failure reported by the bus for one attempt: its symbolic error name and
/// its human-readable message, where the bus gave them.
#[derive(Debug)]
pub struct TransportError {
    pub name: Option<String>,
    pub message: Option<String>,
}

/// Which failures are retried, how many attempts are made at most, and how
/// long to wait between two attempts.
pub struct RetryPolicy {
    pub transient_names: Vec<String>,
    pub max_attempts: u32,
    pub delay_secs: u64,
}

/// What to do after an attempt failed.
#[derive(Clone, Copy, Debug, PartialEq, Eq, Structural)]
pub enum Decision {
    /// Wait `delay_secs` and try again; `retries` attempts have failed so far.
    Retry { retries: u32, delay_secs: u64 },
    /// Give up: every one of `attempts` attempts failed with a transient error.
    Exhausted { attempts: u32 },
    /// Give up at once: the failure is not transient.
    Fatal,
}

/// The outcome of one attempt, as the bus would report it.
pub enum AttemptOutcome {
    Reply,
    Failed { name: Option<Seq<char>> },
}

/// How an invocation ended.
#[derive(PartialEq, Eq, Structural)]
pub enum Finish {
    Replied,
    Fatal,
    Exhausted,
}

/// How an invocation ended, how many attempts it made, how many waits stood
/// between them, and how many seconds those waits took together.
pub struct Run {
    pub finish: Finish,
    pub attempts: nat,
    pub waits: nat,
    pub waited_secs: nat,
}

/// A failure is transient when it carries a name on the list.
pub open spec fn is_transient_name(names: Seq<Seq<char>>, name: Option<Seq<char>>) -> bool {
    match name {
        Some(n) => names.contains(n),
        None => false,
    }
}

/// The decision after a failure named `name`, when `retries` earlier attempts
/// have failed.
pub open spec fn decide(
    names: Seq<Seq<char>>,
    max_attempts: u32,
    delay_secs: u64,
    retries: u32,
    name: Option<Seq<char>>,
) -> Decision {
    if !is_transient_name(names, name) {
        Decision::Fatal
    } else if retries + 1 >= max_attempts {
        Decision::Exhausted { attempts: max_attempts }
    } else {
        Decision::Retry { retries: (retries + 1) as u32, delay_secs }
    }
}

/// An invocation from attempt `i` on, where `outcomes[k]` is what attempt `k`
/// (counted from zero) brings.
pub open spec fn run_from(
    names: Seq<Seq<char>>,
    max_attempts: u32,
    delay_secs: u64,
    outcomes: Seq<AttemptOutcome>,
    i: nat,
) -> Run
    decreases max_attempts - i,
{
    if i >= max_attempts || i >= outcomes.len() {
        Run { finish: Finish::Exhausted, attempts: i, waits: 0, waited_secs: 0 }
    } else {
        match outcomes[i as int] {
            AttemptOutcome::Reply => Run { finish: Finish::Replied, attempts: i + 1, waits: 0, waited_secs: 0 },
            AttemptOutcome::Failed { name } => match decide(names, max_attempts, delay_secs, i as u32, name) {
                Decision::Fatal => Run { finish: Finish::Fatal, attempts: i + 1, waits: 0, waited_secs: 0 },
                Decision::Exhausted { attempts } => Run {
                    finish: Finish::Exhausted,
                    attempts: attempts as nat,
                    waits: 0,
                    waited_secs: 0,
                },
                Decision::Retry { delay_secs: d, .. } => {
                    let rest = run_from(names, max_attempts, delay_secs, outcomes, i + 1);
                    Run { waits: rest.waits + 1, waited_secs: (rest.waited_secs + d) as nat, ..rest }
                },
            },
        }
    }
}

/// A whole invocation under a policy.
pub open spec fn run(policy: RetryPolicy, outcomes: Seq<AttemptOutcome>) -> Run {
    run_from(policy.names(), policy.max_attempts, policy.delay_secs, outcomes, 0)
}

/// An attempt that failed with a transient error.
pub open spec fn failed_transiently(names: Seq<Seq<char>>, o: AttemptOutcome) -> bool {
    match o {
        AttemptOutcome::Failed { name } => is_transient_name(names, name),
        AttemptOutcome::Reply => false,
    }
}

/// An attempt that failed with an error that is not transient.
pub open spec fn failed_fatally(names: Seq<Seq<char>>, o: AttemptOutcome) -> bool {
    match o {
        AttemptOutcome::Failed { name } => !is_transient_name(names, name),
        AttemptOutcome::Reply => false,
    }
}

proof fn lemma_run_from_shape(
    names: Seq<Seq<char>>,
    max_attempts: u32,
    delay_secs: u64,
    outcomes: Seq<AttemptOutcome>,
    i: nat,
)
    requires
        i < max_attempts,
        outcomes.len() >= max_attempts,
    ensures
        i < run_from(names, max_attempts, delay_secs, outcomes, i).attempts <= max_attempts,
        i + run_from(names, max_attempts, delay_secs, outcomes, i).waits + 1
            == run_from(names, max_attempts, delay_secs, outcomes, i).attempts,
        run_from(names, max_attempts, delay_secs, outcomes, i).waited_secs
            == run_from(names, max_attempts, delay_secs, outcomes, i).waits * delay_secs,
    decreases max_attempts - i,
{
    match outcomes[i as int] {
        AttemptOutcome::Reply => {},
        AttemptOutcome::Failed { name } => {
            if is_transient_name(names, name) && i + 1 < max_attempts {
                lemma_run_from_shape(names, max_attempts, delay_secs, outcomes, i + 1);
                let w = run_from(names, max_attempts, delay_secs, outcomes, i + 1).waits;
                assert((w + 1) * delay_secs == w * delay_secs + delay_secs) by (nonlinear_arith);
            }
        },
    }
}

proof fn lemma_skip_transient(
    names: Seq<Seq<char>>,
    max_attempts: u32,
    delay_secs: u64,
    outcomes: Seq<AttemptOutcome>,
    i: nat,
    k: nat,
)
    requires
        i <= k < max_attempts,
        outcomes.len() >= max_attempts,
        forall|j: int| i <= j < k ==> failed_transiently(names, #[trigger] outcomes[j]),
    ensures
        run_from(names, max_attempts, delay_secs, outcomes, i).finish
            == run_from(names, max_attempts, delay_secs, outcomes, k).finish,
        run_from(names, max_attempts, delay_secs, outcomes, i).attempts
            == run_from(names, max_attempts, delay_secs, outcomes, k).attempts,
        run_from(names, max_attempts, delay_secs, outcomes, i).waits
            == run_from(names, max_attempts, delay_secs, outcomes, k).waits + (k - i),
    decreases k - i,
{
    if i < k {
        assert(failed_transiently(names, outcomes[i as int]));
        lemma_skip_transient(names, max_attempts, delay_secs, outcomes, i + 1, k);
    }
}

/// An invocation makes at least one and at most `max_attempts` attempts,
/// waits once between each two of them, and each wait is the policy's delay.
pub proof fn law_attempts_bounded(policy: RetryPolicy, outcomes: Seq<AttemptOutcome>)
    requires
        policy.wf(),
        outcomes.len() >= policy.max_attempts,
    ensures
        1 <= run(policy, outcomes).attempts <= policy.max_attempts,
        run(policy, outcomes).waits + 1 == run(policy, outcomes).attempts,
        run(policy, outcomes).waited_secs == run(policy, outcomes).waits * policy.delay_secs,
{
    lemma_run_from_shape(policy.names(), policy.max_attempts, policy.delay_secs, outcomes, 0);
}

/// When the first attempts fail transiently and attempt `k` (counted from
/// zero, within the budget) brings a reply, the invocation succeeds with that
/// reply after `k + 1` attempts and `k` waits.
pub proof fn law_first_reply_returned(policy: RetryPolicy, outcomes: Seq<AttemptOutcome>, k: nat)
    requires
        policy.wf(),
        outcomes.len() >= policy.max_attempts,
        k < policy.max_attempts,
        forall|j: int| 0 <= j < k ==> failed_transiently(policy.names(), #[trigger] outcomes[j]),
        outcomes[k as int] is Reply,
    ensures
        run(policy, outcomes).finish == Finish::Replied,
        run(policy, outcomes).attempts == k + 1,
        run(policy, outcomes).waits == k,
        run(policy, outcomes).waited_secs == k * policy.delay_secs,
{
    lemma_skip_transient(policy.names(), policy.max_attempts, policy.delay_secs, outcomes, 0, k);
    lemma_run_from_shape(policy.names(), policy.max_attempts, policy.delay_secs, outcomes, 0);
}

/// When every attempt fails transiently, the invocation gives up after exactly
/// `max_attempts` attempts, having waited `max_attempts - 1` times the
/// policy's delay.
pub proof fn law_transient_failures_exhaust(policy: RetryPolicy, outcomes: Seq<AttemptOutcome>)
    requires
        policy.wf(),
        outcomes.len() >= policy.max_attempts,
        forall|j: int| 0 <= j < policy.max_attempts ==> failed_transiently(policy.names(), #[trigger] outcomes[j]),
    ensures
        run(policy, outcomes).finish == Finish::Exhausted,
        run(policy, outcomes).attempts == policy.max_attempts,
        run(policy, outcomes).waits == policy.max_attempts - 1,
        run(policy, outcomes).waited_secs == (policy.max_attempts - 1) * policy.delay_secs,
{
    let last = (policy.max_attempts - 1) as nat;
    lemma_skip_transient(policy.names(), policy.max_attempts, policy.delay_secs, outcomes, 0, last);
    assert(failed_transiently(policy.names(), outcomes[last as int]));
    lemma_run_from_shape(policy.names(), policy.max_attempts, policy.delay_secs, outcomes, 0);
}

/// When the first attempts fail transiently and attempt `k` fails with an
/// error that is not transient, the invocation stops there: `k + 1` attempts,
/// no wait after the last one.
pub proof fn law_fatal_failure_stops(policy: RetryPolicy, outcomes: Seq<AttemptOutcome>, k: nat)
    requires
        policy.wf(),
        outcomes.len() >= policy.max_attempts,
        k < policy.max_attempts,
        forall|j: int| 0 <= j < k ==> failed_transiently(policy.names(), #[trigger] outcomes[j]),
        failed_fatally(policy.names(), outcomes[k as int]),
    ensures
        run(policy, outcomes).finish == Finish::Fatal,
        run(policy, outcomes).attempts == k + 1,
        run(policy, outcomes).waits == k,
        run(policy, outcomes).waited_secs == k * policy.delay_secs,
{
    lemma_skip_transient(policy.names(), policy.max_attempts, policy.delay_secs, outcomes, 0, k);
    lemma_run_from_shape(policy.names(), policy.max_attempts, policy.delay_secs, outcomes, 0);
}

impl RetryPolicy {
    pub open spec fn names(&self) -> Seq<Seq<char>> {
        self.transient_names.deep_view()
    }

    /// At least one attempt is made.
    pub open spec fn wf(&self) -> bool {
        self.max_attempts >= 1
    }

    /// Whether a failure is transient.
    pub fn is_transient(&self, err: &TransportError) -> (r: bool)
        ensures
            r == is_transient_name(self.names(), err.name.deep_view()),
    {
        let name = match &err.name {
            Some(n) => n,
            None => return false,
        };
        let mut i: usize = 0;
        while i < self.transient_names.len()
            invariant
                i <= self.transient_names@.len(),
                err.name == Some(*name),
                forall|j: int| 0 <= j < i ==> self.names()[j] != name@,
            decreases self.transient_names@.len() - i,
        {
            if self.transient_names[i] == *name {
                assert(self.names()[i as int] == name@);
                return true;
            }
            i = i + 1;
        }
        assert(!self.names().contains(name@));
        false
    }

    /// The decision after a failed attempt, when `retries` earlier attempts
    /// have failed transiently.
    pub fn after_failure(&self, retries: u32, err: &TransportError) -> (d: Decision)
        requires
            self.wf(),
            retries < self.max_attempts,
        ensures
            d == decide(self.names(), self.max_attempts, self.delay_secs, retries, err.name.deep_view()),
    {
        if !self.is_transient(err) {
            Decision::Fatal
        } else if retries + 1 >= self.max_attempts {
            Decision::Exhausted { attempts: self.max_attempts }
        } else {
            Decision::Retry { retries: retries + 1, delay_secs: self.delay_secs }
        }
    }
}

} // verus!
