//! Retrying: how often a failing call is tried, and how long to wait in between.
use vstd::arithmetic::power2::{lemma_pow2_strictly_increases, lemma_pow2_unfold, pow2};
use vstd::prelude::*;

verus! {

/// The most attempts for which every wait fits in 64 bits.
pub const MAX_RETRIES: u32 = 65;

/// What follows a failed attempt.
#[derive(Debug)]
pub enum RetryStep {
    /// Wait so many seconds, then try again.
    Wait(u64),
    /// No attempt is left: the call failed with this error.
    GiveUp(String),
}

/// What a [`RetryStep`] stands for.
pub enum RetryStepView {
    Wait(nat),
    GiveUp(Seq<char>),
}

impl View for RetryStep {
    type V = RetryStepView;

    open spec fn view(&self) -> RetryStepView {
        match self {
            RetryStep::Wait(secs) => RetryStepView::Wait(*secs as nat),
            RetryStep::GiveUp(error) => RetryStepView::GiveUp(error@),
        }
    }
}

/// The wait between the attempt with number `attempt`, counted from zero, and the next.
pub open spec fn delay(attempt: nat) -> nat {
    pow2(attempt)
}

/// What follows when the attempt with number `attempt`, counted from zero, has failed.
pub open spec fn after_failure(retries: nat, attempt: nat, error: Seq<char>) -> RetryStepView {
    if attempt + 1 < retries {
        RetryStepView::Wait(delay(attempt))
    } else {
        RetryStepView::GiveUp(error)
    }
}

/// A call that is tried a limited number of times.
#[derive(Debug)]
pub struct Retry {
    retries: u32,
    attempt: u32,
}

impl Retry {
    /// How many attempts there are in all.
    pub closed spec fn retries(self) -> nat {
        self.retries as nat
    }

    /// How many attempts have failed.
    pub closed spec fn failures(self) -> nat {
        self.attempt as nat
    }

    /// No more attempts have failed than there are, and every wait fits in 64 bits.
    pub open spec fn wf(self) -> bool {
        self.failures() <= self.retries() <= MAX_RETRIES
    }

    /// A call that is tried up to `retries` times.
    pub fn new(retries: u32) -> (r: Self)
        requires
            retries <= MAX_RETRIES,
        ensures
            r.wf(),
            r.retries() == retries,
            r.failures() == 0,
    {
        Retry { retries, attempt: 0 }
    }

    /// Tells whether a first attempt is to be made; without any attempt the call fails with
    /// an error of its own.
    pub fn begin(&self) -> (r: Result<(), String>)
        ensures
            r is Ok <==> self.retries() > 0,
            r matches Err(error) ==> error@ == "no attempts"@,
    {
        if self.retries == 0 {
            Err("no attempts".to_owned())
        } else {
            Ok(())
        }
    }

    /// Takes note of a failed attempt and tells what follows.
    pub fn failed(&mut self, error: String) -> (r: RetryStep)
        requires
            old(self).wf(),
            old(self).failures() < old(self).retries(),
        ensures
            final(self).wf(),
            final(self).retries() == old(self).retries(),
            final(self).failures() == old(self).failures() + 1,
            r@ == after_failure(old(self).retries(), old(self).failures(), error@),
    {
        let attempt: u32 = self.attempt;
        self.attempt = attempt + 1;
        if attempt + 1 < self.retries {
            RetryStep::Wait(power_of_two(attempt))
        } else {
            RetryStep::GiveUp(error)
        }
    }
}

/// Two to the power `k`.
fn power_of_two(k: u32) -> (r: u64)
    requires
        k < 64,
    ensures
        r == pow2(k as nat),
{
    let mut r: u64 = 1;
    let mut i: u32 = 0;
    proof {
        vstd::arithmetic::power2::lemma2_to64();
    }
    while i < k
        invariant
            i <= k < 64,
            r == pow2(i as nat),
            pow2(64) == 0x1_0000_0000_0000_0000,
        decreases k - i,
    {
        proof {
            lemma_pow2_unfold((i + 1) as nat);
            lemma_pow2_strictly_increases((i + 1) as nat, 64);
        }
        r = r * 2;
        i += 1;
    }
    r
}

/// The seconds waited in all before the attempt with number `attempt`, counted from zero.
pub open spec fn waited(attempt: nat) -> nat
    decreases attempt,
{
    if attempt == 0 {
        0
    } else {
        waited((attempt - 1) as nat) + delay((attempt - 1) as nat)
    }
}

/// The waits double from one second on: before attempt number `n`, counted from zero, they
/// add up to one second less than the next wait.
pub proof fn law_waits_double(n: nat)
    ensures
        delay(0) == 1,
        delay(n + 1) == 2 * delay(n),
        waited(n) + 1 == delay(n),
    decreases n,
{
    vstd::arithmetic::power2::lemma2_to64();
    lemma_pow2_unfold(n + 1);
    if n > 0 {
        law_waits_double((n - 1) as nat);
    }
}

/// A call that keeps failing is tried exactly as often as allowed: every failure but the
/// last is followed by a wait, and the last gives its own error back.
pub proof fn law_last_error_is_returned(retries: nat, attempt: nat, error: Seq<char>)
    requires
        attempt < retries,
    ensures
        after_failure(retries, attempt, error) == RetryStepView::GiveUp(error) <==> attempt + 1
            == retries,
        after_failure(retries, attempt, error) is Wait <==> attempt + 1 < retries,
{
}

/// What comes of a call that is tried again and again: its result, how often it was made, and
/// the waits in between, in order.
pub struct Trials<T> {
    pub result: Result<T, Seq<char>>,
    pub calls: nat,
    pub waits: Seq<nat>,
}

/// What comes of a call from the attempt with number `attempt` on, where `outcomes` holds what
/// each attempt gives.
pub open spec fn trials_from<T>(
    retries: nat,
    attempt: nat,
    outcomes: Seq<Result<T, Seq<char>>>,
) -> Trials<T>
    decreases retries - attempt,
{
    if attempt >= retries {
        Trials { result: Err("no attempts"@), calls: 0, waits: Seq::empty() }
    } else {
        match outcomes[attempt as int] {
            Ok(v) => Trials { result: Ok(v), calls: 1, waits: Seq::empty() },
            Err(e) => match after_failure(retries, attempt, e) {
                RetryStepView::GiveUp(error) => Trials {
                    result: Err(error),
                    calls: 1,
                    waits: Seq::empty(),
                },
                RetryStepView::Wait(secs) => {
                    let rest = trials_from(retries, attempt + 1, outcomes);
                    Trials {
                        result: rest.result,
                        calls: rest.calls + 1,
                        waits: seq![secs] + rest.waits,
                    }
                },
            },
        }
    }
}

/// What comes of a call that is tried up to `retries` times, where `outcomes` holds what each
/// attempt gives.
pub open spec fn trials<T>(retries: nat, outcomes: Seq<Result<T, Seq<char>>>) -> Trials<T> {
    trials_from(retries, 0, outcomes)
}

/// The first `n` waits.
pub open spec fn first_waits(n: nat) -> Seq<nat> {
    Seq::new(n, |i: int| delay(i as nat))
}

/// A call stops at its first success: it gives that back, is not made again, and has waited
/// once, each time twice as long, after every failure before.
pub proof fn law_retry_returns_first_success<T>(
    retries: nat,
    outcomes: Seq<Result<T, Seq<char>>>,
    success: nat,
)
    requires
        success < retries == outcomes.len(),
        outcomes[success as int] is Ok,
        forall|i: int| 0 <= i < success ==> (#[trigger] outcomes[i]) is Err,
    ensures
        trials(retries, outcomes).result == outcomes[success as int],
        trials(retries, outcomes).calls == success + 1,
        trials(retries, outcomes).waits == first_waits(success),
{
    lemma_trials(retries, 0, outcomes, success);
    assert(trials(retries, outcomes).waits =~= first_waits(success));
}

/// A call that keeps failing is made exactly as often as allowed, with a wait, each time
/// twice as long, between two attempts, and gives the last error back; without any attempt
/// it fails with an error of its own.
pub proof fn law_retry_returns_last_error<T>(retries: nat, outcomes: Seq<Result<T, Seq<char>>>)
    requires
        outcomes.len() == retries,
        forall|i: int| 0 <= i < retries ==> (#[trigger] outcomes[i]) is Err,
    ensures
        trials(retries, outcomes).calls == retries,
        retries > 0 ==> {
            &&& trials(retries, outcomes).result == outcomes.last()
            &&& trials(retries, outcomes).waits == first_waits((retries - 1) as nat)
        },
        retries == 0 ==> {
            &&& trials(retries, outcomes).result == Err::<T, Seq<char>>("no attempts"@)
            &&& trials(retries, outcomes).waits == Seq::<nat>::empty()
        },
{
    if retries > 0 {
        let last = (retries - 1) as nat;
        lemma_trials(retries, 0, outcomes, last);
        assert(trials(retries, outcomes).waits =~= first_waits(last));
    }
}

/// The attempts from `attempt` to `end`, which is the first success or the last attempt.
proof fn lemma_trials<T>(
    retries: nat,
    attempt: nat,
    outcomes: Seq<Result<T, Seq<char>>>,
    end: nat,
)
    requires
        attempt <= end < retries == outcomes.len(),
        outcomes[end as int] is Ok || end + 1 == retries,
        forall|i: int| 0 <= i < end ==> (#[trigger] outcomes[i]) is Err,
    ensures
        ({
            let t = trials_from(retries, attempt, outcomes);
            &&& t.result == outcomes[end as int]
            &&& t.calls == end - attempt + 1
            &&& t.waits == Seq::new(
                (end - attempt) as nat,
                |i: int| delay((attempt + i) as nat),
            )
        }),
    decreases end - attempt,
{
    let t = trials_from(retries, attempt, outcomes);
    let waits = Seq::new((end - attempt) as nat, |i: int| delay((attempt + i) as nat));
    if attempt < end {
        lemma_trials(retries, attempt + 1, outcomes, end);
        assert(outcomes[attempt as int] is Err);
    }
    assert(t.waits =~= waits);
}

} // verus!
