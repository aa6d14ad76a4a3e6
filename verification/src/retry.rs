use vstd::prelude::*;
use vstd::arithmetic::power2::{pow2, lemma_pow2_unfold, lemma2_to64};
use crate::server::Server;

verus! {

/// The delay that follows a failed attempt: doubled, but never above the cap.
pub open spec fn spec_next_delay(delay: int, max_delay: int) -> int {
    vstd::math::min(2 * delay, max_delay)
}

/// The delay slept after the (k+1)-th failed bind attempt: the first wait is
/// `initial_delay`, and each later wait doubles the previous one up to the cap.
pub open spec fn spec_wait(initial_delay: int, max_delay: int, k: nat) -> int
    decreases k,
{
    if k == 0 {
        initial_delay
    } else {
        spec_next_delay(spec_wait(initial_delay, max_delay, (k - 1) as nat), max_delay)
    }
}

/// Grows a delay by one backoff step: `min(2 * delay, max_delay)`.
pub fn next_delay(delay: u64, max_delay: u64) -> (r: u64)
    ensures
        r as int == spec_next_delay(delay as int, max_delay as int),
{
    if delay >= max_delay {
        max_delay
    } else if delay > u64::MAX / 2 {
        max_delay
    } else {
        let doubled = delay * 2;
        if doubled < max_delay {
            doubled
        } else {
            max_delay
        }
    }
}

/// What to do after a failed bind attempt: wait the given number of seconds and
/// try again, or stop retrying for good.
#[derive(Clone, Copy, PartialEq, Eq, Structural, Debug)]
pub enum RetryDecision {
    RetryAfter(u64),
    GiveUp,
}

/// The transient state of one bind attempt sequence: how many attempts have
/// failed so far and how long the next wait would be. Discarded once binding
/// succeeds or the sequence is abandoned.
pub struct BindRetrier {
    pub max_retries: usize,
    pub max_delay: u64,
    pub attempts_made: usize,
    pub delay: u64,
}

impl BindRetrier {
    /// A fresh sequence for the given configuration: no attempt made yet, the
    /// first wait would be `initial_delay`.
    pub fn new(config: &Server) -> (r: BindRetrier)
        ensures
            r.max_retries == config.max_retries,
            r.max_delay == config.max_delay,
            r.attempts_made == 0,
            r.delay == config.initial_delay,
    {
        BindRetrier {
            max_retries: config.max_retries,
            max_delay: config.max_delay,
            attempts_made: 0,
            delay: config.initial_delay,
        }
    }

    /// Whether another bind attempt is allowed. A configuration with
    /// `max_retries == 0` fails immediately, without attempting to bind.
    pub fn should_attempt(&self) -> (r: bool)
        ensures
            r == (self.attempts_made < self.max_retries),
    {
        self.attempts_made < self.max_retries
    }

    /// Records one failed bind attempt. If it was the final allowed attempt the
    /// decision is to give up; otherwise the caller is told to wait the current
    /// delay, and the stored delay grows by one backoff step.
    pub fn on_failure(&mut self) -> (r: RetryDecision)
        requires
            old(self).attempts_made < old(self).max_retries,
        ensures
            final(self).max_retries == old(self).max_retries,
            final(self).max_delay == old(self).max_delay,
            final(self).attempts_made == old(self).attempts_made + 1,
            final(self).attempts_made == old(self).max_retries ==> r == RetryDecision::GiveUp
                && final(self).delay == old(self).delay,
            final(self).attempts_made < old(self).max_retries ==> r == RetryDecision::RetryAfter(
                old(self).delay,
            ) && final(self).delay as int == spec_next_delay(
                old(self).delay as int,
                old(self).max_delay as int,
            ),
    {
        self.attempts_made = self.attempts_made + 1;
        if self.attempts_made == self.max_retries {
            RetryDecision::GiveUp
        } else {
            let wait = self.delay;
            self.delay = next_delay(self.delay, self.max_delay);
            RetryDecision::RetryAfter(wait)
        }
    }
}

/// Law: backoff is strictly exponential doubling with a hard ceiling. When the
/// cap is at least the initial delay, the wait after the (k+1)-th failed
/// attempt (the delay before attempt k+2) is exactly
/// `min(initial_delay * 2^k, max_delay)`.
pub proof fn lemma_wait_formula(initial_delay: int, max_delay: int, k: nat)
    requires
        0 <= initial_delay <= max_delay,
    ensures
        spec_wait(initial_delay, max_delay, k) == vstd::math::min(
            initial_delay * pow2(k),
            max_delay,
        ),
    decreases k,
{
    if k == 0 {
        lemma2_to64();
    } else {
        lemma_wait_formula(initial_delay, max_delay, (k - 1) as nat);
        lemma_pow2_unfold(k);
        assert(2 * (initial_delay * pow2((k - 1) as nat)) == initial_delay * pow2(k))
            by (nonlinear_arith)
            requires
                pow2(k) == 2 * pow2((k - 1) as nat),
        ;
    }
}

/// Law: from the second wait on, a wait never exceeds the cap, whatever the
/// initial delay was.
pub proof fn lemma_wait_capped(initial_delay: int, max_delay: int, k: nat)
    requires
        k >= 1,
    ensures
        spec_wait(initial_delay, max_delay, k) <= max_delay,
{
}

/// Law: backoff growth is idempotent at the cap. Once a wait equals
/// `max_delay`, every later wait equals `max_delay` as well, so the delay never
/// exceeds the cap on subsequent attempts.
pub proof fn lemma_cap_stable(initial_delay: int, max_delay: int, k: nat, j: nat)
    requires
        0 <= max_delay,
        spec_wait(initial_delay, max_delay, k) == max_delay,
        k <= j,
    ensures
        spec_wait(initial_delay, max_delay, j) == max_delay,
    decreases j - k,
{
    if j > k {
        lemma_cap_stable(initial_delay, max_delay, k, (j - 1) as nat);
    }
}

/// The smallest index `i` in `[from, n)` at which the address is bindable,
/// or `n` when there is none.
pub open spec fn first_bindable_from(b: Seq<bool>, n: int, from: int) -> int
    decreases n - from,
{
    if from < 0 || from >= n {
        n
    } else if b[from] {
        from
    } else {
        first_bindable_from(b, n, from + 1)
    }
}

/// The 1-based number of the first attempt that would succeed, minus one:
/// the smallest index below `n` at which the address is bindable, or `n`.
pub open spec fn first_bindable(b: Seq<bool>, n: int) -> int {
    first_bindable_from(b, n, 0)
}

/// What a whole bind sequence did: whether a listener was obtained, how many
/// attempts were made, and the waits incurred between attempts, in order.
pub struct BindReport {
    pub success: bool,
    pub attempts: usize,
    pub waits: Vec<u64>,
}

/// Runs the retry schedule of `config` against the outcome of each bind
/// attempt (`bindable[i]` tells whether attempt `i + 1` would acquire the
/// listener). This is the complete decision logic of the bind path: the
/// surrounding application drives the same schedule one step at a time through
/// `BindRetrier`, learning each outcome from the real bind call.
///
/// Attempts stop at the first success or after `max_retries` failures; a wait
/// follows every failure except the final one, and wait `k` is the `k`-th
/// backoff delay. If the address is bindable on attempt 1 there is a single
/// attempt and no wait; if it never becomes bindable there are exactly
/// `max_retries` attempts, each failure (and nothing else) producing one
/// retry warning in the application.
pub fn run_bind_attempts(config: &Server, bindable: &Vec<bool>) -> (r: BindReport)
    requires
        bindable@.len() >= config.max_retries,
    ensures
        r.success == (first_bindable(bindable@, config.max_retries as int)
            < config.max_retries as int),
        r.attempts as int == if r.success {
            first_bindable(bindable@, config.max_retries as int) + 1
        } else {
            config.max_retries as int
        },
        r.waits@.len() == if r.attempts == 0 {
            0int
        } else {
            r.attempts as int - 1
        },
        forall|k: int|
            0 <= k < r.waits@.len() ==> r.waits@[k] as int == spec_wait(
                config.initial_delay as int,
                config.max_delay as int,
                k as nat,
            ),
        config.max_retries > 0 && bindable@[0] ==> r.success && r.attempts == 1
            && r.waits@.len() == 0,
        (forall|i: int| 0 <= i < config.max_retries ==> !bindable@[i]) ==> !r.success
            && r.attempts == config.max_retries,
{
    let ghost n = config.max_retries as int;
    let ghost b = bindable@;
    let mut retrier = BindRetrier::new(config);
    let mut waits: Vec<u64> = Vec::new();
    let mut i: usize = 0;
    while i < config.max_retries
        invariant
            i <= config.max_retries,
            i < config.max_retries || config.max_retries == 0,
            bindable@.len() >= config.max_retries,
            b == bindable@,
            n == config.max_retries as int,
            retrier.attempts_made == i,
            retrier.max_retries == config.max_retries,
            retrier.max_delay == config.max_delay,
            retrier.delay as int == spec_wait(
                config.initial_delay as int,
                config.max_delay as int,
                i as nat,
            ),
            waits@.len() == i as int,
            forall|k: int|
                0 <= k < i ==> waits@[k] as int == spec_wait(
                    config.initial_delay as int,
                    config.max_delay as int,
                    k as nat,
                ),
            first_bindable(b, n) == first_bindable_from(b, n, i as int),
        decreases config.max_retries - i,
    {
        if bindable[i] {
            proof {
                assert(first_bindable_from(b, n, i as int) == i as int);
            }
            return BindReport { success: true, attempts: i + 1, waits };
        }
        proof {
            assert(first_bindable_from(b, n, i as int) == first_bindable_from(b, n, i as int + 1));
        }
        match retrier.on_failure() {
            RetryDecision::GiveUp => {
                proof {
                    assert(first_bindable_from(b, n, i as int + 1) == n);
                }
                return BindReport { success: false, attempts: config.max_retries, waits };
            },
            RetryDecision::RetryAfter(wait) => {
                waits.push(wait);
                proof {
                    assert(spec_wait(
                        config.initial_delay as int,
                        config.max_delay as int,
                        (i + 1) as nat,
                    ) == spec_next_delay(
                        spec_wait(config.initial_delay as int, config.max_delay as int, i as nat),
                        config.max_delay as int,
                    ));
                }
            },
        }
        i = i + 1;
    }
    BindReport { success: false, attempts: config.max_retries, waits }
}

} // verus!
