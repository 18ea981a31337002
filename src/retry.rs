//! The retry policy of the fetch client: how many attempts a fetch gets and
//! how long to wait between them.
use vstd::prelude::*;

verus! {

/// Attempts a retrying fetch gets before it gives up.
pub const MAX_ATTEMPTS: u32 = 5;

/// The wait after the first failed attempt, in milliseconds; it doubles
/// after each further failure.
pub const INITIAL_RETRY_DELAY_MS: u64 = 50;

/// `2` to the power `k`.
pub open spec fn pow2(k: nat) -> nat
    decreases k,
{
    if k == 0 {
        1
    } else {
        2 * pow2((k - 1) as nat)
    }
}

/// Retry configuration of the fetch client.
#[derive(Clone, Copy, Debug)]
pub struct RetryPolicy {
    /// The attempt ceiling: no attempt beyond this many is made.
    pub max_attempts: u32,
    /// The wait after the first failure, in milliseconds.
    pub initial_delay_ms: u64,
}

/// Why a fetch failed.
#[derive(Debug)]
pub enum FetchError {
    /// The node could not be reached or answered with malformed data; the
    /// fetch was not retried.
    Remote { cause: String },
    /// Every attempt of a retrying fetch failed; `cause` is the last failure.
    Exhausted { attempts: u32, cause: String },
}

/// What to do after a failed attempt.
#[derive(Debug)]
pub enum RetryDecision {
    /// Wait this long, then attempt again.
    Retry { delay_ms: u64 },
    /// Make no further attempt and fail with this error.
    Fail { error: FetchError },
}

impl RetryPolicy {
    /// The ceiling is at least one attempt, and the longest wait fits in a `u64`.
    pub open spec fn wf(&self) -> bool {
        &&& 1 <= self.max_attempts <= 33
        &&& self.initial_delay_ms <= 1_000_000_000
    }

    /// The wait after the `k`-th failure (counted from 1).
    pub open spec fn delay_after(&self, k: nat) -> int {
        self.initial_delay_ms * pow2((k - 1) as nat)
    }

    /// The decision after the `failed`-th failed attempt (counted from 1):
    /// a retrying fetch waits and tries again while the ceiling is not
    /// reached; otherwise the fetch fails, with `Exhausted` when it was
    /// retrying and with the remote error itself when it was not.
    pub open spec fn decision(&self, retrying: bool, failed: nat, cause: String) -> RetryDecision {
        if retrying && failed < self.max_attempts {
            RetryDecision::Retry { delay_ms: self.delay_after(failed) as u64 }
        } else if retrying {
            RetryDecision::Fail { error: FetchError::Exhausted { attempts: failed as u32, cause } }
        } else {
            RetryDecision::Fail { error: FetchError::Remote { cause } }
        }
    }

    /// The sum of the waits after the first `n` failures.
    pub open spec fn total_wait(&self, n: nat) -> int
        decreases n,
    {
        if n == 0 {
            0
        } else {
            self.total_wait((n - 1) as nat) + self.delay_after(n)
        }
    }

    /// Five attempts; 50 ms after the first failure, doubling each time.
    pub fn new_default() -> (r: RetryPolicy)
        ensures
            r.wf(),
            r.max_attempts == MAX_ATTEMPTS,
            r.initial_delay_ms == INITIAL_RETRY_DELAY_MS,
    {
        RetryPolicy { max_attempts: MAX_ATTEMPTS, initial_delay_ms: INITIAL_RETRY_DELAY_MS }
    }

    /// Decides what follows the `failed`-th failed attempt of a fetch.
    pub fn after_failure(&self, retrying: bool, failed: u32, cause: String) -> (r: RetryDecision)
        requires
            self.wf(),
            1 <= failed <= self.max_attempts,
        ensures
            r == self.decision(retrying, failed as nat, cause),
    {
        if retrying && failed < self.max_attempts {
            let mut delay: u64 = self.initial_delay_ms;
            let mut k: u32 = 1;
            while k < failed
                invariant
                    self.wf(),
                    1 <= k <= failed <= self.max_attempts,
                    delay == self.initial_delay_ms * pow2((k - 1) as nat),
                decreases failed - k,
            {
                proof {
                    lemma_pow2_bound((k - 1) as nat, 31);
                    let p = pow2((k - 1) as nat);
                    let d = self.initial_delay_ms as int;
                    assert(d * p <= 1_000_000_000 * pow2(31)) by (nonlinear_arith)
                        requires
                            0 <= d <= 1_000_000_000,
                            0 <= p <= pow2(31),
                    ;
                    lemma_pow2_31();
                    assert(d * (2 * p) == 2 * (d * p)) by (nonlinear_arith);
                }
                delay = delay * 2;
                k = k + 1;
            }
            RetryDecision::Retry { delay_ms: delay }
        } else if retrying {
            RetryDecision::Fail { error: FetchError::Exhausted { attempts: failed, cause } }
        } else {
            RetryDecision::Fail { error: FetchError::Remote { cause } }
        }
    }
}

proof fn lemma_pow2_31()
    ensures
        pow2(31) == 0x8000_0000,
{
    reveal_with_fuel(pow2, 32);
}

proof fn lemma_pow2_bound(a: nat, b: nat)
    requires
        a <= b,
    ensures
        pow2(a) <= pow2(b),
    decreases b,
{
    if a < b {
        lemma_pow2_bound(a, (b - 1) as nat);
    }
}

/// The waits before the first `n` retries add up to `initial · (2^n − 1)`.
pub proof fn lemma_total_wait(p: RetryPolicy, n: nat)
    ensures
        p.total_wait(n) == p.initial_delay_ms * (pow2(n) - 1),
    decreases n,
{
    if n > 0 {
        lemma_total_wait(p, (n - 1) as nat);
        let d = p.initial_delay_ms as int;
        let q = pow2((n - 1) as nat) as int;
        assert(pow2(n) == 2 * q);
        assert(p.total_wait(n) == p.total_wait((n - 1) as nat) + d * q);
        assert(d * (q - 1) + d * q == d * (2 * q - 1)) by (nonlinear_arith);
        assert(d * (pow2(n) - 1) == d * (2 * q - 1));
    } else {
        assert(pow2(0) == 1);
        assert(p.initial_delay_ms * (pow2(n) - 1) == 0) by (nonlinear_arith)
            requires
                pow2(n) == 1,
        ;
    }
}

/// Under the default policy, a retrying fetch whose first `n < 5` attempts
/// fail is retried after each of them, having waited `50 · (2^n − 1)` ms in
/// all before the attempt that succeeds; after five failures it fails with
/// `Exhausted` and makes no sixth attempt.
pub proof fn lemma_default_retry_schedule(n: nat, cause: String)
    requires
        n < 5,
    ensures
        forall|k: nat|
            1 <= k <= n ==> (#[trigger] default_policy().decision(true, k, cause)) is Retry,
        default_policy().total_wait(n) == 50 * (pow2(n) - 1),
        default_policy().decision(true, 5, cause) == (RetryDecision::Fail {
            error: FetchError::Exhausted { attempts: 5, cause },
        }),
{
    lemma_total_wait(default_policy(), n);
}

/// The policy that [`RetryPolicy::new_default`] returns.
pub open spec fn default_policy() -> RetryPolicy {
    RetryPolicy { max_attempts: MAX_ATTEMPTS, initial_delay_ms: INITIAL_RETRY_DELAY_MS }
}

} // verus!
