//! Exponential backoff for a sender whose transport refuses.
//!
//! After the first refusal the sender waits before each further attempt: two to the
//! power of the number of refusals so far in seconds, plus a random part below a
//! second, and never longer than a maximum. All times are in milliseconds.

use rand::thread_rng;
use rand::Rng;
use vstd::arithmetic::power2::lemma_pow2_strictly_increases;
use vstd::arithmetic::power2::lemma_pow2_unfold;
use vstd::arithmetic::power2::pow2;
use vstd::prelude::*;

verus! {

/// `Rng::gen_range` on the thread's generator, from 1 to 1000: a number of
/// milliseconds from 1 to 999.
#[verifier::external_body]
fn random_delay() -> (ms: u64)
    ensures
        1 <= ms < 1000,
{
    thread_rng().gen_range(1, 1000)
}

/// The wait after `attempt` refusals: two to the power of `attempt` in seconds plus
/// the random part, capped at the maximum.
pub open spec fn delay(attempt: nat, jitter: nat, max_timeout: nat) -> nat {
    if pow2(attempt) * 1000 + jitter < max_timeout {
        pow2(attempt) * 1000 + jitter
    } else {
        max_timeout
    }
}

/// The backoff as a plain value.
pub struct BackoffView {
    /// The number of refusals since the last success, at most 255.
    pub attempt: u8,
    pub max_timeout: u64,
    /// Whether the wait has reached the maximum.
    pub use_max: bool,
    /// The wait before the next attempt.
    pub timeout: Option<u64>,
}

impl BackoffView {
    pub open spec fn initial(max_timeout: u64) -> BackoffView {
        BackoffView { attempt: 0, max_timeout, use_max: false, timeout: None }
    }

    pub open spec fn reset(self) -> BackoffView {
        BackoffView { attempt: 0, use_max: false, timeout: None, ..self }
    }

    /// The wait is computed anew unless it has reached the maximum.
    pub open spec fn calculate_wait(self, jitter: u64) -> BackoffView {
        if self.use_max {
            self
        } else {
            let wait = delay(self.attempt as nat, jitter as nat, self.max_timeout as nat);
            BackoffView { use_max: wait == self.max_timeout, timeout: Some(wait as u64), ..self }
        }
    }

    /// A refusal: the wait is computed and the refusal counted. The count stops at 255.
    pub open spec fn fail(self, jitter: u64) -> BackoffView {
        BackoffView {
            attempt: if self.attempt < 255 {
                (self.attempt + 1) as u8
            } else {
                255
            },
            ..self.calculate_wait(jitter)
        }
    }
}

/// The wait before each attempt of a sender whose transport refuses.
pub struct ExponentialBackoff {
    attempt: u8,
    max_timeout: u64,
    use_max: bool,
    timeout: Option<u64>,
}

impl View for ExponentialBackoff {
    type V = BackoffView;

    closed spec fn view(&self) -> BackoffView {
        BackoffView {
            attempt: self.attempt,
            max_timeout: self.max_timeout,
            use_max: self.use_max,
            timeout: self.timeout,
        }
    }
}

/// The wait after `attempt` refusals.
fn wait_after(attempt: u8, jitter: u64, max_timeout: u64) -> (r: u64)
    ensures
        r == delay(attempt as nat, jitter as nat, max_timeout as nat),
{
    let mut seconds: u64 = 1;
    let mut i: u8 = 0;
    proof {
        vstd::arithmetic::power2::lemma2_to64();
    }
    while i < attempt
        invariant
            i <= attempt,
            seconds == pow2(i as nat),
        decreases attempt - i,
    {
        if seconds > max_timeout / 2 {
            proof {
                lemma_pow2_unfold((i + 1) as nat);
                if i + 1 < attempt {
                    lemma_pow2_strictly_increases((i + 1) as nat, attempt as nat);
                }
                assert(pow2(attempt as nat) * 1000 >= pow2(attempt as nat)) by (nonlinear_arith)
                    requires
                        pow2(attempt as nat) > 0,
                ;
            }
            return max_timeout;
        }
        proof {
            lemma_pow2_unfold((i + 1) as nat);
        }
        seconds = seconds * 2;
        i = i + 1;
    }
    match seconds.checked_mul(1000) {
        Some(millis) => match millis.checked_add(jitter) {
            Some(wait) => if wait < max_timeout {
                wait
            } else {
                max_timeout
            },
            None => max_timeout,
        },
        None => max_timeout,
    }
}

impl ExponentialBackoff {
    /// A backoff that never waits longer than `max_timeout` milliseconds.
    pub fn new(max_timeout: u64) -> (r: ExponentialBackoff)
        ensures
            r@ == BackoffView::initial(max_timeout),
    {
        ExponentialBackoff { attempt: 0, max_timeout, use_max: false, timeout: None }
    }

    /// The milliseconds to wait before the next attempt, if any.
    pub fn timeout(&self) -> (r: Option<u64>)
        ensures
            r == self@.timeout,
    {
        self.timeout
    }

    /// Starts over, as after a success.
    pub fn reset(&mut self)
        ensures
            final(self)@ == old(self)@.reset(),
    {
        self.use_max = false;
        self.attempt = 0;
        self.timeout = None;
    }

    /// Computes the wait before the next attempt from the number of refusals and the
    /// given random part. Once the wait has reached the maximum it stays there.
    pub fn calculate_wait(&mut self, jitter: u64)
        ensures
            final(self)@ == old(self)@.calculate_wait(jitter),
    {
        if self.use_max {
            return ;
        }
        let wait: u64 = wait_after(self.attempt, jitter, self.max_timeout);
        if wait == self.max_timeout {
            self.use_max = true;
        }
        self.timeout = Some(wait);
    }

    /// Takes note of a refusal whose random part is `jitter` milliseconds, and says
    /// whether it is the first since the last success.
    pub fn failed_with(&mut self, jitter: u64) -> (disconnected: bool)
        ensures
            disconnected == (old(self)@.attempt == 0),
            final(self)@ == old(self)@.fail(jitter),
    {
        let disconnected: bool = self.attempt == 0;
        self.calculate_wait(jitter);
        self.attempt = self.attempt.saturating_add(1);
        disconnected
    }

    /// Takes note of a refusal, with a random part of 1 to 999 milliseconds, and says
    /// whether it is the first since the last success.
    pub fn failed(&mut self) -> (disconnected: bool)
        ensures
            disconnected == (old(self)@.attempt == 0),
            exists|jitter: u64| 1 <= jitter < 1000 && final(self)@ == old(self)@.fail(jitter),
    {
        let jitter: u64 = random_delay();
        self.failed_with(jitter)
    }
}

} // verus!
