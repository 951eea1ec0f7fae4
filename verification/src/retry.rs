//! The retry policy for failed transfers: bounded attempts, with a delay
//! that doubles per attempt and saturates at a cap. A transfer error is
//! retried while attempts remain; what still fails is recorded against its
//! entry alone.

use vstd::prelude::*;

verus! {

/// The delay before re-attempting, in milliseconds: the base delay doubled
/// once per prior attempt, never above the cap.
pub open spec fn spec_backoff(base: nat, cap: nat, attempt: nat) -> nat
    decreases attempt,
{
    if attempt == 0 {
        if base >= cap {
            cap
        } else {
            base
        }
    } else {
        let d = spec_backoff(base, cap, (attempt - 1) as nat);
        if 2 * d >= cap {
            cap
        } else {
            2 * d
        }
    }
}

/// How failed transfers are re-attempted.
#[derive(Debug, Clone, Copy)]
pub struct RetryPolicy {
    pub max_attempts: u64,
    pub base_delay_ms: u64,
    pub cap_delay_ms: u64,
}

impl RetryPolicy {
    /// Whether a transfer that has already run `attempts` times may run
    /// again.
    pub fn should_retry(&self, attempts: u64) -> (r: bool)
        ensures
            r == (attempts < self.max_attempts),
    {
        attempts < self.max_attempts
    }

    /// The delay before attempt `attempt + 1`, exactly as `spec_backoff`
    /// states.
    pub fn backoff_delay_ms(&self, attempt: u64) -> (r: u64)
        ensures
            r == spec_backoff(self.base_delay_ms as nat, self.cap_delay_ms as nat, attempt as nat),
        decreases attempt,
    {
        if attempt == 0 {
            if self.base_delay_ms >= self.cap_delay_ms {
                self.cap_delay_ms
            } else {
                self.base_delay_ms
            }
        } else {
            let d = self.backoff_delay_ms(attempt - 1);
            proof {
                lemma_backoff_at_most_cap(
                    self.base_delay_ms as nat,
                    self.cap_delay_ms as nat,
                    (attempt - 1) as nat,
                );
            }
            if d >= self.cap_delay_ms - d {
                self.cap_delay_ms
            } else {
                2 * d
            }
        }
    }
}

/// The backoff delay never runs past the cap.
pub proof fn lemma_backoff_at_most_cap(base: nat, cap: nat, attempt: nat)
    ensures
        spec_backoff(base, cap, attempt) <= cap,
    decreases attempt,
{
    if attempt > 0 {
        lemma_backoff_at_most_cap(base, cap, (attempt - 1) as nat);
    }
}

} // verus!
