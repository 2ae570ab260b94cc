//! When a failed search is tried again, and how long to wait before that.

use vstd::prelude::*;

verus! {

/// The wait after the first failure, in milliseconds.
pub const BASE_DELAY_MS: u64 = 1000;

/// The longest wait between two attempts, in milliseconds.
pub const MAX_DELAY_MS: u64 = 5000;

/// How long one attempt of the search may take, in milliseconds.
pub const SEARCH_TIMEOUT_MS: u64 = 10_000;

/// How long one lookup of captions may take, in milliseconds.
pub const LOOKUP_TIMEOUT_MS: u64 = 5_000;

/// Two to the power `n`.
pub open spec fn pow2(n: nat) -> nat
    decreases n,
{
    if n == 0 {
        1
    } else {
        2 * pow2((n - 1) as nat)
    }
}

/// The wait after the failure of attempt number `attempt`, counted from
/// one: the base delay doubled for each earlier failure, but never more
/// than the longest wait.
pub open spec fn spec_backoff_delay(attempt: nat) -> nat {
    if BASE_DELAY_MS * pow2((attempt - 1) as nat) <= MAX_DELAY_MS {
        (BASE_DELAY_MS * pow2((attempt - 1) as nat)) as nat
    } else {
        MAX_DELAY_MS as nat
    }
}

proof fn lemma_pow2_grows(n: nat, m: nat)
    requires
        n <= m,
    ensures
        pow2(n) <= pow2(m),
        pow2(n) >= 1,
    decreases m,
{
    if n < m {
        lemma_pow2_grows(n, (m - 1) as nat);
    } else if n > 0 {
        lemma_pow2_grows((n - 1) as nat, (n - 1) as nat);
    }
}

/// The wait in milliseconds after the failure of attempt number `attempt`,
/// counted from one.
pub fn backoff_delay_ms(attempt: u32) -> (r: u64)
    requires
        attempt >= 1,
    ensures
        r == spec_backoff_delay(attempt as nat),
        BASE_DELAY_MS <= r <= MAX_DELAY_MS,
{
    proof {
        reveal_with_fuel(pow2, 4);
        if attempt >= 4 {
            lemma_pow2_grows(3, (attempt - 1) as nat);
        }
    }
    if attempt == 1 {
        1000
    } else if attempt == 2 {
        2000
    } else if attempt == 3 {
        4000
    } else {
        MAX_DELAY_MS
    }
}

/// What to do next in a run of attempts.
#[derive(Debug, Clone, Copy, PartialEq, Eq, Structural)]
pub enum RetryAction {
    /// Wait for `wait_ms` milliseconds, then make an attempt.
    Attempt { wait_ms: u64 },
    /// Make no further attempt and report the last failure.
    GiveUp,
}

/// What to do after `failures` attempts have failed and none has
/// succeeded, when at most `max_attempts` are made: the first attempt
/// starts at once, each later one after the wait that follows the failure
/// before it, and after `max_attempts` failures the run is over.
pub open spec fn spec_next_action(failures: nat, max_attempts: nat) -> RetryAction {
    if failures >= max_attempts {
        RetryAction::GiveUp
    } else if failures == 0 {
        RetryAction::Attempt { wait_ms: 0 }
    } else {
        RetryAction::Attempt { wait_ms: spec_backoff_delay(failures) as u64 }
    }
}

/// What to do after `failures` attempts have failed and none has succeeded.
pub fn next_action(failures: u32, max_attempts: u32) -> (r: RetryAction)
    ensures
        r == spec_next_action(failures as nat, max_attempts as nat),
{
    if failures >= max_attempts {
        RetryAction::GiveUp
    } else if failures == 0 {
        RetryAction::Attempt { wait_ms: 0 }
    } else {
        RetryAction::Attempt { wait_ms: backoff_delay_ms(failures) }
    }
}

/// The time spent waiting in a run in which the first `failures` attempts
/// all fail, in milliseconds.
pub open spec fn total_wait(failures: nat, max_attempts: nat) -> nat
    decreases failures,
{
    if failures == 0 {
        0
    } else {
        let before = total_wait((failures - 1) as nat, max_attempts);
        match spec_next_action((failures - 1) as nat, max_attempts) {
            RetryAction::Attempt { wait_ms } => before + wait_ms as nat,
            RetryAction::GiveUp => before,
        }
    }
}

/// A run is over after `max_attempts` failures and not before, no wait is
/// longer than the longest wait, and a run of `failures` failures has
/// waited at most that long after each failure but the last.
pub proof fn lemma_retry_is_bounded(failures: nat, max_attempts: nat)
    ensures
        spec_next_action(failures, max_attempts) is GiveUp <==> failures >= max_attempts,
        spec_next_action(failures, max_attempts) matches RetryAction::Attempt { wait_ms }
            ==> wait_ms <= MAX_DELAY_MS,
        total_wait(failures, max_attempts) <= MAX_DELAY_MS * failures,
    decreases failures,
{
    if failures > 0 {
        lemma_retry_is_bounded((failures - 1) as nat, max_attempts);
    }
}

/// The longest that a run of `attempts` failing attempts can take when
/// each attempt takes at most `timeout_ms`: the attempts and the waits
/// between them, in milliseconds.
pub open spec fn worst_case_ms(attempts: nat, timeout_ms: nat) -> nat {
    attempts * timeout_ms + total_wait(attempts, attempts)
}

/// Three attempts that all fail wait 1000 and then 2000 milliseconds, so a
/// search of three attempts is over after 33 seconds at the latest.
pub proof fn lemma_three_attempts_wait_three_seconds()
    ensures
        total_wait(3, 3) == 3000,
        spec_next_action(3, 3) is GiveUp,
        worst_case_ms(3, SEARCH_TIMEOUT_MS as nat) == 33_000,
{
    reveal_with_fuel(total_wait, 4);
    reveal_with_fuel(pow2, 4);
}

} // verus!
