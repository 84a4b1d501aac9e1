//! Pacing and sampling of retries.
//!
//! Both policies are functions of the number of an attempt: the count of the
//! tries of the same acquisition that failed before it. The try that fails
//! first is attempt `0`, and the count only ever grows.

use vstd::prelude::*;

verus! {

/// Pause of the first stage, in microseconds.
pub const SAMPLING_RATE_STAGE1_MICROS: u64 = 100;

/// Pause of the second stage, in microseconds.
pub const SAMPLING_RATE_STAGE2_MICROS: u64 = 10_000;

/// Pause of the third stage, in microseconds.
pub const SAMPLING_RATE_STAGE3_MICROS: u64 = 100_000;

/// Attempts below this count are paced by the first stage.
pub const STAGE2_FROM: u64 = 100;

/// Attempts from this count on are paced by the third stage, and each of them
/// is reported.
pub const STAGE3_FROM: u64 = 500;

/// First attempt of the early burst of reports.
pub const BURST_FROM: u64 = 20;

/// First attempt after the early burst of reports.
pub const BURST_UNTIL: u64 = 25;

/// The pause, in microseconds, that follows failed attempt `attempt`.
pub open spec fn backoff_micros(attempt: nat) -> nat {
    if attempt < 100 {
        100
    } else if attempt < 500 {
        10_000
    } else {
        100_000
    }
}

/// Whether failed attempt `attempt` is reported: the five attempts of the
/// early burst are, and every attempt of a stall that reached the third stage.
pub open spec fn should_inspect(attempt: nat) -> bool {
    20 <= attempt < 25 || attempt >= 500
}

/// The attempt count that follows `attempt` in a counter of 64 bits: the
/// counter stays at its largest value once it got there.
pub open spec fn following_attempt(attempt: nat) -> nat {
    if attempt < u64::MAX {
        attempt + 1
    } else {
        attempt
    }
}

/// Decides whether failed attempt `cnt` is reported.
pub fn inspect_lock(cnt: u64) -> (report: bool)
    ensures
        report == should_inspect(cnt as nat),
{
    (BURST_FROM <= cnt && cnt < BURST_UNTIL) || cnt >= STAGE3_FROM
}

/// Chooses the pause, in microseconds, that follows failed attempt `cnt`.
pub fn backoff_pause(cnt: u64) -> (micros: u64)
    ensures
        micros == backoff_micros(cnt as nat),
{
    if cnt < STAGE2_FROM {
        SAMPLING_RATE_STAGE1_MICROS
    } else if cnt < STAGE3_FROM {
        SAMPLING_RATE_STAGE2_MICROS
    } else {
        SAMPLING_RATE_STAGE3_MICROS
    }
}

/// Counts one more failed attempt.
pub fn next_attempt(cnt: u64) -> (next: u64)
    ensures
        next == following_attempt(cnt as nat),
{
    if cnt < u64::MAX {
        cnt + 1
    } else {
        cnt
    }
}

/// The pause never shrinks while a wait goes on: a later attempt is paced at
/// least as slowly as an earlier one.
pub proof fn backoff_is_monotonic(earlier: nat, later: nat)
    requires
        earlier <= later,
    ensures
        backoff_micros(earlier) <= backoff_micros(later),
{
}

/// A counter that stays at its largest value paces and samples exactly like
/// one that could go on counting: beyond the third stage's first attempt both
/// policies are constant.
pub proof fn saturation_is_invisible(attempt: nat)
    requires
        attempt >= u64::MAX,
    ensures
        backoff_micros(attempt) == backoff_micros(u64::MAX as nat),
        should_inspect(attempt) == should_inspect(u64::MAX as nat),
{
}

} // verus!
