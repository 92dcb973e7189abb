//! The uptime tracker: records the process start time and renders the time
//! elapsed since then as a human-readable line.

use vstd::prelude::*;
use vstd::arithmetic::div_mod::lemma_fundamental_div_mod;
use vstd::arithmetic::div_mod::lemma_mod_division_less_than_divisor;
use vstd::arithmetic::div_mod::lemma_mod_mod;
use vstd::arithmetic::div_mod::lemma_multiply_divide_lt;
use crate::decimal::spec_decimal;
use crate::decimal::u64_to_decimal;

verus! {

/// Whole days in `n` elapsed seconds.
pub open spec fn spec_days(n: int) -> int {
    n / 86400
}

/// Whole hours, past the whole days, in `n` elapsed seconds.
pub open spec fn spec_hours(n: int) -> int {
    (n % 86400) / 3600
}

/// Whole minutes, past the whole hours, in `n` elapsed seconds.
pub open spec fn spec_minutes(n: int) -> int {
    (n % 3600) / 60
}

/// Leftover seconds, past the whole minutes, in `n` elapsed seconds.
pub open spec fn spec_seconds(n: int) -> int {
    n % 60
}

/// The rendered elapsed-time line for `n` elapsed seconds.
pub open spec fn spec_elapsed_string(n: int) -> Seq<char> {
    spec_decimal(spec_days(n)) + " days, "@ + spec_decimal(spec_hours(n)) + " hours, "@
        + spec_decimal(spec_minutes(n)) + " minutes, "@ + spec_decimal(spec_seconds(n))
        + " seconds"@
}

/// The elapsed-time rendering decomposes exactly: the four parts recompose
/// to the given second count, and each part below days lies in its
/// natural range.
pub proof fn lemma_elapsed_decomposition(n: int)
    requires
        n >= 0,
    ensures
        spec_days(n) * 86400 + spec_hours(n) * 3600 + spec_minutes(n) * 60 + spec_seconds(n) == n,
        0 <= spec_days(n),
        0 <= spec_hours(n) < 24,
        0 <= spec_minutes(n) < 60,
        0 <= spec_seconds(n) < 60,
{
    lemma_fundamental_div_mod(n, 86400);
    lemma_mod_division_less_than_divisor(n, 86400);
    let day_rest = n % 86400;
    lemma_fundamental_div_mod(day_rest, 3600);
    lemma_mod_division_less_than_divisor(day_rest, 3600);
    lemma_multiply_divide_lt(day_rest, 3600, 24);
    lemma_mod_mod(n, 3600, 24);
    assert(3600 * 24 == 86400);
    let hour_rest = n % 3600;
    assert(day_rest % 3600 == hour_rest);
    lemma_fundamental_div_mod(hour_rest, 60);
    lemma_mod_division_less_than_divisor(hour_rest, 60);
    lemma_multiply_divide_lt(hour_rest, 60, 60);
    lemma_mod_mod(n, 60, 60);
    assert(hour_rest % 60 == n % 60);
    lemma_mod_division_less_than_divisor(n, 60);
}

/// For a start time and any observation time no earlier than it, the four
/// rendered parts of the elapsed time recompose exactly to the whole seconds
/// between the two, and each part below days lies in its natural range.
pub proof fn lemma_elapsed_between(start: int, now: int)
    requires
        start <= now,
    ensures
        spec_days(spec_elapsed_seconds(start, now)) * 86400 + spec_hours(
            spec_elapsed_seconds(start, now),
        ) * 3600 + spec_minutes(spec_elapsed_seconds(start, now)) * 60 + spec_seconds(
            spec_elapsed_seconds(start, now),
        ) == now - start,
        0 <= spec_hours(spec_elapsed_seconds(start, now)) < 24,
        0 <= spec_minutes(spec_elapsed_seconds(start, now)) < 60,
        0 <= spec_seconds(spec_elapsed_seconds(start, now)) < 60,
{
    lemma_elapsed_decomposition(now - start);
}

/// Renders `secs` elapsed seconds as
/// `"D days, H hours, M minutes, S seconds"`.
pub fn elapsed_string(secs: u64) -> (s: String)
    ensures
        s@ == spec_elapsed_string(secs as int),
{
    let days = secs / 86400;
    let hours = (secs % 86400) / 3600;
    let minutes = (secs % 3600) / 60;
    let seconds = secs % 60;
    let mut s = u64_to_decimal(days);
    s.append(" days, ");
    let part = u64_to_decimal(hours);
    s.append(part.as_str());
    s.append(" hours, ");
    let part = u64_to_decimal(minutes);
    s.append(part.as_str());
    s.append(" minutes, ");
    let part = u64_to_decimal(seconds);
    s.append(part.as_str());
    s.append(" seconds");
    proof {
        assert(s@ =~= spec_elapsed_string(secs as int));
    }
    s
}

/// Seconds elapsed from `start` to `now`, clamped at zero where the wall
/// clock has moved backward.
pub open spec fn spec_elapsed_seconds(start: int, now: int) -> int {
    if now >= start {
        now - start
    } else {
        0
    }
}

/// Relies on `time::OffsetDateTime::now_utc`, read as whole seconds of Unix
/// time via `unix_timestamp`; the result depends on the wall clock, so
/// nothing is promised of it.
#[verifier::external_body]
fn now_unix_seconds() -> i64 {
    time::OffsetDateTime::now_utc().unix_timestamp()
}

/// Records the wall-clock time at which the process started.
pub struct Uptime {
    start_seconds: i64,
}

impl Uptime {
    /// The tracker's epoch, as whole seconds of Unix time.
    pub closed spec fn start(&self) -> int {
        self.start_seconds as int
    }

    /// Captures the current wall-clock time as the tracker's epoch.
    pub fn new() -> Uptime {
        Uptime { start_seconds: now_unix_seconds() }
    }

    /// Builds a tracker whose epoch is already known.
    pub fn from_start_seconds(start: i64) -> (u: Uptime)
        ensures
            u.start() == start as int,
    {
        Uptime { start_seconds: start }
    }

    /// Whole seconds elapsed between the epoch and `now`.
    pub fn elapsed_seconds(&self, now: i64) -> (r: u64)
        ensures
            r as int == spec_elapsed_seconds(self.start(), now as int),
    {
        if now >= self.start_seconds {
            let wide: i128 = now as i128 - self.start_seconds as i128;
            wide as u64
        } else {
            0
        }
    }

    /// Renders the time elapsed since the epoch. The wall clock decides the
    /// second count; whatever it reads, the result is the rendering of some
    /// elapsed second count.
    pub fn to_str(&self) -> (s: String)
        ensures
            exists|e: u64| s@ == spec_elapsed_string(e as int),
    {
        let now = now_unix_seconds();
        let e = self.elapsed_seconds(now);
        let s = elapsed_string(e);
        proof {
            assert(s@ == spec_elapsed_string(e as int));
        }
        s
    }
}

} // verus!
