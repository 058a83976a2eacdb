//! Measuring elapsed time and rendering it.

use crate::text::{decimal_digits, decimal_string, right_justified, right_justify};
use core::time::Duration;
use std::time::Instant;
use vstd::prelude::*;
use vstd::string::*;

verus! {

/// The whole seconds that a `Duration` holds.
pub uninterp spec fn duration_secs(duration: Duration) -> u64;

/// The part of a `Duration` below one second, in nanoseconds.
pub uninterp spec fn duration_subsec_nanos(duration: Duration) -> u32;

/// `Duration::as_secs` of the standard library returns the number of whole
/// seconds in the duration.
pub assume_specification[ Duration::as_secs ](duration: &Duration) -> (secs: u64)
    ensures
        secs == duration_secs(*duration),
;

/// `Duration::subsec_nanos` of the standard library returns the fractional
/// part of the duration in nanoseconds, which is always below one second.
pub assume_specification[ Duration::subsec_nanos ](duration: &Duration) -> (nanos: u32)
    ensures
        nanos == duration_subsec_nanos(*duration),
        nanos < 1_000_000_000,
;

/// A point in time on the clock that only moves forward.
#[verifier::external_type_specification]
#[verifier::external_body]
pub struct ExInstant(Instant);

/// `Instant::now` of the standard library reads the clock. Nothing is
/// known of what it reads.
pub assume_specification[ Instant::now ]() -> (now: Instant);

/// `Instant::elapsed` of the standard library says how much time has
/// passed since the instant. Nothing is known of how much that is.
pub assume_specification[ Instant::elapsed ](start: &Instant) -> (elapsed: Duration);

/// Runs `func` and says how long it took. What `func` returns is handed on
/// as it is.
pub fn measure_time_normal<F, R>(func: F) -> (timed: (R, Duration)) where F: FnOnce() -> R
    requires
        func.requires(()),
    ensures
        func.ensures((), timed.0),
{
    let start = Instant::now();
    let result = func();
    let duration = start.elapsed();
    (result, duration)
}

/// Runs `func` once and says how long it took, whether it succeeded or
/// not.
pub fn measure_time_normal_bench<F, R, E>(func: F) -> (duration: Duration) where
    F: Fn() -> Result<R, E>,

    requires
        func.requires(()),
    ensures
        exists|outcome: Result<R, E>| func.ensures((), outcome),
{
    let start = Instant::now();
    let outcome = func();
    let duration = start.elapsed();
    assert(func.ensures((), outcome));
    duration
}

/// A number right-justified in `width` characters, followed by its unit.
pub open spec fn unit_field(value: nat, width: nat, unit: Seq<char>) -> Seq<char> {
    right_justified(decimal_digits(value), width) + unit
}

/// The rendering of an elapsed time of `secs` whole seconds and `nanos`
/// nanoseconds.
///
/// Exactly one tier is chosen, the coarsest whose leading unit is not zero:
/// days, hours, minutes, seconds, milliseconds, microseconds, nanoseconds.
/// The tier shows its leading unit and the next finer one; the last tier
/// shows nanoseconds alone. `nanos` is meant to be below one second; a
/// larger count is not carried over into the seconds.
pub open spec fn elapsed_text(secs: nat, nanos: nat) -> Seq<char> {
    let days = secs / 86_400;
    let hours = (secs / 3_600) % 24;
    let minutes = (secs / 60) % 60;
    let seconds = secs % 60;
    let milliseconds = nanos / 1_000_000;
    let microseconds = (nanos / 1_000) % 1_000;
    let nanoseconds = nanos % 1_000;
    if days > 0 {
        unit_field(days, 2, "d "@) + unit_field(hours, 2, "h"@)
    } else if hours > 0 {
        unit_field(hours, 2, "h "@) + unit_field(minutes, 2, "m"@)
    } else if minutes > 0 {
        unit_field(minutes, 3, " m  "@) + unit_field(seconds, 3, " s "@)
    } else if seconds > 0 {
        unit_field(seconds, 3, " s  "@) + unit_field(milliseconds, 3, " ms"@)
    } else if milliseconds > 0 {
        unit_field(milliseconds, 3, " ms "@) + unit_field(microseconds, 3, " \u{3bc}s"@)
    } else if microseconds > 0 {
        unit_field(microseconds, 3, " \u{3bc}s "@) + unit_field(nanoseconds, 3, " ns"@)
    } else {
        unit_field(nanoseconds, 3, " ns"@)
    }
}

/// Of a time of a minute or more nothing below the second is shown: the
/// rendering is the same whatever the nanoseconds are.
pub proof fn lemma_minutes_hide_nanos(secs: nat, nanos: nat, other_nanos: nat)
    requires
        secs >= 60,
    ensures
        elapsed_text(secs, nanos) == elapsed_text(secs, other_nanos),
{
}

/// A time is shown in the tier of its coarsest unit only: from a day on in
/// days and hours, from an hour on in hours and minutes, from a minute on
/// in minutes and seconds, and from a second on in seconds and
/// milliseconds.
pub proof fn lemma_tier_of_seconds(secs: nat, nanos: nat)
    requires
        secs >= 1,
    ensures
        secs >= 86_400 ==> elapsed_text(secs, nanos) == unit_field(secs / 86_400, 2, "d "@)
            + unit_field((secs / 3_600) % 24, 2, "h"@),
        3_600 <= secs < 86_400 ==> elapsed_text(secs, nanos) == unit_field(
            secs / 3_600,
            2,
            "h "@,
        ) + unit_field((secs / 60) % 60, 2, "m"@),
        60 <= secs < 3_600 ==> elapsed_text(secs, nanos) == unit_field(secs / 60, 3, " m  "@)
            + unit_field(secs % 60, 3, " s "@),
        secs < 60 ==> elapsed_text(secs, nanos) == unit_field(secs, 3, " s  "@) + unit_field(
            nanos / 1_000_000,
            3,
            " ms"@,
        ),
{
}

fn push_unit_field(out: &mut String, value: u64, width: usize, unit: &str)
    ensures
        final(out)@ == old(out)@ + unit_field(value as nat, width as nat, unit@),
{
    let digits = decimal_string(value as u128);
    let cell = right_justify(digits.as_str(), width);
    out.append(cell.as_str());
    out.append(unit);
}

/// Renders an elapsed time given as whole seconds and the nanoseconds
/// below one second.
pub fn format_elapsed(secs: u64, subsec_nanos: u32) -> (text: String)
    ensures
        text@ == elapsed_text(secs as nat, subsec_nanos as nat),
{
    let seconds = secs % 60;
    let minutes = (secs / 60) % 60;
    let hours = (secs / 3_600) % 24;
    let days = secs / 86_400;
    let milliseconds = subsec_nanos / 1_000_000;
    let microseconds = (subsec_nanos / 1_000) % 1_000;
    let nanoseconds = subsec_nanos % 1_000;
    let mut text = String::new();
    if days > 0 {
        push_unit_field(&mut text, days, 2, "d ");
        push_unit_field(&mut text, hours, 2, "h");
    } else if hours > 0 {
        push_unit_field(&mut text, hours, 2, "h ");
        push_unit_field(&mut text, minutes, 2, "m");
    } else if minutes > 0 {
        push_unit_field(&mut text, minutes, 3, " m  ");
        push_unit_field(&mut text, seconds, 3, " s ");
    } else if seconds > 0 {
        push_unit_field(&mut text, seconds, 3, " s  ");
        push_unit_field(&mut text, milliseconds as u64, 3, " ms");
    } else if milliseconds > 0 {
        push_unit_field(&mut text, milliseconds as u64, 3, " ms ");
        push_unit_field(&mut text, microseconds as u64, 3, " \u{3bc}s");
    } else if microseconds > 0 {
        push_unit_field(&mut text, microseconds as u64, 3, " \u{3bc}s ");
        push_unit_field(&mut text, nanoseconds as u64, 3, " ns");
    } else {
        push_unit_field(&mut text, nanoseconds as u64, 3, " ns");
    }
    text
}

/// Renders a duration in the tier of its coarsest unit.
pub fn format_duration(duration: Duration) -> (text: String)
    ensures
        text@ == elapsed_text(
            duration_secs(duration) as nat,
            duration_subsec_nanos(duration) as nat,
        ),
{
    format_elapsed(duration.as_secs(), duration.subsec_nanos())
}

} // verus!
