//! Spans of time, measured in whole nanoseconds.

use std::time::Duration;
use vstd::prelude::*;

verus! {

/// The length of a span of time in nanoseconds.
pub uninterp spec fn duration_nanos(d: Duration) -> nat;

/// Nanoseconds in one second.
pub const NANOS_PER_SEC: u32 = 1_000_000_000;

/// Nanoseconds in one millisecond.
pub const NANOS_PER_MILLI: u32 = 1_000_000;

/// The longest span a `Duration` can hold: `u64::MAX` seconds and
/// 999,999,999 nanoseconds.
pub open spec fn max_duration_nanos() -> nat {
    18_446_744_073_709_551_615_999_999_999
}

/// `Duration::as_nanos` of the standard library: the total number of
/// nanoseconds, which never exceeds `u64::MAX` whole seconds plus a
/// fraction of a second.
pub assume_specification[ Duration::as_nanos ](d: &Duration) -> (n: u128)
    ensures
        n == duration_nanos(*d),
        n <= max_duration_nanos(),
;

/// `Duration::new` of the standard library: the span of `secs` seconds and
/// `nanos` nanoseconds. With less than a second's worth of nanoseconds
/// nothing carries over, so the call cannot overflow.
pub assume_specification[ Duration::new ](secs: u64, nanos: u32) -> (d: Duration)
    requires
        nanos < NANOS_PER_SEC,
    ensures
        duration_nanos(d) == secs * NANOS_PER_SEC + nanos,
;

/// The span of `secs` whole seconds.
pub fn seconds(secs: u64) -> (d: Duration)
    ensures
        duration_nanos(d) == secs * NANOS_PER_SEC,
{
    Duration::new(secs, 0)
}

/// The span of `millis` milliseconds.
pub fn milliseconds(millis: u64) -> (d: Duration)
    ensures
        duration_nanos(d) == millis * NANOS_PER_MILLI,
{
    let secs: u64 = millis / 1000;
    let rest: u32 = (millis % 1000) as u32;
    let nanos: u32 = rest * NANOS_PER_MILLI;
    assert(secs * NANOS_PER_SEC + nanos == millis * NANOS_PER_MILLI) by {
        assert(millis == secs * 1000 + rest);
        assert(secs * 1_000_000_000 == (secs * 1000) * 1_000_000) by (nonlinear_arith);
        assert((secs * 1000 + rest) * 1_000_000 == (secs * 1000) * 1_000_000 + rest
            * 1_000_000) by (nonlinear_arith);
    }
    Duration::new(secs, nanos)
}

/// The span of `nanos` nanoseconds, for any count a `Duration` can hold.
pub fn from_nanos(nanos: u128) -> (d: Duration)
    requires
        nanos <= max_duration_nanos(),
    ensures
        duration_nanos(d) == nanos,
{
    let per_sec: u128 = NANOS_PER_SEC as u128;
    let secs: u128 = nanos / per_sec;
    let rest: u128 = nanos % per_sec;
    assert(secs <= u64::MAX) by {
        if secs > u64::MAX {
            assert(secs * 1_000_000_000 >= 18_446_744_073_709_551_616 * 1_000_000_000)
                by (nonlinear_arith)
                requires
                    secs >= 18_446_744_073_709_551_616,
            ;
            assert(nanos == secs * 1_000_000_000 + rest) by {
                vstd::arithmetic::div_mod::lemma_fundamental_div_mod(
                    nanos as int,
                    1_000_000_000,
                );
                assert(1_000_000_000 * (nanos as int / 1_000_000_000) == secs * 1_000_000_000)
                    by (nonlinear_arith)
                    requires
                        secs == nanos as int / 1_000_000_000,
                ;
            }
        }
    }
    assert(nanos == secs * 1_000_000_000 + rest) by {
        vstd::arithmetic::div_mod::lemma_fundamental_div_mod(nanos as int, 1_000_000_000);
        assert(1_000_000_000 * (nanos as int / 1_000_000_000) == secs * 1_000_000_000)
            by (nonlinear_arith)
            requires
                secs == nanos as int / 1_000_000_000,
        ;
    }
    Duration::new(secs as u64, rest as u32)
}

/// Whether the span has no length.
pub fn is_zero(d: &Duration) -> (b: bool)
    ensures
        b == (duration_nanos(*d) == 0),
{
    d.as_nanos() == 0
}

/// The whole milliseconds in `d`, capped at `u64::MAX`.
pub open spec fn spec_whole_millis(d: Duration) -> nat {
    if duration_nanos(d) / (NANOS_PER_MILLI as nat) <= u64::MAX {
        duration_nanos(d) / (NANOS_PER_MILLI as nat)
    } else {
        u64::MAX as nat
    }
}

/// The whole milliseconds in `d`, capped at `u64::MAX`.
pub fn whole_millis(d: &Duration) -> (ms: u64)
    ensures
        ms == spec_whole_millis(*d),
{
    let millis: u128 = d.as_nanos() / (NANOS_PER_MILLI as u128);
    if millis <= u64::MAX as u128 {
        millis as u64
    } else {
        u64::MAX
    }
}

} // verus!
