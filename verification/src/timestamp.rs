//! Conversion between wall-clock milliseconds since the Unix epoch and each
//! browser family's native timestamp encoding.
//!
//! Chromium-family browsers store visit times as microseconds since
//! 1601-01-01 00:00:00 UTC (the Windows epoch); Firefox stores microseconds
//! since the Unix epoch. Both directions use exact integer arithmetic with
//! division truncating toward zero.

use vstd::prelude::*;

verus! {

/// Seconds between 1601-01-01 00:00:00 UTC and 1970-01-01 00:00:00 UTC.
pub const WINDOWS_TO_UNIX_SECONDS: u64 = 11644473600;

/// Microseconds in one second.
pub const MICROS_PER_SECOND: u64 = 1000000;

/// Milliseconds in one second.
pub const MILLIS_PER_SECOND: u64 = 1000;

/// Microseconds in one millisecond.
pub const MICROS_PER_MILLI: u64 = 1000;

/// A Unix-millisecond bound mapped into the Chromium native encoding.
pub open spec fn spec_chromium_native_of_ms(ms: int) -> int {
    (ms / 1000 + 11644473600) * 1000000
}

/// A Chromium native microsecond value mapped back to Unix milliseconds.
pub open spec fn spec_chromium_ms_of_native(native: int) -> int {
    (native / 1000000 - 11644473600) * 1000
}

/// A Unix-millisecond bound mapped into the Firefox native encoding.
pub open spec fn spec_firefox_native_of_ms(ms: int) -> int {
    ms * 1000
}

/// A Firefox native microsecond value mapped back to Unix milliseconds.
pub open spec fn spec_firefox_ms_of_native(native: int) -> int {
    native / 1000
}

/// Millisecond values small enough that both native encodings fit in a
/// machine word; every realistic wall-clock timestamp lies far below this.
pub open spec fn window_ms_in_range(ms: int) -> bool {
    &&& spec_chromium_native_of_ms(ms) <= u64::MAX
    &&& ms * 1000 <= u64::MAX
}

/// Runtime check for `window_ms_in_range`, for callers that receive
/// arbitrary bounds.
pub fn window_in_range(ms: u64) -> (r: bool)
    ensures
        r == window_ms_in_range(ms as int),
{
    ms <= 18435099600109999
}

pub fn chromium_ms_to_native(ms: u64) -> (r: u64)
    requires
        window_ms_in_range(ms as int),
    ensures
        r == spec_chromium_native_of_ms(ms as int),
{
    (ms / MILLIS_PER_SECOND + WINDOWS_TO_UNIX_SECONDS) * MICROS_PER_SECOND
}

pub fn chromium_native_to_ms(native: u64) -> (r: u64)
    requires
        native / 1000000 >= 11644473600,
    ensures
        r == spec_chromium_ms_of_native(native as int),
{
    proof {
        assert(native as int / 1000000 <= u64::MAX as int / 1000000) by (nonlinear_arith)
            requires
                native <= u64::MAX,
        ;
    }
    (native / MICROS_PER_SECOND - WINDOWS_TO_UNIX_SECONDS) * MILLIS_PER_SECOND
}

pub fn firefox_ms_to_native(ms: u64) -> (r: u64)
    requires
        window_ms_in_range(ms as int),
    ensures
        r == spec_firefox_native_of_ms(ms as int),
{
    ms * MICROS_PER_MILLI
}

pub fn firefox_native_to_ms(native: u64) -> (r: u64)
    ensures
        r == spec_firefox_ms_of_native(native as int),
{
    native / MICROS_PER_MILLI
}

/// Round trip through the Chromium encoding: a millisecond value converted
/// to native form and back comes out truncated to whole seconds, with no
/// drift; a value on a second boundary is returned unchanged.
pub proof fn lemma_chromium_round_trip(ms: u64)
    ensures
        spec_chromium_ms_of_native(spec_chromium_native_of_ms(ms as int)) == (ms as int / 1000)
            * 1000,
        ms as int % 1000 == 0 ==> spec_chromium_ms_of_native(spec_chromium_native_of_ms(ms as int))
            == ms,
{
    let q = ms as int / 1000;
    assert(((q + 11644473600) * 1000000) / 1000000 == q + 11644473600) by (nonlinear_arith);
    vstd::arithmetic::div_mod::lemma_fundamental_div_mod(ms as int, 1000);
}

/// Round trip through the Firefox encoding: a millisecond value converted
/// to native form and back is returned unchanged, for every value.
pub proof fn lemma_firefox_round_trip(ms: u64)
    ensures
        spec_firefox_ms_of_native(spec_firefox_native_of_ms(ms as int)) == ms,
{
    assert((ms as int * 1000) / 1000 == ms as int) by (nonlinear_arith);
}

} // verus!
