//! Points in time and time spans, as chrono represents them.
use vstd::prelude::*;

verus! {

/// A point in time: whole seconds since the Unix epoch, plus nanoseconds
/// (`nanos` reaches past 10^9 only during a leap second).
#[derive(Debug, Clone, Copy, PartialEq, Eq, Structural)]
pub struct Instant {
    pub secs: i64,
    pub nanos: u32,
}

/// Nanoseconds in a second.
pub const NANOS_PER_SEC: i128 = 1_000_000_000;

/// Earliest representable instant, in nanoseconds since the epoch (January 1, 262143 BCE).
pub const MIN_INSTANT_NANOS: i128 = -8_334_601_315_200_000_000_000;

/// Latest representable instant, in nanoseconds since the epoch (December 31, 262142 CE).
pub const MAX_INSTANT_NANOS: i128 = 8_210_266_876_799_999_999_999;

/// Longest time span, in nanoseconds (`i64::MAX` milliseconds).
pub const MAX_SPAN_NANOS: i128 = 9_223_372_036_854_775_807_000_000;

/// `t` in nanoseconds since the epoch (outside a leap second).
pub open spec fn instant_nanos(t: Instant) -> int {
    t.secs * NANOS_PER_SEC + t.nanos
}

/// Whether `t` lies before the instant `threshold` nanoseconds after the epoch,
/// ordering instants by seconds, then by nanoseconds.
pub open spec fn is_before(t: Instant, threshold: int) -> bool {
    let th_secs = threshold / (NANOS_PER_SEC as int);
    let th_nanos = threshold % (NANOS_PER_SEC as int);
    t.secs < th_secs || (t.secs == th_secs && t.nanos < th_nanos)
}

/// [`is_before`] compares without dividing: `t` is before `threshold` exactly when
/// the second after `t.secs` starts no later than `threshold`, or `t` itself is
/// earlier than `threshold` in nanoseconds.
pub proof fn lemma_is_before_without_division(t: Instant, threshold: int)
    ensures
        is_before(t, threshold) == ((t.secs + 1) * NANOS_PER_SEC <= threshold || t.secs
            * NANOS_PER_SEC + t.nanos < threshold),
{
    let n = NANOS_PER_SEC as int;
    let q = threshold / n;
    let r = threshold % n;
    assert(threshold == q * n + r && 0 <= r < n) by (nonlinear_arith)
        requires
            n == 1_000_000_000,
            q == threshold / n,
            r == threshold % n,
    ;
    let c = t.secs as int;
    assert((c + 1) * n <= threshold <==> c < q) by (nonlinear_arith)
        requires
            n > 0,
            threshold == q * n + r,
            0 <= r < n,
    ;
    assert(c < q ==> c * n + t.nanos < threshold || (c + 1) * n <= threshold);
    assert(c == q ==> (c * n + t.nanos < threshold <==> t.nanos < r)) by (nonlinear_arith)
        requires
            threshold == q * n + r,
    ;
    assert(c > q ==> !(c * n + t.nanos < threshold)) by (nonlinear_arith)
        requires
            threshold == q * n + r,
            0 <= r < n,
            t.nanos >= 0,
    ;
}

/// A time span in nanoseconds, from whole seconds and a sub-second part of the same sign.
pub fn span_nanos(secs: i64, subsec_nanos: i32) -> (n: i128)
    ensures
        n == secs * NANOS_PER_SEC + subsec_nanos,
{
    secs as i128 * NANOS_PER_SEC + subsec_nanos as i128
}

} // verus!
