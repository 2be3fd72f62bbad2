use vstd::prelude::*;

verus! {

/// Nanoseconds in one second.
pub const NANOS_PER_SEC: u32 = 1_000_000_000;

/// Seconds in one day.
pub const SECS_PER_DAY: i64 = 86400;

/// A point in time on the UTC time line: whole seconds since the Unix epoch
/// and the nanoseconds into that second.
#[derive(Clone, Copy, Debug, PartialEq, Eq, Structural)]
pub struct Instant {
    pub secs: i64,
    pub nanos: u32,
}

/// An instant that the system clock reported. Beyond this module the notion
/// is abstract: only reading the clock (`clock_now`) establishes it, so an
/// instant that code computes does not count as a clock reading. What is
/// known of every reading, that it is not before the epoch and lies outside
/// any leap second, `lemma_clock_reading_bounds` states.
pub closed spec fn is_clock_reading(t: Instant) -> bool {
    t.secs >= 0 && t.nanos < NANOS_PER_SEC
}

/// Every clock reading lies at or after the epoch, outside any leap second.
pub proof fn lemma_clock_reading_bounds(t: Instant)
    requires
        is_clock_reading(t),
    ensures
        t.secs >= 0,
        t.nanos < NANOS_PER_SEC,
{
}

/// Signed nanoseconds elapsed from `from` to `to`.
pub open spec fn elapsed_nanos(from: Instant, to: Instant) -> int {
    (to.secs - from.secs) * (NANOS_PER_SEC as int) + (to.nanos - from.nanos)
}

/// Whole seconds elapsed from `from` to `to`, rounded toward zero.
pub open spec fn whole_seconds_between(from: Instant, to: Instant) -> int {
    let d = elapsed_nanos(from, to);
    if d >= 0 {
        d / (NANOS_PER_SEC as int)
    } else {
        -((-d) / (NANOS_PER_SEC as int))
    }
}

/// The instant exactly one day (86400 seconds) before `t`.
pub open spec fn spec_day_before(t: Instant) -> Instant {
    Instant { secs: (t.secs - SECS_PER_DAY) as i64, nanos: t.nanos }
}

/// The instant that an RFC 3339 date-and-time text denotes, or `None` where the
/// text is not one.
pub uninterp spec fn rfc3339_instant(text: Seq<char>) -> Option<Instant>;

/// Reads the system clock through chrono's `Utc::now`.
///
/// Claimed: the reading is not before the Unix epoch and its nanoseconds
/// field is below one second (chrono builds it from `SystemTime` since the
/// epoch, whose sub-second part is below one second). Nothing else is claimed
/// of the value. `Utc::now` panics when the system clock is set before 1970.
#[verifier::external_body]
pub(crate) fn clock_now() -> (res: Instant)
    ensures
        is_clock_reading(res),
{
    let now = chrono::Utc::now();
    Instant { secs: now.timestamp(), nanos: now.timestamp_subsec_nanos() }
}

/// Parses an RFC 3339 date-and-time with chrono's `DateTime::parse_from_rfc3339`
/// and takes the instant it denotes (seconds since the epoch and the
/// sub-second nanoseconds, as chrono's `timestamp` and
/// `timestamp_subsec_nanos` report them).
///
/// Claimed: the result is `rfc3339_instant` of the text, that is, it depends
/// on the text alone.
#[verifier::external_body]
pub(crate) fn parse_rfc3339(text: &str) -> (res: Option<Instant>)
    ensures
        res == rfc3339_instant(text@),
{
    match chrono::DateTime::parse_from_rfc3339(text) {
        Ok(d) => Some(Instant { secs: d.timestamp(), nanos: d.timestamp_subsec_nanos() }),
        Err(_) => None,
    }
}

/// The instant one day before `t`, as subtracting a one-day duration from a
/// UTC date-time gives it.
pub fn day_before(t: Instant) -> (res: Instant)
    requires
        t.secs >= i64::MIN + SECS_PER_DAY,
    ensures
        res == spec_day_before(t),
{
    Instant { secs: t.secs - SECS_PER_DAY, nanos: t.nanos }
}

/// Whether fewer than `window_secs` whole seconds have passed from `earlier`
/// to `later` (a negative lapse counts as fewer).
pub fn within_seconds(earlier: Instant, later: Instant, window_secs: u32) -> (res: bool)
    requires
        window_secs > 0,
    ensures
        res == (whole_seconds_between(earlier, later) < window_secs),
{
    let d: i128 = (later.secs as i128 - earlier.secs as i128) * (NANOS_PER_SEC as i128)
        + (later.nanos as i128 - earlier.nanos as i128);
    let limit: i128 = (window_secs as i128) * (NANOS_PER_SEC as i128);
    proof {
        lemma_whole_seconds_below(earlier, later, window_secs as int);
    }
    d < limit
}

/// Fewer than `w` whole seconds have elapsed exactly when fewer than `w`
/// seconds' worth of nanoseconds have.
pub proof fn lemma_whole_seconds_below(from: Instant, to: Instant, w: int)
    requires
        w > 0,
    ensures
        (whole_seconds_between(from, to) < w) <==> (elapsed_nanos(from, to) < w * (NANOS_PER_SEC as int)),
{
    let d = elapsed_nanos(from, to);
    let n = NANOS_PER_SEC as int;
    if d >= 0 {
        vstd::arithmetic::div_mod::lemma_fundamental_div_mod(d, n);
        let q = d / n;
        let r = d % n;
        assert(0 <= r < n);
        if q < w {
            assert(q + 1 <= w);
            assert(d < (q + 1) * n) by (nonlinear_arith)
                requires d == n * q + r, r < n;
            assert((q + 1) * n <= w * n) by (nonlinear_arith)
                requires q + 1 <= w, n > 0;
        } else {
            assert(w * n <= q * n) by (nonlinear_arith)
                requires w <= q, n > 0;
            assert(q * n <= d) by (nonlinear_arith)
                requires d == n * q + r, r >= 0;
        }
    } else {
        vstd::arithmetic::div_mod::lemma_div_pos_is_pos(-d, n);
        assert(0 <= w * n) by (nonlinear_arith)
            requires w >= 0, n > 0;
    }
}

} // verus!
