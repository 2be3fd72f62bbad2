use vstd::prelude::*;
use crate::instant::{Instant, clock_now, day_before, parse_rfc3339, rfc3339_instant, spec_day_before, is_clock_reading, lemma_clock_reading_bounds, SECS_PER_DAY};

verus! {

/// Optional bounds of a measurement query, each an RFC 3339 date-and-time.
#[derive(Debug, Clone)]
pub struct TimeRangeQuery {
    pub start: Option<String>,
    pub end: Option<String>,
}

/// A query bound: the instant the text denotes where it is given and is a
/// valid RFC 3339 date-and-time, else `fallback`.
pub open spec fn bound_or(text: Option<String>, fallback: Instant) -> Instant {
    match text {
        Some(s) => match rfc3339_instant(s@) {
            Some(t) => t,
            None => fallback,
        },
        None => fallback,
    }
}

/// The instant a query bound gives: the instant its text denotes where the
/// bound is present and a valid RFC 3339 date-and-time, else none.
pub open spec fn given_bound(text: Option<String>) -> Option<Instant> {
    match text {
        Some(s) => rfc3339_instant(s@),
        None => None,
    }
}

/// The range a query asks for, with `now_for_start` and `now_for_end` as the
/// present time: a missing or unreadable start falls back to one day before
/// the present, a missing or unreadable end to the present.
pub open spec fn spec_time_range(query: TimeRangeQuery, now_for_start: Instant, now_for_end: Instant) -> (Instant, Instant) {
    (bound_or(query.start, spec_day_before(now_for_start)), bound_or(query.end, now_for_end))
}

fn bound(text: &Option<String>, fallback: Instant) -> (res: Instant)
    ensures
        res == bound_or(*text, fallback),
{
    match text {
        Some(s) => match parse_rfc3339(s.as_str()) {
            Some(t) => t,
            None => fallback,
        },
        None => fallback,
    }
}

/// The range `query` asks for, given the present time as read for each
/// default bound.
pub fn resolve_time_range(query: &TimeRangeQuery, now_for_start: Instant, now_for_end: Instant) -> (res: (Instant, Instant))
    requires
        now_for_start.secs >= i64::MIN + SECS_PER_DAY,
    ensures
        res == spec_time_range(*query, now_for_start, now_for_end),
        given_bound(query.start) matches Some(t) ==> res.0 == t,
        given_bound(query.start) is None ==> res.0.secs == now_for_start.secs - SECS_PER_DAY
            && res.0.nanos == now_for_start.nanos,
        given_bound(query.end) matches Some(t) ==> res.1 == t,
        given_bound(query.end) is None ==> res.1 == now_for_end,
{
    let default_start = day_before(now_for_start);
    let start = bound(&query.start, default_start);
    let end = bound(&query.end, now_for_end);
    (start, end)
}

/// The range `query` asks for, reading the present time from the system
/// clock for each default bound.
pub fn resolve_time_range_now(query: &TimeRangeQuery) -> (res: (Instant, Instant))
    ensures
        exists|a: Instant, b: Instant|
            is_clock_reading(a) && is_clock_reading(b) && res == spec_time_range(*query, a, b),
        given_bound(query.start) matches Some(t) ==> res.0 == t,
        given_bound(query.start) is None ==> exists|a: Instant|
            is_clock_reading(a) && res.0.secs == a.secs - SECS_PER_DAY && res.0.nanos == a.nanos,
        given_bound(query.end) matches Some(t) ==> res.1 == t,
        given_bound(query.end) is None ==> is_clock_reading(res.1),
{
    let now_for_start = clock_now();
    let now_for_end = clock_now();
    proof {
        lemma_clock_reading_bounds(now_for_start);
    }
    resolve_time_range(query, now_for_start, now_for_end)
}

/// The end of a range depends on the end text and the present time alone:
/// two queries with the same end text resolve to the same end, whatever
/// their starts and whatever present time the starts fall back on.
pub proof fn law_end_ignores_start(
    q1: TimeRangeQuery,
    q2: TimeRangeQuery,
    now1: Instant,
    now2: Instant,
    now_for_end: Instant,
)
    requires
        q1.end == q2.end,
    ensures
        spec_time_range(q1, now1, now_for_end).1 == spec_time_range(q2, now2, now_for_end).1,
{
}

/// The start of a range depends on the start text and the present time
/// alone.
pub proof fn law_start_ignores_end(
    q1: TimeRangeQuery,
    q2: TimeRangeQuery,
    now_for_start: Instant,
    end1: Instant,
    end2: Instant,
)
    requires
        q1.start == q2.start,
    ensures
        spec_time_range(q1, now_for_start, end1).0 == spec_time_range(q2, now_for_start, end2).0,
{
}

/// A missing or unreadable end is the present time; a valid end is the
/// instant it denotes.
pub proof fn law_end_bound(q: TimeRangeQuery, now_for_start: Instant, now_for_end: Instant)
    ensures
        given_bound(q.end) is None ==> spec_time_range(q, now_for_start, now_for_end).1 == now_for_end,
        given_bound(q.end) matches Some(t) ==> spec_time_range(q, now_for_start, now_for_end).1 == t,
{
}

/// A missing or unreadable start is exactly one day (86400 seconds) before
/// the present time; a valid start is the instant it denotes.
pub proof fn law_start_bound(q: TimeRangeQuery, now_for_start: Instant, now_for_end: Instant)
    requires
        now_for_start.secs >= i64::MIN + SECS_PER_DAY,
    ensures
        given_bound(q.start) is None ==> spec_time_range(q, now_for_start, now_for_end).0.secs
            == now_for_start.secs - 86400 && spec_time_range(q, now_for_start, now_for_end).0.nanos
            == now_for_start.nanos,
        given_bound(q.start) matches Some(t) ==> spec_time_range(q, now_for_start, now_for_end).0 == t,
{
}

/// A query without bounds covers exactly the last day up to the present:
/// read at one present time, its end is that time and its start lies
/// 86400 seconds earlier.
pub proof fn law_default_range_is_last_day(q: TimeRangeQuery, now: Instant)
    requires
        q.start is None,
        q.end is None,
        now.secs >= i64::MIN + SECS_PER_DAY,
    ensures
        spec_time_range(q, now, now).1 == now,
        spec_time_range(q, now, now).1.secs - spec_time_range(q, now, now).0.secs == 86400,
        spec_time_range(q, now, now).0.nanos == now.nanos,
{
}

} // verus!
