use vstd::prelude::*;
use crate::instant::{Instant, clock_now, within_seconds, whole_seconds_between, is_clock_reading};

verus! {

/// Seconds during which further alerts of a station are held back after one
/// of its alerts went through.
pub const ALERT_DEBOUNCE_SECS: u32 = 60;

/// Whether an alert of `station` at `now` goes through, given `last`, the time
/// of the last alert that went through for each station.
pub open spec fn admits(last: Map<Seq<char>, Instant>, station: Seq<char>, now: Instant) -> bool {
    !last.contains_key(station) || whole_seconds_between(last[station], now) >= ALERT_DEBOUNCE_SECS
}

/// The record of last alert times after an alert of `station` at `now` was
/// attempted: the attempt's time is recorded exactly when it went through.
pub open spec fn after_attempt(last: Map<Seq<char>, Instant>, station: Seq<char>, now: Instant) -> Map<Seq<char>, Instant> {
    if admits(last, station, now) {
        last.insert(station, now)
    } else {
        last
    }
}

/// What an alert attempt of `station` decided on the clock reading `reading`
/// comes to: the answer and the record afterwards.
pub open spec fn alert_outcome(last: Map<Seq<char>, Instant>, station: Seq<char>, reading: Instant) -> (
    Option<Instant>,
    Map<Seq<char>, Instant>,
) {
    if admits(last, station, reading) {
        (Some(reading), last.insert(station, reading))
    } else {
        (None, last)
    }
}

/// Per-station debounce of alerts: remembers, for each station, when its last
/// alert went through.
pub struct AlertGate {
    entries: Vec<(String, Instant)>,
    model: Ghost<Map<Seq<char>, Instant>>,
}

impl View for AlertGate {
    type V = Map<Seq<char>, Instant>;

    closed spec fn view(&self) -> Map<Seq<char>, Instant> {
        self.model@
    }
}

impl AlertGate {
    spec fn key_at(&self, i: int) -> Seq<char> {
        self.entries@[i].0@
    }

    /// The entries name each station at most once and hold exactly the record.
    pub closed spec fn wf(&self) -> bool {
        &&& forall|i: int, j: int|
            0 <= i < self.entries@.len() && 0 <= j < self.entries@.len() && i != j
                ==> #[trigger] self.key_at(i) != #[trigger] self.key_at(j)
        &&& forall|i: int|
            0 <= i < self.entries@.len() ==> self.model@.contains_key(#[trigger] self.key_at(i))
                && self.model@[self.key_at(i)] == self.entries@[i].1
        &&& forall|k: Seq<char>|
            #[trigger] self.model@.contains_key(k) ==> exists|i: int|
                0 <= i < self.entries@.len() && #[trigger] self.key_at(i) == k
    }

    /// A gate that has let no alert through yet.
    pub fn new() -> (res: Self)
        ensures
            res.wf(),
            res@ == Map::<Seq<char>, Instant>::empty(),
    {
        AlertGate { entries: Vec::new(), model: Ghost(Map::empty()) }
    }

    fn position(&self, station: &String) -> (res: Option<usize>)
        requires
            self.wf(),
        ensures
            match res {
                Some(i) => i < self.entries@.len() && self.key_at(i as int) == station@,
                None => !self@.contains_key(station@),
            },
    {
        let mut i: usize = 0;
        while i < self.entries.len()
            invariant
                self.wf(),
                0 <= i <= self.entries@.len(),
                forall|j: int| 0 <= j < i ==> self.key_at(j) != station@,
            decreases self.entries@.len() - i,
        {
            if self.entries[i].0 == *station {
                return Some(i);
            }
            i = i + 1;
        }
        None
    }

    /// When the last alert of `station` went through, if one did.
    pub fn last_alert(&self, station: &String) -> (res: Option<Instant>)
        requires
            self.wf(),
        ensures
            res == (if self@.contains_key(station@) {
                Some(self@[station@])
            } else {
                None
            }),
    {
        match self.position(station) {
            Some(i) => Some(self.entries[i].1),
            None => None,
        }
    }

    /// Attempts an alert of `station` at `now`: it goes through when the
    /// station has no alert on record or at least the debounce window of whole
    /// seconds has passed since its last one; then `now` is recorded.
    pub fn try_alert(&mut self, station: &String, now: Instant) -> (res: bool)
        requires
            old(self).wf(),
        ensures
            final(self).wf(),
            res == admits(old(self)@, station@, now),
            final(self)@ == after_attempt(old(self)@, station@, now),
    {
        let ghost pre = *self;
        match self.position(station) {
            Some(i) => {
                let last = self.entries[i].1;
                if within_seconds(last, now, ALERT_DEBOUNCE_SECS) {
                    return false;
                }
                self.entries.set(i, (station.clone(), now));
                self.model = Ghost(self.model@.insert(station@, now));
                assert forall|a: int| 0 <= a < self.entries@.len() implies #[trigger] self.key_at(a)
                    == pre.key_at(a) by {}
                assert forall|a: int, b: int|
                    0 <= a < self.entries@.len() && 0 <= b < self.entries@.len() && a != b
                        implies #[trigger] self.key_at(a) != #[trigger] self.key_at(b) by {
                    assert(pre.key_at(a) != pre.key_at(b));
                }
                assert forall|a: int| 0 <= a < self.entries@.len() implies self.model@.contains_key(
                    #[trigger] self.key_at(a)) && self.model@[self.key_at(a)] == self.entries@[a].1 by {
                    if a != i {
                        assert(pre.key_at(a) != pre.key_at(i as int));
                    }
                }
                assert forall|k: Seq<char>| #[trigger] self.model@.contains_key(k) implies exists|j: int|
                    0 <= j < self.entries@.len() && #[trigger] self.key_at(j) == k by {
                    if k != station@ {
                        assert(pre.model@.contains_key(k));
                        let j = choose|j: int| 0 <= j < pre.entries@.len() && #[trigger] pre.key_at(j) == k;
                        assert(self.key_at(j) == k);
                    } else {
                        assert(self.key_at(i as int) == k);
                    }
                }
                true
            },
            None => {
                self.entries.push((station.clone(), now));
                self.model = Ghost(self.model@.insert(station@, now));
                let ghost n = pre.entries@.len() as int;
                assert(self.key_at(n) == station@);
                assert forall|a: int| 0 <= a < n implies #[trigger] self.key_at(a) == pre.key_at(a)
                    && self.key_at(a) != station@ by {
                    assert(pre.model@.contains_key(pre.key_at(a)));
                }
                assert forall|a: int, b: int|
                    0 <= a < self.entries@.len() && 0 <= b < self.entries@.len() && a != b
                        implies #[trigger] self.key_at(a) != #[trigger] self.key_at(b) by {
                    if a < n && b < n {
                        assert(pre.key_at(a) != pre.key_at(b));
                    }
                }
                assert forall|a: int| 0 <= a < self.entries@.len() implies self.model@.contains_key(
                    #[trigger] self.key_at(a)) && self.model@[self.key_at(a)] == self.entries@[a].1 by {
                    if a < n {
                        assert(pre.model@.contains_key(pre.key_at(a)));
                    }
                }
                assert forall|k: Seq<char>| #[trigger] self.model@.contains_key(k) implies exists|j: int|
                    0 <= j < self.entries@.len() && #[trigger] self.key_at(j) == k by {
                    if k != station@ {
                        assert(pre.model@.contains_key(k));
                        let j = choose|j: int| 0 <= j < pre.entries@.len() && #[trigger] pre.key_at(j) == k;
                        assert(self.key_at(j) == k);
                    } else {
                        assert(self.key_at(n) == k);
                    }
                }
                true
            },
        }
    }

    /// Attempts an alert of `station` at the present time, read from the
    /// system clock; answers the time recorded when the alert went through.
    pub fn try_alert_now(&mut self, station: &String) -> (res: Option<Instant>)
        requires
            old(self).wf(),
        ensures
            final(self).wf(),
            match res {
                Some(t) => is_clock_reading(t) && admits(old(self)@, station@, t)
                    && final(self)@ == old(self)@.insert(station@, t),
                None => old(self)@.contains_key(station@) && final(self)@ == old(self)@
                    && exists|t: Instant| is_clock_reading(t) && !admits(old(self)@, station@, t),
            },
            exists|r: Instant|
                is_clock_reading(r) && (res, final(self)@) == alert_outcome(old(self)@, station@, r),
    {
        let now = clock_now();
        if self.try_alert(station, now) {
            Some(now)
        } else {
            None
        }
    }
}

/// A station's first alert always goes through.
pub proof fn law_first_alert_admitted(last: Map<Seq<char>, Instant>, station: Seq<char>, now: Instant)
    requires
        !last.contains_key(station),
    ensures
        admits(last, station, now),
        after_attempt(last, station, now) == last.insert(station, now),
{
}

/// After an alert of a station went through at `t1`, a further alert of the
/// same station fewer than the window's whole seconds later is refused, and
/// one at least that many whole seconds later goes through.
pub proof fn law_debounce_window(
    last: Map<Seq<char>, Instant>,
    station: Seq<char>,
    t1: Instant,
    t2: Instant,
)
    requires
        admits(last, station, t1),
    ensures
        admits(after_attempt(last, station, t1), station, t2)
            <==> whole_seconds_between(t1, t2) >= ALERT_DEBOUNCE_SECS,
{
}

/// A refused alert changes nothing: the window keeps running from the last
/// alert that went through, not from the last attempt.
pub proof fn law_refusal_keeps_record(last: Map<Seq<char>, Instant>, station: Seq<char>, now: Instant)
    requires
        !admits(last, station, now),
    ensures
        after_attempt(last, station, now) == last,
{
}

/// Stations are debounced independently: an attempt for one station never
/// changes whether an alert of another goes through.
pub proof fn law_stations_independent(
    last: Map<Seq<char>, Instant>,
    s1: Seq<char>,
    s2: Seq<char>,
    t1: Instant,
    t2: Instant,
)
    requires
        s1 != s2,
    ensures
        admits(after_attempt(last, s1, t1), s2, t2) == admits(last, s2, t2),
{
}

/// An attempt decided on a reading answers with that very reading or with
/// nothing: a time that goes through is the reading the decision was made
/// on, and it is what the record then holds for the station; an attempt
/// fewer than the window's whole seconds after the station's last alert
/// that went through answers nothing and leaves the record as it was; other
/// stations' records never change.
pub proof fn law_alert_outcome(last: Map<Seq<char>, Instant>, station: Seq<char>, reading: Instant)
    ensures
        alert_outcome(last, station, reading).0 matches Some(t) ==> t == reading,
        alert_outcome(last, station, reading).0 is Some ==> alert_outcome(last, station, reading).1.contains_key(station)
            && alert_outcome(last, station, reading).1[station] == reading,
        (last.contains_key(station) && whole_seconds_between(last[station], reading) < ALERT_DEBOUNCE_SECS)
            ==> alert_outcome(last, station, reading) == (None::<Instant>, last),
        !last.contains_key(station) ==> alert_outcome(last, station, reading).0 == Some(reading),
        forall|other: Seq<char>| other != station ==> (#[trigger] alert_outcome(last, station, reading).1.contains_key(other)
            == last.contains_key(other)) && (last.contains_key(other) ==> alert_outcome(last, station, reading).1[other]
            == last[other]),
{
}

} // verus!
