//! Trigger schedules (cron patterns or explicit time points) and the iterator
//! that produces their future ticks.
//!
//! Instants are whole seconds since the Unix epoch.

use vstd::prelude::*;
use vstd::multiset::Multiset;
use crate::clock::{representable_instant, now_unix_seconds, EARLIEST_INSTANT, LATEST_INSTANT};
use std::str::FromStr;

verus! {

broadcast use vstd::seq_lib::group_to_multiset_ensures, vstd::seq::group_seq_axioms;

// ---------------------------------------------------------------------------
// The cron and time-zone crates
// ---------------------------------------------------------------------------

/// Whether `cron::Schedule::from_str` accepts a cron expression.
pub uninterp spec fn cron_pattern_accepted(pattern: Seq<char>) -> bool;

/// Whether `chrono_tz::Tz::from_str` knows a time-zone name.
pub uninterp spec fn zone_accepted(name: Seq<char>) -> bool;

/// The first tick of a cron expression strictly after instant `after`,
/// with the calendar fields read in UTC (`cron::Schedule::after(..).next()`).
pub uninterp spec fn cron_next_after_utc(pattern: Seq<char>, after: int) -> Option<int>;

/// The first tick of a cron expression strictly after instant `after`,
/// with the calendar fields read in the named time zone.
pub uninterp spec fn cron_next_after_in_zone(pattern: Seq<char>, zone: Seq<char>, after: int) -> Option<int>;

/// The last instant of the year 2100 in UTC: the cron crate yields no later
/// year.
pub const UTC_TICK_MAX: i64 = 4133980799i64;

/// The earliest instant a tick read in a time zone can be: the start of 1970
/// on a clock less than a day ahead of UTC.
pub const ZONE_TICK_MIN: i64 = -86399i64;

/// The latest instant a tick read in a time zone can be: the end of 2100 on
/// a clock less than a day behind UTC.
pub const ZONE_TICK_MAX: i64 = 4134067198i64;

/// Whether the cron crate can search after `t` in UTC: one second later
/// must still be an instant chrono can hold.
pub open spec fn utc_searchable(t: int) -> bool {
    EARLIEST_INSTANT <= t < LATEST_INSTANT
}

/// Whether the cron crate can search after `t` on the clock of a time zone:
/// one second later, moved by the zone's offset (less than a day either
/// way), must still be a local time chrono can hold.
pub open spec fn zone_searchable(t: int) -> bool {
    EARLIEST_INSTANT + 86400 <= t && t <= LATEST_INSTANT - 86400
}

/// Whether an instant lies where the ticks read in a time zone can lie.
pub open spec fn zone_tick_range(t: int) -> bool {
    ZONE_TICK_MIN <= t <= ZONE_TICK_MAX
}

/// The next tick in UTC (`zone` is `None`) or in the named zone. An instant
/// so close to the ends of chrono's range that the zone's clock cannot be
/// read there has no next tick.
pub open spec fn cron_next(pattern: Seq<char>, zone: Option<Seq<char>>, after: int) -> Option<int> {
    match zone {
        None => cron_next_after_utc(pattern, after),
        Some(z) => if zone_searchable(after) {
            cron_next_after_in_zone(pattern, z, after)
        } else {
            None
        },
    }
}

/// Parses a cron expression with `cron::Schedule::from_str`; on failure the
/// error's text is returned. The text itself is not specified.
#[verifier::external_body]
fn parse_cron(pattern: &str) -> (r: Result<(), String>)
    ensures
        r is Ok == cron_pattern_accepted(pattern@),
{
    match cron::Schedule::from_str(pattern) {
        Ok(_) => Ok(()),
        Err(e) => Err(e.to_string()),
    }
}

/// Whether `chrono_tz::Tz::from_str` accepts a zone name.
#[verifier::external_body]
fn parse_zone(name: &str) -> (ok: bool)
    ensures
        ok == zone_accepted(name@),
{
    name.parse::<chrono_tz::Tz>().is_ok()
}

/// `cron::Schedule::after(&after).next()` for an instant seen in UTC.
///
/// The cron crate searches from one second after `after` (which must
/// itself be an instant chrono can hold) and only yields the years 1970 to
/// 2100, so a tick is later than `after` and lies in those years.
#[verifier::external_body]
fn next_tick_utc(pattern: &str, after: i64) -> (r: Option<i64>)
    requires
        cron_pattern_accepted(pattern@),
        utc_searchable(after as int),
    ensures
        match cron_next_after_utc(pattern@, after as int) {
            Some(t) => r == Some(t as i64) && after < t && 0 <= t <= UTC_TICK_MAX,
            None => r is None,
        },
{
    let schedule = cron::Schedule::from_str(pattern).unwrap();
    let start = chrono::DateTime::from_timestamp(after, 0).unwrap().with_timezone(&chrono_tz::UTC);
    schedule.after(&start).next().map(|t| t.timestamp())
}

/// `cron::Schedule::after(&after).next()` for an instant seen in a named zone.
///
/// The search reads the zone's clock one second after `after`, which must
/// be a local time chrono can hold. Only the years 1970 to 2100 of the
/// zone's clock are yielded, and a zone's offset is less than a day, so a
/// tick lies in `zone_tick_range`. When the zone's clock shows the matching
/// wall-clock time twice (a daylight-saving fall back), the earlier instant
/// is returned, which is not said to lie after `after`.
#[verifier::external_body]
fn next_tick_in_zone(pattern: &str, zone: &str, after: i64) -> (r: Option<i64>)
    requires
        cron_pattern_accepted(pattern@),
        zone_accepted(zone@),
        zone_searchable(after as int),
    ensures
        match cron_next_after_in_zone(pattern@, zone@, after as int) {
            Some(t) => r == Some(t as i64) && zone_tick_range(t),
            None => r is None,
        },
{
    let schedule = cron::Schedule::from_str(pattern).unwrap();
    let tz = zone.parse::<chrono_tz::Tz>().unwrap();
    let start = chrono::DateTime::from_timestamp(after, 0).unwrap().with_timezone(&tz);
    schedule.after(&start).next().map(|t| t.timestamp())
}

/// The later of the two instants at which a time zone's clock shows the
/// wall-clock time of instant `t`, when it shows that time twice (at a
/// daylight-saving fall back), else `None`.
pub uninterp spec fn zone_repeat_instant(zone: Seq<char>, t: int) -> Option<int>;

/// `chrono::TimeZone::from_local_datetime` on the wall-clock time of `t` in
/// the named zone: the later instant when that time is ambiguous. `t` lies
/// where zone ticks lie, so its wall-clock time is one chrono can hold.
#[verifier::external_body]
fn repeated_wall_time(zone: &str, t: i64) -> (r: Option<i64>)
    requires
        zone_accepted(zone@),
        zone_tick_range(t as int),
    ensures
        match zone_repeat_instant(zone@, t as int) {
            Some(u) => r == Some(u as i64) && u == (u as i64) as int,
            None => r is None,
        },
{
    let tz = zone.parse::<chrono_tz::Tz>().unwrap();
    let local = chrono::DateTime::from_timestamp(t, 0).unwrap().with_timezone(&tz).naive_local();
    match chrono::TimeZone::from_local_datetime(&tz, &local) {
        chrono::LocalResult::Ambiguous(_, later) => Some(later.timestamp()),
        chrono::LocalResult::Single(_) => None,
        chrono::LocalResult::None => None,
    }
}

/// The repeated instant kept after a tick in a zone: the later instant of an
/// ambiguous wall-clock time, when the zone's clock can be searched after it.
pub open spec fn kept_repeat(zone: Seq<char>, t: int) -> Option<int> {
    match zone_repeat_instant(zone, t) {
        Some(u) => if zone_searchable(u) {
            Some(u)
        } else {
            None
        },
        None => None,
    }
}

// ---------------------------------------------------------------------------
// Schedules
// ---------------------------------------------------------------------------

/// A schedule driven by a cron expression read in a time zone.
pub struct Recurring {
    pub cron: String,
    pub timezone: String,
    pub limit: Option<u64>,
    pub remaining: Option<u64>,
}

/// A schedule made of explicit time points.
pub struct RunAt {
    pub timepoints: Vec<i64>,
    pub remaining: Option<u64>,
}

/// When a trigger runs.
pub enum Schedule {
    Recurring(Recurring),
    RunAt(RunAt),
}

/// Why a schedule could not be turned into ticks.
pub enum TriggerError {
    /// The cron expression was refused; holds the cron crate's message.
    CronParse(String),
    /// The time-zone name is unknown; holds the name.
    InvalidTimezone(String),
}

/// Whether a schedule can be turned into ticks.
pub open spec fn schedule_accepted(s: Schedule) -> bool {
    match s {
        Schedule::Recurring(r) => cron_pattern_accepted(r.cron@) && zone_accepted(r.timezone@),
        Schedule::RunAt(_) => true,
    }
}

impl Schedule {
    /// The number of runs the schedule allows, if bounded.
    pub open spec fn spec_limit(&self) -> Option<u64> {
        match self {
            Schedule::Recurring(r) => r.limit,
            Schedule::RunAt(r) => Some(r.timepoints@.len() as u64),
        }
    }

    /// A recurring schedule reports its configured limit; a list of time
    /// points is limited by its length.
    pub fn limit(&self) -> (r: Option<u64>)
        ensures
            r == self.spec_limit(),
    {
        match self {
            Schedule::Recurring(recurring) => recurring.limit,
            Schedule::RunAt(run_at) => Some(run_at.timepoints.len() as u64),
        }
    }

    /// The next `count` runs after instant `after` (fewer when the schedule
    /// runs out).
    pub fn estimated_future_runs(&self, after: i64, count: usize) -> (runs: Vec<i64>)
        requires
            schedule_accepted(*self),
            utc_searchable(after as int),
        ensures
            runs@.map_values(|t: i64| t as int) == first_ticks(ticks_from(*self, after as int, true), count as nat),
            runs@.len() <= count,
            forall|i: int| 0 <= i < runs@.len() ==> runs@[i] > after,
            forall|i: int, j: int| 0 <= i < j < runs@.len() ==> runs@[i] <= runs@[j],
            *self is Recurring ==> forall|i: int, j: int| 0 <= i < j < runs@.len() ==> runs@[i] < runs@[j],
    {
        let mut it = match ScheduleIter::from_schedule(self, Some(after)) {
            Ok(it) => it,
            Err(_) => {
                assert(false);
                return Vec::new();
            },
        };
        let ghost start = it@;
        let mut runs: Vec<i64> = Vec::new();
        let mut i: usize = 0;
        let mut done = false;
        assert(start == ticks_from(*self, after as int, true));
        while i < count && !done
            invariant
                i <= count,
                runs@.len() == i,
                done ==> first_ticks(it@, (count - i) as nat) == Seq::<int>::empty(),
                first_ticks(start, count as nat) == runs@.map_values(|t: i64| t as int) + first_ticks(it@, (count - i) as nat),
                (*self is Recurring) == (it@ is Cron),
                ticks_stay_after(it@, after as int, last_run(runs@)),
                forall|k: int| 0 <= k < runs@.len() ==> runs@[k] > after,
                forall|k: int, j: int| 0 <= k < j < runs@.len() ==> runs@[k] <= runs@[j],
                *self is Recurring ==> forall|k: int, j: int| 0 <= k < j < runs@.len() ==> runs@[k] < runs@[j],
            decreases count - i + (if done { 0int } else { 1int }),
        {
            let ghost before = it@;
            let ghost runs_before = runs@;
            proof {
                if before is Points {
                    lemma_points_upcoming(before);
                }
            }
            match it.next() {
                Some(t) => {
                    proof {
                        lemma_tick_after(before, after as int, last_run(runs_before), t as int);
                    }
                    runs.push(t);
                    i = i + 1;
                    assert(runs@.map_values(|t: i64| t as int) == runs_before.map_values(|t: i64| t as int).push(t as int));
                    assert(last_run(runs@) == Some(t as int));
                    assert forall|k: int, j: int| 0 <= k < j < runs@.len() implies runs@[k] <= runs@[j] by {
                        if j == runs@.len() - 1 && runs_before.len() > 0 {
                            assert(runs_before[k] <= runs_before[runs_before.len() - 1]);
                        }
                    }
                    proof {
                        if *self is Recurring {
                            assert forall|k: int, j: int| 0 <= k < j < runs@.len() implies runs@[k] < runs@[j] by {
                                if j == runs@.len() - 1 && runs_before.len() > 0 {
                                    assert(runs_before[k] <= runs_before[runs_before.len() - 1]);
                                }
                            }
                        }
                    }
                },
                None => {
                    done = true;
                },
            }
        }
        runs
    }

    /// Records how many runs are left.
    pub fn set_remaining(&mut self, remaining: Option<u64>)
        ensures
            match (*old(self), *final(self)) {
                (Schedule::Recurring(a), Schedule::Recurring(b)) => b.cron == a.cron
                    && b.timezone == a.timezone && b.limit == a.limit && b.remaining == remaining,
                (Schedule::RunAt(a), Schedule::RunAt(b)) => b.timepoints == a.timepoints
                    && b.remaining == remaining,
                _ => false,
            },
    {
        match self {
            Schedule::Recurring(recurring) => recurring.remaining = remaining,
            Schedule::RunAt(run_at) => run_at.remaining = remaining,
        }
    }
}

// ---------------------------------------------------------------------------
// Tick iteration
// ---------------------------------------------------------------------------

/// The first `count` ticks of an iterator state, stopping early when the
/// ticks run out.
pub open spec fn first_ticks(v: TicksView, count: nat) -> Seq<int>
    decreases count,
{
    if count == 0 {
        seq![]
    } else {
        match upcoming_tick(v) {
            Some(t) => seq![t] + first_ticks(after_tick(v), (count - 1) as nat),
            None => seq![],
        }
    }
}

/// What a tick iterator holds, as mathematical values.
pub enum TicksView {
    /// Ticks of a cron expression: `previous` is the instant the next tick
    /// is searched after (`None` once the pattern ran out of ticks), `later`
    /// the second instant of a wall-clock time the zone showed twice, still
    /// to be given, and `remaining` the number of runs still allowed, if
    /// bounded.
    Cron {
        pattern: Seq<char>,
        zone: Option<Seq<char>>,
        previous: Option<int>,
        later: Option<int>,
        remaining: Option<u64>,
    },
    /// Explicit time points still to come.
    Points { pending: Multiset<i64>, left: u64 },
}

/// Whether `x` is a smallest element of `m`.
pub open spec fn is_least(x: i64, m: Multiset<i64>) -> bool {
    m.count(x) > 0 && forall|y: i64| m.count(y) > 0 ==> x <= y
}

/// The tick that comes next, if any.
pub open spec fn upcoming_tick(v: TicksView) -> Option<int> {
    match v {
        TicksView::Cron { pattern, zone, previous, later, remaining } => {
            if remaining == Some(0u64) {
                None
            } else {
                match later {
                    Some(l) => Some(l),
                    None => match previous {
                        Some(p) => cron_next(pattern, zone, p),
                        None => None,
                    },
                }
            }
        },
        TicksView::Points { pending, .. } => {
            if pending.len() == 0 {
                None
            } else {
                Some((choose|x: i64| is_least(x, pending)) as int)
            }
        },
    }
}

/// The iterator state after the upcoming tick has been taken.
pub open spec fn after_tick(v: TicksView) -> TicksView {
    match v {
        TicksView::Cron { pattern, zone, previous, later, remaining } => {
            if remaining == Some(0u64) {
                v
            } else {
                let n = upcoming_tick(v);
                TicksView::Cron {
                    pattern,
                    zone,
                    previous: n,
                    later: match (later, zone, n) {
                        (None, Some(z), Some(t)) => kept_repeat(z, t),
                        _ => None,
                    },
                    remaining: match (n, remaining) {
                        (Some(_), Some(k)) => Some((k - 1) as u64),
                        _ => remaining,
                    },
                }
            }
        },
        TicksView::Points { pending, left } => {
            if pending.len() == 0 {
                v
            } else {
                TicksView::Points {
                    pending: pending.remove(choose|x: i64| is_least(x, pending)),
                    left: (left - 1) as u64,
                }
            }
        },
    }
}

/// The tick that follows a taken cron tick `t`: none once the run limit is
/// used up; else, when `t` is read in a zone whose clock shows its wall-clock
/// time once more later, that later instant; else the first tick the cron
/// expression gives after `t` itself: a taken tick is where the search for
/// the following one starts.
pub open spec fn tick_after_taken(v: TicksView, t: int) -> Option<int> {
    match v {
        TicksView::Cron { pattern, zone, later, remaining, .. } => {
            if remaining == Some(1u64) {
                None
            } else {
                match (later, zone) {
                    (None, Some(z)) => match kept_repeat(z, t) {
                        Some(u) => Some(u),
                        None => cron_next(pattern, zone, t),
                    },
                    _ => cron_next(pattern, zone, t),
                }
            }
        },
        TicksView::Points { .. } => None,
    }
}

/// Taking a tick of a cron schedule, in UTC or in a time zone, moves the
/// search past it: the tick that comes next is the cron expression's first
/// tick after the taken one (or the second instant of a wall-clock time the
/// zone shows twice), never the taken tick found again from an older start.
pub proof fn lemma_taken_tick_starts_next_search(v: TicksView)
    requires
        v is Cron,
    ensures
        upcoming_tick(v) matches Some(t) ==> upcoming_tick(after_tick(v)) == tick_after_taken(v, t),
{
}

/// The number of runs left, as `ScheduleIter::remaining` reports it.
pub open spec fn runs_left(v: TicksView) -> Option<u64> {
    match v {
        TicksView::Cron { remaining, .. } => remaining,
        TicksView::Points { left, .. } => Some(left),
    }
}

enum TickSource {
    Cron {
        pattern: String,
        zone: Option<String>,
        previous: Option<i64>,
        later: Option<i64>,
        remaining: Option<u64>,
    },
    Points { pending: Vec<i64>, left: u64 },
}

/// Produces the future ticks of a schedule, one at a time.
pub struct ScheduleIter {
    source: TickSource,
}

impl View for ScheduleIter {
    type V = TicksView;

    closed spec fn view(&self) -> TicksView {
        source_view(self.source)
    }
}

spec fn source_view(source: TickSource) -> TicksView {
    match source {
        TickSource::Cron { pattern, zone, previous, later, remaining } => TicksView::Cron {
            pattern: pattern@,
            zone: match zone {
                Some(z) => Some(z@),
                None => None,
            },
            previous: match previous {
                Some(p) => Some(p as int),
                None => None,
            },
            later: match later {
                Some(l) => Some(l as int),
                None => None,
            },
            remaining,
        },
        TickSource::Points { pending, left } => TicksView::Points {
            pending: pending@.to_multiset(),
            left,
        },
    }
}

/// The time points of a list that lie strictly after `cutoff`.
pub open spec fn points_after(points: Seq<i64>, cutoff: int) -> Seq<i64> {
    points.filter(|t: i64| t > cutoff)
}

/// The state of a tick iterator for a schedule, searching after `start`.
pub open spec fn ticks_from(s: Schedule, start: int, start_given: bool) -> TicksView {
    match s {
        Schedule::Recurring(r) => TicksView::Cron {
            pattern: r.cron@,
            zone: if start_given { None } else { Some(r.timezone@) },
            previous: Some(start),
            later: None,
            remaining: match r.remaining {
                Some(k) => Some(k),
                None => r.limit,
            },
        },
        Schedule::RunAt(r) => TicksView::Points {
            pending: points_after(r.timepoints@, start).to_multiset(),
            left: points_after(r.timepoints@, start).len() as u64,
        },
    }
}

impl ScheduleIter {
    #[verifier::type_invariant]
    spec fn well_formed(self) -> bool {
        match self.source {
            TickSource::Cron { pattern, zone, previous, later, .. } => {
                &&& cron_pattern_accepted(pattern@)
                &&& (zone matches Some(z) ==> zone_accepted(z@))
                &&& (previous matches Some(p) ==> (zone is None ==> utc_searchable(p as int)))
                &&& (later matches Some(l) ==> zone_searchable(l as int) && zone is Some)
            },
            TickSource::Points { pending, left } => left == pending@.len(),
        }
    }

    /// Builds the tick iterator of a schedule. Ticks are searched after
    /// `last_ran_at` when given, else after the current time; a cron
    /// pattern given a start is read in UTC, without one in its own zone.
    pub fn from_schedule(schedule_raw: &Schedule, last_ran_at: Option<i64>) -> (r: Result<
        ScheduleIter,
        TriggerError,
    >)
        requires
            last_ran_at matches Some(t) ==> utc_searchable(t as int),
        ensures
            match *schedule_raw {
                Schedule::Recurring(rec) => {
                    &&& (!cron_pattern_accepted(rec.cron@) <==> r matches Err(TriggerError::CronParse(_)))
                    &&& (cron_pattern_accepted(rec.cron@) && !zone_accepted(rec.timezone@) <==> (r
                        matches Err(TriggerError::InvalidTimezone(name)) && name@ == rec.timezone@))
                },
                Schedule::RunAt(_) => r is Ok,
            },
            r is Ok <==> schedule_accepted(*schedule_raw),
            r matches Ok(it) ==> match last_ran_at {
                Some(t) => it@ == ticks_from(*schedule_raw, t as int, true),
                None => exists|now: int| representable_instant(now) && it@ == ticks_from(*schedule_raw, now, false),
            },
    {
        match schedule_raw {
            Schedule::Recurring(cron) => {
                if let Err(message) = parse_cron(cron.cron.as_str()) {
                    return Err(TriggerError::CronParse(message));
                }
                if !parse_zone(cron.timezone.as_str()) {
                    return Err(TriggerError::InvalidTimezone(cron.timezone.clone()));
                }
                let (zone, start) = match last_ran_at {
                    Some(t) => (None, t),
                    None => (Some(cron.timezone.clone()), now_unix_seconds()),
                };
                let remaining = match cron.remaining {
                    Some(k) => Some(k),
                    None => cron.limit,
                };
                let it = ScheduleIter {
                    source: TickSource::Cron {
                        pattern: cron.cron.clone(),
                        zone,
                        previous: Some(start),
                        later: None,
                        remaining,
                    },
                };
                assert(it@ == ticks_from(*schedule_raw, start as int, last_ran_at is Some));
                Ok(it)
            },
            Schedule::RunAt(run_at) => {
                let cutoff = match last_ran_at {
                    Some(t) => t,
                    None => now_unix_seconds(),
                };
                let mut pending: Vec<i64> = Vec::new();
                let n = run_at.timepoints.len();
                let ghost points = run_at.timepoints@;
                let ghost keep = |t: i64| t > cutoff;
                for i in 0..n
                    invariant
                        n == points.len(),
                        points == run_at.timepoints@,
                        keep == (|t: i64| t > cutoff),
                        pending@ == points.take(i as int).filter(keep),
                {
                    assert(points.take(i + 1) == points.take(i as int).push(points[i as int]));
                    proof {
                        points.take(i as int).lemma_filter_push(points[i as int], keep);
                    }
                    let ts = run_at.timepoints[i];
                    if ts > cutoff {
                        pending.push(ts);
                    }
                }
                assert(points.take(n as int) == points);
                proof {
                    broadcast use vstd::seq_lib::group_filter_ensures;
                }
                let left = pending.len() as u64;
                let it = ScheduleIter { source: TickSource::Points { pending, left } };
                assert(it@ == ticks_from(*schedule_raw, cutoff as int, last_ran_at is Some));
                Ok(it)
            },
        }
    }

    /// Whether the ticks come from a cron expression.
    pub fn is_cron_pattern(&self) -> (r: bool)
        ensures
            r == (self@ is Cron),
    {
        match &self.source {
            TickSource::Cron { .. } => true,
            TickSource::Points { .. } => false,
        }
    }

    /// The time zone the ticks are given in: `None` for UTC, which time points
    /// and the ticks of a pattern searched after a start are given in, else
    /// the zone of the pattern.
    pub fn tick_zone(&self) -> (z: Option<String>)
        ensures
            match self@ {
                TicksView::Cron { zone, .. } => match zone {
                    Some(name) => z matches Some(n) && n@ == name,
                    None => z is None,
                },
                TicksView::Points { .. } => z is None,
            },
    {
        match &self.source {
            TickSource::Cron { zone, .. } => match zone {
                Some(name) => Some(name.clone()),
                None => None,
            },
            TickSource::Points { .. } => None,
        }
    }

    /// The number of runs left: the cron iterator's bound, if any, or the
    /// number of time points still to come.
    pub fn remaining(&self) -> (r: Option<u64>)
        ensures
            r == runs_left(self@),
    {
        match &self.source {
            TickSource::Cron { remaining, .. } => *remaining,
            TickSource::Points { left, .. } => Some(*left),
        }
    }

    /// Looks at the next tick without taking it.
    pub fn peek(&mut self) -> (r: Option<i64>)
        ensures
            r == (match upcoming_tick(old(self)@) {
                Some(t) => Some(t as i64),
                None => None,
            }),
            final(self)@ == old(self)@,
            old(self)@ matches TicksView::Cron { zone: None, previous: Some(p), .. } ==> (r matches Some(t)
                ==> p < t),
            match old(self)@ {
                TicksView::Points { pending, .. } => match r {
                    Some(t) => is_least(t, pending),
                    None => pending.len() == 0,
                },
                _ => true,
            },
    {
        let r = self.peek_or_next(false);
        proof {
            if old(self)@ is Points {
                lemma_points_take_least(old(self)@);
            }
        }
        r
    }

    /// Takes the next tick.
    pub fn next(&mut self) -> (r: Option<i64>)
        ensures
            r == (match upcoming_tick(old(self)@) {
                Some(t) => Some(t as i64),
                None => None,
            }),
            final(self)@ == after_tick(old(self)@),
            old(self)@ matches TicksView::Cron { zone: None, previous: Some(p), .. } ==> (r matches Some(t)
                ==> p < t),
            old(self)@ is Cron ==> (r matches Some(t) ==> upcoming_tick(final(self)@) == tick_after_taken(
                old(self)@,
                t as int,
            )),
            match old(self)@ {
                TicksView::Points { pending, left } => match r {
                    Some(t) => is_least(t, pending) && final(self)@ == TicksView::Points {
                        pending: pending.remove(t),
                        left: (left - 1) as u64,
                    },
                    None => pending.len() == 0 && final(self)@ == old(self)@,
                },
                _ => true,
            },
            r is Some ==> match runs_left(old(self)@) {
                Some(k) => k > 0 && runs_left(final(self)@) == Some((k - 1) as u64),
                None => runs_left(final(self)@) is None,
            },
            r is None ==> runs_left(final(self)@) == runs_left(old(self)@),
    {
        let r = self.peek_or_next(true);
        proof {
            if old(self)@ is Cron {
                lemma_taken_tick_starts_next_search(old(self)@);
            } else {
                lemma_points_take_least(old(self)@);
            }
        }
        r
    }

    fn least_index(pending: &Vec<i64>) -> (idx: usize)
        requires
            pending@.len() > 0,
        ensures
            idx < pending@.len(),
            forall|j: int| 0 <= j < pending@.len() ==> pending@[idx as int] <= pending@[j],
    {
        let mut idx: usize = 0;
        let n = pending.len();
        for i in 1..n
            invariant
                n == pending@.len(),
                idx < n,
                forall|j: int| 0 <= j < i ==> pending@[idx as int] <= pending@[j],
        {
            if pending[i] < pending[idx] {
                idx = i;
            }
        }
        idx
    }

    proof fn least_of_multiset(pending: Seq<i64>, idx: int)
        requires
            0 <= idx < pending.len(),
            forall|j: int| 0 <= j < pending.len() ==> pending[idx] <= pending[j],
        ensures
            is_least(pending[idx], pending.to_multiset()),
            (choose|x: i64| is_least(x, pending.to_multiset())) == pending[idx],
    {
        let ms = pending.to_multiset();
        assert(pending.contains(pending[idx]));
        assert forall|y: i64| ms.count(y) > 0 implies pending[idx] <= y by {
            assert(pending.contains(y));
            let j = choose|j: int| 0 <= j < pending.len() && pending[j] == y;
        }
        assert(is_least(pending[idx], ms));
        let c = choose|x: i64| is_least(x, ms);
        assert(is_least(c, ms));
        assert(c <= pending[idx] && pending[idx] <= c);
    }

    fn peek_or_next(&mut self, next: bool) -> (r: Option<i64>)
        ensures
            r == (match upcoming_tick(old(self)@) {
                Some(t) => Some(t as i64),
                None => None,
            }),
            final(self)@ == if next { after_tick(old(self)@) } else { old(self)@ },
            old(self)@ matches TicksView::Cron { zone: None, previous: Some(p), .. } ==> (r matches Some(t)
                ==> p < t),
            next && r is Some ==> match runs_left(old(self)@) {
                Some(k) => k > 0 && runs_left(final(self)@) == Some((k - 1) as u64),
                None => runs_left(final(self)@) is None,
            },
            r is None ==> runs_left(final(self)@) == runs_left(old(self)@),
    {
        proof {
            use_type_invariant(&*self);
        }
        let mut source = TickSource::Points { pending: Vec::new(), left: 0 };
        std::mem::swap(&mut source, &mut self.source);
        let ghost v0 = source_view(source);
        assert(v0 == old(self)@);
        let (result, new_source) = match source {
            TickSource::Cron { pattern, zone, previous, later, remaining } => {
                if remaining == Some(0u64) {
                    (None, TickSource::Cron { pattern, zone, previous, later, remaining })
                } else {
                    let n = match later {
                        Some(l) => Some(l),
                        None => match previous {
                            Some(p) => match &zone {
                                Some(z) => {
                                    if EARLIEST_INSTANT + 86400 <= p && p <= LATEST_INSTANT - 86400 {
                                        next_tick_in_zone(pattern.as_str(), z.as_str(), p)
                                    } else {
                                        None
                                    }
                                },
                                None => {
                                    let t = next_tick_utc(pattern.as_str(), p);
                                    assert(t matches Some(u) ==> p < u);
                                    t
                                },
                            },
                            None => None,
                        },
                    };
                    assert(zone is None ==> (previous matches Some(p) ==> (n matches Some(u) ==> p < u)));
                    if next {
                        let new_later = match (later, &zone, n) {
                            (None, Some(z), Some(t)) => match repeated_wall_time(z.as_str(), t) {
                                Some(u) => {
                                    if EARLIEST_INSTANT + 86400 <= u && u <= LATEST_INSTANT - 86400 {
                                        Some(u)
                                    } else {
                                        None
                                    }
                                },
                                None => None,
                            },
                            _ => None,
                        };
                        let remaining = match (n, remaining) {
                            (Some(_), Some(k)) => Some(k - 1),
                            _ => remaining,
                        };
                        let ns = TickSource::Cron { pattern, zone, previous: n, later: new_later, remaining };
                        assert(source_view(ns) == after_tick(v0));
                        (n, ns)
                    } else {
                        (n, TickSource::Cron { pattern, zone, previous, later, remaining })
                    }
                }
            },
            TickSource::Points { mut pending, left } => {
                if pending.len() == 0 {
                    (None, TickSource::Points { pending, left })
                } else {
                    let idx = Self::least_index(&pending);
                    let t = pending[idx];
                    proof {
                        Self::least_of_multiset(pending@, idx as int);
                    }
                    if next {
                        let ghost before = pending@;
                        pending.remove(idx);
                        assert(pending@.to_multiset() == before.to_multiset().remove(t));
                        let ns = TickSource::Points { pending, left: left - 1 };
                        assert(source_view(ns) == after_tick(v0));
                        (Some(t), ns)
                    } else {
                        (Some(t), TickSource::Points { pending, left })
                    }
                }
            },
        };
        assert(v0 matches TicksView::Cron { zone: None, previous: Some(p), .. } ==> (result matches Some(t) ==> p < t));
        self.source = new_source;
        result
    }
}

/// A nonempty multiset of instants has a smallest element.
proof fn lemma_least_exists(m: Multiset<i64>)
    requires
        m.len() > 0,
    ensures
        exists|x: i64| is_least(x, m),
    decreases m.len(),
{
    broadcast use vstd::multiset::group_multiset_axioms;

    let e = m.choose();
    let rest = m.remove(e);
    assert(Multiset::singleton(e).subset_of(m));
    assert(rest.len() == m.len() - 1);
    if rest.len() == 0 {
        assert forall|y: i64| m.count(y) > 0 implies e <= y by {
            if y != e {
                assert(rest.count(y) == m.count(y));
                assert(rest.count(y) <= rest.len());
            }
        }
        assert(is_least(e, m));
    } else {
        lemma_least_exists(rest);
        let y = choose|y: i64| is_least(y, rest);
        let z = if e <= y {
            e
        } else {
            y
        };
        assert forall|w: i64| m.count(w) > 0 implies z <= w by {
            if w != e {
                assert(rest.count(w) == m.count(w));
            }
        }
        assert(rest.count(y) <= m.count(y));
        assert(is_least(z, m));
    }
}

/// The explicit time points of a schedule come out in non-decreasing order:
/// the tick after a taken tick is never earlier than it.
pub proof fn lemma_points_ticks_ordered(v: TicksView)
    requires
        v is Points,
    ensures
        upcoming_tick(v) matches Some(t) ==> (upcoming_tick(after_tick(v)) matches Some(u) ==> t <= u),
{
    broadcast use vstd::multiset::group_multiset_axioms;

    if let TicksView::Points { pending, left } = v {
        if pending.len() != 0 {
            lemma_least_exists(pending);
            let x = choose|x: i64| is_least(x, pending);
            let rest = pending.remove(x);
            if rest.len() != 0 {
                lemma_least_exists(rest);
                let y = choose|y: i64| is_least(y, rest);
                assert(rest.count(y) <= pending.count(y));
            }
        }
    }
}

/// Taking a time point takes a smallest pending one, and only it: the
/// points left are those pending less that one, and one run fewer is left;
/// with nothing pending, nothing is taken.
pub proof fn lemma_points_take_least(v: TicksView)
    requires
        v is Points,
    ensures
        match v {
            TicksView::Points { pending, left } => match upcoming_tick(v) {
                Some(t) => {
                    &&& pending.len() > 0
                    &&& is_least(t as i64, pending)
                    &&& after_tick(v) == TicksView::Points { pending: pending.remove(t as i64), left: (left - 1) as u64 }
                },
                None => pending.len() == 0 && after_tick(v) == v,
            },
            _ => true,
        },
{
    if let TicksView::Points { pending, left } = v {
        if pending.len() != 0 {
            lemma_least_exists(pending);
        }
    }
}

/// The last of a list of runs, if any.
pub open spec fn last_run(runs: Seq<i64>) -> Option<int> {
    if runs.len() == 0 {
        None
    } else {
        Some(runs.last() as int)
    }
}

/// Whether every tick still to come from an iterator state lies after
/// `after` and not before the last tick taken (strictly after it for a cron
/// expression read in UTC, whose search resumes from that tick).
pub open spec fn ticks_stay_after(v: TicksView, after: int, last: Option<int>) -> bool {
    match v {
        TicksView::Cron { zone, previous, later, .. } => {
            &&& zone is None
            &&& later is None
            &&& (previous matches Some(p) ==> p >= after && (last matches Some(l) ==> p == l))
        },
        TicksView::Points { pending, .. } => forall|x: i64|
            #![trigger pending.count(x)]
            pending.count(x) > 0 ==> x > after && (last matches Some(l) ==> x >= l),
    }
}

/// The upcoming time point of a list is a smallest pending one, and taking
/// it removes one instance of it.
proof fn lemma_points_upcoming(v: TicksView)
    requires
        v is Points,
    ensures
        v->pending.len() != 0 ==> {
            let x = choose|x: i64| is_least(x, v->pending);
            &&& is_least(x, v->pending)
            &&& upcoming_tick(v) == Some(x as int)
            &&& after_tick(v)->pending == v->pending.remove(x)
        },
{
    if v->pending.len() != 0 {
        lemma_least_exists(v->pending);
    }
}

/// A tick taken from a state whose ticks stay after `after` lies after
/// `after` and not before the last tick, and the state after it keeps
/// its ticks after it.
proof fn lemma_tick_after(v: TicksView, after: int, last: Option<int>, t: int)
    requires
        ticks_stay_after(v, after, last),
        upcoming_tick(v) == Some(t),
        v is Cron ==> (v->previous matches Some(p) && p < t),
        v is Points ==> is_least(t as i64, v->pending) && after_tick(v)->pending == v->pending.remove(t as i64)
            && t == (t as i64) as int,
    ensures
        t > after,
        last matches Some(l) ==> (if v is Cron { l < t } else { l <= t }),
        ticks_stay_after(after_tick(v), after, Some(t)),
{
    broadcast use vstd::multiset::group_multiset_axioms;

    if v is Points {
        let pending = v->pending;
        assert(pending.count(t as i64) > 0);
        let rest = pending.remove(t as i64);
        assert forall|x: i64| #![trigger rest.count(x)] rest.count(x) > 0 implies x > after && x >= t by {
            assert(rest.count(x) <= pending.count(x));
        }
    }
}

} // verus!
