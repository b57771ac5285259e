use vstd::prelude::*;
use crate::error::ErrorKind;
use crate::prayer::{kind_index, PrayerKind};
use crate::localtime::{local_now, local_wall_instant};
use crate::schedule::{increasing_utc, schedule_from_utc, MAX_DAY, event_target, is_first_after, next_event, next_label, none_after, status_record, status_times, DailySchedule, NextEvent, StatusRecord};
use crate::text::{parse_time_of_day, time_of_day_minute};
use crate::time::{local_day, local_day_of, local_secs, wait_seconds, wait_spec, wall_secs, Moment};

verus! {

/// Pause after an alert, in seconds, before the next cycle begins.
pub const COOLDOWN_SECS: u64 = 1;

/// Source of "now": the wall clock, or one instant fixed for the whole run.
/// A fixed clock makes the scheduler run exactly one cycle.
#[derive(Debug, Clone, Copy, PartialEq, Eq, Structural)]
pub enum Clock {
    Real,
    Fixed(Moment),
}

impl Clock {
    /// The current instant: sampled afresh for `Real`, the fixed one otherwise.
    pub fn now(&self) -> (r: Moment)
        ensures
            self matches Clock::Fixed(m) ==> r == m,
            -86400 < r.offset < 86400 || self is Fixed,
    {
        match self {
            Clock::Real => {
                let (utc, offset) = local_now();
                Moment { utc, offset }
            },
            Clock::Fixed(m) => *m,
        }
    }

    /// Whether the run stops after one cycle.
    pub fn is_single_shot(&self) -> (r: bool)
        ensures
            r == self is Fixed,
    {
        match self {
            Clock::Real => false,
            Clock::Fixed(_) => true,
        }
    }
}

/// `e` is the event the scheduler owes for schedule `s` at `now`.
pub open spec fn event_ok(s: DailySchedule, now: Moment, e: NextEvent) -> bool {
    match e {
        NextEvent::Prayer(k, m) => is_first_after(s.times@, now, kind_index(k)) && m == s.time_of(k),
        NextEvent::Rollover(m) => none_after(s.times@, now) && local_secs(m) == wall_secs(s.day + 1, 1),
    }
}

/// Everything one cycle does after selecting its event: the status record
/// to write, how long to wait, which prayer to announce, how long to pause
/// after the alert, and whether the run stops afterwards.
#[derive(Debug, Clone)]
pub struct CyclePlan {
    pub schedule: DailySchedule,
    pub event: NextEvent,
    pub status: StatusRecord,
    pub wait_secs: u64,
    pub notify: Option<PrayerKind>,
    pub cooldown_secs: u64,
    pub stop_after: bool,
}

/// `p` is the plan for schedule `s` and event `e` at `now`.
pub open spec fn plan_matches(p: CyclePlan, s: DailySchedule, now: Moment, e: NextEvent, single_shot: bool) -> bool {
    &&& p.schedule == s
    &&& p.event == e
    &&& p.status.fields() == status_times(s.times@)
    &&& p.status.next@ == next_label(e)
    &&& p.wait_secs == wait_spec(now, event_target(e))
    &&& p.notify == (match e {
        NextEvent::Prayer(k, _) => Some(k),
        NextEvent::Rollover(_) => None,
    })
    &&& p.cooldown_secs == (if e is Prayer { COOLDOWN_SECS } else { 0 })
    &&& p.stop_after == single_shot
}

/// Lays out one cycle: status, wait, alert for prayers only, cooldown after
/// an alert, and termination in single-shot mode.
pub fn plan_cycle(s: DailySchedule, now: Moment, e: NextEvent, single_shot: bool) -> (r: CyclePlan)
    ensures
        plan_matches(r, s, now, e, single_shot),
{
    let status = status_record(&s, e);
    let (target, notify, cooldown_secs) = match e {
        NextEvent::Prayer(k, m) => (m, Some(k), COOLDOWN_SECS),
        NextEvent::Rollover(m) => (m, None, 0),
    };
    CyclePlan {
        schedule: s,
        event: e,
        status,
        wait_secs: wait_seconds(now, target),
        notify,
        cooldown_secs,
        stop_after: single_shot,
    }
}

/// Planning is deterministic: two plans for the same schedule, instant,
/// event and mode agree on the status written, the wait, the alert, the
/// cooldown and whether the run stops.
pub proof fn lemma_plan_determined(p: CyclePlan, q: CyclePlan, s: DailySchedule, now: Moment, e: NextEvent, single_shot: bool)
    requires
        plan_matches(p, s, now, e, single_shot),
        plan_matches(q, s, now, e, single_shot),
    ensures
        p.status.fields() == q.status.fields(),
        p.status.next@ == q.status.next@,
        p.wait_secs == q.wait_secs,
        p.notify == q.notify,
        p.cooldown_secs == q.cooldown_secs,
        p.stop_after == q.stop_after,
{
}

/// For a schedule and an instant, at most one event is owed.
pub proof fn lemma_event_unique(s: DailySchedule, now: Moment, e1: NextEvent, e2: NextEvent)
    requires
        s.wf(),
        event_ok(s, now, e1),
        event_ok(s, now, e2),
        e1 is Prayer,
    ensures
        e1 == e2,
{
    if let NextEvent::Prayer(k1, _) = e1 {
        let i1 = kind_index(k1);
        match e2 {
            NextEvent::Prayer(k2, _) => {
                let i2 = kind_index(k2);
                if i1 < i2 {
                    assert(s.times@[i1].utc <= now.utc);
                } else if i2 < i1 {
                    assert(s.times@[i2].utc <= now.utc);
                }
                assert(k1 == k2);
            },
            NextEvent::Rollover(_) => {
                assert(s.times@[i1].utc <= now.utc);
            },
        }
    }
}

/// One scheduler cycle up to the wait, at instant `now`: `provider` holds
/// the Unix seconds of Fajr to Isha that the provider computed for the local
/// day of `now`, or `None` where it failed. Builds that day's schedule,
/// selects the next event and plans the rest of the cycle.
pub fn run_cycle(now: Moment, provider: Option<[i64; 5]>, single_shot: bool) -> (r: Result<CyclePlan, ErrorKind>)
    ensures
        r matches Ok(p) ==> {
            &&& p.schedule.wf()
            &&& p.schedule.day == local_day_of(now)
            &&& provider matches Some(t) && forall|i: int| 0 <= i < 5 ==> (#[trigger] p.schedule.times@[i]).utc == t@[i]
            &&& event_ok(p.schedule, now, p.event)
            &&& plan_matches(p, p.schedule, now, p.event, single_shot)
        },
        !(1 <= local_day_of(now) <= MAX_DAY) ==> r == Err::<CyclePlan, ErrorKind>(ErrorKind::CalculationError),
        provider is None ==> r == Err::<CyclePlan, ErrorKind>(ErrorKind::CalculationError),
        provider matches Some(t) && !increasing_utc(t@) ==> r == Err::<CyclePlan, ErrorKind>(ErrorKind::CalculationError),
        r == Err::<CyclePlan, ErrorKind>(ErrorKind::AmbiguousLocalTime) ==> (provider matches Some(t)
            && forall|i: int| 0 <= i < 5 ==> #[trigger] t@[i] <= now.utc),
        r matches Err(e) ==> e == ErrorKind::CalculationError || e == ErrorKind::AmbiguousLocalTime,
{
    let day = local_day(now);
    let utc = match provider {
        Some(t) => t,
        None => return Err(ErrorKind::CalculationError),
    };
    let s = schedule_from_utc(day, utc)?;
    let e = next_event(&s, now);
    proof {
        if e == Err::<NextEvent, ErrorKind>(ErrorKind::AmbiguousLocalTime) {
            assert forall|i: int| 0 <= i < 5 implies #[trigger] utc@[i] <= now.utc by {
                assert(s.times@[i].utc == utc@[i]);
            }
        }
    }
    let e = e?;
    let p = plan_cycle(s, now, e, single_shot);
    assert(event_ok(p.schedule, now, p.event));
    Ok(p)
}

/// The instant of minute `minute` of local day `today`. No minute, or one
/// past the end of the day, is a configuration error; a wall time that maps
/// to no single instant (a daylight-saving gap or overlap, or a day outside
/// the calendar's range) is an ambiguous local time.
pub fn override_at(today: i64, minute: Option<u32>) -> (r: Result<Moment, ErrorKind>)
    ensures
        (minute is None || minute->Some_0 >= 1440) <==> r == Err::<Moment, ErrorKind>(ErrorKind::ConfigurationError),
        minute matches Some(k) && k < 1440 && !(i32::MIN <= today <= i32::MAX)
            ==> r == Err::<Moment, ErrorKind>(ErrorKind::AmbiguousLocalTime),
        r matches Ok(m) ==> (minute matches Some(k) && k < 1440 && local_secs(m) == wall_secs(today as int, 60 * k)),
        r matches Err(e) ==> e == ErrorKind::ConfigurationError || e == ErrorKind::AmbiguousLocalTime,
{
    let k = match minute {
        Some(k) => k,
        None => return Err(ErrorKind::ConfigurationError),
    };
    if k >= 1440 {
        return Err(ErrorKind::ConfigurationError);
    }
    if today < i32::MIN as i64 || today > i32::MAX as i64 {
        return Err(ErrorKind::AmbiguousLocalTime);
    }
    match local_wall_instant(today as i32, k * 60) {
        Some(p) => Ok(Moment { utc: p.0, offset: p.1 }),
        None => Err(ErrorKind::AmbiguousLocalTime),
    }
}

/// The instant of local time-of-day text (chrono's `"%H:%M"`) on local day
/// `today`.
pub fn override_moment(today: i64, text: &str) -> (r: Result<Moment, ErrorKind>)
    ensures
        time_of_day_minute(text@) is None <==> r == Err::<Moment, ErrorKind>(ErrorKind::ConfigurationError),
        time_of_day_minute(text@) is Some && !(i32::MIN <= today <= i32::MAX)
            ==> r == Err::<Moment, ErrorKind>(ErrorKind::AmbiguousLocalTime),
        r matches Ok(m) ==> exists|k: int| 0 <= k < 1440 && time_of_day_minute(text@) == Some(k) && local_secs(m) == wall_secs(today as int, 60 * k),
        r matches Err(e) ==> e == ErrorKind::ConfigurationError || e == ErrorKind::AmbiguousLocalTime,
{
    let minute = parse_time_of_day(text);
    let r = override_at(today, minute);
    proof {
        if let Ok(m) = r {
            let k = minute->Some_0 as int;
            assert(0 <= k < 1440 && time_of_day_minute(text@) == Some(k) && local_secs(m) == wall_secs(today as int, 60 * k));
        }
    }
    r
}

/// The clock a run uses: the wall clock without an override, else the
/// override time on today's local date, fixed for the whole run.
pub fn clock_for(test_at: Option<&str>) -> (r: Result<Clock, ErrorKind>)
    ensures
        test_at is None ==> r == Ok::<Clock, ErrorKind>(Clock::Real),
        test_at matches Some(t) && time_of_day_minute(t@) is None ==> r == Err::<Clock, ErrorKind>(ErrorKind::ConfigurationError),
        test_at matches Some(t) && time_of_day_minute(t@) is Some ==> r != Err::<Clock, ErrorKind>(ErrorKind::ConfigurationError),
        r matches Ok(Clock::Fixed(m)) ==> (test_at matches Some(t) && fixed_at_text(m, t@)),
        test_at is Some && r is Ok ==> r->Ok_0 is Fixed,
        r matches Err(e) ==> e == ErrorKind::ConfigurationError || e == ErrorKind::AmbiguousLocalTime,
{
    match test_at {
        None => Ok(Clock::Real),
        Some(t) => {
            let now = Clock::Real.now();
            let m = override_moment(local_day(now), t)?;
            proof {
                let k = choose|k: int| 0 <= k < 1440 && time_of_day_minute(t@) == Some(k) && local_secs(m) == wall_secs(local_day_of(now), 60 * k);
                lemma_wall_minute(m, local_day_of(now), k);
                assert(time_of_day_minute(t@) == Some(k) && second_is_minute(m, k));
                assert(fixed_at_text(m, t@));
            }
            Ok(Clock::Fixed(m))
        },
    }
}

/// `m` falls at the start of the minute of its local day that `text` names.
pub open spec fn fixed_at_text(m: Moment, text: Seq<char>) -> bool {
    exists|k: int| time_of_day_minute(text) == Some(k) && second_is_minute(m, k)
}

/// `m` falls at the start of minute `k` of its local day.
pub open spec fn second_is_minute(m: Moment, k: int) -> bool {
    local_secs(m) % 86400 == 60 * k
}

proof fn lemma_wall_minute(m: Moment, day: int, k: int)
    requires
        0 <= k < 1440,
        local_secs(m) == wall_secs(day, 60 * k),
    ensures
        second_is_minute(m, k),
{
    vstd::arithmetic::div_mod::lemma_fundamental_div_mod_converse(local_secs(m), 86400, day - 719163, 60 * k);
}

} // verus!
