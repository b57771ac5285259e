use vstd::prelude::*;
use crate::error::ErrorKind;
use crate::prayer::{kind_index, kind_name, PrayerKind};
use crate::localtime::{local_offset_at, local_wall_instant};
use crate::text::{format_hhmm, hhmm_text, lemma_hhmm_round_trip, parse_hhmm_spec};
use crate::time::{local_day_of, local_secs, minute_of, minute_of_day, wall_secs, Moment, UNIX_EPOCH_DAY};

verus! {

/// Last day (days of the common era) the provider is asked about: 9999-12-31.
pub const MAX_DAY: i64 = 3652059;

/// Instants strictly increasing in order, compared by their Unix seconds.
pub open spec fn strictly_increasing(t: Seq<Moment>) -> bool {
    forall|i: int, j: int| 0 <= i < j < t.len() ==> #[trigger] t[i].utc < #[trigger] t[j].utc
}

/// The schedule of one local calendar day: the instants of Fajr, Dhuhr, Asr,
/// Maghrib and Isha, in that order.
#[derive(Debug, Clone, Copy)]
pub struct DailySchedule {
    pub day: i64,
    pub times: [Moment; 5],
}

impl DailySchedule {
    /// The five instants increase strictly and the day lies in the range the
    /// provider is asked about.
    pub open spec fn wf(&self) -> bool {
        &&& strictly_increasing(self.times@)
        &&& 1 <= self.day <= MAX_DAY
    }

    /// The instant of one prayer.
    pub open spec fn time_of(&self, k: PrayerKind) -> Moment {
        self.times@[kind_index(k)]
    }

    /// Builds a schedule, refusing instants that do not strictly increase in
    /// canonical order or a day outside `1 ..= MAX_DAY`.
    pub fn from_instants(day: i64, times: [Moment; 5]) -> (r: Result<DailySchedule, ErrorKind>)
        ensures
            r is Ok <==> (strictly_increasing(times@) && 1 <= day <= MAX_DAY),
            r matches Ok(s) ==> s.day == day && s.times@ == times@ && s.wf(),
            r matches Err(e) ==> e == ErrorKind::CalculationError,
    {
        if day < 1 || day > MAX_DAY {
            return Err(ErrorKind::CalculationError);
        }
        let mut i: usize = 1;
        while i < 5
            invariant
                1 <= i <= 5,
                strictly_increasing(times@.subrange(0, i as int)),
            decreases 5 - i,
        {
            if times[i - 1].utc >= times[i].utc {
                assert(!strictly_increasing(times@)) by {
                    assert(times@[i - 1].utc >= times@[i as int].utc);
                }
                return Err(ErrorKind::CalculationError);
            }
            assert(strictly_increasing(times@.subrange(0, i + 1))) by {
                let t = times@.subrange(0, i + 1);
                assert forall|a: int, b: int| 0 <= a < b < t.len() implies #[trigger] t[a].utc < #[trigger] t[b].utc by {
                    if b < i {
                        assert(times@.subrange(0, i as int)[a] == t[a]);
                        assert(times@.subrange(0, i as int)[b] == t[b]);
                    } else if a < i - 1 {
                        assert(times@.subrange(0, i as int)[a] == t[a]);
                        assert(times@.subrange(0, i as int)[i - 1] == t[i - 1]);
                    }
                }
            }
            i = i + 1;
        }
        assert(times@.subrange(0, 5) =~= times@);
        Ok(DailySchedule { day, times })
    }
}

/// In a well-formed schedule the prayers come in canonical order:
/// Fajr, then Dhuhr, Asr, Maghrib and Isha, each strictly later.
pub proof fn lemma_schedule_ordered(s: DailySchedule)
    requires
        s.wf(),
    ensures
        s.time_of(PrayerKind::Fajr).utc < s.time_of(PrayerKind::Dhuhr).utc,
        s.time_of(PrayerKind::Dhuhr).utc < s.time_of(PrayerKind::Asr).utc,
        s.time_of(PrayerKind::Asr).utc < s.time_of(PrayerKind::Maghrib).utc,
        s.time_of(PrayerKind::Maghrib).utc < s.time_of(PrayerKind::Isha).utc,
{
    assert(s.times@[0].utc < s.times@[1].utc);
    assert(s.times@[1].utc < s.times@[2].utc);
    assert(s.times@[2].utc < s.times@[3].utc);
    assert(s.times@[3].utc < s.times@[4].utc);
}

/// Unix seconds strictly increasing in order.
pub open spec fn increasing_utc(t: Seq<i64>) -> bool {
    forall|i: int, j: int| 0 <= i < j < t.len() ==> #[trigger] t[i] < #[trigger] t[j]
}

/// Builds the schedule of local day `day` from the provider's five Unix
/// seconds (Fajr to Isha), pairing each with the local offset in force then.
pub fn schedule_from_utc(day: i64, utc: [i64; 5]) -> (r: Result<DailySchedule, ErrorKind>)
    ensures
        r matches Ok(s) ==> s.wf() && s.day == day
            && forall|i: int| 0 <= i < 5 ==> (#[trigger] s.times@[i]).utc == utc@[i],
        r matches Err(e) ==> e == ErrorKind::CalculationError,
        !(1 <= day <= MAX_DAY) ==> r is Err,
        !increasing_utc(utc@) ==> r is Err,
{
    if day < 1 || day > MAX_DAY {
        return Err(ErrorKind::CalculationError);
    }
    let mut out: [Moment; 5] = [Moment { utc: 0, offset: 0 }; 5];
    let mut i: usize = 0;
    while i < 5
        invariant
            i <= 5,
            forall|j: int| 0 <= j < i ==> (#[trigger] out@[j]).utc == utc@[j],
        decreases 5 - i,
    {
        let offset = match local_offset_at(utc[i]) {
            Some(o) => o,
            None => return Err(ErrorKind::CalculationError),
        };
        out.set(i, Moment { utc: utc[i], offset });
        i = i + 1;
    }
    let r = DailySchedule::from_instants(day, out);
    proof {
        if !increasing_utc(utc@) {
            let (a, b) = choose|a: int, b: int| !(0 <= a < b < 5 ==> #[trigger] utc@[a] < #[trigger] utc@[b]);
            assert(!(out@[a].utc < out@[b].utc));
        }
    }
    r
}

/// Index `i` holds the first instant strictly after `now`.
pub open spec fn is_first_after(t: Seq<Moment>, now: Moment, i: int) -> bool {
    &&& 0 <= i < t.len()
    &&& t[i].utc > now.utc
    &&& forall|j: int| 0 <= j < i ==> #[trigger] t[j].utc <= now.utc
}

/// No instant lies strictly after `now`.
pub open spec fn none_after(t: Seq<Moment>, now: Moment) -> bool {
    forall|j: int| 0 <= j < t.len() ==> #[trigger] t[j].utc <= now.utc
}

/// The first prayer of the schedule strictly after `now`, if any.
pub fn select_next(s: &DailySchedule, now: Moment) -> (r: Option<PrayerKind>)
    ensures
        r matches Some(k) ==> is_first_after(s.times@, now, kind_index(k)),
        r is None ==> none_after(s.times@, now),
{
    let mut i: usize = 0;
    while i < 5
        invariant
            i <= 5,
            forall|j: int| 0 <= j < i ==> #[trigger] s.times@[j].utc <= now.utc,
        decreases 5 - i,
    {
        if s.times[i].utc > now.utc {
            return Some(PrayerKind::at(i));
        }
        i = i + 1;
    }
    None
}

/// Among the instants strictly after `now`, the first in canonical order is
/// the earliest; so the selected prayer is the minimum such instant.
pub proof fn lemma_first_after_is_minimum(s: DailySchedule, now: Moment, i: int)
    requires
        s.wf(),
        is_first_after(s.times@, now, i),
    ensures
        forall|j: int| 0 <= j < 5 && #[trigger] s.times@[j].utc > now.utc ==> s.times@[i].utc <= s.times@[j].utc,
{
    assert forall|j: int| 0 <= j < 5 && #[trigger] s.times@[j].utc > now.utc implies s.times@[i].utc <= s.times@[j].utc by {
        if j < i {
            assert(s.times@[j].utc <= now.utc);
        } else if j > i {
            assert(s.times@[i].utc < s.times@[j].utc);
        }
    }
}

/// What the scheduler waits for next.
#[derive(Debug, Clone, Copy, PartialEq, Eq, Structural)]
pub enum NextEvent {
    /// The first prayer of today's schedule after "now", at its instant.
    Prayer(PrayerKind, Moment),
    /// All of today's prayers have passed: wake one second after the next
    /// local midnight.
    Rollover(Moment),
}

/// The instant a next event names.
pub open spec fn event_target(e: NextEvent) -> Moment {
    match e {
        NextEvent::Prayer(_, m) => m,
        NextEvent::Rollover(m) => m,
    }
}

/// Turns the local-time lookup of tomorrow's first second into a rollover
/// event: a unique instant gives `Rollover`, anything else is ambiguous.
pub fn rollover_event(found: Option<(i64, i32)>) -> (r: Result<NextEvent, ErrorKind>)
    ensures
        r == (match found {
            Some(p) => Ok(NextEvent::Rollover(Moment { utc: p.0, offset: p.1 })),
            None => Err(ErrorKind::AmbiguousLocalTime),
        }),
{
    match found {
        Some(p) => Ok(NextEvent::Rollover(Moment { utc: p.0, offset: p.1 })),
        None => Err(ErrorKind::AmbiguousLocalTime),
    }
}

/// Selects the next event: the first prayer strictly after `now`, or, when
/// all five have passed, the rollover at 00:00:01 local time of the next day.
pub fn next_event(s: &DailySchedule, now: Moment) -> (r: Result<NextEvent, ErrorKind>)
    requires
        s.wf(),
    ensures
        r matches Ok(NextEvent::Prayer(k, m)) ==> is_first_after(s.times@, now, kind_index(k)) && m == s.time_of(k),
        r matches Ok(NextEvent::Rollover(m)) ==> none_after(s.times@, now)
            && local_secs(m) == wall_secs(s.day + 1, 1),
        r matches Err(e) ==> none_after(s.times@, now) && e == ErrorKind::AmbiguousLocalTime,
        !none_after(s.times@, now) ==> r matches Ok(NextEvent::Prayer(_, _)),
{
    match select_next(s, now) {
        Some(k) => Ok(NextEvent::Prayer(k, s.times[k.index()])),
        None => {
            proof {
                if !none_after(s.times@, now) {
                    assert(false);
                }
            }
            let found = local_wall_instant((s.day + 1) as i32, 1);
            rollover_event(found)
        },
    }
}

/// The snapshot written once per cycle: five "HH:MM" local times and the
/// name of the next prayer.
#[derive(Debug, Clone)]
pub struct StatusRecord {
    pub fajr: String,
    pub dhuhr: String,
    pub asr: String,
    pub maghrib: String,
    pub isha: String,
    pub next: String,
}

impl StatusRecord {
    /// The five time fields, in canonical order.
    pub open spec fn fields(&self) -> Seq<Seq<char>> {
        seq![self.fajr@, self.dhuhr@, self.asr@, self.maghrib@, self.isha@]
    }
}

/// The "HH:MM" text of each instant of a schedule, in canonical order.
pub open spec fn status_times(t: Seq<Moment>) -> Seq<Seq<char>> {
    Seq::new(t.len(), |i: int| hhmm_text(minute_of_day(t[i])))
}

/// The name a status record gives the next event: the prayer's own, or
/// the first prayer of canonical order after a rollover.
pub open spec fn next_label(e: NextEvent) -> Seq<char> {
    match e {
        NextEvent::Prayer(k, _) => kind_name(k),
        NextEvent::Rollover(_) => kind_name(PrayerKind::Fajr),
    }
}

fn hhmm_of(m: Moment) -> (r: String)
    ensures
        r@ == hhmm_text(minute_of_day(m)),
{
    format_hhmm(minute_of(m))
}

/// Assembles the status record of a cycle.
pub fn status_record(s: &DailySchedule, e: NextEvent) -> (r: StatusRecord)
    ensures
        r.fields() == status_times(s.times@),
        r.next@ == next_label(e),
{
    let next = match e {
        NextEvent::Prayer(k, _) => k.name(),
        NextEvent::Rollover(_) => PrayerKind::Fajr.name(),
    };
    let r = StatusRecord {
        fajr: hhmm_of(s.times[0]),
        dhuhr: hhmm_of(s.times[1]),
        asr: hhmm_of(s.times[2]),
        maghrib: hhmm_of(s.times[3]),
        isha: hhmm_of(s.times[4]),
        next,
    };
    assert(r.fields() =~= status_times(s.times@));
    r
}

/// Each "HH:MM" field of a status record, parsed back and placed on the local
/// day of its source instant, gives that instant's local time to the minute.
pub proof fn lemma_status_round_trip(s: DailySchedule, r: StatusRecord)
    requires
        r.fields() == status_times(s.times@),
    ensures
        forall|i: int| 0 <= i < 5 ==> {
            let t = #[trigger] s.times@[i];
            &&& parse_hhmm_spec(r.fields()[i]) == Some(minute_of_day(t))
            &&& local_secs(t) - 60 < wall_secs(local_day_of(t), 60 * minute_of_day(t)) <= local_secs(t)
        },
{
    assert forall|i: int| 0 <= i < 5 implies {
        let t = #[trigger] s.times@[i];
        &&& parse_hhmm_spec(r.fields()[i]) == Some(minute_of_day(t))
        &&& local_secs(t) - 60 < wall_secs(local_day_of(t), 60 * minute_of_day(t)) <= local_secs(t)
    } by {
        let t = s.times@[i];
        lemma_minute_in_day(t);
        lemma_hhmm_round_trip(minute_of_day(t));
    }
}

proof fn lemma_minute_in_day(t: Moment)
    ensures
        0 <= minute_of_day(t) < 1440,
        local_secs(t) - 60 < wall_secs(local_day_of(t), 60 * minute_of_day(t)) <= local_secs(t),
{
    let x = local_secs(t);
    let d = x / 86400;
    let sod = x % 86400;
    vstd::arithmetic::div_mod::lemma_fundamental_div_mod(x, 86400);
    vstd::arithmetic::div_mod::lemma_mod_bound(x, 86400);
    let m = sod / 60;
    vstd::arithmetic::div_mod::lemma_fundamental_div_mod(sod, 60);
    vstd::arithmetic::div_mod::lemma_mod_bound(sod, 60);
    assert(local_day_of(t) - UNIX_EPOCH_DAY == d);
    assert(wall_secs(local_day_of(t), 60 * m) == d * 86400 + 60 * m);
    assert(0 <= m < 1440) by (nonlinear_arith)
        requires
            sod == 60 * m + sod % 60,
            0 <= sod % 60 < 60,
            0 <= sod < 86400,
    ;
}

} // verus!
