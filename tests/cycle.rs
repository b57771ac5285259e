use chrono::Datelike;
use waktu_sholat::error::ErrorKind;
use waktu_sholat::prayer::PrayerKind;
use waktu_sholat::schedule::{next_event, rollover_event, schedule_from_utc, select_next, status_record, DailySchedule, NextEvent};
use waktu_sholat::scheduler::{clock_for, override_at, override_moment, plan_cycle, run_cycle, Clock};
use waktu_sholat::time::{local_day, Moment};

/// What salah computes for Singapore's coordinates on a day of the common era.
fn singapore_utc(day: i64) -> [i64; 5] {
    let date = chrono::NaiveDate::from_num_days_from_ce_opt(day as i32).unwrap();
    let config = salah::Configuration::with(salah::Method::Singapore, salah::Madhab::Shafi);
    let t = salah::PrayerSchedule::new()
        .on(date)
        .for_location(salah::Coordinates::new(1.35, 103.8))
        .with_configuration(config)
        .calculate()
        .unwrap();
    [salah::Prayer::Fajr, salah::Prayer::Dhuhr, salah::Prayer::Asr, salah::Prayer::Maghrib, salah::Prayer::Isha]
        .map(|p| t.time(p).timestamp())
}

fn june_first() -> i64 {
    chrono::NaiveDate::from_ymd_opt(2024, 6, 1).unwrap().num_days_from_ce() as i64
}

/// Instant of a local wall time on 2024-06-01 at UTC+8.
fn singapore(hour: i64, minute: i64) -> Moment {
    let midnight_utc = 1717200000 - 28800;
    Moment { utc: midnight_utc + hour * 3600 + minute * 60, offset: 28800 }
}

fn sample_schedule() -> DailySchedule {
    let times = [
        Moment { utc: 100, offset: 0 },
        Moment { utc: 200, offset: 0 },
        Moment { utc: 300, offset: 0 },
        Moment { utc: 400, offset: 0 },
        Moment { utc: 500, offset: 0 },
    ];
    DailySchedule::from_instants(739038, times).unwrap()
}

#[test]
fn schedule_refuses_unordered_instants() {
    let mut times = sample_schedule().times;
    times[3] = Moment { utc: 300, offset: 0 };
    assert_eq!(DailySchedule::from_instants(739038, times).err(), Some(ErrorKind::CalculationError));
    assert_eq!(DailySchedule::from_instants(0, sample_schedule().times).err(), Some(ErrorKind::CalculationError));
}

#[test]
fn next_is_first_instant_strictly_after_now() {
    let s = sample_schedule();
    assert_eq!(select_next(&s, Moment { utc: 0, offset: 0 }), Some(PrayerKind::Fajr));
    assert_eq!(select_next(&s, Moment { utc: 100, offset: 0 }), Some(PrayerKind::Dhuhr));
    assert_eq!(select_next(&s, Moment { utc: 350, offset: 0 }), Some(PrayerKind::Maghrib));
    assert_eq!(select_next(&s, Moment { utc: 499, offset: 0 }), Some(PrayerKind::Isha));
    assert_eq!(select_next(&s, Moment { utc: 500, offset: 0 }), None);
}

#[test]
fn next_event_names_the_prayer_instant() {
    let s = sample_schedule();
    let e = next_event(&s, Moment { utc: 250, offset: 0 });
    assert_eq!(e, Ok(NextEvent::Prayer(PrayerKind::Asr, Moment { utc: 300, offset: 0 })));
}

#[test]
fn rollover_needs_a_unique_local_instant() {
    assert_eq!(rollover_event(None), Err(ErrorKind::AmbiguousLocalTime));
    assert_eq!(rollover_event(Some((86401, 0))), Ok(NextEvent::Rollover(Moment { utc: 86401, offset: 0 })));
}

#[test]
fn after_isha_the_event_is_the_rollover() {
    let s = sample_schedule();
    match next_event(&s, Moment { utc: 600, offset: 0 }) {
        Ok(NextEvent::Rollover(m)) => {
            assert_eq!(m.utc as i64 + m.offset as i64, (739039 - 719163) * 86400 + 1);
        }
        other => panic!("unexpected event {:?}", other),
    }
}

#[test]
fn status_record_formats_each_instant() {
    let times = [
        Moment { utc: 5 * 3600 + 38 * 60, offset: 0 },
        Moment { utc: 13 * 3600 + 5 * 60, offset: 0 },
        Moment { utc: 16 * 3600 + 29 * 60, offset: 0 },
        Moment { utc: 18 * 3600 + 8 * 60, offset: 3600 },
        Moment { utc: 20 * 3600 + 23 * 60, offset: 0 },
    ];
    let s = DailySchedule::from_instants(719163, times).unwrap();
    let r = status_record(&s, NextEvent::Prayer(PrayerKind::Asr, times[2]));
    assert_eq!(r.fajr, "05:38");
    assert_eq!(r.dhuhr, "13:05");
    assert_eq!(r.asr, "16:29");
    assert_eq!(r.maghrib, "19:08");
    assert_eq!(r.isha, "20:23");
    assert_eq!(r.next, "Asr");
}

#[test]
fn status_after_rollover_names_fajr() {
    let s = sample_schedule();
    let r = status_record(&s, NextEvent::Rollover(Moment { utc: 90000, offset: 0 }));
    assert_eq!(r.next, "Fajr");
}

#[test]
fn plan_for_prayer_waits_notifies_and_cools_down() {
    let s = sample_schedule();
    let now = Moment { utc: 150, offset: 0 };
    let e = NextEvent::Prayer(PrayerKind::Dhuhr, s.times[1]);
    let p = plan_cycle(s, now, e, true);
    assert_eq!(p.wait_secs, 50);
    assert_eq!(p.notify, Some(PrayerKind::Dhuhr));
    assert_eq!(p.cooldown_secs, 1);
    assert!(p.stop_after);
    assert_eq!(p.status.next, "Dhuhr");
}

#[test]
fn plan_for_rollover_does_not_notify() {
    let s = sample_schedule();
    let now = Moment { utc: 600, offset: 0 };
    let p = plan_cycle(s, now, NextEvent::Rollover(Moment { utc: 86401, offset: 0 }), false);
    assert_eq!(p.wait_secs, 85801);
    assert_eq!(p.notify, None);
    assert_eq!(p.cooldown_secs, 0);
    assert!(!p.stop_after);
}

#[test]
fn plan_with_past_target_waits_zero() {
    let s = sample_schedule();
    let p = plan_cycle(s, Moment { utc: 450, offset: 0 }, NextEvent::Prayer(PrayerKind::Maghrib, s.times[3]), false);
    assert_eq!(p.wait_secs, 0);
}

#[test]
fn fixed_clock_returns_its_instant_and_runs_once() {
    let m = Moment { utc: 42, offset: 3600 };
    assert_eq!(Clock::Fixed(m).now(), m);
    assert!(Clock::Fixed(m).is_single_shot());
    assert!(!Clock::Real.is_single_shot());
}

#[test]
fn override_text_must_be_hhmm() {
    assert_eq!(override_moment(739038, "25:00"), Err(ErrorKind::ConfigurationError));
    assert_eq!(override_moment(739038, "4am"), Err(ErrorKind::ConfigurationError));
    assert_ne!(clock_for(Some("4:00")), Err(ErrorKind::ConfigurationError));
    assert_eq!(clock_for(Some("bad")), Err(ErrorKind::ConfigurationError));
    assert_eq!(clock_for(None), Ok(Clock::Real));
}

#[test]
fn override_lands_on_the_local_wall_time() {
    match override_moment(739038, "12:34") {
        Ok(m) => {
            let wall = (739038 - 719163) * 86400 + 12 * 3600 + 34 * 60;
            assert_eq!(m.utc + m.offset as i64, wall);
        }
        Err(e) => assert_eq!(e, ErrorKind::AmbiguousLocalTime),
    }
    match clock_for(Some("12:34")) {
        Ok(Clock::Fixed(m)) => assert_eq!((m.utc + m.offset as i64).rem_euclid(86400), 12 * 3600 + 34 * 60),
        other => assert_eq!(other, Err(ErrorKind::AmbiguousLocalTime)),
    }
}

#[test]
fn days_out_of_range_are_calculation_errors() {
    let utc = [100, 200, 300, 400, 500];
    assert_eq!(schedule_from_utc(0, utc).err(), Some(ErrorKind::CalculationError));
    assert_eq!(schedule_from_utc(5_000_000, utc).err(), Some(ErrorKind::CalculationError));
    let far = Moment { utc: 400_000_000_000, offset: 0 };
    assert_eq!(run_cycle(far, Some(utc), true).err(), Some(ErrorKind::CalculationError));
}

#[test]
fn missing_or_unordered_provider_times_are_calculation_errors() {
    let now = singapore(4, 0);
    assert_eq!(run_cycle(now, None, true).err(), Some(ErrorKind::CalculationError));
    let unordered = [1717192000, 1717191000, 1717230000, 1717240000, 1717250000];
    assert_eq!(run_cycle(now, Some(unordered), true).err(), Some(ErrorKind::CalculationError));
    assert_eq!(schedule_from_utc(june_first(), [5, 5, 6, 7, 8]).err(), Some(ErrorKind::CalculationError));
}

#[test]
fn schedule_keeps_the_provider_instants() {
    let utc = [100, 200, 300, 400, 500];
    let s = schedule_from_utc(739038, utc).unwrap();
    for i in 0..5 {
        assert_eq!(s.times[i].utc, utc[i]);
    }
    assert_eq!(s.day, 739038);
}

#[test]
fn singapore_schedule_is_ordered_and_repeatable() {
    let a = schedule_from_utc(june_first(), singapore_utc(june_first())).unwrap();
    let b = schedule_from_utc(june_first(), singapore_utc(june_first())).unwrap();
    for i in 0..4 {
        assert!(a.times[i].utc < a.times[i + 1].utc);
    }
    for i in 0..5 {
        assert_eq!(a.times[i].utc, b.times[i].utc);
        assert_eq!(a.times[i].utc % 60, 0);
    }
    assert_eq!(a.day, june_first());
}

#[test]
fn before_dawn_the_next_prayer_is_fajr() {
    let now = singapore(4, 0);
    assert_eq!(local_day(now), june_first());
    let p = run_cycle(now, Some(singapore_utc(june_first())), true).unwrap();
    assert_eq!(p.status.next, "Fajr");
    assert_eq!(p.notify, Some(PrayerKind::Fajr));
    match p.event {
        NextEvent::Prayer(k, m) => {
            assert_eq!(k, PrayerKind::Fajr);
            assert_eq!(p.wait_secs as i64, m.utc - now.utc);
        }
        NextEvent::Rollover(_) => panic!("expected a prayer"),
    }
    for f in [&p.status.fajr, &p.status.dhuhr, &p.status.asr, &p.status.maghrib, &p.status.isha] {
        assert_eq!(f.len(), 5);
    }
    for i in 0..4 {
        assert!(p.schedule.times[i].utc < p.schedule.times[i + 1].utc);
    }
    assert!(p.stop_after);
}

#[test]
fn after_isha_the_cycle_waits_for_the_rollover() {
    let now = singapore(23, 50);
    match run_cycle(now, Some(singapore_utc(june_first())), true) {
        Ok(p) => {
            assert_eq!(p.notify, None);
            assert_eq!(p.cooldown_secs, 0);
            assert_eq!(p.status.next, "Fajr");
            assert!(p.stop_after);
            match p.event {
                NextEvent::Rollover(m) => {
                    assert_eq!(m.utc + m.offset as i64, (june_first() + 1 - 719163) * 86400 + 1);
                    assert_eq!(p.wait_secs as i64, (m.utc - now.utc).max(0));
                }
                NextEvent::Prayer(..) => panic!("expected the rollover"),
            }
        }
        Err(e) => assert_eq!(e, ErrorKind::AmbiguousLocalTime),
    }
}

#[test]
fn override_minute_must_lie_in_the_day() {
    assert_eq!(override_at(739038, None), Err(ErrorKind::ConfigurationError));
    assert_eq!(override_at(739038, Some(1440)), Err(ErrorKind::ConfigurationError));
    assert_eq!(override_at(i64::MAX, Some(0)), Err(ErrorKind::AmbiguousLocalTime));
    assert_eq!(override_moment(i64::MAX, "04:00"), Err(ErrorKind::AmbiguousLocalTime));
}

#[test]
fn prayer_names_and_alert_text() {
    assert_eq!(PrayerKind::Maghrib.name(), "Maghrib");
    assert_eq!(PrayerKind::at(4), PrayerKind::Isha);
    assert_eq!(PrayerKind::Asr.index(), 2);
    assert_eq!(PrayerKind::Isha.notification_summary(), "Waktu Sholat Isha");
    assert_eq!(PrayerKind::Dhuhr.notification_body(), "Saatnya menunaikan sholat Dhuhr");
}
