use islamic_prayer_times::prayer_times::hours::{
    clock_time, hour_to_time, round_secs, seconds_rule, ClockTime, SecondsRule,
    AGGRESSIVE_ROUND_SEC, DEF_ROUND_SEC,
};
use islamic_prayer_times::prayer_times::params::{Method, Params, RoundSeconds};
use islamic_prayer_times::prayer_times::{to_prayer_time, Prayer, PrayerTime};
use islamic_prayer_times::prayer_times::ext_lat::PrayerHour;
use islamic_prayer_times::units::{MS_PER_DAY, MS_PER_HOUR, MS_PER_MINUTE, MS_PER_SECOND};

fn at(hour: i64, minute: i64, second: i64, milli: i64) -> i64 {
    hour * MS_PER_HOUR + minute * MS_PER_MINUTE + second * MS_PER_SECOND + milli
}

fn hms(hour: u32, minute: u32, second: u32) -> ClockTime {
    ClockTime::from_hms_opt(hour, minute, second).unwrap()
}

const ALL: [Prayer; 7] = [
    Prayer::Imsaak,
    Prayer::Fajr,
    Prayer::Shurooq,
    Prayer::Dhuhr,
    Prayer::Asr,
    Prayer::Maghrib,
    Prayer::Isha,
];

#[test]
fn clock_time_has_hour_minute_and_second_in_range() {
    assert!(ClockTime::from_hms_opt(0, 0, 0).is_some());
    assert!(ClockTime::from_hms_opt(23, 59, 59).is_some());
    assert!(ClockTime::from_hms_opt(24, 0, 0).is_none());
    assert!(ClockTime::from_hms_opt(23, 60, 0).is_none());
    assert!(ClockTime::from_hms_opt(23, 59, 60).is_none());
    let t = hms(17, 36, 5);
    assert_eq!((17, 36, 5), (t.hour(), t.minute(), t.second()));
}

#[test]
fn special_rounding_rounds_the_five_prayers_from_thirty_seconds() {
    let params = Params::new(Method::Isna);
    assert_eq!(RoundSeconds::SpecialRounding, params.round_seconds);
    for prayer in [Prayer::Fajr, Prayer::Dhuhr, Prayer::Asr, Prayer::Maghrib, Prayer::Isha] {
        assert_eq!(hms(5, 55, 0), hour_to_time(&params, prayer, at(5, 55, 29, 999)));
        assert_eq!(hms(5, 56, 0), hour_to_time(&params, prayer, at(5, 55, 30, 0)));
        assert_eq!(hms(6, 0, 0), hour_to_time(&params, prayer, at(5, 59, 59, 999)));
        assert_eq!(hms(5, 55, 0), hour_to_time(&params, prayer, at(5, 55, 0, 0)));
    }
}

#[test]
fn special_and_aggressive_rounding_cut_the_seconds_of_shurooq_and_imsaak() {
    for round_seconds in [RoundSeconds::SpecialRounding, RoundSeconds::AggressiveRounding] {
        let mut params = Params::new(Method::Isna);
        params.round_seconds = round_seconds;
        for prayer in [Prayer::Shurooq, Prayer::Imsaak] {
            assert_eq!(hms(7, 10, 0), hour_to_time(&params, prayer, at(7, 10, 59, 999)));
            assert_eq!(hms(7, 10, 0), hour_to_time(&params, prayer, at(7, 10, 30, 0)));
            assert_eq!(hms(7, 10, 0), hour_to_time(&params, prayer, at(7, 10, 0, 0)));
        }
    }
}

#[test]
fn aggressive_rounding_rounds_the_five_prayers_from_one_second() {
    let mut params = Params::new(Method::Isna);
    params.round_seconds = RoundSeconds::AggressiveRounding;
    for prayer in [Prayer::Fajr, Prayer::Dhuhr, Prayer::Asr, Prayer::Maghrib, Prayer::Isha] {
        assert_eq!(hms(5, 55, 0), hour_to_time(&params, prayer, at(5, 55, 0, 999)));
        assert_eq!(hms(5, 56, 0), hour_to_time(&params, prayer, at(5, 55, 1, 0)));
        assert_eq!(hms(5, 56, 0), hour_to_time(&params, prayer, at(5, 55, 59, 0)));
    }
}

#[test]
fn normal_rounding_rounds_every_prayer_from_thirty_seconds() {
    let mut params = Params::new(Method::Isna);
    params.round_seconds = RoundSeconds::NormalRounding;
    for prayer in ALL {
        assert_eq!(hms(7, 10, 0), hour_to_time(&params, prayer, at(7, 10, 29, 999)));
        assert_eq!(hms(7, 11, 0), hour_to_time(&params, prayer, at(7, 10, 30, 0)));
    }
}

#[test]
fn no_rounding_keeps_the_whole_seconds() {
    let mut params = Params::new(Method::Isna);
    params.round_seconds = RoundSeconds::NoRounding;
    for prayer in ALL {
        assert_eq!(hms(7, 10, 59), hour_to_time(&params, prayer, at(7, 10, 59, 999)));
        assert_eq!(hms(7, 10, 30), hour_to_time(&params, prayer, at(7, 10, 30, 0)));
        assert_eq!(hms(0, 0, 0), hour_to_time(&params, prayer, 999));
    }
}

#[test]
fn hours_outside_the_day_wrap_round_the_clock() {
    let mut params = Params::new(Method::Isna);
    params.round_seconds = RoundSeconds::NoRounding;
    assert_eq!(hms(23, 59, 59), hour_to_time(&params, Prayer::Fajr, -1));
    assert_eq!(hms(23, 48, 0), hour_to_time(&params, Prayer::Isha, -12 * MS_PER_MINUTE));
    assert_eq!(hms(0, 5, 0), hour_to_time(&params, Prayer::Isha, MS_PER_DAY + 5 * MS_PER_MINUTE));
    assert_eq!(hms(0, 0, 0), hour_to_time(&params, Prayer::Isha, MS_PER_DAY));
    assert_eq!(hms(12, 0, 0), hour_to_time(&params, Prayer::Dhuhr, -5 * MS_PER_DAY / 2));
    assert_eq!(hms(6, 30, 15), hour_to_time(&params, Prayer::Fajr, at(6, 30, 15, 0) - 3 * MS_PER_DAY));
    params.round_seconds = RoundSeconds::SpecialRounding;
    // A second before midnight rounds up to midnight.
    assert_eq!(hms(0, 0, 0), hour_to_time(&params, Prayer::Fajr, -1));
    assert_eq!(hms(0, 0, 0), hour_to_time(&params, Prayer::Isha, at(23, 59, 30, 0)));
    assert_eq!(hms(23, 59, 0), hour_to_time(&params, Prayer::Shurooq, -1));
}

#[test]
fn the_offset_of_the_prayer_is_added_before_rounding() {
    let mut params = Params::new(Method::Isna);
    params.minutes.set(Prayer::Fajr, MS_PER_MINUTE);
    params.minutes.set(Prayer::Isha, -90 * MS_PER_SECOND);
    assert_eq!(hms(5, 57, 0), hour_to_time(&params, Prayer::Fajr, at(5, 55, 31, 0)));
    assert_eq!(hms(18, 49, 0), hour_to_time(&params, Prayer::Isha, at(18, 50, 0, 0)));
    assert_eq!(hms(18, 50, 0), hour_to_time(&params, Prayer::Maghrib, at(18, 50, 0, 0)));
    params.minutes.set(Prayer::Shurooq, -at(7, 10, 0, 1));
    assert_eq!(hms(23, 59, 0), hour_to_time(&params, Prayer::Shurooq, at(7, 10, 0, 0)));
}

#[test]
fn seconds_rule_of_each_policy() {
    for prayer in ALL {
        assert_eq!(SecondsRule::Keep, seconds_rule(RoundSeconds::NoRounding, prayer));
        assert_eq!(
            SecondsRule::RoundFrom(DEF_ROUND_SEC),
            seconds_rule(RoundSeconds::NormalRounding, prayer)
        );
    }
    assert_eq!(SecondsRule::Cut, seconds_rule(RoundSeconds::SpecialRounding, Prayer::Shurooq));
    assert_eq!(SecondsRule::Cut, seconds_rule(RoundSeconds::AggressiveRounding, Prayer::Imsaak));
    assert_eq!(
        SecondsRule::RoundFrom(30_000),
        seconds_rule(RoundSeconds::SpecialRounding, Prayer::Asr)
    );
    assert_eq!(
        SecondsRule::RoundFrom(AGGRESSIVE_ROUND_SEC),
        seconds_rule(RoundSeconds::AggressiveRounding, Prayer::Asr)
    );
    assert_eq!(1_000, AGGRESSIVE_ROUND_SEC);
}

#[test]
fn round_secs_adds_a_minute_from_the_cap() {
    assert_eq!(at(5, 55, 29, 999), round_secs(at(5, 55, 29, 999), 30_000));
    assert_eq!(at(5, 56, 30, 0), round_secs(at(5, 55, 30, 0), 30_000));
    assert_eq!(at(24, 0, 59, 999), round_secs(at(23, 59, 59, 999), 1_000));
    assert_eq!(0, round_secs(0, 1_000));
    assert_eq!(MS_PER_MINUTE, round_secs(0, 0));
}

#[test]
fn clock_time_reads_the_instant_off_under_the_rule() {
    assert_eq!(hms(23, 59, 59), clock_time(at(23, 59, 59, 999), SecondsRule::Keep));
    assert_eq!(hms(23, 59, 0), clock_time(at(23, 59, 59, 999), SecondsRule::Cut));
    assert_eq!(hms(0, 0, 0), clock_time(at(23, 59, 59, 999), SecondsRule::RoundFrom(30_000)));
    assert_eq!(hms(16, 47, 4), clock_time(i64::MIN, SecondsRule::Keep));
    assert_eq!(hms(7, 12, 55), clock_time(i64::MAX, SecondsRule::Keep));
    assert_eq!(
        clock_time(i64::MAX - MS_PER_DAY, SecondsRule::Keep),
        clock_time(i64::MAX, SecondsRule::Keep)
    );
}

#[test]
fn prayer_time_carries_the_extreme_flag_and_has_a_text() {
    let params = Params::new(Method::Isna);
    let fajr = to_prayer_time(&params, Prayer::Fajr, PrayerHour::new(at(5, 55, 40, 0)));
    assert_eq!(PrayerTime { time: hms(5, 56, 0), extreme: false }, fajr);
    assert_eq!(" 5:56 AM", fajr.to_string());
    let isha = to_prayer_time(&params, Prayer::Isha, PrayerHour::new_extreme(at(23, 47, 31, 0)));
    assert_eq!(PrayerTime { time: hms(23, 48, 0), extreme: true }, isha);
    assert_eq!("11:48 PM (extreme)", isha.to_string());
    assert_eq!("12:23 PM", hms(12, 23, 0).to_string());
    assert_eq!("12:05 AM", hms(0, 5, 59).to_string());
    assert_eq!(" 1:00 PM", hms(13, 0, 0).to_string());
    assert_eq!("10:09 AM", hms(10, 9, 0).to_string());
}
