use std::cell::RefCell;

use islamic_prayer_times::calendar::CivilDate;
use islamic_prayer_times::geo::coordinates::{
    nearest_latitude, Coordinates, Elevation, Gmt, Latitude, Location, Longitude,
};
use islamic_prayer_times::geo::julian_day::JulianDay;
use islamic_prayer_times::geo::weather::{Pressure, Temperature, Weather};
use islamic_prayer_times::prayer_times::date::DateRange;
use islamic_prayer_times::prayer_times::ext_lat::{
    adj_for_ext_lat, at_latitude, nearest_good_day, test_fajr_isha, Hours, PrayerHour,
};
use islamic_prayer_times::prayer_times::hours::ClockTime;
use islamic_prayer_times::prayer_times::params::{ExtremeLatitudeMethod, Method, Params};
use islamic_prayer_times::prayer_times::{
    get_hours_adj_ext, get_imsaak, imsaak_fallback_params, imsaak_params, prayer_times_dt,
    prayer_times_dt_rng, Prayer, PrayerTime,
};
use islamic_prayer_times::units::{DEGREE, MS_PER_DAY, MS_PER_HOUR, MS_PER_MINUTE};

const H: i64 = MS_PER_HOUR;
const M: i64 = MS_PER_MINUTE;

fn date(y: i32, m: u32, d: u32) -> CivilDate {
    CivilDate::from_ymd_opt(y, m, d).unwrap()
}

fn juneau() -> Location {
    Location {
        coords: Coordinates::new(
            Latitude::new(58_301_944_400).unwrap(),
            Longitude::new(-134_419_722_200).unwrap(),
            Elevation::new(87_000).unwrap(),
        ),
        gmt: Gmt::new(-9 * H).unwrap(),
    }
}

fn time(hour: u32, minute: u32, extreme: bool) -> Result<PrayerTime, ()> {
    Ok(PrayerTime { time: ClockTime::from_hms_opt(hour, minute, 0).unwrap(), extreme })
}

// A solver for a make-believe world. Dawn comes four minutes earlier for each
// degree of the Fajr angle, and dusk as much later for the Isha angle. North
// of 50 degrees the twilight does not end from the day 150 of the year to the
// day 200.
fn solve(params: Params, julian_day: JulianDay, coords: Coordinates, _weather: Weather) -> Hours {
    let fajr_angle = params.angles.get(Prayer::Fajr);
    let isha_angle = params.angles.get(Prayer::Isha);
    let ordinal = julian_day.date.ordinal();
    let bright = coords.latitude.value() > 50 * DEGREE && (150..=200).contains(&ordinal);
    let day = ordinal as i64;
    Hours {
        fajr: if bright { Err(()) } else { Ok(6 * H - fajr_angle / DEGREE * 4 * M + day) },
        shurooq: Ok(7 * H + day),
        dhuhr: Ok(12 * H + day),
        asr: Ok(15 * H + day),
        maghrib: Ok(17 * H + day),
        isha: if bright { Err(()) } else { Ok(18 * H + isha_angle / DEGREE * 4 * M + day) },
    }
}

#[test]
fn the_times_of_a_day_are_the_adjusted_hours_on_the_clock() {
    let params = Params::new(Method::Isna);
    let times = prayer_times_dt(&params, juneau(), date(2023, 2, 6), None, &solve);
    assert_eq!(7, times.len());
    // 15 degrees are an hour; Imsaak is solved a degree and a half deeper,
    // which the make-believe solver takes for one degree.
    assert_eq!(time(4, 56, false), times.imsaak);
    assert_eq!(time(5, 0, false), times.fajr);
    assert_eq!(time(7, 0, false), times.shurooq);
    assert_eq!(time(12, 0, false), times.dhuhr);
    assert_eq!(time(15, 0, false), times.asr);
    assert_eq!(time(17, 0, false), times.maghrib);
    assert_eq!(time(19, 0, false), times.isha);
    assert_eq!(times.fajr, times.get(Prayer::Fajr));
    assert_eq!(times.imsaak, times.get(Prayer::Imsaak));
    assert_eq!(times.isha, times.get(Prayer::Isha));
}

#[test]
fn the_solver_gets_the_julian_day_the_place_and_the_weather() {
    let seen = RefCell::new(Vec::new());
    let spy = |params: Params, julian_day: JulianDay, coords: Coordinates, weather: Weather| {
        seen.borrow_mut().push((julian_day, coords, weather));
        solve(params, julian_day, coords, weather)
    };
    let params = Params::new(Method::Isna);
    prayer_times_dt(&params, juneau(), date(2023, 2, 6), None, &spy);
    let weather = Weather {
        pressure: Pressure::new(98_000).unwrap(),
        temperature: Temperature::new(-5_000).unwrap(),
    };
    prayer_times_dt(&params, juneau(), date(2023, 2, 6), Some(weather), &spy);
    let seen = seen.into_inner();
    // Each day is solved twice: once for the six prayers, once for Imsaak.
    assert_eq!(4, seen.len());
    let julian_day = JulianDay::new(date(2023, 2, 6), juneau().gmt);
    assert_eq!(2_459_981 * MS_PER_DAY + 21 * H, julian_day.value);
    for (i, (j, c, w)) in seen.iter().enumerate() {
        assert_eq!(julian_day, *j);
        assert_eq!(juneau().coords, *c);
        assert_eq!(if i < 2 { Weather::default() } else { weather }, *w);
    }
}

#[test]
fn imsaak_is_solved_with_widened_parameters() {
    let params = Params::new(Method::Isna);
    // No interval is set: the Fajr angle is widened by the Imsaak angle.
    let widened = imsaak_params(&params);
    assert_eq!(165 * DEGREE / 10, widened.angles.get(Prayer::Fajr));
    assert_eq!(params.intervals, widened.intervals);
    assert_eq!(params.minutes, widened.minutes);
    // An Imsaak interval is set: the Fajr offset goes back by it.
    let mut with_interval = params;
    with_interval.intervals.set(Prayer::Imsaak, 10 * M);
    let widened = imsaak_params(&with_interval);
    assert_eq!(-10 * M, widened.minutes.get(Prayer::Fajr));
    assert_eq!(with_interval.angles, widened.angles);
    assert_eq!(with_interval.intervals, widened.intervals);
    // Fajr is set by an interval: the interval is widened.
    let mut by_interval = params;
    by_interval.intervals.set(Prayer::Fajr, 80 * M);
    let widened = imsaak_params(&by_interval);
    assert_eq!(80 * M + 90_000, widened.intervals.get(Prayer::Fajr));
    assert_eq!(by_interval.minutes, widened.minutes);
    by_interval.intervals.set(Prayer::Imsaak, 10 * M);
    let widened = imsaak_params(&by_interval);
    assert_eq!(90 * M, widened.intervals.get(Prayer::Fajr));
    // The fallback moves the Fajr offset and nothing else.
    let fallback = imsaak_fallback_params(&params);
    assert_eq!(-90_000, fallback.minutes.get(Prayer::Fajr));
    assert_eq!(params.angles, fallback.angles);
    assert_eq!(params.intervals, fallback.intervals);
    let fallback = imsaak_fallback_params(&by_interval);
    assert_eq!(-10 * M, fallback.minutes.get(Prayer::Fajr));
    assert_eq!(by_interval.intervals, fallback.intervals);
}

#[test]
fn imsaak_follows_fajr_by_the_interval() {
    let julian_day = JulianDay::new(date(2023, 2, 6), juneau().gmt);
    let weather = Weather::default();
    let mut params = Params::new(Method::Isna);
    params.intervals.set(Prayer::Imsaak, 10 * M);
    let imsaak = get_imsaak(&params, julian_day, juneau().coords, weather, &solve);
    assert_eq!(time(4, 50, false), imsaak);
    // Fajr 80 minutes before Shurooq, Imsaak a minute and a half before it:
    // 5:38:30 and 37 milliseconds, which rounds up.
    let mut params = Params::new(Method::Isna);
    params.intervals.set(Prayer::Fajr, 80 * M);
    let imsaak = get_imsaak(&params, julian_day, juneau().coords, weather, &solve);
    assert_eq!(time(5, 39, false), imsaak);
    let times = prayer_times_dt(&params, juneau(), date(2023, 2, 6), None, &solve);
    assert_eq!(time(5, 40, false), times.fajr);
    assert_eq!(imsaak, times.imsaak);
}

#[test]
fn an_extreme_imsaak_is_the_extreme_fajr_moved_by_the_interval() {
    let summer = date(2023, 6, 20);
    let julian_day = JulianDay::new(summer, juneau().gmt);
    let weather = Weather::default();
    let mut params = Params::new(Method::Isna);
    params.extreme_latitude_method = ExtremeLatitudeMethod::SeventhOfNightFajrIshaInvalid;
    let hours = get_hours_adj_ext(&params, julian_day, juneau().coords, weather, &solve);
    // The night lasts fourteen hours, a seventh of it two.
    let day = 171;
    assert_eq!(Ok(PrayerHour { value: 5 * H + day, extreme: true }), hours.fajr);
    assert_eq!(Ok(PrayerHour { value: 19 * H + day, extreme: true }), hours.isha);
    let imsaak = get_imsaak(&params, julian_day, juneau().coords, weather, &solve);
    // A minute and a half before five: 4:58:30 and 171 milliseconds.
    assert_eq!(time(4, 59, true), imsaak);
    params.intervals.set(Prayer::Imsaak, 10 * M);
    let imsaak = get_imsaak(&params, julian_day, juneau().coords, weather, &solve);
    assert_eq!(time(4, 50, true), imsaak);
    let times = prayer_times_dt(&params, juneau(), summer, None, &solve);
    assert_eq!(time(4, 50, true), times.imsaak);
    assert_eq!(time(5, 0, true), times.fajr);
    assert_eq!(time(7, 0, false), times.shurooq);
    assert_eq!(time(19, 0, true), times.isha);
}

#[test]
fn a_missing_fajr_leaves_imsaak_missing() {
    let mut params = Params::new(Method::Isna);
    params.extreme_latitude_method = ExtremeLatitudeMethod::NoAdjustment;
    let times = prayer_times_dt(&params, juneau(), date(2023, 6, 20), None, &solve);
    assert_eq!(Err(()), times.imsaak);
    assert_eq!(Err(()), times.fajr);
    assert_eq!(Err(()), times.isha);
    assert_eq!(time(12, 0, false), times.dhuhr);
}

#[test]
fn the_nearest_latitude_is_solved_on_the_same_day() {
    let seen = RefCell::new(Vec::new());
    let spy = |params: Params, julian_day: JulianDay, coords: Coordinates, weather: Weather| {
        seen.borrow_mut().push((julian_day, coords));
        solve(params, julian_day, coords, weather)
    };
    let summer = JulianDay::new(date(2023, 6, 20), juneau().gmt);
    let mut params = Params::new(Method::Isna);
    params.extreme_latitude_method =
        ExtremeLatitudeMethod::NearestLatitudeFajrIshaInvalid(nearest_latitude());
    let hours = solve(params, summer, juneau().coords, Weather::default());
    let r = adj_for_ext_lat(&params, &hours, summer, juneau().coords, Weather::default(), &spy);
    let day = 171;
    assert_eq!(Ok(PrayerHour { value: 5 * H + day, extreme: true }), r.fajr);
    assert_eq!(Ok(PrayerHour { value: 19 * H + day, extreme: true }), r.isha);
    assert_eq!(Ok(PrayerHour { value: 7 * H + day, extreme: false }), r.shurooq);
    let there = at_latitude(juneau().coords, nearest_latitude());
    assert_eq!(nearest_latitude(), there.latitude);
    assert_eq!(juneau().coords.longitude, there.longitude);
    assert_eq!(juneau().coords.elevation, there.elevation);
    assert_eq!(vec![(summer, there)], seen.into_inner());
}

#[test]
fn the_nearest_good_day_is_searched_outwards_the_earlier_day_first() {
    let seen = RefCell::new(Vec::new());
    let spy = |params: Params, julian_day: JulianDay, coords: Coordinates, weather: Weather| {
        seen.borrow_mut().push(julian_day.date);
        solve(params, julian_day, coords, weather)
    };
    let params = Params::new(Method::Isna);
    // The day 152 of the year: the day 149 is the nearest good one.
    let start = JulianDay::new(date(2023, 6, 1), juneau().gmt);
    let found = nearest_good_day(&params, start, juneau().coords, Weather::default(), &spy);
    assert_eq!(Some(solve(params, start.sub(3), juneau().coords, Weather::default())), found);
    assert_eq!(Ok(5 * H + 149), found.unwrap().fajr);
    assert_eq!(
        vec![
            date(2023, 6, 1),
            date(2023, 6, 1),
            date(2023, 5, 31),
            date(2023, 6, 2),
            date(2023, 5, 30),
            date(2023, 6, 3),
            date(2023, 5, 29),
        ],
        seen.into_inner()
    );
    // The day 199 of the year: the day 201 is the nearest good one.
    let start = JulianDay::new(date(2023, 7, 18), juneau().gmt);
    let found = nearest_good_day(&params, start, juneau().coords, Weather::default(), &solve);
    assert_eq!(Ok(5 * H + 201), found.unwrap().fajr);
    // A good day is its own nearest good day.
    let start = JulianDay::new(date(2023, 2, 6), juneau().gmt);
    let found = nearest_good_day(&params, start, juneau().coords, Weather::default(), &solve);
    assert_eq!(Some(solve(params, start, juneau().coords, Weather::default())), found);
}

#[test]
fn the_search_ends_after_as_many_days_as_lie_before_in_the_year() {
    let seen = RefCell::new(0);
    let never = |_: Params, _: JulianDay, _: Coordinates, _: Weather| {
        *seen.borrow_mut() += 1;
        Hours {
            fajr: Err(()),
            shurooq: Ok(7 * H),
            dhuhr: Ok(12 * H),
            asr: Ok(15 * H),
            maghrib: Ok(17 * H),
            isha: Ok(19 * H),
        }
    };
    let params = Params::new(Method::Isna);
    let start = JulianDay::new(date(2023, 1, 10), juneau().gmt);
    let found = nearest_good_day(&params, start, juneau().coords, Weather::default(), &never);
    assert_eq!(None, found);
    // The days 0 to 10 before and after.
    assert_eq!(22, *seen.borrow());
    // Days outside the calendar are passed over.
    *seen.borrow_mut() = 0;
    let first = JulianDay::new(date(-262_143, 1, 3), juneau().gmt);
    let found = nearest_good_day(&params, first, juneau().coords, Weather::default(), &never);
    assert_eq!(None, found);
    assert_eq!(3 + 4, *seen.borrow());
    assert_eq!(
        None,
        test_fajr_isha(&params, juneau().coords, Weather::default(), start, &never)
    );
    assert_eq!(
        Some(solve(params, start, juneau().coords, Weather::default())),
        test_fajr_isha(&params, juneau().coords, Weather::default(), start, &solve)
    );
}

#[test]
fn the_default_method_takes_fajr_and_isha_from_the_nearest_good_day() {
    let params = Params::new(Method::Isna);
    let times = prayer_times_dt(&params, juneau(), date(2023, 6, 1), None, &solve);
    assert_eq!(time(5, 0, true), times.fajr);
    assert_eq!(time(19, 0, true), times.isha);
    assert_eq!(time(7, 0, false), times.shurooq);
    assert_eq!(time(12, 0, false), times.dhuhr);
    assert_eq!(time(15, 0, false), times.asr);
    assert_eq!(time(17, 0, false), times.maghrib);
    // Imsaak is extreme under the widened angle, so it is the extreme Fajr a
    // minute and a half earlier.
    assert_eq!(time(4, 59, true), times.imsaak);
    let mut all = params;
    all.extreme_latitude_method = ExtremeLatitudeMethod::NearestGoodDayAllPrayersAlways;
    let times = prayer_times_dt(&all, juneau(), date(2023, 2, 6), None, &solve);
    for prayer in [
        Prayer::Fajr,
        Prayer::Shurooq,
        Prayer::Dhuhr,
        Prayer::Asr,
        Prayer::Maghrib,
        Prayer::Isha,
    ] {
        assert!(times.get(prayer).unwrap().extreme);
    }
    assert_eq!(time(5, 0, true), times.fajr);
    assert_eq!(time(17, 0, true), times.maghrib);
}

#[test]
fn the_times_of_a_range_are_those_of_its_days_in_order() {
    let params = Params::new(Method::Isna);
    let range = DateRange::new(date(2023, 2, 27), date(2023, 3, 2));
    let times = prayer_times_dt_rng(&params, juneau(), &range, &solve);
    let dates: Vec<CivilDate> = times.iter().map(|(d, _)| *d).collect();
    assert_eq!(
        vec![date(2023, 2, 27), date(2023, 2, 28), date(2023, 3, 1), date(2023, 3, 2)],
        dates
    );
    for (d, t) in times.iter() {
        assert_eq!(prayer_times_dt(&params, juneau(), *d, None, &solve), *t);
    }
    let empty = DateRange::new(date(2023, 3, 2), date(2023, 2, 27));
    assert!(prayer_times_dt_rng(&params, juneau(), &empty, &solve).is_empty());
    let one = DateRange::new(date(2023, 3, 2), date(2023, 3, 2));
    assert_eq!(1, prayer_times_dt_rng(&params, juneau(), &one, &solve).len());
}
