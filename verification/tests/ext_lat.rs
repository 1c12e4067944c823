use islamic_prayer_times::geo::coordinates::{nearest_latitude, Latitude};
use islamic_prayer_times::prayer_times::ext_lat::{
    adj_for_int, adj_min_always, adj_min_inv, adj_near_good, adj_near_lat, adj_sev_half, adjust,
    angle_based, can_adj, has_inv_hours, holds_intervals, is_ext_lat_always, is_good_day,
    method_step, portion_of, substitute_for, unadjusted, Hours, PrayerHour, PrayerHours,
    Substitute,
};
use islamic_prayer_times::prayer_times::params::{ExtremeLatitudeMethod, Method, Params};
use islamic_prayer_times::prayer_times::Prayer;
use islamic_prayer_times::units::{DEGREE, MS_PER_HOUR, MS_PER_MINUTE};

const H: i64 = MS_PER_HOUR;
const M: i64 = MS_PER_MINUTE;

// A day of high summer far in the north: the Sun rises at three and sets at
// nine in the evening, and the twilight never ends.
fn summer() -> Hours {
    Hours {
        fajr: Err(()),
        shurooq: Ok(3 * H),
        dhuhr: Ok(12 * H),
        asr: Ok(16 * H),
        maghrib: Ok(21 * H),
        isha: Err(()),
    }
}

// A day on which every hour is solved.
fn winter() -> Hours {
    Hours {
        fajr: Ok(6 * H),
        shurooq: Ok(8 * H),
        dhuhr: Ok(12 * H),
        asr: Ok(14 * H),
        maghrib: Ok(16 * H),
        isha: Ok(18 * H),
    }
}

// The hours of a substitute: another latitude, or another day.
fn substitute() -> Hours {
    Hours {
        fajr: Ok(2 * H + 1),
        shurooq: Ok(4 * H + 2),
        dhuhr: Ok(12 * H + 3),
        asr: Ok(16 * H + 4),
        maghrib: Ok(20 * H + 5),
        isha: Ok(22 * H + 6),
    }
}

fn plain(value: i64) -> Result<PrayerHour, ()> {
    Ok(PrayerHour { value, extreme: false })
}

fn extreme(value: i64) -> Result<PrayerHour, ()> {
    Ok(PrayerHour { value, extreme: true })
}

fn with_method(method: ExtremeLatitudeMethod) -> Params {
    let mut params = Params::new(Method::Isna);
    params.extreme_latitude_method = method;
    params
}

fn all_methods() -> Vec<ExtremeLatitudeMethod> {
    let l = nearest_latitude();
    vec![
        ExtremeLatitudeMethod::NoAdjustment,
        ExtremeLatitudeMethod::AngleBased,
        ExtremeLatitudeMethod::NearestLatitudeAllPrayersAlways(l),
        ExtremeLatitudeMethod::NearestLatitudeFajrIshaAlways(l),
        ExtremeLatitudeMethod::NearestLatitudeFajrIshaInvalid(l),
        ExtremeLatitudeMethod::NearestGoodDayAllPrayersAlways,
        ExtremeLatitudeMethod::NearestGoodDayFajrIshaInvalid,
        ExtremeLatitudeMethod::SeventhOfNightFajrIshaAlways,
        ExtremeLatitudeMethod::SeventhOfNightFajrIshaInvalid,
        ExtremeLatitudeMethod::SeventhOfDayFajrIshaAlways,
        ExtremeLatitudeMethod::SeventhOfDayFajrIshaInvalid,
        ExtremeLatitudeMethod::HalfOfNightFajrIshaAlways,
        ExtremeLatitudeMethod::HalfOfNightFajrIshaInvalid,
        ExtremeLatitudeMethod::MinutesFromMaghribFajrIshaAlways,
        ExtremeLatitudeMethod::MinutesFromMaghribFajrIshaInvalid,
    ]
}

fn is_invalid_only(method: ExtremeLatitudeMethod) -> bool {
    matches!(
        method,
        ExtremeLatitudeMethod::NearestLatitudeFajrIshaInvalid(_)
            | ExtremeLatitudeMethod::NearestGoodDayFajrIshaInvalid
            | ExtremeLatitudeMethod::SeventhOfNightFajrIshaInvalid
            | ExtremeLatitudeMethod::SeventhOfDayFajrIshaInvalid
            | ExtremeLatitudeMethod::HalfOfNightFajrIshaInvalid
            | ExtremeLatitudeMethod::MinutesFromMaghribFajrIshaInvalid
    )
}

const SIX: [Prayer; 6] = [
    Prayer::Fajr,
    Prayer::Shurooq,
    Prayer::Dhuhr,
    Prayer::Asr,
    Prayer::Maghrib,
    Prayer::Isha,
];

#[test]
fn prayer_hour_is_plain_or_extreme() {
    assert_eq!(PrayerHour { value: 7, extreme: false }, PrayerHour::new(7));
    assert_eq!(PrayerHour { value: 7, extreme: true }, PrayerHour::new_extreme(7));
}

#[test]
fn unadjusted_hours_are_the_solved_hours() {
    let hours = unadjusted(&summer());
    assert_eq!(Err(()), hours.fajr);
    assert_eq!(plain(3 * H), hours.shurooq);
    assert_eq!(plain(12 * H), hours.dhuhr);
    assert_eq!(plain(16 * H), hours.asr);
    assert_eq!(plain(21 * H), hours.maghrib);
    assert_eq!(Err(()), hours.isha);
    for prayer in SIX {
        assert_eq!(hours.get(prayer), summer().get(prayer).map(PrayerHour::new));
    }
}

#[test]
fn a_method_is_applied_for_a_missing_hour_or_always() {
    assert!(has_inv_hours(&summer()));
    assert!(!has_inv_hours(&winter()));
    // A missing Asr alone does not count.
    assert!(!has_inv_hours(&Hours { asr: Err(()), ..winter() }));
    assert!(has_inv_hours(&Hours { shurooq: Err(()), ..winter() }));
    assert!(has_inv_hours(&Hours { maghrib: Err(()), ..winter() }));
    for method in all_methods() {
        let always = !is_invalid_only(method)
            && method != ExtremeLatitudeMethod::NoAdjustment
            && method != ExtremeLatitudeMethod::AngleBased;
        assert_eq!(always, is_ext_lat_always(method));
        assert_eq!(method != ExtremeLatitudeMethod::NoAdjustment, can_adj(&summer(), method));
        assert_eq!(always, can_adj(&winter(), method));
    }
    assert!(is_good_day(&winter()));
    assert!(!is_good_day(&summer()));
    assert!(!is_good_day(&Hours { isha: Err(()), ..winter() }));
    assert!(is_good_day(&Hours { shurooq: Err(()), ..winter() }));
}

#[test]
fn the_substitute_that_a_method_needs() {
    let l = Latitude::new(50 * DEGREE).unwrap();
    assert_eq!(
        Substitute::NearestLatitude(l),
        substitute_for(&summer(), ExtremeLatitudeMethod::NearestLatitudeFajrIshaInvalid(l))
    );
    assert_eq!(
        Substitute::NotNeeded,
        substitute_for(&winter(), ExtremeLatitudeMethod::NearestLatitudeFajrIshaInvalid(l))
    );
    assert_eq!(
        Substitute::NearestLatitude(l),
        substitute_for(&winter(), ExtremeLatitudeMethod::NearestLatitudeAllPrayersAlways(l))
    );
    assert_eq!(
        Substitute::NearestLatitude(l),
        substitute_for(&winter(), ExtremeLatitudeMethod::NearestLatitudeFajrIshaAlways(l))
    );
    assert_eq!(
        Substitute::NearestGoodDay,
        substitute_for(&summer(), ExtremeLatitudeMethod::NearestGoodDayFajrIshaInvalid)
    );
    assert_eq!(
        Substitute::NotNeeded,
        substitute_for(&winter(), ExtremeLatitudeMethod::NearestGoodDayFajrIshaInvalid)
    );
    assert_eq!(
        Substitute::NearestGoodDay,
        substitute_for(&winter(), ExtremeLatitudeMethod::NearestGoodDayAllPrayersAlways)
    );
    assert_eq!(
        Substitute::NotNeeded,
        substitute_for(&summer(), ExtremeLatitudeMethod::SeventhOfNightFajrIshaAlways)
    );
    assert_eq!(Substitute::NotNeeded, substitute_for(&summer(), ExtremeLatitudeMethod::NoAdjustment));
    assert_eq!(Substitute::NotNeeded, substitute_for(&summer(), ExtremeLatitudeMethod::AngleBased));
}

#[test]
fn angle_based_takes_a_sixtieth_of_the_night_per_degree() {
    let params = with_method(ExtremeLatitudeMethod::AngleBased);
    // The night lasts six hours; 15 degrees are a quarter of it.
    let r = angle_based(&params, unadjusted(&summer()));
    assert_eq!(extreme(3 * H - 90 * M), r.fajr);
    assert_eq!(extreme(21 * H + 90 * M), r.isha);
    assert_eq!(plain(3 * H), r.shurooq);
    assert_eq!(plain(12 * H), r.dhuhr);
    assert_eq!(plain(16 * H), r.asr);
    assert_eq!(plain(21 * H), r.maghrib);
    let mut egypt = Params::new(Method::Egypt);
    egypt.extreme_latitude_method = ExtremeLatitudeMethod::AngleBased;
    let r = adjust(&egypt, &summer(), &None);
    assert_eq!(extreme(3 * H - 7_020_000), r.fajr);
    assert_eq!(extreme(21 * H + 6_300_000), r.isha);
    // Without Shurooq or Maghrib nothing is set.
    let dark = Hours { shurooq: Err(()), ..summer() };
    assert_eq!(unadjusted(&dark), adjust(&params, &dark, &None));
    let bright = Hours { maghrib: Err(()), ..summer() };
    assert_eq!(unadjusted(&bright), adjust(&params, &bright, &None));
    // The share is rounded down to the millisecond.
    let mut odd = with_method(ExtremeLatitudeMethod::AngleBased);
    odd.angles.set(Prayer::Fajr, 1);
    odd.angles.set(Prayer::Isha, -1);
    let r = angle_based(&odd, unadjusted(&summer()));
    assert_eq!(extreme(3 * H), r.fajr);
    assert_eq!(extreme(21 * H - 1), r.isha);
}

#[test]
fn seventh_of_night_moves_fajr_and_isha_by_a_seventh_of_the_night() {
    let portion = 3_085_714;
    assert_eq!(
        portion,
        portion_of(ExtremeLatitudeMethod::SeventhOfNightFajrIshaAlways, 3 * H, 21 * H)
    );
    for method in [
        ExtremeLatitudeMethod::SeventhOfNightFajrIshaAlways,
        ExtremeLatitudeMethod::SeventhOfNightFajrIshaInvalid,
    ] {
        let r = adjust(&with_method(method), &summer(), &None);
        assert_eq!(extreme(3 * H - portion), r.fajr);
        assert_eq!(extreme(21 * H + portion), r.isha);
        assert_eq!(plain(3 * H), r.shurooq);
        assert_eq!(plain(21 * H), r.maghrib);
    }
    // On a day with every hour solved only the method for always sets them:
    // the night lasts sixteen hours.
    let r = adjust(
        &with_method(ExtremeLatitudeMethod::SeventhOfNightFajrIshaAlways),
        &winter(),
        &None,
    );
    assert_eq!(extreme(8 * H - 16 * H / 7), r.fajr);
    assert_eq!(extreme(16 * H + 16 * H / 7), r.isha);
    let r = adjust(
        &with_method(ExtremeLatitudeMethod::SeventhOfNightFajrIshaInvalid),
        &winter(),
        &None,
    );
    assert_eq!(unadjusted(&winter()), r);
}

#[test]
fn seventh_of_day_moves_fajr_and_isha_by_a_seventh_of_the_day() {
    let portion = 9_257_142;
    assert_eq!(
        portion,
        portion_of(ExtremeLatitudeMethod::SeventhOfDayFajrIshaInvalid, 3 * H, 21 * H)
    );
    for method in [
        ExtremeLatitudeMethod::SeventhOfDayFajrIshaAlways,
        ExtremeLatitudeMethod::SeventhOfDayFajrIshaInvalid,
    ] {
        let r = adjust(&with_method(method), &summer(), &None);
        assert_eq!(extreme(3 * H - portion), r.fajr);
        assert_eq!(extreme(21 * H + portion), r.isha);
    }
    // Only the missing one of the two is set by the method for missing hours.
    let half = Hours { fajr: Ok(H), ..summer() };
    let r = adjust(
        &with_method(ExtremeLatitudeMethod::SeventhOfDayFajrIshaInvalid),
        &half,
        &None,
    );
    assert_eq!(plain(H), r.fajr);
    assert_eq!(extreme(21 * H + portion), r.isha);
}

#[test]
fn half_of_night_sets_fajr_and_isha_from_half_the_night_and_the_intervals() {
    assert_eq!(3 * H, portion_of(ExtremeLatitudeMethod::HalfOfNightFajrIshaAlways, 3 * H, 21 * H));
    assert_eq!(
        3 * H - 1,
        portion_of(ExtremeLatitudeMethod::HalfOfNightFajrIshaInvalid, 3 * H, 21 * H + 1)
    );
    for method in [
        ExtremeLatitudeMethod::HalfOfNightFajrIshaAlways,
        ExtremeLatitudeMethod::HalfOfNightFajrIshaInvalid,
    ] {
        let mut params = with_method(method);
        params.intervals.set(Prayer::Fajr, -10 * M);
        params.intervals.set(Prayer::Isha, -10 * M);
        let r = adjust(&params, &summer(), &None);
        assert_eq!(extreme(3 * H + 10 * M), r.fajr);
        assert_eq!(extreme(3 * H - 10 * M), r.isha);
        assert_eq!(plain(3 * H), r.shurooq);
        assert_eq!(plain(21 * H), r.maghrib);
        params.intervals.set(Prayer::Fajr, 25 * M);
        params.intervals.set(Prayer::Isha, 0);
        let r = adjust(&params, &summer(), &None);
        assert_eq!(extreme(3 * H - 25 * M), r.fajr);
        assert_eq!(extreme(3 * H), r.isha);
    }
    assert_eq!(0, portion_of(ExtremeLatitudeMethod::AngleBased, 3 * H, 21 * H));
}

#[test]
fn seventh_and_half_methods_need_shurooq_and_maghrib() {
    for method in all_methods() {
        let params = with_method(method);
        let dark = Hours { shurooq: Err(()), ..summer() };
        let r = adj_sev_half(&params, unadjusted(&dark));
        assert_eq!(unadjusted(&dark), r);
        let bright = Hours { maghrib: Err(()), ..summer() };
        let r = adj_sev_half(&params, unadjusted(&bright));
        assert_eq!(unadjusted(&bright), r);
    }
}

#[test]
fn nearest_latitude_takes_hours_from_the_substitute() {
    let l = nearest_latitude();
    let sub = substitute();
    let all = with_method(ExtremeLatitudeMethod::NearestLatitudeAllPrayersAlways(l));
    for hours in [summer(), winter()] {
        let r = adjust(&all, &hours, &Some(sub));
        for prayer in SIX {
            assert_eq!(sub.get(prayer).map(PrayerHour::new_extreme), r.get(prayer));
        }
    }
    let always = with_method(ExtremeLatitudeMethod::NearestLatitudeFajrIshaAlways(l));
    for hours in [summer(), winter()] {
        let r = adjust(&always, &hours, &Some(sub));
        assert_eq!(extreme(2 * H + 1), r.fajr);
        assert_eq!(extreme(22 * H + 6), r.isha);
        for prayer in [Prayer::Shurooq, Prayer::Dhuhr, Prayer::Asr, Prayer::Maghrib] {
            assert_eq!(hours.get(prayer).map(PrayerHour::new), r.get(prayer));
        }
    }
    let invalid = with_method(ExtremeLatitudeMethod::NearestLatitudeFajrIshaInvalid(l));
    let r = adjust(&invalid, &summer(), &Some(sub));
    assert_eq!(extreme(2 * H + 1), r.fajr);
    assert_eq!(extreme(22 * H + 6), r.isha);
    assert_eq!(plain(3 * H), r.shurooq);
    let half = Hours { isha: Ok(23 * H), ..summer() };
    let r = adjust(&invalid, &half, &Some(sub));
    assert_eq!(extreme(2 * H + 1), r.fajr);
    assert_eq!(plain(23 * H), r.isha);
    assert_eq!(unadjusted(&winter()), adjust(&invalid, &winter(), &Some(sub)));
}

#[test]
fn nearest_latitude_keeps_an_hour_that_the_substitute_lacks() {
    let l = nearest_latitude();
    let poor = Hours { fajr: Err(()), isha: Err(()), asr: Err(()), ..substitute() };
    let all = with_method(ExtremeLatitudeMethod::NearestLatitudeAllPrayersAlways(l));
    let r = adj_near_lat(&all, unadjusted(&winter()), &poor);
    // Fajr and Isha stay as solved; the other four are taken as they are.
    assert_eq!(plain(6 * H), r.fajr);
    assert_eq!(plain(18 * H), r.isha);
    assert_eq!(extreme(4 * H + 2), r.shurooq);
    assert_eq!(extreme(12 * H + 3), r.dhuhr);
    assert_eq!(Err(()), r.asr);
    assert_eq!(extreme(20 * H + 5), r.maghrib);
    // Without a substitute nothing changes.
    assert_eq!(unadjusted(&summer()), adjust(&all, &summer(), &None));
}

#[test]
fn nearest_good_day_takes_hours_from_the_day_found() {
    let sub = substitute();
    let all = with_method(ExtremeLatitudeMethod::NearestGoodDayAllPrayersAlways);
    for hours in [summer(), winter()] {
        let r = adjust(&all, &hours, &Some(sub));
        for prayer in SIX {
            assert_eq!(sub.get(prayer).map(PrayerHour::new_extreme), r.get(prayer));
        }
        assert_eq!(unadjusted(&hours), adjust(&all, &hours, &None));
    }
    let invalid = with_method(ExtremeLatitudeMethod::NearestGoodDayFajrIshaInvalid);
    let r = adjust(&invalid, &summer(), &Some(sub));
    assert_eq!(extreme(2 * H + 1), r.fajr);
    assert_eq!(extreme(22 * H + 6), r.isha);
    for prayer in [Prayer::Shurooq, Prayer::Dhuhr, Prayer::Asr, Prayer::Maghrib] {
        assert_eq!(summer().get(prayer).map(PrayerHour::new), r.get(prayer));
    }
    let half = Hours { fajr: Ok(H), ..summer() };
    let r = adj_near_good(&invalid, unadjusted(&half), &Some(sub));
    assert_eq!(plain(H), r.fajr);
    assert_eq!(extreme(22 * H + 6), r.isha);
    assert_eq!(unadjusted(&winter()), adjust(&invalid, &winter(), &Some(sub)));
    // A missing Asr of the day found is taken by the method for all prayers.
    let poor = Hours { asr: Err(()), ..sub };
    let r = adj_near_good(&all, unadjusted(&winter()), &Some(poor));
    assert_eq!(Err(()), r.asr);
}

#[test]
fn minutes_from_maghrib_always_sets_fajr_and_isha_from_shurooq_and_maghrib() {
    let mut params = with_method(ExtremeLatitudeMethod::MinutesFromMaghribFajrIshaAlways);
    params.intervals.set(Prayer::Fajr, 10 * M);
    params.intervals.set(Prayer::Isha, 10 * M);
    for hours in [summer(), winter()] {
        let shurooq = hours.shurooq.unwrap();
        let maghrib = hours.maghrib.unwrap();
        let stepped = adj_min_always(unadjusted(&hours));
        assert_eq!(extreme(shurooq), stepped.fajr);
        assert_eq!(extreme(maghrib), stepped.isha);
        let r = adjust(&params, &hours, &None);
        assert_eq!(extreme(shurooq - 10 * M), r.fajr);
        assert_eq!(extreme(maghrib + 10 * M), r.isha);
        assert_eq!(plain(shurooq), r.shurooq);
        assert_eq!(plain(maghrib), r.maghrib);
    }
    // Without intervals Fajr and Isha are Shurooq and Maghrib themselves.
    let bare = with_method(ExtremeLatitudeMethod::MinutesFromMaghribFajrIshaAlways);
    let r = adjust(&bare, &winter(), &None);
    assert_eq!(extreme(8 * H), r.fajr);
    assert_eq!(extreme(16 * H), r.isha);
    // A missing Shurooq leaves Fajr missing.
    let dark = Hours { shurooq: Err(()), ..winter() };
    let r = adjust(&params, &dark, &None);
    assert_eq!(Err(()), r.fajr);
    assert_eq!(extreme(16 * H + 10 * M), r.isha);
}

#[test]
fn minutes_from_maghrib_invalid_sets_the_missing_hours_only() {
    let mut params = with_method(ExtremeLatitudeMethod::MinutesFromMaghribFajrIshaInvalid);
    params.intervals.set(Prayer::Fajr, 10 * M);
    params.intervals.set(Prayer::Isha, 15 * M);
    let r = adjust(&params, &summer(), &None);
    assert_eq!(extreme(3 * H - 10 * M), r.fajr);
    assert_eq!(extreme(21 * H + 15 * M), r.isha);
    assert_eq!(r, adj_min_inv(&params, unadjusted(&summer())));
    let half = Hours { isha: Ok(23 * H), ..summer() };
    let r = adjust(&params, &half, &None);
    assert_eq!(extreme(3 * H - 10 * M), r.fajr);
    assert_eq!(plain(23 * H), r.isha);
    assert_eq!(unadjusted(&winter()), adjust(&params, &winter(), &None));
    let dark = Hours { shurooq: Err(()), maghrib: Err(()), ..summer() };
    assert_eq!(unadjusted(&dark), adjust(&params, &dark, &None));
}

#[test]
fn intervals_set_fajr_before_shurooq_and_isha_after_maghrib() {
    // Isha ninety minutes after Maghrib.
    let params = Params::new(Method::UmmAlQurra);
    let r = adjust(&params, &winter(), &None);
    assert_eq!(plain(16 * H + 90 * M), r.isha);
    assert_eq!(plain(6 * H), r.fajr);
    let mut both = params;
    both.intervals.set(Prayer::Fajr, 75 * M);
    let r = adj_for_int(&both, unadjusted(&winter()));
    assert_eq!(plain(8 * H - 75 * M), r.fajr);
    assert_eq!(plain(16 * H + 90 * M), r.isha);
    // The extreme flag of the hour replaced is kept.
    let mut flagged = unadjusted(&winter());
    flagged.isha = extreme(18 * H);
    let r = adj_for_int(&both, flagged);
    assert_eq!(extreme(16 * H + 90 * M), r.isha);
    assert_eq!(plain(8 * H - 75 * M), r.fajr);
    // An hour that was missing is set, not extreme, where Maghrib is solved.
    both.extreme_latitude_method = ExtremeLatitudeMethod::NoAdjustment;
    let r = adjust(&both, &summer(), &None);
    assert_eq!(plain(3 * H - 75 * M), r.fajr);
    assert_eq!(plain(21 * H + 90 * M), r.isha);
    let dark = Hours { maghrib: Err(()), ..winter() };
    let r = adjust(&both, &dark, &None);
    assert_eq!(Err(()), r.isha);
}

#[test]
fn intervals_are_left_to_the_methods_that_hold_them() {
    for method in all_methods() {
        let holds = matches!(
            method,
            ExtremeLatitudeMethod::MinutesFromMaghribFajrIshaInvalid
                | ExtremeLatitudeMethod::HalfOfNightFajrIshaInvalid
                | ExtremeLatitudeMethod::HalfOfNightFajrIshaAlways
        );
        assert_eq!(holds, holds_intervals(method));
        let mut params = with_method(method);
        params.intervals.set(Prayer::Fajr, 20 * M);
        params.intervals.set(Prayer::Isha, 20 * M);
        let r = adj_for_int(&params, unadjusted(&winter()));
        if holds {
            assert_eq!(unadjusted(&winter()), r);
        } else {
            assert_eq!(plain(8 * H - 20 * M), r.fajr);
            assert_eq!(plain(16 * H + 20 * M), r.isha);
        }
    }
}

#[test]
fn methods_for_missing_hours_keep_every_solved_hour() {
    let sub = substitute();
    for method in all_methods() {
        if !is_invalid_only(method) {
            continue;
        }
        let params = with_method(method);
        for hours in [winter(), summer(), Hours { fajr: Ok(H), ..summer() }] {
            for substitute in [None, Some(sub)] {
                let r = adjust(&params, &hours, &substitute);
                for prayer in SIX {
                    if let Ok(value) = hours.get(prayer) {
                        assert_eq!(plain(value), r.get(prayer));
                    }
                }
            }
        }
    }
}

#[test]
fn an_adjustment_that_is_not_needed_changes_nothing() {
    let sub = substitute();
    for method in all_methods() {
        let params = with_method(method);
        if can_adj(&winter(), method) {
            continue;
        }
        assert_eq!(unadjusted(&winter()), adjust(&params, &winter(), &Some(sub)));
        assert_eq!(unadjusted(&winter()), adjust(&params, &winter(), &None));
    }
    let none = with_method(ExtremeLatitudeMethod::NoAdjustment);
    assert_eq!(unadjusted(&summer()), adjust(&none, &summer(), &Some(sub)));
}

#[test]
fn method_step_follows_the_configured_method() {
    let sub = substitute();
    for method in all_methods() {
        let params = with_method(method);
        let base = unadjusted(&summer());
        let step = method_step(&params, base, &Some(sub));
        let expected: PrayerHours = match method {
            ExtremeLatitudeMethod::NoAdjustment => base,
            ExtremeLatitudeMethod::AngleBased => angle_based(&params, base),
            ExtremeLatitudeMethod::NearestLatitudeAllPrayersAlways(_)
            | ExtremeLatitudeMethod::NearestLatitudeFajrIshaAlways(_)
            | ExtremeLatitudeMethod::NearestLatitudeFajrIshaInvalid(_) => {
                adj_near_lat(&params, base, &sub)
            }
            ExtremeLatitudeMethod::NearestGoodDayAllPrayersAlways
            | ExtremeLatitudeMethod::NearestGoodDayFajrIshaInvalid => {
                adj_near_good(&params, base, &Some(sub))
            }
            ExtremeLatitudeMethod::MinutesFromMaghribFajrIshaAlways => adj_min_always(base),
            ExtremeLatitudeMethod::MinutesFromMaghribFajrIshaInvalid => adj_min_inv(&params, base),
            _ => adj_sev_half(&params, base),
        };
        assert_eq!(expected, step);
        if method != ExtremeLatitudeMethod::NoAdjustment {
            assert!(step.fajr.unwrap().extreme);
            assert!(step.isha.unwrap().extreme);
        }
    }
}

#[test]
fn bounds_of_solved_hours_can_be_tested() {
    assert!(summer().is_in_bounds());
    assert!(winter().is_in_bounds());
    assert!(Hours { asr: Ok(1_000_000_000_000), ..winter() }.is_in_bounds());
    assert!(!Hours { asr: Ok(1_000_000_000_001), ..winter() }.is_in_bounds());
    assert!(!Hours { fajr: Ok(-1_000_000_000_001), ..winter() }.is_in_bounds());
    assert!(!Hours { isha: Ok(i64::MIN), ..winter() }.is_in_bounds());
}
