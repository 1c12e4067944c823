use islamic_prayer_times::geo::coordinates::{nearest_latitude, Latitude};
use islamic_prayer_times::prayer_times::params::{
    AsrShadowRatio, ExtremeLatitudeMethod, Method, Params, PrayerValues, RoundSeconds,
};
use islamic_prayer_times::prayer_times::Prayer;
use islamic_prayer_times::units::{DEGREE, MS_PER_MINUTE};

fn assert_default(params: &Params) {
    assert_eq!(Params::DEF_IMSAAK_ANGLE, params.angles.get(Prayer::Imsaak));
    assert_eq!(0, params.intervals.get(Prayer::Imsaak));
    assert_eq!(0, params.intervals.get(Prayer::Fajr));
    assert_eq!(0, params.minutes.get(Prayer::Imsaak));
    assert_eq!(0, params.minutes.get(Prayer::Fajr));
    assert_eq!(0, params.minutes.get(Prayer::Shurooq));
    assert_eq!(0, params.minutes.get(Prayer::Dhuhr));
    assert_eq!(0, params.minutes.get(Prayer::Asr));
    assert_eq!(0, params.minutes.get(Prayer::Maghrib));
    assert_eq!(0, params.minutes.get(Prayer::Isha));
    assert_eq!(Latitude::new(485 * DEGREE / 10).unwrap(), nearest_latitude());
    assert_eq!(
        ExtremeLatitudeMethod::NearestGoodDayFajrIshaInvalid,
        params.extreme_latitude_method
    );
    assert_eq!(RoundSeconds::SpecialRounding, params.round_seconds);
}

#[test]
fn test_default() {
    let params = Params::default();
    assert_default(&params);
    assert_eq!(AsrShadowRatio::Shafi, params.asr_shadow_ratio);
    assert_eq!(15 * DEGREE, params.angles.get(Prayer::Fajr));
    assert_eq!(15 * DEGREE, params.angles.get(Prayer::Isha));
    assert_eq!(0, params.intervals.get(Prayer::Isha));
    assert_eq!(AsrShadowRatio::Shafi, params.asr_shadow_ratio);
}

#[test]
fn test_method_none() {
    let params = Params::new(Method::Unset);
    assert_default(&params);
    assert_eq!(0, params.angles.get(Prayer::Fajr));
    assert_eq!(0, params.angles.get(Prayer::Isha));
    assert_eq!(0, params.intervals.get(Prayer::Isha));
    assert_eq!(AsrShadowRatio::Shafi, params.asr_shadow_ratio);
}

#[test]
fn test_method_egyptian() {
    let params = Params::new(Method::Egyptian);
    assert_default(&params);
    assert_eq!(20 * DEGREE, params.angles.get(Prayer::Fajr));
    assert_eq!(18 * DEGREE, params.angles.get(Prayer::Isha));
    assert_eq!(0, params.intervals.get(Prayer::Isha));
    assert_eq!(AsrShadowRatio::Shafi, params.asr_shadow_ratio);
}

#[test]
fn test_method_egypt() {
    let params = Params::new(Method::Egypt);
    assert_default(&params);
    assert_eq!(195 * DEGREE / 10, params.angles.get(Prayer::Fajr));
    assert_eq!(175 * DEGREE / 10, params.angles.get(Prayer::Isha));
    assert_eq!(0, params.intervals.get(Prayer::Isha));
    assert_eq!(AsrShadowRatio::Shafi, params.asr_shadow_ratio);
}

#[test]
fn test_method_shafi() {
    let params = Params::new(Method::Shafi);
    assert_default(&params);
    assert_eq!(18 * DEGREE, params.angles.get(Prayer::Fajr));
    assert_eq!(18 * DEGREE, params.angles.get(Prayer::Isha));
    assert_eq!(0, params.intervals.get(Prayer::Isha));
    assert_eq!(AsrShadowRatio::Shafi, params.asr_shadow_ratio);
}

#[test]
fn test_method_hanafi() {
    let params = Params::new(Method::Hanafi);
    assert_default(&params);
    assert_eq!(18 * DEGREE, params.angles.get(Prayer::Fajr));
    assert_eq!(18 * DEGREE, params.angles.get(Prayer::Isha));
    assert_eq!(0, params.intervals.get(Prayer::Isha));
    assert_eq!(AsrShadowRatio::Hanafi, params.asr_shadow_ratio);
}

#[test]
fn test_method_isna() {
    let params = Params::new(Method::Isna);
    assert_default(&params);
    assert_eq!(15 * DEGREE, params.angles.get(Prayer::Fajr));
    assert_eq!(15 * DEGREE, params.angles.get(Prayer::Isha));
    assert_eq!(0, params.intervals.get(Prayer::Isha));
    assert_eq!(AsrShadowRatio::Shafi, params.asr_shadow_ratio);
}

#[test]
fn test_method_mwl() {
    let params = Params::new(Method::Mwl);
    assert_default(&params);
    assert_eq!(18 * DEGREE, params.angles.get(Prayer::Fajr));
    assert_eq!(17 * DEGREE, params.angles.get(Prayer::Isha));
    assert_eq!(0, params.intervals.get(Prayer::Isha));
    assert_eq!(AsrShadowRatio::Shafi, params.asr_shadow_ratio);
}

#[test]
fn test_method_umm_al_qurra() {
    let params = Params::new(Method::UmmAlQurra);
    assert_default(&params);
    assert_eq!(18 * DEGREE, params.angles.get(Prayer::Fajr));
    assert_eq!(0, params.angles.get(Prayer::Isha));
    assert_eq!(90 * MS_PER_MINUTE, params.intervals.get(Prayer::Isha));
    assert_eq!(AsrShadowRatio::Shafi, params.asr_shadow_ratio);
}

#[test]
fn test_method_fixed_isha() {
    let params = Params::new(Method::FixedIsha);
    assert_default(&params);
    assert_eq!(195 * DEGREE / 10, params.angles.get(Prayer::Fajr));
    assert_eq!(0, params.angles.get(Prayer::Isha));
    assert_eq!(90 * MS_PER_MINUTE, params.intervals.get(Prayer::Isha));
    assert_eq!(AsrShadowRatio::Shafi, params.asr_shadow_ratio);
}

#[test]
fn prayer_values_hold_one_number_for_each_prayer() {
    let mut values = PrayerValues::zero();
    let prayers = [
        Prayer::Imsaak,
        Prayer::Fajr,
        Prayer::Shurooq,
        Prayer::Dhuhr,
        Prayer::Asr,
        Prayer::Maghrib,
        Prayer::Isha,
    ];
    for (i, prayer) in prayers.iter().enumerate() {
        assert_eq!(0, values.get(*prayer));
        values.set(*prayer, i as i64 + 1);
    }
    for (i, prayer) in prayers.iter().enumerate() {
        assert_eq!(i as i64 + 1, values.get(*prayer));
    }
    assert_eq!(
        PrayerValues { imsaak: 1, fajr: 2, shurooq: 3, dhuhr: 4, asr: 5, maghrib: 6, isha: 7 },
        values
    );
}

#[test]
fn asr_shadow_ratio_is_one_or_two() {
    assert_eq!(1, AsrShadowRatio::Shafi.ratio());
    assert_eq!(2, AsrShadowRatio::Hanafi.ratio());
}

#[test]
fn prayers_are_ordered_through_the_day_and_named() {
    assert!(Prayer::Imsaak < Prayer::Fajr);
    assert!(Prayer::Fajr < Prayer::Shurooq);
    assert!(Prayer::Shurooq < Prayer::Dhuhr);
    assert!(Prayer::Dhuhr < Prayer::Asr);
    assert!(Prayer::Asr < Prayer::Maghrib);
    assert!(Prayer::Maghrib < Prayer::Isha);
    assert_eq!("Imsaak", Prayer::Imsaak.name());
    assert_eq!("Shurooq", Prayer::Shurooq.name());
    let all = [
        Prayer::Imsaak,
        Prayer::Fajr,
        Prayer::Shurooq,
        Prayer::Dhuhr,
        Prayer::Asr,
        Prayer::Maghrib,
        Prayer::Isha,
    ];
    for (i, a) in all.iter().enumerate() {
        assert_eq!(i as u8, a.rank());
        for b in all.iter() {
            assert_eq!(a.rank().cmp(&b.rank()), a.cmp(b));
        }
    }
}

#[test]
fn bounds_of_parameters_can_be_tested() {
    let mut params = Params::new(Method::Isna);
    assert!(params.is_in_bounds());
    assert!(params.has_room());
    params.angles.set(Prayer::Fajr, 180 * DEGREE);
    assert!(params.has_room());
    params.angles.set(Prayer::Fajr, 180 * DEGREE + 1);
    assert!(!params.has_room());
    assert!(params.is_in_bounds());
    params.angles.set(Prayer::Fajr, -360 * DEGREE - 1);
    assert!(!params.is_in_bounds());
    params.angles.set(Prayer::Fajr, -360 * DEGREE);
    assert!(params.is_in_bounds());
    params.minutes.set(Prayer::Isha, 500_000_000_001);
    assert!(!params.has_room());
    assert!(params.is_in_bounds());
    params.minutes.set(Prayer::Isha, 1_000_000_000_001);
    assert!(!params.is_in_bounds());
    params.minutes.set(Prayer::Isha, 0);
    params.intervals.set(Prayer::Imsaak, -1_000_000_000_000);
    assert!(params.is_in_bounds());
    assert!(!params.has_room());
    assert!(PrayerValues::zero().is_within(0));
    assert!(!params.intervals.is_within(999_999_999_999));
}
