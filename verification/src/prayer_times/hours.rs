//! Conversion of a prayer hour to the time that a clock shows.

use vstd::prelude::*;
use vstd::string::StringExecFns;
use crate::math::{floor_div, floor_mod};
use crate::prayer_times::ext_lat::ADJUSTED_BOUND;
use crate::prayer_times::params::{Params, RoundSeconds};
use crate::prayer_times::Prayer;
use crate::text::{decimal, push_decimal, push_two_digits, two_digits};
use crate::units::{MS_PER_DAY, MS_PER_HOUR, MS_PER_MINUTE, MS_PER_SECOND};

verus! {

/// Seconds from which a time is rounded up to the next minute, in milliseconds.
pub const DEF_ROUND_SEC: i64 = 30_000;

/// Seconds from which aggressive rounding rounds up to the next minute, in
/// milliseconds.
pub const AGGRESSIVE_ROUND_SEC: i64 = 1_000;

/// A time of the day to the second.
#[derive(Debug, Clone, Copy, PartialEq, Eq, PartialOrd, Ord, Hash, Structural)]
pub struct ClockTime {
    hour: u32,
    minute: u32,
    second: u32,
}

impl ClockTime {
    #[verifier::type_invariant]
    spec fn valid(self) -> bool {
        self.hour < 24 && self.minute < 60 && self.second < 60
    }

    /// The time of the given hour, minute and second.
    pub closed spec fn of(hour: int, minute: int, second: int) -> ClockTime {
        ClockTime { hour: hour as u32, minute: minute as u32, second: second as u32 }
    }

    /// Hour of the day.
    pub closed spec fn hour_spec(self) -> int {
        self.hour as int
    }

    /// Minute of the hour.
    pub closed spec fn minute_spec(self) -> int {
        self.minute as int
    }

    /// Second of the minute.
    pub closed spec fn second_spec(self) -> int {
        self.second as int
    }

    /// The parts of the time made of an hour below 24 and a minute and a
    /// second below 60 are that hour, minute and second.
    pub broadcast proof fn lemma_parts_of(hour: int, minute: int, second: int)
        requires
            0 <= hour < 24,
            0 <= minute < 60,
            0 <= second < 60,
        ensures
            (#[trigger] Self::of(hour, minute, second)).hour_spec() == hour,
            Self::of(hour, minute, second).minute_spec() == minute,
            Self::of(hour, minute, second).second_spec() == second,
    {
    }

    /// The time of the given hour, minute and second, or `None` where the hour
    /// is not below 24 or the minute or the second not below 60.
    pub fn from_hms_opt(hour: u32, minute: u32, second: u32) -> (r: Option<ClockTime>)
        ensures
            r == (if hour < 24 && minute < 60 && second < 60 {
                Some(Self::of(hour as int, minute as int, second as int))
            } else {
                None
            }),
            r is Some <==> hour < 24 && minute < 60 && second < 60,
            r matches Some(time) ==> time.hour_spec() == hour && time.minute_spec() == minute
                && time.second_spec() == second,
    {
        if hour < 24 && minute < 60 && second < 60 {
            Some(ClockTime { hour, minute, second })
        } else {
            None
        }
    }

    /// Hour of the day, below 24.
    pub fn hour(&self) -> (h: u32)
        ensures
            h == self.hour_spec(),
            h < 24,
    {
        proof {
            use_type_invariant(self);
        }
        self.hour
    }

    /// Minute of the hour, below 60.
    pub fn minute(&self) -> (m: u32)
        ensures
            m == self.minute_spec(),
            m < 60,
    {
        proof {
            use_type_invariant(self);
        }
        self.minute
    }

    /// Second of the minute, below 60.
    pub fn second(&self) -> (s: u32)
        ensures
            s == self.second_spec(),
            s < 60,
    {
        proof {
            use_type_invariant(self);
        }
        self.second
    }

    /// The hour on a twelve-hour clock, from 1 to 12.
    pub open spec fn hour12(self) -> int {
        if self.hour_spec() % 12 == 0 {
            12
        } else {
            self.hour_spec() % 12
        }
    }

    /// The text of the time on a twelve-hour clock: the hour in two places
    /// with a space in front of a single digit, a colon, the minute in two
    /// digits, a space and `AM` or `PM`.
    pub open spec fn text(self) -> Seq<char> {
        (if self.hour12() < 10 {
            " "@
        } else {
            ""@
        }) + decimal(self.hour12() as nat) + ":"@ + two_digits(self.minute_spec() as nat) + (
        if self.hour_spec() < 12 {
            " AM"@
        } else {
            " PM"@
        })
    }

    /// The time as text on a twelve-hour clock, such as ` 5:56 AM`.
    pub fn to_string(&self) -> (s: String)
        ensures
            s@ == self.text(),
    {
        let h = self.hour();
        let h12: u32 = if h % 12 == 0 {
            12
        } else {
            h % 12
        };
        let mut out = String::from_str(if h12 < 10 {
            " "
        } else {
            ""
        });
        push_decimal(&mut out, h12 as u64);
        out.append(":");
        push_two_digits(&mut out, self.minute() as u64);
        out.append(if h < 12 {
            " AM"
        } else {
            " PM"
        });
        out
    }
}

/// Whether the prayer is one of the five whose times special and aggressive
/// rounding round: Fajr, Dhuhr, Asr, Maghrib and Isha.
pub open spec fn is_rounded_prayer(prayer: Prayer) -> bool {
    prayer == Prayer::Fajr || prayer == Prayer::Dhuhr || prayer == Prayer::Asr || prayer
        == Prayer::Maghrib || prayer == Prayer::Isha
}

/// What a rounding policy does with the seconds of a prayer's time.
#[derive(Debug, Clone, Copy, PartialEq, Eq, Structural)]
pub enum SecondsRule {
    /// The seconds are kept.
    Keep,
    /// The seconds are cut off.
    Cut,
    /// The time goes up to the next minute from this many milliseconds of its
    /// minute on, and the seconds are cut off.
    RoundFrom(i64),
}

/// The rule of a rounding policy for a prayer.
pub open spec fn seconds_rule_spec(round_seconds: RoundSeconds, prayer: Prayer) -> SecondsRule {
    match round_seconds {
        RoundSeconds::NoRounding => SecondsRule::Keep,
        RoundSeconds::NormalRounding => SecondsRule::RoundFrom(DEF_ROUND_SEC),
        RoundSeconds::SpecialRounding => if is_rounded_prayer(prayer) {
            SecondsRule::RoundFrom(DEF_ROUND_SEC)
        } else {
            SecondsRule::Cut
        },
        RoundSeconds::AggressiveRounding => if is_rounded_prayer(prayer) {
            SecondsRule::RoundFrom(AGGRESSIVE_ROUND_SEC)
        } else {
            SecondsRule::Cut
        },
    }
}

/// The instant `time` moved up by a minute where its seconds reach `cap`
/// milliseconds.
pub open spec fn round_secs_spec(time: int, cap: int) -> int {
    if time % (MS_PER_MINUTE as int) >= cap {
        time + MS_PER_MINUTE
    } else {
        time
    }
}

/// The time that a clock shows at `time` milliseconds from midnight under a
/// seconds rule: the instant is taken into the day, rounded where the rule
/// rounds, and read off as hour, minute and second, the hour wrapping at 24.
pub open spec fn clock_time_spec(time: int, rule: SecondsRule) -> ClockTime {
    let in_day = time % (MS_PER_DAY as int);
    let shown = match rule {
        SecondsRule::RoundFrom(cap) => round_secs_spec(in_day, cap as int),
        _ => in_day,
    };
    ClockTime::of(
        (shown / (MS_PER_HOUR as int)) % 24,
        (shown % (MS_PER_HOUR as int)) / (MS_PER_MINUTE as int),
        if rule is Keep {
            (shown % (MS_PER_MINUTE as int)) / (MS_PER_SECOND as int)
        } else {
            0
        },
    )
}

/// The time of a prayer whose hour is `hour` milliseconds from midnight: the
/// prayer's offset is added, and the rule of the rounding policy applied.
pub open spec fn hour_to_time_spec(params: Params, prayer: Prayer, hour: int) -> ClockTime {
    clock_time_spec(
        hour + params.minutes.at(prayer),
        seconds_rule_spec(params.round_seconds, prayer),
    )
}

/// The rule of a rounding policy for a prayer.
pub fn seconds_rule(round_seconds: RoundSeconds, prayer: Prayer) -> (r: SecondsRule)
    ensures
        r == seconds_rule_spec(round_seconds, prayer),
{
    let rounded = match prayer {
        Prayer::Fajr | Prayer::Dhuhr | Prayer::Asr | Prayer::Maghrib | Prayer::Isha => true,
        _ => false,
    };
    match round_seconds {
        RoundSeconds::NoRounding => SecondsRule::Keep,
        RoundSeconds::NormalRounding => SecondsRule::RoundFrom(DEF_ROUND_SEC),
        RoundSeconds::SpecialRounding => if rounded {
            SecondsRule::RoundFrom(DEF_ROUND_SEC)
        } else {
            SecondsRule::Cut
        },
        RoundSeconds::AggressiveRounding => if rounded {
            SecondsRule::RoundFrom(AGGRESSIVE_ROUND_SEC)
        } else {
            SecondsRule::Cut
        },
    }
}

/// Moves `time` up by a minute where its seconds reach `cap` milliseconds.
pub fn round_secs(time: i64, cap: i64) -> (r: i64)
    requires
        0 <= time < MS_PER_DAY,
    ensures
        r == round_secs_spec(time as int, cap as int),
        0 <= r < MS_PER_DAY + MS_PER_MINUTE,
{
    if floor_mod(time, MS_PER_MINUTE) >= cap {
        time + MS_PER_MINUTE
    } else {
        time
    }
}

/// The time that a clock shows at `time` milliseconds from midnight under a
/// seconds rule.
pub fn clock_time(time: i64, rule: SecondsRule) -> (r: ClockTime)
    ensures
        r == clock_time_spec(time as int, rule),
{
    let in_day = floor_mod(time, MS_PER_DAY);
    let shown = match rule {
        SecondsRule::RoundFrom(cap) => round_secs(in_day, cap),
        _ => in_day,
    };
    let hour = floor_mod(floor_div(shown, MS_PER_HOUR), 24);
    let minute = floor_div(floor_mod(shown, MS_PER_HOUR), MS_PER_MINUTE);
    let second = match rule {
        SecondsRule::Keep => floor_div(floor_mod(shown, MS_PER_MINUTE), MS_PER_SECOND),
        _ => 0,
    };
    ClockTime { hour: hour as u32, minute: minute as u32, second: second as u32 }
}

/// The time of a prayer whose hour is `hour` milliseconds from midnight.
pub fn hour_to_time(params: &Params, prayer: Prayer, hour: i64) -> (r: ClockTime)
    requires
        params.in_bounds(),
        -ADJUSTED_BOUND <= hour <= ADJUSTED_BOUND,
    ensures
        r == hour_to_time_spec(*params, prayer, hour as int),
{
    let offset = params.minutes.get(prayer);
    clock_time(hour + offset, seconds_rule(params.round_seconds, prayer))
}

/// A whole number of days more or less does not change the time that a clock
/// shows.
pub proof fn law_clock_time_wraps(time: int, days: int, rule: SecondsRule)
    ensures
        clock_time_spec(time + days * MS_PER_DAY, rule) == clock_time_spec(time, rule),
{
    assert((time + days * MS_PER_DAY) % (MS_PER_DAY as int) == time % (MS_PER_DAY as int))
        by (nonlinear_arith);
}

/// The parts of the time that a clock shows: an hour below 24, a minute
/// below 60 and a second below 60, the second being zero unless the rule keeps
/// the seconds. The time lies less than a minute after the instant taken into
/// the day, counted round the clock, and not before it unless it was cut.
pub proof fn law_clock_time_parts(time: int, rule: SecondsRule)
    ensures
        0 <= clock_time_spec(time, rule).hour_spec() < 24,
        0 <= clock_time_spec(time, rule).minute_spec() < 60,
        0 <= clock_time_spec(time, rule).second_spec() < 60,
        !(rule is Keep) ==> clock_time_spec(time, rule).second_spec() == 0,
        rule is Keep ==> clock_time_spec(time, rule).hour_spec() * MS_PER_HOUR + clock_time_spec(
            time,
            rule,
        ).minute_spec() * MS_PER_MINUTE + clock_time_spec(time, rule).second_spec() * MS_PER_SECOND
            == time % (MS_PER_DAY as int) - time % (MS_PER_SECOND as int),
        rule is Cut ==> clock_time_spec(time, rule).hour_spec() * MS_PER_HOUR + clock_time_spec(
            time,
            rule,
        ).minute_spec() * MS_PER_MINUTE == time % (MS_PER_DAY as int) - time % (
        MS_PER_MINUTE as int),
{
    broadcast use ClockTime::lemma_parts_of;

}

} // verus!
