//! The library's own timestamp representation: a point in time as whole
//! seconds since the Unix epoch (1970-01-01T00:00:00Z) plus a non-negative
//! sub-second nanosecond part, together with the epoch-count conversions
//! (whole seconds, milliseconds or nanoseconds since the epoch) and a
//! constructor from a civil (proleptic Gregorian) date and time of day.

use vstd::prelude::*;

verus! {

/// Mathematical model of a timestamp: `secs` seconds plus `nanos`
/// nanoseconds since the Unix epoch. A well-formed model keeps the
/// sub-second part in `[0, 1_000_000_000)`, so `secs` is the floor of the
/// instant in seconds, also for pre-epoch instants.
pub ghost struct TimestampModel {
    pub secs: int,
    pub nanos: int,
}

pub open spec fn wf_model(t: TimestampModel) -> bool {
    0 <= t.nanos < 1_000_000_000
}

/// The instant as an exact count of nanoseconds since the epoch.
pub open spec fn total_nanos(t: TimestampModel) -> int {
    t.secs * 1_000_000_000 + t.nanos
}

/// Whole seconds since the epoch: the floor of the instant in seconds
/// (sub-second parts are never rounded upward).
pub open spec fn epoch_seconds_model(t: TimestampModel) -> int {
    total_nanos(t) / 1_000_000_000
}

/// Whole milliseconds since the epoch, sign preserved for pre-epoch
/// instants.
pub open spec fn epoch_millis_model(t: TimestampModel) -> int {
    total_nanos(t) / 1_000_000
}

/// Whole nanoseconds since the epoch.
pub open spec fn epoch_nanos_model(t: TimestampModel) -> int {
    total_nanos(t)
}

/// Years accepted by the civil-date constructor, wide enough for any
/// practical instant while keeping the epoch arithmetic far from the
/// 64-bit limits.
pub const YEAR_MIN: i64 = -1_000_000;

pub const YEAR_MAX: i64 = 1_000_000;

pub open spec fn is_leap_year(y: int) -> bool {
    y % 4 == 0 && (y % 100 != 0 || y % 400 == 0)
}

pub open spec fn days_in_month(y: int, m: int) -> int {
    if m == 2 {
        if is_leap_year(y) {
            29
        } else {
            28
        }
    } else if m == 4 || m == 6 || m == 9 || m == 11 {
        30
    } else {
        31
    }
}

/// A valid civil (proleptic Gregorian) date and UTC time of day within
/// the accepted year span.
pub open spec fn valid_civil(y: int, mo: int, d: int, h: int, mi: int, s: int, n: int) -> bool {
    &&& YEAR_MIN <= y <= YEAR_MAX
    &&& 1 <= mo <= 12
    &&& 1 <= d <= days_in_month(y, mo)
    &&& 0 <= h < 24
    &&& 0 <= mi < 60
    &&& 0 <= s < 60
    &&& 0 <= n < 1_000_000_000
}

/// Days from the epoch to the civil date `y-mo-d`, negative for dates
/// before 1970-01-01. The year is shifted so that it starts in March;
/// `era` counts 400-year cycles of 146097 days each, `yoe`/`doy`/`doe`
/// are the year, day-of-year and day within the cycle; 719468 days lie
/// between 0000-03-01 and 1970-01-01.
pub open spec fn days_from_civil(y: int, mo: int, d: int) -> int {
    let yy = if mo <= 2 {
        y - 1
    } else {
        y
    };
    let era = yy / 400;
    let yoe = yy - era * 400;
    let mp = if mo > 2 {
        mo - 3
    } else {
        mo + 9
    };
    let doy = (153 * mp + 2) / 5 + d - 1;
    let doe = yoe * 365 + yoe / 4 - yoe / 100 + doy;
    era * 146097 + doe - 719468
}

/// Seconds from the epoch to the civil date and UTC time of day.
pub open spec fn civil_secs_model(y: int, mo: int, d: int, h: int, mi: int, s: int) -> int {
    days_from_civil(y, mo, d) * 86400 + h * 3600 + mi * 60 + s
}

/// A timestamp value. Every constructed `Timestamp` is well formed: its
/// sub-second part lies in `[0, 1_000_000_000)`.
#[derive(Clone, Copy, Debug, PartialEq, Eq, Structural)]
pub struct Timestamp {
    secs: i64,
    nanos: u32,
}

impl View for Timestamp {
    type V = TimestampModel;

    closed spec fn view(&self) -> TimestampModel {
        TimestampModel { secs: self.secs as int, nanos: self.nanos as int }
    }
}

impl Timestamp {
    #[verifier::type_invariant]
    pub closed spec fn inv(self) -> bool {
        self.nanos < 1_000_000_000
    }

    /// Builds a timestamp from whole seconds since the epoch and a
    /// sub-second nanosecond part; rejects a sub-second part of a full
    /// second or more.
    pub fn new(secs: i64, nanos: u32) -> (r: Option<Timestamp>)
        ensures
            nanos < 1_000_000_000 <==> r is Some,
            r matches Some(t) ==> t@ == (TimestampModel { secs: secs as int, nanos: nanos as int }),
    {
        if nanos < 1_000_000_000 {
            Some(Timestamp { secs, nanos })
        } else {
            None
        }
    }

    /// Builds the timestamp of a civil (proleptic Gregorian) date and UTC
    /// time of day; rejects any field outside its valid range.
    pub fn from_civil(
        year: i64,
        month: u8,
        day: u8,
        hour: u8,
        minute: u8,
        second: u8,
        nanos: u32,
    ) -> (r: Option<Timestamp>)
        ensures
            valid_civil(
                year as int,
                month as int,
                day as int,
                hour as int,
                minute as int,
                second as int,
                nanos as int,
            ) <==> r is Some,
            r matches Some(t) ==> t@ == (TimestampModel {
                secs: civil_secs_model(
                    year as int,
                    month as int,
                    day as int,
                    hour as int,
                    minute as int,
                    second as int,
                ),
                nanos: nanos as int,
            }),
    {
        if year < YEAR_MIN || year > YEAR_MAX {
            return None;
        }
        if month < 1 || month > 12 {
            return None;
        }
        if day < 1 || day > Self::days_in_month_of(year, month) {
            return None;
        }
        if hour >= 24 || minute >= 60 || second >= 60 || nanos >= 1_000_000_000 {
            return None;
        }
        let yy: i64 = if month <= 2 {
            year - 1
        } else {
            year
        };
        let shifted: u64 = (yy + 1_040_000) as u64;
        let era_whole: u64 = shifted / 400;
        proof {
            vstd::arithmetic::div_mod::lemma_hoist_over_denominator(yy as int, 2600, 400nat);
            vstd::arithmetic::div_mod::lemma_fundamental_div_mod(shifted as int, 400);
            vstd::arithmetic::div_mod::lemma_mod_bound(shifted as int, 400);
        }
        let era: i64 = era_whole as i64 - 2600;
        let yoe: u64 = shifted - era_whole * 400;
        let mp: u64 = if month > 2 {
            (month - 3) as u64
        } else {
            (month + 9) as u64
        };
        let doy: u64 = (153 * mp + 2) / 5 + day as u64 - 1;
        proof {
            vstd::arithmetic::div_mod::lemma_div_pos_is_pos(yoe as int, 100);
            vstd::arithmetic::div_mod::lemma_fundamental_div_mod(yoe as int, 100);
            vstd::arithmetic::div_mod::lemma_mod_bound(yoe as int, 100);
        }
        let doe: u64 = yoe * 365 + yoe / 4 - yoe / 100 + doy;
        let days: i64 = era * 146097 + doe as i64 - 719468;
        let secs: i64 = days * 86400 + hour as i64 * 3600 + minute as i64 * 60 + second as i64;
        Some(Timestamp { secs, nanos })
    }

    /// The number of days of the given month in the given year.
    pub fn days_in_month_of(year: i64, month: u8) -> (r: u8)
        requires
            YEAR_MIN <= year <= YEAR_MAX,
            1 <= month <= 12,
        ensures
            r == days_in_month(year as int, month as int),
    {
        if month == 2 {
            if Self::is_leap(year) {
                29
            } else {
                28
            }
        } else if month == 4 || month == 6 || month == 9 || month == 11 {
            30
        } else {
            31
        }
    }

    /// Whether the given year is a leap year of the proleptic Gregorian
    /// calendar.
    pub fn is_leap(year: i64) -> (r: bool)
        requires
            YEAR_MIN <= year <= YEAR_MAX,
        ensures
            r == is_leap_year(year as int),
    {
        let shifted: u64 = (year + 1_040_000) as u64;
        proof {
            vstd::arithmetic::div_mod::lemma_mod_multiples_vanish(260000, year as int, 4);
            vstd::arithmetic::div_mod::lemma_mod_multiples_vanish(10400, year as int, 100);
            vstd::arithmetic::div_mod::lemma_mod_multiples_vanish(2600, year as int, 400);
        }
        shifted % 4 == 0 && (shifted % 100 != 0 || shifted % 400 == 0)
    }

    /// Whole seconds since the epoch. Always representable: for a well
    /// formed timestamp this is exactly the stored seconds field.
    pub fn epoch_seconds(&self) -> (r: i64)
        ensures
            r == epoch_seconds_model(self@),
    {
        proof {
            use_type_invariant(*self);
            lemma_epoch_seconds_parts(self@);
        }
        self.secs
    }

    /// Whole milliseconds since the epoch, or `None` when the count does
    /// not fit a signed 64-bit integer.
    pub fn epoch_millis(&self) -> (r: Option<i64>)
        ensures
            i64::MIN <= epoch_millis_model(self@) <= i64::MAX ==> (r matches Some(v)
                && v == epoch_millis_model(self@)),
            !(i64::MIN <= epoch_millis_model(self@) <= i64::MAX) ==> r is None,
    {
        proof {
            use_type_invariant(*self);
            lemma_epoch_millis_parts(self@);
        }
        let sub: u32 = self.nanos / 1_000_000;
        let total: i128 = self.secs as i128 * 1000 + sub as i128;
        if i64::MIN as i128 <= total && total <= i64::MAX as i128 {
            Some(total as i64)
        } else {
            None
        }
    }

    /// Whole nanoseconds since the epoch, or `None` when the count does
    /// not fit a signed 64-bit integer (instants roughly outside the
    /// years 1677 to 2262). The range failure is explicit: the count
    /// never wraps.
    pub fn epoch_nanos(&self) -> (r: Option<i64>)
        ensures
            i64::MIN <= epoch_nanos_model(self@) <= i64::MAX ==> (r matches Some(v)
                && v == epoch_nanos_model(self@)),
            !(i64::MIN <= epoch_nanos_model(self@) <= i64::MAX) ==> r is None,
    {
        proof {
            use_type_invariant(*self);
        }
        let total: i128 = self.secs as i128 * 1_000_000_000 + self.nanos as i128;
        if i64::MIN as i128 <= total && total <= i64::MAX as i128 {
            Some(total as i64)
        } else {
            None
        }
    }
}

/// For a well formed model, the seconds count is the stored seconds field.
pub proof fn lemma_epoch_seconds_parts(t: TimestampModel)
    requires
        wf_model(t),
    ensures
        epoch_seconds_model(t) == t.secs,
{
    vstd::arithmetic::div_mod::lemma_hoist_over_denominator(t.nanos, t.secs, 1_000_000_000nat);
    vstd::arithmetic::div_mod::lemma_basic_div(t.nanos, 1_000_000_000);
}

/// For a well formed model, the milliseconds count splits into whole
/// seconds times a thousand plus the whole milliseconds of the sub-second
/// part.
pub proof fn lemma_epoch_millis_parts(t: TimestampModel)
    requires
        wf_model(t),
    ensures
        epoch_millis_model(t) == t.secs * 1000 + t.nanos / 1_000_000,
{
    vstd::arithmetic::mul::lemma_mul_is_associative(t.secs, 1000, 1_000_000);
    vstd::arithmetic::div_mod::lemma_hoist_over_denominator(
        t.nanos,
        t.secs * 1000,
        1_000_000nat,
    );
}

/// Each epoch count is monotone in the instant: an earlier instant never
/// yields a larger count, in any of the three units.
pub proof fn lemma_epoch_counts_monotone(t1: TimestampModel, t2: TimestampModel)
    requires
        total_nanos(t1) <= total_nanos(t2),
    ensures
        epoch_seconds_model(t1) <= epoch_seconds_model(t2),
        epoch_millis_model(t1) <= epoch_millis_model(t2),
        epoch_nanos_model(t1) <= epoch_nanos_model(t2),
{
    vstd::arithmetic::div_mod::lemma_div_is_ordered(
        total_nanos(t1),
        total_nanos(t2),
        1_000_000_000,
    );
    vstd::arithmetic::div_mod::lemma_div_is_ordered(total_nanos(t1), total_nanos(t2), 1_000_000);
}

/// At an instant with no sub-second part, the milliseconds count is the
/// seconds count scaled by a thousand.
pub proof fn lemma_millis_scale_seconds(t: TimestampModel)
    requires
        wf_model(t),
        t.nanos == 0,
    ensures
        epoch_millis_model(t) == epoch_seconds_model(t) * 1000,
{
    lemma_epoch_seconds_parts(t);
    lemma_epoch_millis_parts(t);
    vstd::arithmetic::div_mod::lemma_basic_div(0, 1_000_000);
}

/// At an instant whose sub-second part is a whole number of milliseconds,
/// the nanoseconds count is the milliseconds count scaled by a million.
pub proof fn lemma_nanos_scale_millis(t: TimestampModel)
    requires
        wf_model(t),
        t.nanos % 1_000_000 == 0,
    ensures
        epoch_nanos_model(t) == epoch_millis_model(t) * 1_000_000,
{
    lemma_epoch_millis_parts(t);
    vstd::arithmetic::div_mod::lemma_fundamental_div_mod(t.nanos, 1_000_000);
    vstd::arithmetic::mul::lemma_mul_is_associative(t.secs, 1000, 1_000_000);
    assert((t.secs * 1000 + t.nanos / 1_000_000) * 1_000_000 == (t.secs * 1000) * 1_000_000 + (
    t.nanos / 1_000_000) * 1_000_000) by {
        vstd::arithmetic::mul::lemma_mul_is_distributive_add_other_way(
            1_000_000,
            t.secs * 1000,
            t.nanos / 1_000_000,
        );
    }
    assert((t.nanos / 1_000_000) * 1_000_000 == t.nanos) by {
        vstd::arithmetic::mul::lemma_mul_is_commutative(t.nanos / 1_000_000, 1_000_000);
    }
}

} // verus!
