//! Points in time, times of day, dates and spans of time.
//!
//! A point in time is a count of seconds since 1970-01-01 00:00:00 on a
//! clock without time zone; a date is a count of days since 1970-01-01.
//! Both stay within the range that chrono's naive types can hold, so that
//! every value here stands for exactly one chrono value.
use vstd::prelude::*;
use crate::text::{decimal, digit_char};
use chrono::{Local, NaiveDateTime, NaiveTime, TimeDelta, Timelike};

verus! {

/// The first second that a chrono `NaiveDateTime` can hold
/// (January 1, 262144 BCE, 00:00:00), in seconds since 1970-01-01 00:00:00.
pub const MIN_TIMESTAMP: i64 = -8334601228800;

/// The last whole second that a chrono `NaiveDateTime` can hold
/// (December 31, 262142 CE, 23:59:59).
pub const MAX_TIMESTAMP: i64 = 8210266876799;

/// The first day that a chrono `NaiveDate` can hold, in days since 1970-01-01.
pub const MIN_DAY: i64 = -96465292;

/// The last day that a chrono `NaiveDate` can hold, in days since 1970-01-01.
pub const MAX_DAY: i64 = 95026236;

pub const SECONDS_PER_DAY: i64 = 86400;

/// The longest span, in whole seconds, that a chrono `TimeDelta` can hold
/// (its bound is `i64::MAX` milliseconds).
pub const MAX_DURATION: i64 = 9223372036854775;

/// The nanoseconds in a second.
pub const NANOS_PER_SECOND: u32 = 1_000_000_000;

/// A point in time: seconds since 1970-01-01 00:00:00, without time zone,
/// and nanoseconds into the second. As in chrono, the nanoseconds reach past
/// one second only in the last second of a minute, where they stand for a
/// leap second (`23:59:60`).
#[derive(Clone, Copy, Debug, PartialEq, Eq, Structural)]
pub struct DateTime {
    pub secs: i64,
    pub nanos: u32,
}

/// A time of day: seconds since midnight and nanoseconds into the second,
/// with a leap second as in `DateTime`.
#[derive(Clone, Copy, Debug, PartialEq, Eq, Structural)]
pub struct TimeOfDay {
    pub secs: u32,
    pub nanos: u32,
}

/// A calendar date: days since 1970-01-01.
#[derive(Clone, Copy, Debug, PartialEq, Eq, Structural)]
pub struct Date {
    pub days: i64,
}

/// A span of time in whole seconds.
#[derive(Clone, Copy, Debug, PartialEq, Eq, Structural)]
pub struct Duration {
    pub secs: i64,
}

/// Whether `secs` is a point in time that chrono can hold.
pub open spec fn timestamp_in_range(secs: int) -> bool {
    MIN_TIMESTAMP <= secs <= MAX_TIMESTAMP
}

/// Whether `nanos` nanoseconds into second `secs` is a fraction that chrono
/// can hold: under two seconds, and over one only in the last second of a
/// minute.
pub open spec fn fraction_ok(secs: int, nanos: int) -> bool {
    0 <= nanos < 2 * NANOS_PER_SECOND && (nanos >= NANOS_PER_SECOND ==> secs % 60 == 59)
}

/// Whether the instant (`a_secs`, `a_nanos`) is the instant (`b_secs`,
/// `b_nanos`) or comes after it.
pub open spec fn not_before(a_secs: int, a_nanos: int, b_secs: int, b_nanos: int) -> bool {
    a_secs > b_secs || (a_secs == b_secs && a_nanos >= b_nanos)
}

/// The weekday of a day, counted from Monday = 0 (1970-01-01 was a Thursday).
pub open spec fn weekday_index(days: int) -> int {
    (days + 3) % 7
}

/// The seconds and nanoseconds of `t` moved by `k` whole seconds, before
/// any check of range. As chrono does it, a leap second counts as the
/// second before it when moving forward and as the second after it when
/// moving back; a move by nothing keeps it.
pub open spec fn shifted(t: DateTime, k: int) -> (int, int) {
    if t.nanos >= NANOS_PER_SECOND && k > 0 {
        (t.secs + k, t.nanos - NANOS_PER_SECOND)
    } else if t.nanos >= NANOS_PER_SECOND && k < 0 {
        (t.secs + 1 + k, t.nanos - NANOS_PER_SECOND)
    } else {
        (t.secs + k, t.nanos as int)
    }
}

impl DateTime {
    pub open spec fn wf(self) -> bool {
        timestamp_in_range(self.secs as int) && fraction_ok(self.secs as int, self.nanos as int)
    }

    /// The date on which this point in time falls.
    pub open spec fn spec_date(self) -> int {
        self.secs as int / SECONDS_PER_DAY as int
    }

    /// The seconds since midnight of this point in time.
    pub open spec fn spec_time(self) -> int {
        self.secs as int % SECONDS_PER_DAY as int
    }

    /// Whether this point in time is `other` or comes after it.
    pub open spec fn reached(self, other: DateTime) -> bool {
        not_before(self.secs as int, self.nanos as int, other.secs as int, other.nanos as int)
    }

    /// Whether this point in time is `other` or comes after it.
    pub fn is_at_or_after(&self, other: &DateTime) -> (r: bool)
        ensures
            r == self.reached(*other),
    {
        self.secs > other.secs || (self.secs == other.secs && self.nanos >= other.nanos)
    }

    /// The whole second `secs`, where chrono can hold it.
    pub fn from_timestamp(secs: i64) -> (r: Option<DateTime>)
        ensures
            r == (if timestamp_in_range(secs as int) {
                Some(DateTime { secs, nanos: 0 })
            } else {
                None
            }),
            r matches Some(d) ==> d.wf(),
    {
        if MIN_TIMESTAMP <= secs && secs <= MAX_TIMESTAMP {
            Some(DateTime { secs, nanos: 0 })
        } else {
            None
        }
    }

    /// The date of this point in time.
    pub fn date(self) -> (r: Date)
        requires
            self.wf(),
        ensures
            r.days == self.spec_date(),
            r.wf(),
    {
        if self.secs >= 0 {
            let q: u64 = (self.secs as u64) / 86400;
            Date { days: q as i64 }
        } else {
            let n: u64 = (-(self.secs + 1)) as u64;
            let q: u64 = n / 86400;
            proof {
                lemma_floor_div_negative(n as int, q as int);
            }
            Date { days: -(q as i64) - 1 }
        }
    }

    /// The time of day of this point in time.
    pub fn time(self) -> (r: TimeOfDay)
        requires
            self.wf(),
        ensures
            r.secs == self.spec_time(),
            r.nanos == self.nanos,
            r.wf(),
    {
        let d = self.date();
        let rest: i64 = self.secs - d.days * 86400;
        proof {
            lemma_minute_of_day(self.secs as int, d.days as int);
        }
        TimeOfDay { secs: rest as u32, nanos: self.nanos }
    }

    /// This point in time moved by `d`, where chrono can hold the result;
    /// `None` where chrono's `checked_add_signed` gives none.
    pub fn checked_add(self, d: Duration) -> (r: Option<DateTime>)
        requires
            self.wf(),
            d.wf(),
        ensures
            r == (if timestamp_in_range(shifted(self, d.secs as int).0) {
                Some(
                    DateTime {
                        secs: shifted(self, d.secs as int).0 as i64,
                        nanos: shifted(self, d.secs as int).1 as u32,
                    },
                )
            } else {
                None
            }),
            r matches Some(x) ==> x.wf(),
    {
        let (base, nanos): (i64, u32) = if self.nanos >= NANOS_PER_SECOND && d.secs > 0 {
            (self.secs, self.nanos - NANOS_PER_SECOND)
        } else if self.nanos >= NANOS_PER_SECOND && d.secs < 0 {
            (self.secs + 1, self.nanos - NANOS_PER_SECOND)
        } else {
            (self.secs, self.nanos)
        };
        let s: i64 = base + d.secs;
        if MIN_TIMESTAMP <= s && s <= MAX_TIMESTAMP {
            Some(DateTime { secs: s, nanos })
        } else {
            None
        }
    }
}

/// A second and the second of its day share their place in the minute.
proof fn lemma_minute_of_day(secs: int, days: int)
    requires
        days == secs / 86400,
    ensures
        (secs - days * 86400) % 60 == secs % 60,
        0 <= secs - days * 86400 < 86400,
{
    let r = secs - days * 86400;
    assert(secs == (days * 1440 + r / 60) * 60 + r % 60) by (nonlinear_arith)
        requires
            r == secs - days * 86400,
            r == 60 * (r / 60) + r % 60,
    ;
    vstd::arithmetic::div_mod::lemma_fundamental_div_mod_converse(
        secs,
        60,
        days * 1440 + r / 60,
        r % 60,
    );
}

proof fn lemma_floor_div_negative(n: int, q: int)
    requires
        n >= 0,
        q == n / 86400,
    ensures
        (-(n + 1)) / 86400 == -q - 1,
{
    let r = n % 86400;
    assert(n == 86400 * q + r);
    assert(-(n + 1) == 86400 * (-q - 1) + (86399 - r));
}

impl TimeOfDay {
    pub open spec fn wf(self) -> bool {
        self.secs < 86400 && fraction_ok(self.secs as int, self.nanos as int)
    }

    /// Whether this time of day is `other` or comes after it.
    pub open spec fn reached(self, other: TimeOfDay) -> bool {
        not_before(self.secs as int, self.nanos as int, other.secs as int, other.nanos as int)
    }

    /// Whether this time of day is `other` or comes after it.
    pub fn is_at_or_after(&self, other: &TimeOfDay) -> (r: bool)
        ensures
            r == self.reached(*other),
    {
        self.secs > other.secs || (self.secs == other.secs && self.nanos >= other.nanos)
    }
}

impl Date {
    pub open spec fn wf(self) -> bool {
        MIN_DAY <= self.days <= MAX_DAY
    }

    /// The day before, where chrono can hold it.
    pub fn checked_pred(self) -> (r: Option<Date>)
        requires
            self.wf(),
        ensures
            r == (if self.days > MIN_DAY {
                Some(Date { days: (self.days - 1) as i64 })
            } else {
                None
            }),
    {
        if self.days > MIN_DAY {
            Some(Date { days: self.days - 1 })
        } else {
            None
        }
    }

    /// The weekday of this date, Monday = 0 to Sunday = 6.
    pub fn weekday(self) -> (r: usize)
        requires
            self.wf(),
        ensures
            r == weekday_index(self.days as int),
            r < 7,
    {
        let shifted: u64 = (self.days + 96465302) as u64;
        proof {
            assert(shifted as int % 7 == (self.days as int + 3) % 7) by {
                assert(shifted as int == (self.days as int + 3) + 7 * 13780757);
            }
        }
        (shifted % 7) as usize
    }
}

impl Duration {
    pub open spec fn wf(self) -> bool {
        -MAX_DURATION <= self.secs <= MAX_DURATION
    }
}

/// The point in time, as seconds since 1970-01-01 00:00:00 and nanoseconds
/// into the second, that chrono's `NaiveDateTime::parse_from_str` reads from
/// `s` with format `fmt`; `None` where it refuses the text.
pub uninterp spec fn naive_datetime_parse(s: Seq<char>, fmt: Seq<char>) -> Option<(int, int)>;

/// The time of day, as seconds since midnight and nanoseconds into the
/// second, that chrono's `NaiveTime::parse_from_str` reads from `s` with
/// format `fmt`; `None` where it refuses the text.
pub uninterp spec fn naive_time_parse(s: Seq<char>, fmt: Seq<char>) -> Option<(int, int)>;

/// The text that chrono's `Display` of `NaiveDateTime` gives for the point
/// in time `nanos` nanoseconds into second `secs`.
pub uninterp spec fn naive_datetime_text(secs: int, nanos: int) -> Seq<char>;

/// The point in time of a pair of seconds and nanoseconds.
pub open spec fn datetime_of(p: (int, int)) -> DateTime {
    DateTime { secs: p.0 as i64, nanos: p.1 as u32 }
}

/// The time of day of a pair of seconds and nanoseconds.
pub open spec fn time_of(p: (int, int)) -> TimeOfDay {
    TimeOfDay { secs: p.0 as u32, nanos: p.1 as u32 }
}

/// The seconds and nanoseconds of an optional point in time.
pub open spec fn datetime_pair(d: Option<DateTime>) -> Option<(int, int)> {
    match d {
        Some(x) => Some((x.secs as int, x.nanos as int)),
        None => None,
    }
}

/// The seconds and nanoseconds of an optional time of day.
pub open spec fn time_pair(t: Option<TimeOfDay>) -> Option<(int, int)> {
    match t {
        Some(x) => Some((x.secs as int, x.nanos as int)),
        None => None,
    }
}

/// The last `width` decimal digits of `n`, with leading zeros.
pub open spec fn padded(n: nat, width: nat) -> Seq<char>
    decreases width,
{
    if width == 0 {
        seq![]
    } else {
        padded(n / 10, (width - 1) as nat).push(digit_char((n % 10) as int))
    }
}

/// The fraction of a second after the seconds of a time of day: nothing
/// for none, else a point and three, six or nine digits, the fewest that
/// write it.
pub open spec fn fraction_text(nanos: int) -> Seq<char> {
    if nanos == 0 {
        seq![]
    } else if nanos % 1_000_000 == 0 {
        seq!['.'] + padded((nanos / 1_000_000) as nat, 3)
    } else if nanos % 1000 == 0 {
        seq!['.'] + padded((nanos / 1000) as nat, 6)
    } else {
        seq!['.'] + padded(nanos as nat, 9)
    }
}

/// The text of a time of day as chrono's `Display` of `NaiveTime` writes
/// it: hours, minutes and seconds in two digits each, separated by colons
/// (a leap second as second 60), then the fraction of a second.
pub open spec fn time_display(secs: int, nanos: int) -> Seq<char> {
    let leap = nanos >= NANOS_PER_SECOND;
    let sec = if leap { secs % 60 + 1 } else { secs % 60 };
    let frac = if leap { nanos - NANOS_PER_SECOND } else { nanos };
    padded((secs / 3600) as nat, 2) + seq![':'] + padded(((secs / 60) % 60) as nat, 2) + seq![':']
        + padded(sec as nat, 2) + fraction_text(frac)
}

/// The ISO 8601 text of a span of whole seconds, as chrono's `Display` of
/// `TimeDelta` writes it: `P0D` for zero, else `PT<seconds>S`, with a minus
/// sign in front of a negative span.
pub open spec fn duration_display(secs: int) -> Seq<char> {
    let sign: Seq<char> = if secs < 0 { seq!['-'] } else { seq![] };
    let abs: nat = if secs < 0 { (-secs) as nat } else { secs as nat };
    if secs == 0 {
        seq!['P', '0', 'D']
    } else {
        sign + seq!['P', 'T'] + decimal(abs) + seq!['S']
    }
}

/// Calls chrono's `NaiveDateTime::parse_from_str(s, fmt)` and converts the
/// result to seconds since 1970-01-01 00:00:00 and nanoseconds into the
/// second (`and_utc().timestamp()` and `timestamp_subsec_nanos()`).
/// Claimed: the result is the named `naive_datetime_parse(s, fmt)`, and a
/// parsed value is one that a `NaiveDateTime` can hold.
#[verifier::external_body]
pub(crate) fn parse_datetime_str(s: &str, fmt: &str) -> (r: Option<DateTime>)
    ensures
        datetime_pair(r) == naive_datetime_parse(s@, fmt@),
        r matches Some(d) ==> d.wf(),
{
    match NaiveDateTime::parse_from_str(s, fmt) {
        Ok(d) => Some(DateTime { secs: d.and_utc().timestamp(), nanos: d.and_utc().timestamp_subsec_nanos() }),
        Err(_) => None,
    }
}

/// Calls chrono's `NaiveTime::parse_from_str(s, fmt)` and converts the result
/// to seconds since midnight and nanoseconds into the second
/// (`Timelike::num_seconds_from_midnight` and `Timelike::nanosecond`).
/// Claimed: the result is the named `naive_time_parse(s, fmt)`, and it is a
/// time of day that a `NaiveTime` can hold.
#[verifier::external_body]
pub(crate) fn parse_time_str(s: &str, fmt: &str) -> (r: Option<TimeOfDay>)
    ensures
        time_pair(r) == naive_time_parse(s@, fmt@),
        r matches Some(t) ==> t.wf(),
{
    match NaiveTime::parse_from_str(s, fmt) {
        Ok(t) => Some(TimeOfDay { secs: t.num_seconds_from_midnight(), nanos: t.nanosecond() }),
        Err(_) => None,
    }
}

/// Calls chrono's `Local::now()` and converts its local wall-clock time
/// (`naive_local()`) to seconds since 1970-01-01 00:00:00 and nanoseconds.
/// Claimed: the result is a point in time that a `NaiveDateTime` can hold,
/// and it is later than one day before 1970-01-01 00:00:00 (chrono's
/// `Utc::now` stops on a clock before 1970, and a local offset is less than
/// a day). Which point in time comes back depends on the clock and is not
/// stated.
#[verifier::external_body]
pub(crate) fn local_now() -> (r: DateTime)
    ensures
        r.wf(),
        r.secs > -SECONDS_PER_DAY,
{
    let d = Local::now().naive_local().and_utc();
    DateTime { secs: d.timestamp(), nanos: d.timestamp_subsec_nanos() }
}

/// Calls chrono's `Display` of the `NaiveDateTime` at `d`.
/// Claimed: the text is the named `naive_datetime_text(d.secs, d.nanos)`.
#[verifier::external_body]
pub(crate) fn datetime_text(d: DateTime) -> (r: String)
    requires
        d.wf(),
    ensures
        r@ == naive_datetime_text(d.secs as int, d.nanos as int),
{
    chrono::DateTime::from_timestamp(d.secs, d.nanos).unwrap().naive_utc().to_string()
}

/// Calls chrono's `Display` of the `NaiveTime` at `t`.
/// Claimed: the text is `time_display(t.secs, t.nanos)`, as chrono's source
/// writes it.
#[verifier::external_body]
pub(crate) fn time_text(t: TimeOfDay) -> (r: String)
    requires
        t.wf(),
    ensures
        r@ == time_display(t.secs as int, t.nanos as int),
{
    NaiveTime::from_num_seconds_from_midnight_opt(t.secs, t.nanos).unwrap().to_string()
}

/// Calls chrono's `Display` of the `TimeDelta` of `d.secs` seconds.
/// Claimed: the text is `duration_display(d.secs)`, as chrono's source
/// writes it for a span without fraction of a second.
#[verifier::external_body]
pub(crate) fn duration_text(d: Duration) -> (r: String)
    requires
        d.wf(),
    ensures
        r@ == duration_display(d.secs as int),
{
    TimeDelta::new(d.secs, 0).unwrap().to_string()
}

} // verus!
