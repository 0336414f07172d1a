//! Points in time and spans between them.
//!
//! A [`Timestamp`] is an instant on the UTC scale, held as whole seconds since
//! the Unix epoch and the nanoseconds within that second. Its model is the
//! number of nanoseconds since the epoch. A [`Span`] is a signed number of
//! nanoseconds.

use vstd::prelude::*;

verus! {

/// First second that a [`Timestamp`] can hold: January 1st, -262143.
pub const MIN_SECS: i64 = -8_334_601_228_800;

/// Last second that a [`Timestamp`] can hold: December 31st, 262142.
pub const MAX_SECS: i64 = 8_210_266_876_799;

/// Nanoseconds in a second.
pub const NANOS_PER_SEC: i128 = 1_000_000_000;

/// The largest magnitude of a [`Span`], in nanoseconds.
pub const MAX_SPAN_NANOS: i128 = 9_223_372_036_854_775_807_000_000;

/// Whether some [`Timestamp`] stands for this number of nanoseconds since the
/// epoch.
pub open spec fn representable(nanos: int) -> bool {
    MIN_SECS * 1_000_000_000 <= nanos < (MAX_SECS + 1) * 1_000_000_000
}

/// Whether some [`Span`] holds this number of nanoseconds.
pub open spec fn spannable(nanos: int) -> bool {
    -MAX_SPAN_NANOS <= nanos <= MAX_SPAN_NANOS
}

/// A signed length of time.
#[derive(Debug, Clone, Copy)]
pub struct Span {
    nanos: i128,
}

impl View for Span {
    type V = int;

    closed spec fn view(&self) -> int {
        self.nanos as int
    }
}

impl Span {
    #[verifier::type_invariant]
    spec fn inv(self) -> bool {
        spannable(self.nanos as int)
    }

    /// The given number of whole seconds.
    pub fn seconds(n: i64) -> (r: Span)
        requires
            spannable(n * 1_000_000_000),
        ensures
            r@ == n * 1_000_000_000,
    {
        Span { nanos: n as i128 * NANOS_PER_SEC }
    }

    /// The given number of hours.
    pub fn hours(n: i64) -> (r: Span)
        requires
            spannable(n * 3_600_000_000_000),
        ensures
            r@ == n * 3_600_000_000_000,
    {
        Span { nanos: n as i128 * 3_600_000_000_000 }
    }

    /// The given number of days of 24 hours.
    pub fn days(n: i64) -> (r: Span)
        requires
            spannable(n * 86_400_000_000_000),
        ensures
            r@ == n * 86_400_000_000_000,
    {
        Span { nanos: n as i128 * 86_400_000_000_000 }
    }

    /// The given number of nanoseconds.
    pub(crate) fn nanoseconds(n: i128) -> (r: Span)
        requires
            spannable(n as int),
        ensures
            r@ == n,
    {
        Span { nanos: n }
    }

    /// Whether `self` is the longer span.
    pub fn longer_than(self, other: Span) -> (r: bool)
        ensures
            r == (self@ > other@),
    {
        self.nanos > other.nanos
    }
}

/// An instant on the UTC scale.
#[derive(Debug, Clone, Copy)]
pub struct Timestamp {
    secs: i64,
    nanos: u32,
}

impl View for Timestamp {
    type V = int;

    closed spec fn view(&self) -> int {
        self.secs * 1_000_000_000 + self.nanos
    }
}

impl Timestamp {
    #[verifier::type_invariant]
    spec fn inv(self) -> bool {
        MIN_SECS <= self.secs <= MAX_SECS && self.nanos < 1_000_000_000
    }

    /// The instant `secs` seconds after the epoch, when it is in range.
    pub fn from_unix(secs: i64) -> (r: Option<Timestamp>)
        ensures
            match r {
                Some(t) => MIN_SECS <= secs <= MAX_SECS && t@ == secs * 1_000_000_000,
                None => !(MIN_SECS <= secs <= MAX_SECS),
            },
    {
        if MIN_SECS <= secs && secs <= MAX_SECS {
            Some(Timestamp { secs, nanos: 0 })
        } else {
            None
        }
    }

    /// The instant `secs` seconds and `nanos` nanoseconds after the epoch, when
    /// both parts are in range.
    pub fn from_parts(secs: i64, nanos: u32) -> (r: Option<Timestamp>)
        ensures
            match r {
                Some(t) => MIN_SECS <= secs <= MAX_SECS && nanos < 1_000_000_000 && t@ == secs
                    * 1_000_000_000 + nanos,
                None => !(MIN_SECS <= secs <= MAX_SECS && nanos < 1_000_000_000),
            },
    {
        if MIN_SECS <= secs && secs <= MAX_SECS && nanos < 1_000_000_000 {
            Some(Timestamp { secs, nanos })
        } else {
            None
        }
    }

    /// Whole seconds since the epoch, rounded down.
    pub fn unix_seconds(&self) -> (r: i64)
        ensures
            r == self@ / 1_000_000_000,
            MIN_SECS <= r <= MAX_SECS,
    {
        proof {
            use_type_invariant(self);
        }
        self.secs
    }

    /// The nanoseconds within the second.
    pub fn subsec_nanos(&self) -> (r: u32)
        ensures
            r == self@ % 1_000_000_000,
            r < 1_000_000_000,
    {
        proof {
            use_type_invariant(self);
        }
        self.nanos
    }

    /// Whether `self` is before `other`.
    pub fn before(&self, other: &Timestamp) -> (r: bool)
        ensures
            r == (self@ < other@),
    {
        proof {
            use_type_invariant(self);
            use_type_invariant(other);
        }
        self.secs < other.secs || (self.secs == other.secs && self.nanos < other.nanos)
    }

    /// Whether `self` is at or before `other`.
    pub fn at_or_before(&self, other: &Timestamp) -> (r: bool)
        ensures
            r == (self@ <= other@),
    {
        !other.before(self)
    }

    /// The time that passed from `earlier` to `self`; negative when `earlier`
    /// is the later one.
    pub fn since(&self, earlier: &Timestamp) -> (r: Span)
        ensures
            r@ == self@ - earlier@,
    {
        proof {
            use_type_invariant(self);
            use_type_invariant(earlier);
        }
        let secs: i128 = self.secs as i128 - earlier.secs as i128;
        Span { nanos: secs * NANOS_PER_SEC + self.nanos as i128 - earlier.nanos as i128 }
    }

    /// The instant `span` after `self`, when it is in range.
    pub fn checked_add(&self, span: Span) -> (r: Option<Timestamp>)
        ensures
            match r {
                Some(t) => t@ == self@ + span@ && representable(self@ + span@),
                None => !representable(self@ + span@),
            },
    {
        proof {
            use_type_invariant(self);
            use_type_invariant(&span);
        }
        let total: i128 = self.secs as i128 * NANOS_PER_SEC + self.nanos as i128 + span.nanos;
        let low: i128 = MIN_SECS as i128 * NANOS_PER_SEC;
        let high: i128 = (MAX_SECS as i128 + 1) * NANOS_PER_SEC;
        if total < low || total >= high {
            return None;
        }
        let offset: u128 = (total - low) as u128;
        let secs: i128 = (offset / 1_000_000_000) as i128 + MIN_SECS as i128;
        let nanos: u32 = (offset % 1_000_000_000) as u32;
        Some(Timestamp { secs: secs as i64, nanos })
    }

    /// The instant `span` after `self`.
    pub fn plus(&self, span: Span) -> (r: Timestamp)
        requires
            representable(self@ + span@),
        ensures
            r@ == self@ + span@,
    {
        match self.checked_add(span) {
            Some(t) => t,
            None => *self,
        }
    }
}

// ---------------------------------------------------------------------------
// The calendar
// ---------------------------------------------------------------------------

/// Nanoseconds in a day.
pub open spec fn day_nanos() -> int {
    86_400_000_000_000
}

/// The last year of the calendar.
pub open spec fn last_year() -> int {
    262_142
}

/// Whether February of the year has 29 days.
pub open spec fn leap_year(year: int) -> bool {
    year % 4 == 0 && (year % 100 != 0 || year % 400 == 0)
}

/// How many days the month has.
pub open spec fn month_length(year: int, month: int) -> int {
    if month == 2 {
        if leap_year(year) {
            29
        } else {
            28
        }
    } else if month == 4 || month == 6 || month == 9 || month == 11 {
        30
    } else {
        31
    }
}

/// Whether the calendar has this date.
pub open spec fn is_date(year: int, month: int, day: int) -> bool {
    1 <= month <= 12 && 1 <= day <= month_length(year, month)
}

/// The days of the year before the month begins.
pub open spec fn days_before_month(year: int, month: int) -> int
    decreases month,
{
    if month <= 1 {
        0
    } else {
        days_before_month(year, month - 1) + month_length(year, month - 1)
    }
}

/// The days from the first day of the year 1 to the first day of the year.
pub open spec fn days_before_year(year: int) -> int {
    let past = year - 1;
    365 * past + past / 4 - past / 100 + past / 400
}

/// The days from the epoch, January 1st, 1970, to the date.
pub open spec fn day_number(year: int, month: int, day: int) -> int {
    days_before_year(year) - days_before_year(1970) + days_before_month(year, month) + day - 1
}

/// The instant on a date at this time of day, both in nanoseconds.
pub open spec fn instant_on(year: int, month: int, day: int, time_of_day: int) -> int {
    day_number(year, month, day) * day_nanos() + time_of_day
}

/// The day of the month, or the last one where the month is shorter.
pub open spec fn held_day(year: int, month: int, day: int) -> int {
    if day <= month_length(year, month) {
        day
    } else {
        month_length(year, month)
    }
}

/// The date of a day, counted from the epoch.
pub open spec fn date_of(number: int) -> (int, int, int) {
    choose|date: (int, int, int)|
        is_date(date.0, date.1, date.2) && #[trigger] day_number(date.0, date.1, date.2) == number
}

/// The same day and time of day `months` calendar months after the instant `nanos`, on the
/// last day of that month where it has no such day, or nothing past the last year.
pub open spec fn months_later(nanos: int, months: u32) -> Option<int> {
    let date = date_of(nanos / day_nanos());
    let count = date.0 * 12 + date.1 - 1 + months;
    let year = count / 12;
    let month = count % 12 + 1;
    if year > last_year() {
        None
    } else {
        Some(instant_on(year, month, held_day(year, month, date.2), nanos % day_nanos()))
    }
}

/// `chrono::DateTime::<Utc>::checked_add_months`: the same day and time of day
/// `months` calendar months later, on the last day of that month when it has no
/// such day, or nothing past the last year of the calendar. One month is 28 to 31
/// whole days, twelve months are 365 or 366.
#[verifier::external_body]
pub(crate) fn add_months(t: Timestamp, months: u32) -> (r: Option<Timestamp>)
    ensures
        match r {
            Some(u) => months_later(t@, months) == Some(u@),
            None => months_later(t@, months) is None,
        },
        r matches Some(u) ==> months == 1 ==> t@ + 28 * day_nanos() <= u@ <= t@ + 31 * day_nanos(),
        r matches Some(u) ==> months == 12 ==> t@ + 365 * day_nanos() <= u@ <= t@ + 366
            * day_nanos(),
{
    let start = chrono::DateTime::from_timestamp(t.secs, t.nanos)?;
    let end = start.checked_add_months(chrono::Months::new(months))?;
    Some(Timestamp { secs: end.timestamp(), nanos: end.timestamp_subsec_nanos() })
}

/// The text that `chrono` writes for the instant `nanos`, with `Z` for the
/// offset when `zulu` is set and `+00:00` otherwise.
pub uninterp spec fn rfc3339_text(nanos: int, zulu: bool) -> Seq<char>;

/// `chrono::DateTime::<Utc>::to_rfc3339_opts` with `SecondsFormat::AutoSi`:
/// the RFC 3339 text of the instant, a function of the instant and of the form
/// asked for the offset.
#[verifier::external_body]
pub(crate) fn rfc3339(t: Timestamp, zulu: bool) -> (r: String)
    ensures
        r@ == rfc3339_text(t@, zulu),
{
    let at = chrono::DateTime::from_timestamp(t.secs, t.nanos).unwrap_or_default();
    at.to_rfc3339_opts(chrono::SecondsFormat::AutoSi, zulu)
}

// ---------------------------------------------------------------------------
// Laws
// ---------------------------------------------------------------------------

proof fn lemma_months_before(year: int)
    ensures
        days_before_month(year, 1) == 0,
        days_before_month(year, 2) == 31,
        days_before_month(year, 3) == 31 + month_length(year, 2),
        days_before_month(year, 4) == 62 + month_length(year, 2),
        days_before_month(year, 5) == 92 + month_length(year, 2),
        days_before_month(year, 6) == 123 + month_length(year, 2),
        days_before_month(year, 7) == 153 + month_length(year, 2),
        days_before_month(year, 8) == 184 + month_length(year, 2),
        days_before_month(year, 9) == 215 + month_length(year, 2),
        days_before_month(year, 10) == 245 + month_length(year, 2),
        days_before_month(year, 11) == 276 + month_length(year, 2),
        days_before_month(year, 12) == 306 + month_length(year, 2),
        days_before_month(year, 13) == 337 + month_length(year, 2),
{
    reveal_with_fuel(days_before_month, 14);
}

proof fn lemma_year_length(year: int)
    ensures
        days_before_year(year + 1) == days_before_year(year) + 337 + month_length(year, 2),
{
}

proof fn lemma_later_years(a: int, b: int)
    requires
        a < b,
    ensures
        days_before_year(a) + 337 + month_length(a, 2) <= days_before_year(b),
    decreases b - a,
{
    lemma_year_length(b - 1);
    if a < b - 1 {
        lemma_later_years(a, b - 1);
    }
}

proof fn lemma_earlier_months(year: int, a: int, b: int)
    requires
        1 <= a < b <= 13,
    ensures
        days_before_month(year, a) + month_length(year, a) <= days_before_month(year, b),
{
    lemma_months_before(year);
}

/// A day has one date: no two dates are the same number of days from the epoch.
pub proof fn law_days_have_one_date(y1: int, m1: int, d1: int, y2: int, m2: int, d2: int)
    requires
        is_date(y1, m1, d1),
        is_date(y2, m2, d2),
        day_number(y1, m1, d1) == day_number(y2, m2, d2),
    ensures
        y1 == y2 && m1 == m2 && d1 == d2,
{
    lemma_months_before(y1);
    lemma_months_before(y2);
    if y1 < y2 {
        lemma_later_years(y1, y2);
    } else if y2 < y1 {
        lemma_later_years(y2, y1);
    } else if m1 < m2 {
        lemma_earlier_months(y1, m1, m2);
    } else if m2 < m1 {
        lemma_earlier_months(y1, m2, m1);
    }
}

/// The day after a date is the next day of the month, or the first of the next month.
pub proof fn law_days_follow_each_other(year: int, month: int, day: int)
    requires
        is_date(year, month, day),
    ensures
        day < month_length(year, month) ==> day_number(year, month, day + 1) == day_number(
            year,
            month,
            day,
        ) + 1,
        day == month_length(year, month) && month < 12 ==> day_number(year, month + 1, 1)
            == day_number(year, month, day) + 1,
        day == month_length(year, month) && month == 12 ==> day_number(year + 1, 1, 1)
            == day_number(year, month, day) + 1,
        day_number(1970, 1, 1) == 0,
{
    lemma_months_before(year);
    lemma_months_before(year + 1);
    lemma_months_before(1970);
    lemma_year_length(year);
}

proof fn lemma_some_date(number: int) -> (date: (int, int, int))
    ensures
        is_date(date.0, date.1, date.2),
        day_number(date.0, date.1, date.2) == number,
    decreases
            if number >= 0 {
                number
            } else {
                -number
            },
{
    if number == 0 {
        lemma_months_before(1970);
        (1970int, 1int, 1int)
    } else if number > 0 {
        let (y, m, d) = lemma_some_date(number - 1);
        law_days_follow_each_other(y, m, d);
        if d < month_length(y, m) {
            (y, m, d + 1)
        } else if m < 12 {
            (y, m + 1, 1)
        } else {
            (y + 1, 1, 1)
        }
    } else {
        let (y, m, d) = lemma_some_date(number + 1);
        if d > 1 {
            law_days_follow_each_other(y, m, d - 1);
            (y, m, d - 1)
        } else if m > 1 {
            law_days_follow_each_other(y, m - 1, month_length(y, m - 1));
            (y, m - 1, month_length(y, m - 1))
        } else {
            law_days_follow_each_other(y - 1, 12, 31);
            (y - 1, 12, 31)
        }
    }
}

/// Every day has a date.
pub proof fn law_every_day_has_a_date(number: int)
    ensures
        ({
            let (y, m, d) = date_of(number);
            is_date(y, m, d) && day_number(y, m, d) == number
        }),
{
    let date = lemma_some_date(number);
    assert(is_date(date.0, date.1, date.2) && day_number(date.0, date.1, date.2) == number);
}

/// A number of months after a date at some time of day comes the same day and time of day
/// of the month that many months on, or the last day of that month where it is shorter.
pub proof fn law_months_keep_day_and_time(
    year: int,
    month: int,
    day: int,
    time_of_day: int,
    months: u32,
    later_year: int,
    later_month: int,
)
    requires
        is_date(year, month, day),
        0 <= time_of_day < day_nanos(),
        1 <= later_month <= 12,
        later_year * 12 + later_month == year * 12 + month + months,
        later_year <= last_year(),
    ensures
        months_later(instant_on(year, month, day, time_of_day), months) == Some(
            instant_on(
                later_year,
                later_month,
                held_day(later_year, later_month, day),
                time_of_day,
            ),
        ),
{
    let nanos = instant_on(year, month, day, time_of_day);
    let number = day_number(year, month, day);
    assert(nanos / day_nanos() == number && nanos % day_nanos() == time_of_day);
    law_every_day_has_a_date(number);
    let (y, m, d) = date_of(number);
    law_days_have_one_date(y, m, d, year, month, day);
}

} // verus!
