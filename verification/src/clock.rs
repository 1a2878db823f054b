//! Instants of the wall clock.

use crate::messages::{clock_text, two_digits, valid_timestamp, MAX_TIMESTAMP, MIN_TIMESTAMP};
use crate::text::{decimal, digit_char};
use vstd::prelude::*;
use vstd::string::*;

verus! {

/// An instant, in nanoseconds since the start of 1970, UTC.
pub type Nanos = i128;

/// Nanoseconds in a second.
pub const NANOS: i128 = 1_000_000_000;

/// An instant within the calendar's range.
pub open spec fn valid_instant(at: Nanos) -> bool {
    MIN_TIMESTAMP * NANOS <= at < (MAX_TIMESTAMP + 1) * NANOS
}

/// An optional instant within the calendar's range.
pub open spec fn valid_optional(at: Option<Nanos>) -> bool {
    at matches Some(t) ==> valid_instant(t)
}

/// A year of the Gregorian calendar with 366 days.
pub open spec fn leap_year(year: int) -> bool {
    year % 4 == 0 && (year % 100 != 0 || year % 400 == 0)
}

/// The days of a year.
pub open spec fn year_days(year: int) -> int {
    if leap_year(year) {
        366
    } else {
        365
    }
}

/// The days of a month.
pub open spec fn month_days(year: int, month: int) -> int {
    if month == 2 {
        if leap_year(year) {
            29
        } else {
            28
        }
    } else if month == 4 || month == 6 || month == 9 || month == 11 {
        30
    } else {
        31
    }
}

/// The leap years from year 1 to this one; for a year before, those from there
/// to year 0, counted negative.
pub open spec fn leap_years_through(year: int) -> int {
    year / 4 - year / 100 + year / 400
}

/// The days from the start of 1970 to the start of a year.
pub open spec fn days_before_year(year: int) -> int {
    365 * (year - 1970) + leap_years_through(year - 1) - leap_years_through(1969)
}

/// The days of a year before one of its months.
pub open spec fn days_before_month(year: int, month: int) -> int
    decreases month,
{
    if month <= 1 {
        0
    } else {
        days_before_month(year, month - 1) + month_days(year, month - 1)
    }
}

/// A date of the Gregorian calendar, which reaches back before its invention.
pub open spec fn is_date(year: int, month: int, day: int) -> bool {
    1 <= month <= 12 && 1 <= day <= month_days(year, month)
}

/// The days from the start of 1970 to a date.
pub open spec fn day_number(year: int, month: int, day: int) -> int {
    days_before_year(year) + days_before_month(year, month) + day - 1
}

/// The date, as year, month and day, so many days after the start of 1970.
pub open spec fn date_on(number: int) -> (int, int, int) {
    choose|year: int, month: int, day: int|
        is_date(year, month, day) && #[trigger] day_number(year, month, day) == number
}

/// The last `width` decimal digits of a number, with zeros before it where it
/// has fewer.
pub open spec fn padded(n: nat, width: nat) -> Seq<char>
    decreases width,
{
    if width == 0 {
        Seq::empty()
    } else {
        padded(n / 10, (width - 1) as nat).push(digit_char(n % 10))
    }
}

/// A year, with at least four digits, and signed where four unsigned digits
/// cannot hold it.
pub open spec fn year_text(year: int) -> Seq<char> {
    let size: nat = if year < 0 {
        (-year) as nat
    } else {
        year as nat
    };
    let digits = if size <= 9999 {
        padded(size, 4)
    } else {
        decimal(size)
    };
    if 0 <= year <= 9999 {
        digits
    } else if year < 0 {
        seq!['-'] + digits
    } else {
        seq!['+'] + digits
    }
}

/// The fraction of a second, with as many groups of three digits as it needs.
pub open spec fn fraction_text(nanos: nat) -> Seq<char> {
    if nanos == 0 {
        Seq::empty()
    } else if nanos % 1_000_000 == 0 {
        seq!['.'] + padded(nanos / 1_000_000, 3)
    } else if nanos % 1_000 == 0 {
        seq!['.'] + padded(nanos / 1_000, 6)
    } else {
        seq!['.'] + padded(nanos, 9)
    }
}

/// The date and time of day, as RFC 3339 writes it for UTC, at so many seconds
/// and nanoseconds since the start of 1970.
pub open spec fn rfc3339_of(secs: int, nanos: nat) -> Seq<char> {
    let (year, month, day) = date_on(secs / 86400);
    year_text(year) + seq!['-'] + two_digits(month as nat) + seq!['-'] + two_digits(day as nat)
        + seq!['T'] + clock_text(secs) + seq![':'] + two_digits((secs % 60) as nat)
        + fraction_text(nanos) + "+00:00"@
}

/// `chrono::DateTime::<Utc>::from_timestamp`, which is defined on the range in
/// `requires`, and `to_rfc3339`: the date in the Gregorian calendar and the
/// time of day, with no fraction or one of three, six or nine digits, and with
/// the offset of UTC in digits.
#[verifier::external_body]
fn utc_text(secs: i64, nanos: u32) -> (r: String)
    requires
        valid_timestamp(secs),
        nanos < NANOS,
    ensures
        r@ == rfc3339_of(secs as int, nanos as nat),
{
    match chrono::DateTime::<chrono::Utc>::from_timestamp(secs, nanos) {
        Some(at) => at.to_rfc3339(),
        None => String::new(),
    }
}

/// The text of an instant.
pub open spec fn instant_text(at: Nanos) -> Seq<char> {
    rfc3339_of(at as int / NANOS as int, (at as int % NANOS as int) as nat)
}

/// Writes an instant.
pub fn to_rfc3339(at: Nanos) -> (r: String)
    requires
        valid_instant(at),
    ensures
        r@ == instant_text(at),
{
    let mut secs: i128 = at / NANOS;
    let mut nanos: i128 = at % NANOS;
    if nanos < 0 {
        secs = secs - 1;
        nanos = nanos + NANOS;
    }
    utc_text(secs as i64, nanos as u32)
}

/// A year is followed by the next.
proof fn lemma_year_follows(year: int)
    ensures
        days_before_year(year + 1) == days_before_year(year) + year_days(year),
{
    assert(year / 4 - (year - 1) / 4 == if year % 4 == 0 {
        1int
    } else {
        0
    });
    assert(year / 100 - (year - 1) / 100 == if year % 100 == 0 {
        1int
    } else {
        0
    });
    assert(year / 400 - (year - 1) / 400 == if year % 400 == 0 {
        1int
    } else {
        0
    });
    assert(year % 400 == 0 ==> year % 100 == 0);
    assert(year % 100 == 0 ==> year % 4 == 0);
}

/// A later year starts later.
proof fn lemma_years_are_ordered(earlier: int, later: int)
    requires
        earlier <= later,
    ensures
        days_before_year(earlier) <= days_before_year(later),
    decreases later - earlier,
{
    if earlier < later {
        lemma_year_follows(later - 1);
        lemma_years_are_ordered(earlier, later - 1);
    }
}

/// A later month starts after all days of an earlier one.
proof fn lemma_months_are_ordered(year: int, earlier: int, later: int)
    requires
        1 <= earlier < later <= 13,
    ensures
        days_before_month(year, earlier) + month_days(year, earlier) <= days_before_month(
            year,
            later,
        ),
    decreases later - earlier,
{
    if earlier < later - 1 {
        lemma_months_are_ordered(year, earlier, later - 1);
    }
}

/// The months of a year hold all its days.
proof fn lemma_months_fill_the_year(year: int)
    ensures
        days_before_month(year, 13) == year_days(year),
{
    reveal_with_fuel(days_before_month, 13);
}

/// A date lies within its year.
proof fn lemma_date_lies_in_its_year(year: int, month: int, day: int)
    requires
        is_date(year, month, day),
    ensures
        days_before_year(year) <= day_number(year, month, day) < days_before_year(year + 1),
{
    lemma_months_fill_the_year(year);
    lemma_months_are_ordered(year, month, 13);
    lemma_year_follows(year);
    if month > 1 {
        lemma_months_are_ordered(year, 1, month);
    }
}

/// Two dates with the same number are the same date.
pub proof fn law_dates_are_distinct(
    year: int,
    month: int,
    day: int,
    other_year: int,
    other_month: int,
    other_day: int,
)
    requires
        is_date(year, month, day),
        is_date(other_year, other_month, other_day),
        day_number(year, month, day) == day_number(other_year, other_month, other_day),
    ensures
        year == other_year && month == other_month && day == other_day,
{
    lemma_date_lies_in_its_year(year, month, day);
    lemma_date_lies_in_its_year(other_year, other_month, other_day);
    if year < other_year {
        lemma_years_are_ordered(year + 1, other_year);
    } else if other_year < year {
        lemma_years_are_ordered(other_year + 1, year);
    }
    if month < other_month {
        lemma_months_are_ordered(year, month, other_month);
    } else if other_month < month {
        lemma_months_are_ordered(year, other_month, month);
    }
}

/// Some year holds a day.
proof fn lemma_day_has_a_year(number: int, from: int) -> (year: int)
    ensures
        days_before_year(year) <= number < days_before_year(year + 1),
    decreases
            if number < days_before_year(from) {
                days_before_year(from) - number
            } else {
                number - days_before_year(from)
            },
{
    lemma_year_follows(from);
    if number < days_before_year(from) {
        lemma_year_follows(from - 1);
        if days_before_year(from - 1) <= number {
            from - 1
        } else {
            lemma_day_has_a_year(number, from - 1)
        }
    } else if number < days_before_year(from + 1) {
        from
    } else {
        lemma_day_has_a_year(number, from + 1)
    }
}

/// Some month holds a day of the year.
proof fn lemma_day_has_a_month(year: int, offset: int, through: int) -> (month: int)
    requires
        1 <= through <= 12,
        0 <= offset < days_before_month(year, through + 1),
    ensures
        1 <= month <= through,
        days_before_month(year, month) <= offset < days_before_month(year, month) + month_days(
            year,
            month,
        ),
    decreases through,
{
    if days_before_month(year, through) <= offset {
        through
    } else {
        lemma_day_has_a_month(year, offset, through - 1)
    }
}

/// Every day has a date, and only one.
pub proof fn law_every_day_has_one_date(number: int)
    ensures
        is_date(date_on(number).0, date_on(number).1, date_on(number).2),
        day_number(date_on(number).0, date_on(number).1, date_on(number).2) == number,
        forall|year: int, month: int, day: int|
            is_date(year, month, day) && #[trigger] day_number(year, month, day) == number
                ==> date_on(number) == (year, month, day),
{
    let year = lemma_day_has_a_year(number, 1970);
    lemma_year_follows(year);
    lemma_months_fill_the_year(year);
    let offset = number - days_before_year(year);
    let month = lemma_day_has_a_month(year, offset, 12);
    let day = offset - days_before_month(year, month) + 1;
    assert(is_date(year, month, day) && day_number(year, month, day) == number);
    let (y, m, d) = date_on(number);
    assert forall|year: int, month: int, day: int|
        is_date(year, month, day) && #[trigger] day_number(year, month, day)
            == number implies date_on(number) == (year, month, day) by {
        law_dates_are_distinct(year, month, day, y, m, d);
    }
}

} // verus!
