//! Calendar dates and times of Unix timestamps, and their `%Y-%m-%d %H:%M:%S` text.

use vstd::prelude::*;

verus! {

/// Whether `year` is a leap year of the proleptic Gregorian calendar.
pub open spec fn is_leap_year(year: int) -> bool {
    (year % 4 == 0 && year % 100 != 0) || year % 400 == 0
}

/// The number of days of `month` (1 to 12) in `year`.
pub open spec fn days_in_month(year: int, month: nat) -> nat {
    if month == 2 {
        if is_leap_year(year) {
            29
        } else {
            28
        }
    } else if month == 4 || month == 6 || month == 9 || month == 11 {
        30
    } else {
        31
    }
}

/// Whether `year`, `month` and `day` name a day of the calendar.
pub open spec fn is_calendar_date(year: int, month: nat, day: nat) -> bool {
    1 <= month <= 12 && 1 <= day <= days_in_month(year, month)
}

/// The number of leap years from year 1 to `year`, counted with a sign for years below 1.
pub open spec fn leap_years_through(year: int) -> int {
    year / 4 - year / 100 + year / 400
}

/// The number of days from 1970-01-01 to January 1 of `year` (negative before 1970).
pub open spec fn days_before_year(year: int) -> int {
    365 * (year - 1970) + leap_years_through(year - 1) - leap_years_through(1969)
}

/// The number of days of `year` before the first day of `month`.
pub open spec fn days_before_month(year: int, month: nat) -> nat
    decreases month,
{
    if month <= 1 {
        0
    } else {
        days_before_month(year, (month - 1) as nat) + days_in_month(year, (month - 1) as nat)
    }
}

/// The number of days from 1970-01-01 to the given day (negative before 1970).
pub open spec fn days_from_civil(year: int, month: nat, day: nat) -> int {
    days_before_year(year) + days_before_month(year, month) + day - 1
}

/// The seconds from 1970-01-01 00:00:00 to the given date and time of day.
pub open spec fn seconds_from_civil(
    year: int,
    month: nat,
    day: nat,
    hour: nat,
    minute: nat,
    second: nat,
) -> int {
    days_from_civil(year, month, day) * 86400 + hour * 3600 + minute * 60 + second
}

/// The character of a decimal digit (0 to 9).
pub open spec fn digit_char(d: nat) -> char {
    (d + 48) as char
}

/// The decimal digits of `n`, most significant first, without leading zeros.
pub open spec fn decimal_digits(n: nat) -> Seq<char>
    decreases n,
{
    if n < 10 {
        seq![digit_char(n)]
    } else {
        decimal_digits(n / 10).push(digit_char(n % 10))
    }
}

/// `n` in decimal, with leading zeros up to at least `width` characters.
pub open spec fn zero_padded(n: nat, width: nat) -> Seq<char> {
    let digits = decimal_digits(n);
    if digits.len() >= width {
        digits
    } else {
        Seq::new((width - digits.len()) as nat, |i: int| '0') + digits
    }
}

/// The year as `%Y` writes it: four digits with leading zeros from year 0 to 9999, and
/// otherwise a sign followed by at least four digits.
pub open spec fn year_text(year: int) -> Seq<char> {
    if 0 <= year < 10000 {
        zero_padded(year as nat, 4)
    } else if year >= 10000 {
        seq!['+'] + zero_padded(year as nat, 4)
    } else {
        seq!['-'] + zero_padded((-year) as nat, 4)
    }
}

/// A date and time of day as `%Y-%m-%d %H:%M:%S` writes it.
pub open spec fn datetime_text(
    year: int,
    month: nat,
    day: nat,
    hour: nat,
    minute: nat,
    second: nat,
) -> Seq<char> {
    year_text(year) + seq!['-'] + zero_padded(month, 2) + seq!['-'] + zero_padded(day, 2) + seq![
        ' ',
    ] + zero_padded(hour, 2) + seq![':'] + zero_padded(minute, 2) + seq![':'] + zero_padded(
        second,
        2,
    )
}

/// `text` is the `%Y-%m-%d %H:%M:%S` text of the wall-clock date and time at Unix timestamp
/// `ts` under some offset from UTC of less than a day, that is, of a date and time of day
/// whose seconds from 1970-01-01 00:00:00 differ from `ts` by less than 86400.
pub open spec fn is_local_time_text(ts: int, text: Seq<char>) -> bool {
    exists|year: int, month: nat, day: nat, hour: nat, minute: nat, second: nat|
        #![trigger datetime_text(year, month, day, hour, minute, second)]
        {
            &&& is_calendar_date(year, month, day)
            &&& hour < 24 && minute < 60 && second < 60
            &&& -86400 < seconds_from_civil(year, month, day, hour, minute, second) - ts < 86400
            &&& text == datetime_text(year, month, day, hour, minute, second)
        }
}

/// A padded number is at least as long as the width it was padded to.
pub proof fn lemma_zero_padded_len(n: nat, width: nat)
    ensures
        zero_padded(n, width).len() >= width,
{
}

/// A date and time text has at least 19 characters.
pub proof fn lemma_datetime_text_len(
    year: int,
    month: nat,
    day: nat,
    hour: nat,
    minute: nat,
    second: nat,
)
    ensures
        datetime_text(year, month, day, hour, minute, second).len() >= 19,
{
    lemma_zero_padded_len((if year >= 0 { year } else { -year }) as nat, 4);
    lemma_zero_padded_len(month, 2);
    lemma_zero_padded_len(day, 2);
    lemma_zero_padded_len(hour, 2);
    lemma_zero_padded_len(minute, 2);
    lemma_zero_padded_len(second, 2);
}

/// A local time text is never the one-character text `-`.
pub proof fn lemma_local_time_text_len(ts: int, text: Seq<char>)
    requires
        is_local_time_text(ts, text),
    ensures
        text.len() >= 19,
{
    let (year, month, day, hour, minute, second) = choose|
        year: int,
        month: nat,
        day: nat,
        hour: nat,
        minute: nat,
        second: nat,
    |
        #![trigger datetime_text(year, month, day, hour, minute, second)]
        {
            &&& is_calendar_date(year, month, day)
            &&& hour < 24 && minute < 60 && second < 60
            &&& -86400 < seconds_from_civil(year, month, day, hour, minute, second) - ts < 86400
            &&& text == datetime_text(year, month, day, hour, minute, second)
        };
    lemma_datetime_text_len(year, month, day, hour, minute, second);
}

/// Ten to the power `k`.
pub open spec fn ten_to(k: nat) -> nat
    decreases k,
{
    if k == 0 {
        1
    } else {
        10 * ten_to((k - 1) as nat)
    }
}

/// Whether `c` is a decimal digit.
pub open spec fn is_digit_char(c: char) -> bool {
    '0' <= c <= '9'
}

/// The decimal digits of a number below `10^width` are digits, at most `width` of them.
pub proof fn lemma_decimal_digits(n: nat, width: nat)
    requires
        1 <= width,
        n < ten_to(width),
    ensures
        decimal_digits(n).len() <= width,
        forall|i: int| 0 <= i < decimal_digits(n).len() ==> is_digit_char(#[trigger] decimal_digits(n)[i]),
    decreases n,
{
    if n >= 10 {
        let w1 = (width - 1) as nat;
        if width == 1 {
            assert(ten_to(1) == 10) by {
                reveal_with_fuel(ten_to, 2);
            }
        }
        assert(n / 10 < ten_to(w1)) by (nonlinear_arith)
            requires
                n < 10 * ten_to(w1),
        ;
        lemma_decimal_digits(n / 10, w1);
    }
}

/// A number below `10^width`, padded to `width`, is exactly `width` digits.
pub proof fn lemma_zero_padded_digits(n: nat, width: nat)
    requires
        1 <= width,
        n < ten_to(width),
    ensures
        zero_padded(n, width).len() == width,
        forall|i: int| 0 <= i < width ==> is_digit_char(#[trigger] zero_padded(n, width)[i]),
{
    lemma_decimal_digits(n, width);
}

/// For a year from 0 to 9999, a date and time text has 19 characters: digits, with `-` at
/// positions 4 and 7, a space at 10, and `:` at 13 and 16.
pub proof fn lemma_datetime_text_shape(
    year: int,
    month: nat,
    day: nat,
    hour: nat,
    minute: nat,
    second: nat,
)
    requires
        0 <= year < 10000,
        is_calendar_date(year, month, day),
        hour < 24,
        minute < 60,
        second < 60,
    ensures
        datetime_text(year, month, day, hour, minute, second).len() == 19,
        datetime_text(year, month, day, hour, minute, second)[4] == '-',
        datetime_text(year, month, day, hour, minute, second)[7] == '-',
        datetime_text(year, month, day, hour, minute, second)[10] == ' ',
        datetime_text(year, month, day, hour, minute, second)[13] == ':',
        datetime_text(year, month, day, hour, minute, second)[16] == ':',
        forall|i: int|
            0 <= i < 19 && i != 4 && i != 7 && i != 10 && i != 13 && i != 16 ==> is_digit_char(
                #[trigger] datetime_text(year, month, day, hour, minute, second)[i],
            ),
{
    reveal_with_fuel(ten_to, 5);
    lemma_zero_padded_digits(year as nat, 4);
    lemma_zero_padded_digits(month, 2);
    lemma_zero_padded_digits(day, 2);
    lemma_zero_padded_digits(hour, 2);
    lemma_zero_padded_digits(minute, 2);
    lemma_zero_padded_digits(second, 2);
    let t = datetime_text(year, month, day, hour, minute, second);
    let y = year_text(year);
    let mo = zero_padded(month, 2);
    let d = zero_padded(day, 2);
    let h = zero_padded(hour, 2);
    let mi = zero_padded(minute, 2);
    let s = zero_padded(second, 2);
    assert(t =~= y + seq!['-'] + mo + seq!['-'] + d + seq![' '] + h + seq![':'] + mi + seq![':'] + s);
    assert forall|i: int|
        0 <= i < 19 && i != 4 && i != 7 && i != 10 && i != 13 && i != 16 implies is_digit_char(
            #[trigger] t[i],
        ) by {
        if i < 4 {
            assert(t[i] == y[i]);
        } else if i < 7 {
            assert(t[i] == mo[i - 5]);
        } else if i < 10 {
            assert(t[i] == d[i - 8]);
        } else if i < 13 {
            assert(t[i] == h[i - 11]);
        } else if i < 16 {
            assert(t[i] == mi[i - 14]);
        } else {
            assert(t[i] == s[i - 17]);
        }
    }
}

} // verus!
