//! Dates as reports write them.

use vstd::prelude::*;
use vstd::string::*;

use crate::error;
use crate::error::{AnalyticsError, Problem};
use crate::ga_client;
use crate::report_checks;
use crate::text;

verus! {

pub const DEFAULT_RELEASE_PRE_DAYS: u32 = 7;

pub const DEFAULT_RELEASE_TRANSITION_DAYS: u32 = 1;

pub const DEFAULT_RELEASE_POST_DAYS: u32 = 7;

pub const MAX_RELEASE_WINDOW_DAYS: u32 = 90;

/// Whether a year has a 29th of February.
pub open spec fn is_leap(year: nat) -> bool {
    (year % 4 == 0 && year % 100 != 0) || year % 400 == 0
}

/// How many days a month has.
pub open spec fn days_in(year: nat, month: nat) -> nat {
    if month == 2 {
        if is_leap(year) {
            29
        } else {
            28
        }
    } else if month == 4 || month == 6 || month == 9 || month == 11 {
        30
    } else {
        31
    }
}

fn last_day(year: u64, month: u64) -> (r: u64)
    ensures
        r == days_in(year as nat, month as nat),
{
    if month == 2 {
        if (year % 4 == 0 && year % 100 != 0) || year % 400 == 0 {
            29
        } else {
            28
        }
    } else if month == 4 || month == 6 || month == 9 || month == 11 {
        30
    } else {
        31
    }
}

/// Whether year, month and day name a day of the calendar.
pub open spec fn is_day(year: nat, month: nat, day: nat) -> bool {
    1 <= month <= 12 && 1 <= day <= days_in(year, month)
}

/// The number that digits of a text stand for.
fn number_at(chars: &[char], from: usize, to: usize) -> (r: u64)
    requires
        from <= to <= chars@.len(),
        to - from <= 4,
        text::all_digits(chars@.subrange(from as int, to as int)),
    ensures
        r == text::numeral_value(chars@.subrange(from as int, to as int)),
{
    let ghost digits = chars@.subrange(from as int, to as int);
    let mut n: u64 = 0;
    assert(digits.take(0) =~= Seq::<char>::empty());
    for i in from..to
        invariant
            from <= to <= chars@.len(),
            to - from <= 4,
            digits == chars@.subrange(from as int, to as int),
            text::all_digits(digits),
            n == text::numeral_value(digits.take(i - from)),
            i - from == 0 ==> n < 1,
            i - from == 1 ==> n < 10,
            i - from == 2 ==> n < 100,
            i - from == 3 ==> n < 1000,
            i - from == 4 ==> n < 10000,
    {
        assert(digits[i - from] == chars@[i as int]);
        assert(text::is_digit(digits[i - from]));
        assert(digits.take(i - from + 1).drop_last() =~= digits.take(i - from));
        n = n * 10 + (chars[i] as u32 - '0' as u32) as u64;
    }
    assert(digits.take(to - from) =~= digits);
    n
}

// ---------------------------------------------------------------------------
// Dates of report rows.
// ---------------------------------------------------------------------------

/// The day that eight digits stand for, as `YYYY-MM-DD`.
pub open spec fn ga_date(raw: Seq<char>) -> Option<Seq<char>> {
    let value = text::trim(raw);
    if value.len() == 8 && text::all_digits(value) && is_day(
        text::numeral_value(value.subrange(0, 4)),
        text::numeral_value(value.subrange(4, 6)),
        text::numeral_value(value.subrange(6, 8)),
    ) {
        Some(value.subrange(0, 4) + "-"@ + value.subrange(4, 6) + "-"@ + value.subrange(6, 8))
    } else {
        None
    }
}

/// Whether text of a given length has digits only.
fn is_numeral(chars: &[char], n: usize) -> (r: bool)
    ensures
        r == (chars@.len() == n && text::all_digits(chars@)),
{
    chars.len() == n && text::digits_only(chars)
}

/// The day that eight digits stand for, as `YYYY-MM-DD`.
pub fn normalize_ga_date_literal(raw: &str) -> (r: Option<String>)
    ensures
        text::opt_text(r) == ga_date(raw@),
{
    let chars: Vec<char> = text::chars_of(text::trimmed(raw).as_str());
    if !is_numeral(chars.as_slice(), 8) {
        return None;
    }
    let ghost value = chars@;
    assert(text::all_digits(value.subrange(0, 4)));
    assert(text::all_digits(value.subrange(4, 6)));
    assert(text::all_digits(value.subrange(6, 8)));
    let year: u64 = number_at(chars.as_slice(), 0, 4);
    let month: u64 = number_at(chars.as_slice(), 4, 6);
    let day: u64 = number_at(chars.as_slice(), 6, 8);
    if month == 0 || month > 12 {
        return None;
    }
    if day == 0 || day > last_day(year, month) {
        return None;
    }
    let mut r: String = text::text_between(chars.as_slice(), 0, 4);
    r.append("-");
    r.append(text::text_between(chars.as_slice(), 4, 6).as_str());
    r.append("-");
    r.append(text::text_between(chars.as_slice(), 6, 8).as_str());
    Some(r)
}

/// The hour that ten digits stand for, as `YYYY-MM-DD HH:00:00`.
pub open spec fn ga_date_hour(raw: Seq<char>) -> Option<Seq<char>> {
    let value = text::trim(raw);
    if value.len() == 10 && text::all_digits(value) {
        match ga_date(value.subrange(0, 8)) {
            Some(date) => if text::numeral_value(value.subrange(8, 10)) <= 23 {
                Some(date + " "@ + value.subrange(8, 10) + ":00:00"@)
            } else {
                None
            },
            None => None,
        }
    } else {
        None
    }
}

/// The hour that ten digits stand for, as `YYYY-MM-DD HH:00:00`.
pub fn normalize_ga_date_hour_literal(raw: &str) -> (r: Option<String>)
    ensures
        text::opt_text(r) == ga_date_hour(raw@),
{
    let chars: Vec<char> = text::chars_of(text::trimmed(raw).as_str());
    if !is_numeral(chars.as_slice(), 10) {
        return None;
    }
    assert(text::all_digits(chars@.subrange(8, 10)));
    let day: String = text::text_between(chars.as_slice(), 0, 8);
    match normalize_ga_date_literal(day.as_str()) {
        Some(date) => {
            let hour: u64 = number_at(chars.as_slice(), 8, 10);
            if hour > 23 {
                return None;
            }
            let shown: String = text::text_between(chars.as_slice(), 8, 10);
            Some(error::described(date.as_str(), " ", shown.as_str(), ":00:00"))
        },
        None => None,
    }
}

// ---------------------------------------------------------------------------
// Release dates.
// ---------------------------------------------------------------------------

/// Whether a text has the form `YYYY-MM-DD`.
pub open spec fn is_date_shaped(value: Seq<char>) -> bool {
    &&& value.len() == 10
    &&& value[4] == '-'
    &&& value[7] == '-'
    &&& forall|i: int|
        0 <= i < 10 && i != 4 && i != 7 ==> text::is_digit(#[trigger] value[i])
}

/// The release date that a text gives, or what is wrong with it.
pub open spec fn release_date(raw: Seq<char>) -> Result<Seq<char>, Problem> {
    let value = text::trim(raw);
    let month = text::numeral_value(value.subrange(5, 7));
    if !is_date_shaped(value) {
        Err(Problem::InvalidArgument("release_date"@, "must use YYYY-MM-DD format"@))
    } else if !(1 <= month <= 12) {
        Err(Problem::InvalidArgument("release_date"@, "month must be between 01 and 12"@))
    } else if !is_day(
        text::numeral_value(value.subrange(0, 4)),
        month,
        text::numeral_value(value.subrange(8, 10)),
    ) {
        Err(Problem::InvalidArgument("release_date"@, "day is out of range for the given month"@))
    } else {
        Ok(value)
    }
}

fn date_shaped(chars: &[char]) -> (r: bool)
    ensures
        r == is_date_shaped(chars@),
{
    if chars.len() != 10 || chars[4] != '-' || chars[7] != '-' {
        return false;
    }
    for i in 0..10usize
        invariant
            chars@.len() == 10,
            forall|j: int|
                0 <= j < i && j != 4 && j != 7 ==> text::is_digit(#[trigger] chars@[j]),
    {
        if i != 4 && i != 7 && !text::digit_char(chars[i]) {
            return false;
        }
    }
    true
}

/// The release date that a text gives.
pub fn parse_iso_date_literal(raw: &str) -> (r: Result<String, AnalyticsError>)
    ensures
        ga_client::text_result(r) == release_date(raw@),
{
    let value: String = text::trimmed(raw);
    let chars: Vec<char> = text::chars_of(value.as_str());
    if !date_shaped(chars.as_slice()) {
        return Err(AnalyticsError::invalid("release_date", "must use YYYY-MM-DD format"));
    }
    assert(text::all_digits(chars@.subrange(0, 4)));
    assert(text::all_digits(chars@.subrange(5, 7)));
    assert(text::all_digits(chars@.subrange(8, 10)));
    let year: u64 = number_at(chars.as_slice(), 0, 4);
    let month: u64 = number_at(chars.as_slice(), 5, 7);
    let day: u64 = number_at(chars.as_slice(), 8, 10);
    if month == 0 || month > 12 {
        return Err(AnalyticsError::invalid("release_date", "month must be between 01 and 12"));
    }
    if day == 0 || day > last_day(year, month) {
        return Err(
            AnalyticsError::invalid("release_date", "day is out of range for the given month"),
        );
    }
    Ok(value)
}

/// What a number of days, or the error in its place, says.
pub open spec fn days_result(r: Result<u32, AnalyticsError>) -> Result<u32, Problem> {
    match r {
        Ok(n) => Ok(n),
        Err(err) => Err(err@),
    }
}

/// A number of days between one and the limit; `default` where none is asked for.
pub open spec fn window_days(value: Option<u32>, default: u32, field: Seq<char>) -> Result<
    u32,
    Problem,
> {
    let days = match value {
        Some(n) => n,
        None => default,
    };
    if days == 0 {
        Err(Problem::InvalidArgument(field, "must be greater than zero"@))
    } else if days > MAX_RELEASE_WINDOW_DAYS {
        Err(report_checks::too_high(field, MAX_RELEASE_WINDOW_DAYS as nat))
    } else {
        Ok(days)
    }
}

/// A number of days between one and the limit.
pub fn resolve_release_window_days(
    value: Option<u32>,
    default_value: u32,
    field: &'static str,
) -> (r: Result<u32, AnalyticsError>)
    ensures
        days_result(r) == window_days(value, default_value, field@),
{
    let days: u32 = match value {
        Some(n) => n,
        None => default_value,
    };
    if days == 0 {
        return Err(AnalyticsError::invalid(field, "must be greater than zero"));
    }
    if days > MAX_RELEASE_WINDOW_DAYS {
        return Err(report_checks::too_high_error(field, MAX_RELEASE_WINDOW_DAYS as u64));
    }
    Ok(days)
}

// ---------------------------------------------------------------------------
// Laws.
// ---------------------------------------------------------------------------

/// A release date that is accepted names a day of the calendar, and is accepted again as
/// it is.
pub proof fn law_release_dates_are_days(raw: Seq<char>)
    requires
        release_date(raw) is Ok,
    ensures
        is_day(
            text::numeral_value(release_date(raw)->Ok_0.subrange(0, 4)),
            text::numeral_value(release_date(raw)->Ok_0.subrange(5, 7)),
            text::numeral_value(release_date(raw)->Ok_0.subrange(8, 10)),
        ),
        release_date(release_date(raw)->Ok_0) == release_date(raw),
{
    text::law_trim(raw);
}

/// A day that a report row names is written as a release date is.
pub proof fn law_ga_dates_are_release_dates(raw: Seq<char>)
    requires
        ga_date(raw) is Some,
    ensures
        release_date(ga_date(raw)->0) == Ok::<Seq<char>, Problem>(ga_date(raw)->0),
{
    reveal_strlit("-");
    let value = text::trim(raw);
    let date = ga_date(raw)->0;
    assert(date.subrange(0, 4) =~= value.subrange(0, 4));
    assert(date.subrange(5, 7) =~= value.subrange(4, 6));
    assert(date.subrange(8, 10) =~= value.subrange(6, 8));
    assert forall|i: int| 0 <= i < 10 && i != 4 && i != 7 implies text::is_digit(
        #[trigger] date[i],
    ) by {
        if i < 4 {
            assert(date[i] == value[i]);
        } else if i < 7 {
            assert(date[i] == value[i - 1]);
        } else {
            assert(date[i] == value[i - 2]);
        }
    }
    assert(text::is_digit(date[0]));
    assert(text::is_digit(date[9]));
    assert(!text::is_space(date[0]));
    assert(!text::is_space(date.last()));
    assert(text::trim_start(date) == date);
    assert(text::trim(date) == date);
}

/// The number of a digit.
pub open spec fn digit_number(digit: char) -> nat {
    (digit as u32 - 48) as nat
}

/// Whether a month has a day: all have the first twenty-eight; all but February have two more;
/// seven have one more still; and February has its twenty-ninth in every fourth year, but for
/// the years of a century that four hundred does not divide.
pub open spec fn has_day(year: nat, month: nat, day: nat) -> bool {
    &&& 1 <= month <= 12
    &&& day >= 1
    &&& (day <= 28 || (day <= 30 && month != 2) || (day == 31 && (month == 1 || month == 3 || month
        == 5 || month == 7 || month == 8 || month == 10 || month == 12)) || (day == 29 && year % 4
        == 0 && (year % 100 != 0 || year % 400 == 0)))
}

proof fn lemma_two_digits(value: Seq<char>)
    requires
        value.len() == 2,
        text::all_digits(value),
    ensures
        text::numeral_value(value) == 10 * digit_number(value[0]) + digit_number(value[1]),
{
    let none = Seq::<char>::empty();
    assert(text::is_digit(value[0]) && text::is_digit(value[1]));
    text::law_digits_count_by_their_place(none, value[0]);
    text::law_digits_count_by_their_place(none.push(value[0]), value[1]);
    assert(none.push(value[0]).push(value[1]) =~= value);
}

proof fn lemma_four_digits(value: Seq<char>)
    requires
        value.len() == 4,
        text::all_digits(value),
    ensures
        text::numeral_value(value) == 1000 * digit_number(value[0]) + 100 * digit_number(value[1])
            + 10 * digit_number(value[2]) + digit_number(value[3]),
{
    let two = value.take(2);
    assert(text::all_digits(two));
    assert(text::is_digit(value[2]) && text::is_digit(value[3]));
    lemma_two_digits(two);
    text::law_digits_count_by_their_place(two, value[2]);
    text::law_digits_count_by_their_place(two.push(value[2]), value[3]);
    assert(two.push(value[2]).push(value[3]) =~= value);
}

/// Eight digits are a date exactly where the calendar has that day, and it is written with the
/// year, the month and the day in this order.
pub proof fn law_eight_digits_are_a_date(value: Seq<char>)
    requires
        value.len() == 8,
        forall|i: int| 0 <= i < 8 ==> '0' <= #[trigger] value[i] <= '9',
    ensures
        ga_date(value) == (if has_day(
            1000 * digit_number(value[0]) + 100 * digit_number(value[1]) + 10 * digit_number(
                value[2],
            ) + digit_number(value[3]),
            10 * digit_number(value[4]) + digit_number(value[5]),
            10 * digit_number(value[6]) + digit_number(value[7]),
        ) {
            Some(
                seq![
                    value[0],
                    value[1],
                    value[2],
                    value[3],
                    '-',
                    value[4],
                    value[5],
                    '-',
                    value[6],
                    value[7],
                ],
            )
        } else {
            None
        }),
{
    reveal_strlit("-");
    assert forall|i: int| 0 <= i < 8 implies text::is_digit(#[trigger] value[i]) && !text::is_space(
        value[i],
    ) by {
        assert('0' <= value[i] <= '9');
    }
    text::law_tight_texts_are_not_trimmed(value);
    assert(text::all_digits(value));
    lemma_four_digits(value.subrange(0, 4));
    lemma_two_digits(value.subrange(4, 6));
    lemma_two_digits(value.subrange(6, 8));
    let shown = value.subrange(0, 4) + "-"@ + value.subrange(4, 6) + "-"@ + value.subrange(6, 8);
    assert(shown =~= seq![
        value[0],
        value[1],
        value[2],
        value[3],
        '-',
        value[4],
        value[5],
        '-',
        value[6],
        value[7],
    ]);
}

/// Ten digits are an hour exactly where the first eight are a date and the last two name an
/// hour of the day.
pub proof fn law_ten_digits_are_an_hour(value: Seq<char>)
    requires
        value.len() == 10,
        forall|i: int| 0 <= i < 10 ==> '0' <= #[trigger] value[i] <= '9',
    ensures
        ga_date_hour(value) == (match ga_date(value.take(8)) {
            Some(date) => if 10 * digit_number(value[8]) + digit_number(value[9]) < 24 {
                Some(date + seq![' ', value[8], value[9], ':', '0', '0', ':', '0', '0'])
            } else {
                None
            },
            None => None,
        }),
{
    reveal_strlit(" ");
    reveal_strlit(":00:00");
    assert forall|i: int| 0 <= i < 10 implies text::is_digit(#[trigger] value[i])
        && !text::is_space(value[i]) by {
        assert('0' <= value[i] <= '9');
    }
    text::law_tight_texts_are_not_trimmed(value);
    assert(text::all_digits(value));
    lemma_two_digits(value.subrange(8, 10));
    assert(value.take(8) =~= value.subrange(0, 8));
    match ga_date(value.take(8)) {
        Some(date) => {
            assert(date + " "@ + value.subrange(8, 10) + ":00:00"@ =~= date + seq![
                ' ',
                value[8],
                value[9],
                ':',
                '0',
                '0',
                ':',
                '0',
                '0',
            ]);
        },
        None => {},
    }
}

/// A text with dashes between year, month and day is a release date exactly where the calendar
/// has that day, and it stays as it is.
pub proof fn law_days_of_the_calendar_are_release_dates(value: Seq<char>)
    requires
        value.len() == 10,
        value[4] == '-',
        value[7] == '-',
        forall|i: int| 0 <= i < 10 && i != 4 && i != 7 ==> '0' <= #[trigger] value[i] <= '9',
    ensures
        has_day(
            1000 * digit_number(value[0]) + 100 * digit_number(value[1]) + 10 * digit_number(
                value[2],
            ) + digit_number(value[3]),
            10 * digit_number(value[5]) + digit_number(value[6]),
            10 * digit_number(value[8]) + digit_number(value[9]),
        ) ==> release_date(value) == Ok::<Seq<char>, Problem>(value),
        !has_day(
            1000 * digit_number(value[0]) + 100 * digit_number(value[1]) + 10 * digit_number(
                value[2],
            ) + digit_number(value[3]),
            10 * digit_number(value[5]) + digit_number(value[6]),
            10 * digit_number(value[8]) + digit_number(value[9]),
        ) ==> (release_date(value) matches Err(Problem::InvalidArgument(field, said)) && field
            == "release_date"@),
{
    assert forall|i: int| 0 <= i < 10 && i != 4 && i != 7 implies text::is_digit(
        #[trigger] value[i],
    ) && !text::is_space(value[i]) by {
        assert('0' <= value[i] <= '9');
    }
    assert(!text::is_space(value[0]) && !text::is_space(value[9]));
    text::law_tight_texts_are_not_trimmed(value);
    assert(text::all_digits(value.subrange(0, 4)));
    assert(text::all_digits(value.subrange(5, 7)));
    assert(text::all_digits(value.subrange(8, 10)));
    lemma_four_digits(value.subrange(0, 4));
    lemma_two_digits(value.subrange(5, 7));
    lemma_two_digits(value.subrange(8, 10));
}

/// A window is as many days as are asked for, from one to ninety; where nothing is asked for,
/// it is the usual number.
pub proof fn law_windows_are_what_is_asked_for(days: u32, usual: u32, field: Seq<char>)
    requires
        1 <= usual <= 90,
    ensures
        1 <= days <= 90 <==> window_days(Some(days), usual, field) == Ok::<u32, Problem>(days),
        days == 0 || days > 90 <==> window_days(Some(days), usual, field) is Err,
        window_days(None, usual, field) == Ok::<u32, Problem>(usual),
        window_days(Some(days), usual, field) matches Err(err) ==> (
        err matches Problem::InvalidArgument(told, said) && told == field),
{
}

/// What is said of a release date that names no day.
pub proof fn law_faults_of_dates_are_said(raw: Seq<char>)
    ensures
        text::trim(raw).len() != 10 ==> release_date(raw) == Err::<Seq<char>, Problem>(
            Problem::InvalidArgument("release_date"@, "must use YYYY-MM-DD format"@),
        ),
        is_date_shaped(text::trim(raw)) && (text::numeral_value(text::trim(raw).subrange(5, 7)) == 0
            || text::numeral_value(text::trim(raw).subrange(5, 7)) > 12) ==> release_date(raw)
            == Err::<Seq<char>, Problem>(
            Problem::InvalidArgument("release_date"@, "month must be between 01 and 12"@),
        ),
{
}

} // verus!
