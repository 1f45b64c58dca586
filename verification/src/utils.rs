//! Dates from timestamps, the user's home directory, and `~` in paths.

use vstd::prelude::*;
use vstd::string::*;
use crate::text::join2;
use crate::text::push_char;
use crate::text::opt_text;

verus! {

/// Asks the operating system for the home directory of the user.
///
/// Trusted: calls `directories::UserDirs::new` and `UserDirs::home_dir`.
/// The answer depends on the user and the system, so nothing is claimed of
/// it.
#[verifier::external_body]
pub(crate) fn resolve_home_dir() -> (home: Option<String>) {
    directories::UserDirs::new().map(|dirs| dirs.home_dir().display().to_string())
}

/// `raw` with a leading `~` replaced by the home directory, where one is
/// known; `raw` itself otherwise.
pub open spec fn tilde_expanded(raw: Seq<char>, home: Option<Seq<char>>) -> Seq<char> {
    if raw.len() > 0 && raw[0] == '~' && home is Some {
        home.unwrap() + raw.skip(1)
    } else {
        raw
    }
}

/// Expands a leading `~` of `raw_path` to `home`.
pub fn expand_tilde_with(raw_path: &str, home: Option<&str>) -> (r: String)
    ensures
        r@ == tilde_expanded(raw_path@, opt_text(home)),
{
    let n = raw_path.unicode_len();
    if n > 0 && raw_path.get_char(0) == '~' {
        match home {
            Some(h) => {
                let rest = raw_path.substring_char(1, n);
                return join2(h, rest);
            },
            None => {},
        }
    }
    String::from_str(raw_path)
}

/// Expands a leading `~` of `raw_path` to the home directory of the user.
/// A path without a leading `~` comes back unchanged; one with it is
/// expanded to whatever home directory the system names, and comes back
/// unchanged where it names none.
pub fn expand_tilde(raw_path: &str) -> (r: String)
    ensures
        exists|home: Option<Seq<char>>| r@ == tilde_expanded(raw_path@, home),
        !(raw_path@.len() > 0 && raw_path@[0] == '~') ==> r@ == raw_path@,
{
    let home = resolve_home_dir();
    match home {
        Some(h) => {
            let r = expand_tilde_with(raw_path, Some(h.as_str()));
            r
        },
        None => {
            let r = expand_tilde_with(raw_path, None);
            r
        },
    }
}

pub const SECONDS_PER_DAY: u64 = 86_400;

pub const SECONDS_PER_HOUR: u64 = 3_600;

pub const SECONDS_PER_MINUTE: u64 = 60;

pub const EPOCH_YEAR: u64 = 1970;

/// Whether `year` is a leap year of the Gregorian calendar.
pub open spec fn is_leap(year: int) -> bool {
    year % 4 == 0 && (year % 100 != 0 || year % 400 == 0)
}

/// The number of days of `year`.
pub open spec fn year_days(year: int) -> int {
    if is_leap(year) {
        366
    } else {
        365
    }
}

/// The number of days of month `month` of `year`, January being month 1.
pub open spec fn month_days(year: int, month: int) -> int {
    if month == 2 {
        if is_leap(year) {
            29
        } else {
            28
        }
    } else if month == 4 || month == 6 || month == 9 || month == 11 {
        30
    } else {
        31
    }
}

/// The number of days from the first day of 1970 to the first day of
/// `year`.
pub open spec fn days_before_year(year: int) -> int
    decreases year - 1970,
{
    if year <= 1970 {
        0
    } else {
        days_before_year(year - 1) + year_days(year - 1)
    }
}

/// The number of days from the first day of `year` to the first day of its
/// month `month`.
pub open spec fn days_before_month(year: int, month: int) -> int
    decreases month,
{
    if month <= 1 {
        0
    } else {
        days_before_month(year, month - 1) + month_days(year, month - 1)
    }
}

/// A date of the Gregorian calendar with a time of day, in UTC.
pub struct CivilTime {
    pub year: int,
    pub month: int,
    pub day: int,
    pub hour: int,
    pub minute: int,
    pub second: int,
}

/// Whether `t` is the date and time that lies `secs` seconds after the
/// beginning of 1970: the whole days passed lead to the day of `t`, and
/// the seconds left over to its time of day.
pub open spec fn is_time_of(secs: int, t: CivilTime) -> bool {
    &&& t.year >= 1970
    &&& 1 <= t.month <= 12
    &&& 1 <= t.day <= month_days(t.year, t.month)
    &&& secs / 86_400 == days_before_year(t.year) + days_before_month(t.year, t.month) + t.day - 1
    &&& t.hour == (secs % 86_400) / 3_600
    &&& t.minute == ((secs % 86_400) % 3_600) / 60
    &&& t.second == (secs % 86_400) % 60
}

/// The character for the digit `d`.
pub open spec fn digit(d: int) -> char {
    if d == 0 {
        '0'
    } else if d == 1 {
        '1'
    } else if d == 2 {
        '2'
    } else if d == 3 {
        '3'
    } else if d == 4 {
        '4'
    } else if d == 5 {
        '5'
    } else if d == 6 {
        '6'
    } else if d == 7 {
        '7'
    } else if d == 8 {
        '8'
    } else {
        '9'
    }
}

/// The decimal digits of `n`.
pub open spec fn decimal(n: int) -> Seq<char>
    decreases n,
{
    if n < 10 {
        seq![digit(n)]
    } else {
        decimal(n / 10).push(digit(n % 10))
    }
}

/// `count` zeros.
pub open spec fn zeros(count: int) -> Seq<char> {
    Seq::new(
        if count > 0 {
            count as nat
        } else {
            0
        },
        |i: int| '0',
    )
}

/// The decimal digits of `n`, with zeros in front where they are fewer
/// than `width`.
pub open spec fn padded(n: int, width: int) -> Seq<char> {
    zeros(width - decimal(n).len()) + decimal(n)
}

/// The date of `t`, as year, month and day.
pub open spec fn date_text(t: CivilTime) -> Seq<char> {
    padded(t.year, 4) + seq!['-'] + padded(t.month, 2) + seq!['-'] + padded(t.day, 2)
}

/// The time of day of `t`, as hours, minutes and seconds.
pub open spec fn clock_text(t: CivilTime) -> Seq<char> {
    padded(t.hour, 2) + seq![':'] + padded(t.minute, 2) + seq![':'] + padded(t.second, 2)
}

/// The text of `t`: its date, and its time of day where that is asked for.
pub open spec fn time_text(t: CivilTime, include_time: bool) -> Seq<char> {
    if include_time {
        date_text(t) + seq![' '] + clock_text(t)
    } else {
        date_text(t)
    }
}

/// The date and time that lies `secs` seconds after the beginning of 1970.
pub open spec fn civil_time_of(secs: int) -> CivilTime {
    choose|t: CivilTime| is_time_of(secs, t)
}

/// The text of the date and time that lies `secs` seconds after the
/// beginning of 1970.
pub open spec fn formatted_time(secs: int, include_time: bool) -> Seq<char> {
    time_text(civil_time_of(secs), include_time)
}

/// A year has as many days as its twelve months together.
pub proof fn lemma_months_fill_year(year: int)
    ensures
        days_before_month(year, 13) == year_days(year),
{
    reveal_with_fuel(days_before_month, 14);
}

/// Later years begin later.
pub proof fn lemma_years_ascend(a: int, b: int)
    requires
        1970 <= a <= b,
    ensures
        days_before_year(a) <= days_before_year(b),
        a < b ==> days_before_year(a) + year_days(a) <= days_before_year(b),
    decreases b - a,
{
    if a < b {
        lemma_years_ascend(a, b - 1);
    }
}

/// Later months begin later, and every month ends within its year.
pub proof fn lemma_months_ascend(year: int, a: int, b: int)
    requires
        1 <= a <= b <= 13,
    ensures
        days_before_month(year, a) <= days_before_month(year, b),
        a < b ==> days_before_month(year, a) + month_days(year, a) <= days_before_month(year, b),
    decreases b - a,
{
    if a < b {
        lemma_months_ascend(year, a, b - 1);
    }
}

/// A number of seconds stands for one date and time only.
pub proof fn lemma_time_is_unique(secs: int, a: CivilTime, b: CivilTime)
    requires
        is_time_of(secs, a),
        is_time_of(secs, b),
    ensures
        a == b,
{
    lemma_months_fill_year(a.year);
    lemma_months_fill_year(b.year);
    lemma_months_ascend(a.year, a.month, 13);
    lemma_months_ascend(b.year, b.month, 13);
    lemma_months_ascend(a.year, 1, a.month);
    lemma_months_ascend(b.year, 1, b.month);
    if a.year < b.year {
        lemma_years_ascend(a.year, b.year);
    } else if b.year < a.year {
        lemma_years_ascend(b.year, a.year);
    } else if a.month < b.month {
        lemma_months_ascend(a.year, a.month, b.month);
    } else if b.month < a.month {
        lemma_months_ascend(a.year, b.month, a.month);
    }
}

pub fn is_leap_year(year: u64) -> (r: bool)
    ensures
        r == is_leap(year as int),
{
    year % 4 == 0 && (year % 100 != 0 || year % 400 == 0)
}

pub fn days_in_year(year: u64) -> (r: u64)
    ensures
        r == year_days(year as int),
{
    if is_leap_year(year) {
        366
    } else {
        365
    }
}

/// The number of days of a month of `year`.
pub fn days_in_month(year: u64, month: u64) -> (r: u64)
    ensures
        r == month_days(year as int, month as int),
{
    if month == 2 {
        if is_leap_year(year) {
            29
        } else {
            28
        }
    } else if month == 4 || month == 6 || month == 9 || month == 11 {
        30
    } else {
        31
    }
}

/// The character for the digit `d`.
fn digit_char(d: u64) -> (c: char)
    requires
        d < 10,
    ensures
        c == digit(d as int),
{
    if d == 0 {
        '0'
    } else if d == 1 {
        '1'
    } else if d == 2 {
        '2'
    } else if d == 3 {
        '3'
    } else if d == 4 {
        '4'
    } else if d == 5 {
        '5'
    } else if d == 6 {
        '6'
    } else if d == 7 {
        '7'
    } else if d == 8 {
        '8'
    } else {
        '9'
    }
}

/// Appends the decimal digits of `n`.
fn push_decimal(s: &mut String, n: u64)
    ensures
        final(s)@ == old(s)@ + decimal(n as int),
    decreases n,
{
    if n >= 10 {
        push_decimal(s, n / 10);
    }
    push_char(s, digit_char(n % 10));
}

/// The number of decimal digits of `n`.
fn count_digits(n: u64) -> (r: usize)
    ensures
        r == decimal(n as int).len(),
        1 <= r <= 20,
    decreases n,
{
    if n >= 10 {
        let r = count_digits(n / 10);
        proof {
            lemma_digits_bound(n as int);
        }
        r + 1
    } else {
        1
    }
}

/// A number that fits in 64 bits has at most twenty digits.
proof fn lemma_digits_bound(n: int)
    requires
        0 <= n <= u64::MAX,
    ensures
        decimal(n).len() <= 20,
{
    reveal_with_fuel(decimal, 21);
}

/// Appends the decimal digits of `n`, with zeros in front where they are
/// fewer than `width`.
fn push_padded(s: &mut String, n: u64, width: usize)
    ensures
        final(s)@ == old(s)@ + padded(n as int, width as int),
{
    let digits = count_digits(n);
    let ghost start = s@;
    let mut i: usize = digits;
    while i < width
        invariant
            digits <= i,
            digits < width ==> i <= width,
            digits >= width ==> i == digits,
            s@ == start + zeros(i - digits),
        decreases width - i,
    {
        push_char(s, '0');
        i += 1;
    }
    push_decimal(s, n);
}

/// The date that lies `days` whole days after the first day of 1970, as
/// year, month and day.
fn civil_date(days: u64) -> (r: (u64, u64, u64))
    requires
        days <= u64::MAX / 86_400,
    ensures
        r.0 >= 1970,
        1 <= r.1 <= 12,
        1 <= r.2 <= month_days(r.0 as int, r.1 as int),
        days == days_before_year(r.0 as int) + days_before_month(r.0 as int, r.1 as int) + r.2 - 1,
{
    let mut remaining: u64 = days;
    let mut year: u64 = 1970;
    while remaining >= days_in_year(year)
        invariant
            year >= 1970,
            days <= u64::MAX / 86_400,
            days == days_before_year(year as int) + remaining,
            year - 1970 <= days - remaining,
        decreases remaining,
    {
        remaining = remaining - days_in_year(year);
        year = year + 1;
    }
    let mut month: u64 = 1;
    proof {
        reveal_with_fuel(days_before_month, 14);
    }
    let ghost day_of_year = remaining;
    while month < 12 && remaining >= days_in_month(year, month)
        invariant
            1 <= month <= 12,
            day_of_year == days_before_month(year as int, month as int) + remaining,
            day_of_year < year_days(year as int),
            days_before_month(year as int, 13) == year_days(year as int),
        decreases 12 - month,
    {
        remaining = remaining - days_in_month(year, month);
        month = month + 1;
    }
    (year, month, remaining + 1)
}

/// Formats a timestamp, given in seconds since 1970-01-01 00:00:00 UTC, as
/// `YYYY-MM-DD`, or as `YYYY-MM-DD HH:MM:SS` where the time of day is
/// included.
pub fn format_time(secs: u64, include_time: bool) -> (r: String)
    ensures
        r@ == formatted_time(secs as int, include_time),
        is_time_of(secs as int, civil_time_of(secs as int)),
{
    let days = secs / SECONDS_PER_DAY;
    let within_day = secs % SECONDS_PER_DAY;
    let hours = within_day / SECONDS_PER_HOUR;
    let minutes = (within_day % SECONDS_PER_HOUR) / SECONDS_PER_MINUTE;
    let seconds = within_day % SECONDS_PER_MINUTE;
    let (year, month, day) = civil_date(days);
    let ghost t = CivilTime {
        year: year as int,
        month: month as int,
        day: day as int,
        hour: hours as int,
        minute: minutes as int,
        second: seconds as int,
    };
    let mut r = String::new();
    push_padded(&mut r, year, 4);
    push_char(&mut r, '-');
    push_padded(&mut r, month, 2);
    push_char(&mut r, '-');
    push_padded(&mut r, day, 2);
    if include_time {
        push_char(&mut r, ' ');
        push_padded(&mut r, hours, 2);
        push_char(&mut r, ':');
        push_padded(&mut r, minutes, 2);
        push_char(&mut r, ':');
        push_padded(&mut r, seconds, 2);
    }
    proof {
        assert(is_time_of(secs as int, t));
        lemma_time_is_unique(secs as int, t, civil_time_of(secs as int));
    }
    r
}

} // verus!
