//! Calendar dates of the proleptic Gregorian calendar.

use crate::text::{append_padded, decimal, digit_char, padded, repeated};
use vstd::prelude::*;
use vstd::string::*;

verus! {

/// Whether year `y` has a 29th of February.
pub open spec fn is_leap_year(y: int) -> bool {
    y % 4 == 0 && (y % 100 != 0 || y % 400 == 0)
}

/// The number of days of month `m` in year `y`.
pub open spec fn days_in_month(y: int, m: int) -> int {
    if m == 2 {
        if is_leap_year(y) {
            29
        } else {
            28
        }
    } else if m == 4 || m == 6 || m == 9 || m == 11 {
        30
    } else {
        31
    }
}

/// Whether day `d` of month `m` exists in year `y`.
pub open spec fn valid_ymd(y: int, m: int, d: int) -> bool {
    1 <= m <= 12 && 1 <= d <= days_in_month(y, m)
}

/// Whether `c` is a decimal digit.
pub open spec fn is_digit(c: char) -> bool {
    '0' <= c && c <= '9'
}

/// The value of the decimal digit `c`.
pub open spec fn digit_value(c: char) -> int {
    c as int - 48
}

/// Whether `s` has the shape `dddd-dd-dd`, each `d` a decimal digit.
pub open spec fn iso_shape(s: Seq<char>) -> bool {
    &&& s.len() == 10
    &&& is_digit(s[0])
    &&& is_digit(s[1])
    &&& is_digit(s[2])
    &&& is_digit(s[3])
    &&& s[4] == '-'
    &&& is_digit(s[5])
    &&& is_digit(s[6])
    &&& s[7] == '-'
    &&& is_digit(s[8])
    &&& is_digit(s[9])
}

/// The date that the text `s` writes as `YYYY-MM-DD`, if it writes one.
pub open spec fn iso_date(s: Seq<char>) -> Option<Date> {
    if iso_shape(s) {
        let y = digit_value(s[0]) * 1000 + digit_value(s[1]) * 100 + digit_value(s[2]) * 10
            + digit_value(s[3]);
        let m = digit_value(s[5]) * 10 + digit_value(s[6]);
        let d = digit_value(s[8]) * 10 + digit_value(s[9]);
        if valid_ymd(y, m, d) {
            Some(Date { year: y as i32, month: m as u8, day: d as u8 })
        } else {
            None
        }
    } else {
        None
    }
}

/// The day `n` days before `d`, as far as the calendar reaches back.
pub open spec fn days_before(d: Date, n: nat) -> Option<Date>
    decreases n,
{
    if n == 0 {
        Some(d)
    } else {
        match days_before(d, (n - 1) as nat) {
            Some(day) => if day.starts_year() && day.year == i32::MIN {
                None
            } else {
                Some(day.prev())
            },
            None => None,
        }
    }
}

/// Where the calendar does not reach some days back, it does not reach
/// further back either.
pub proof fn lemma_no_way_back(d: Date, n: nat, m: nat)
    requires
        n <= m,
        days_before(d, n) is None,
    ensures
        days_before(d, m) is None,
    decreases m,
{
    if n < m {
        lemma_no_way_back(d, n, (m - 1) as nat);
    }
}

/// The numeral of a year: four digits from 0 to 9999, and otherwise a sign
/// followed by at least four digits.
pub open spec fn year_text(y: int) -> Seq<char> {
    if 0 <= y <= 9999 {
        padded(y as nat, 4)
    } else if y < 0 {
        seq!['-'] + padded((-y) as nat, 4)
    } else {
        seq!['+'] + padded(y as nat, 4)
    }
}

/// A calendar date: year, month (1 to 12) and day of the month (from 1).
#[derive(Clone, Copy, Debug, PartialEq, Eq, Structural)]
pub struct Date {
    pub year: i32,
    pub month: u8,
    pub day: u8,
}

impl Date {
    /// Whether this is a day that exists in the calendar.
    pub open spec fn is_valid(self) -> bool {
        valid_ymd(self.year as int, self.month as int, self.day as int)
    }

    /// Whether this date lies strictly before `other`.
    pub open spec fn precedes(self, other: Date) -> bool {
        self.year < other.year || (self.year == other.year && (self.month < other.month || (
        self.month == other.month && self.day < other.day)))
    }

    /// Whether this is the last day of its year, as far as `next` is concerned.
    pub open spec fn ends_year(self) -> bool {
        self.day >= days_in_month(self.year as int, self.month as int) && self.month >= 12
    }

    /// The day after this one. Meaningful unless the year would leave `i32`.
    pub open spec fn next(self) -> Date {
        if self.day < days_in_month(self.year as int, self.month as int) {
            Date { year: self.year, month: self.month, day: (self.day + 1) as u8 }
        } else if self.month < 12 {
            Date { year: self.year, month: (self.month + 1) as u8, day: 1 }
        } else {
            Date { year: (self.year + 1) as i32, month: 1, day: 1 }
        }
    }

    /// Whether this is the first day of its year, as far as `prev` is
    /// concerned.
    pub open spec fn starts_year(self) -> bool {
        self.day <= 1 && self.month <= 1
    }

    /// The day before this one. Meaningful unless the year would leave `i32`.
    pub open spec fn prev(self) -> Date {
        if self.day > 1 {
            Date { year: self.year, month: self.month, day: (self.day - 1) as u8 }
        } else if self.month > 1 {
            Date {
                year: self.year,
                month: (self.month - 1) as u8,
                day: days_in_month(self.year as int, self.month - 1) as u8,
            }
        } else {
            Date { year: (self.year - 1) as i32, month: 12, day: 31 }
        }
    }

    /// This date written as `MM/DD`.
    pub open spec fn month_day_text(self) -> Seq<char> {
        padded(self.month as nat, 2) + seq!['/'] + padded(self.day as nat, 2)
    }

    /// This date written as `YYYY-MM-DD`.
    pub open spec fn iso_text(self) -> Seq<char> {
        year_text(self.year as int) + seq!['-'] + padded(self.month as nat, 2) + seq!['-'] + padded(
            self.day as nat,
            2,
        )
    }

    /// The date with the given year, month and day, if that day exists.
    pub fn new(year: i32, month: u8, day: u8) -> (r: Option<Date>)
        ensures
            r == if valid_ymd(year as int, month as int, day as int) {
                Some(Date { year, month, day })
            } else {
                None::<Date>
            },
    {
        if 1 <= month && month <= 12 && 1 <= day && day <= month_length(year, month) {
            Some(Date { year, month, day })
        } else {
            None
        }
    }

    /// Whether this date lies strictly before `other`.
    pub fn is_before(&self, other: &Date) -> (r: bool)
        ensures
            r == self.precedes(*other),
    {
        self.year < other.year || (self.year == other.year && (self.month < other.month || (
        self.month == other.month && self.day < other.day)))
    }

    /// The day after this one; `None` where its year would not fit.
    pub fn succ(&self) -> (r: Option<Date>)
        ensures
            r == if self.ends_year() && self.year == i32::MAX {
                None::<Date>
            } else {
                Some(self.next())
            },
    {
        if self.day < month_length(self.year, self.month) {
            Some(Date { year: self.year, month: self.month, day: self.day + 1 })
        } else if self.month < 12 {
            Some(Date { year: self.year, month: self.month + 1, day: 1 })
        } else if self.year < i32::MAX {
            Some(Date { year: self.year + 1, month: 1, day: 1 })
        } else {
            None
        }
    }

    /// The day before this one; `None` where its year would not fit.
    pub fn pred(&self) -> (r: Option<Date>)
        ensures
            r == if self.starts_year() && self.year == i32::MIN {
                None::<Date>
            } else {
                Some(self.prev())
            },
    {
        if self.day > 1 {
            Some(Date { year: self.year, month: self.month, day: self.day - 1 })
        } else if self.month > 1 {
            Some(
                Date {
                    year: self.year,
                    month: self.month - 1,
                    day: month_length(self.year, self.month - 1),
                },
            )
        } else if self.year > i32::MIN {
            Some(Date { year: self.year - 1, month: 12, day: 31 })
        } else {
            None
        }
    }

    /// The day `n` days before this one; `None` where the calendar does not
    /// reach that far back.
    pub fn earlier(&self, n: usize) -> (r: Option<Date>)
        ensures
            r == days_before(*self, n as nat),
    {
        let mut day = *self;
        let mut i: usize = 0;
        while i < n
            invariant
                i <= n,
                days_before(*self, i as nat) == Some(day),
            decreases n - i,
        {
            match day.pred() {
                Some(before) => {
                    day = before;
                },
                None => {
                    proof {
                        lemma_no_way_back(*self, (i + 1) as nat, n as nat);
                    }
                    return None;
                },
            }
            i += 1;
        }
        Some(day)
    }

    /// Writes this date as `MM/DD`.
    pub fn to_month_day_string(&self) -> (r: String)
        ensures
            r@ == self.month_day_text(),
    {
        let mut out = String::new();
        append_padded(&mut out, self.month as u64, 2);
        proof {
            reveal_strlit("/");
        }
        out.append("/");
        append_padded(&mut out, self.day as u64, 2);
        assert(out@ =~= self.month_day_text());
        out
    }

    /// Reads a date written as `YYYY-MM-DD`.
    pub fn parse_iso(text: &Vec<char>) -> (r: Option<Date>)
        ensures
            r == iso_date(text@),
    {
        if text.len() != 10 {
            return None;
        }
        if !(digit(text[0]) && digit(text[1]) && digit(text[2]) && digit(text[3]) && text[4] == '-'
            && digit(text[5]) && digit(text[6]) && text[7] == '-' && digit(text[8]) && digit(
            text[9],
        )) {
            return None;
        }
        let year: i32 = value(text[0]) * 1000 + value(text[1]) * 100 + value(text[2]) * 10 + value(
            text[3],
        );
        let month: i32 = value(text[5]) * 10 + value(text[6]);
        let day: i32 = value(text[8]) * 10 + value(text[9]);
        if month > 12 || day > 31 {
            return None;
        }
        Date::new(year, month as u8, day as u8)
    }

    /// Writes this date as `YYYY-MM-DD`.
    pub fn to_iso_string(&self) -> (r: String)
        ensures
            r@ == self.iso_text(),
    {
        let mut out = String::new();
        let year: i64 = self.year as i64;
        proof {
            reveal_strlit("-");
            reveal_strlit("+");
        }
        if 0 <= year && year <= 9999 {
            append_padded(&mut out, year as u64, 4);
        } else if year < 0 {
            out.append("-");
            append_padded(&mut out, (-year) as u64, 4);
        } else {
            out.append("+");
            append_padded(&mut out, year as u64, 4);
        }
        assert(out@ =~= year_text(self.year as int));
        out.append("-");
        append_padded(&mut out, self.month as u64, 2);
        out.append("-");
        append_padded(&mut out, self.day as u64, 2);
        assert(out@ =~= self.iso_text());
        out
    }
}

/// Whether `c` is a decimal digit.
fn digit(c: char) -> (r: bool)
    ensures
        r == is_digit(c),
{
    '0' <= c && c <= '9'
}

/// The value of a decimal digit.
fn value(c: char) -> (r: i32)
    requires
        is_digit(c),
    ensures
        r == digit_value(c),
        0 <= r <= 9,
{
    (c as u32 - 48) as i32
}

/// Adding a multiple of `m` to a number does not change what is left of it
/// after division by `m`.
proof fn lemma_lifted(year: int, times: int, m: int)
    requires
        0 < m,
    ensures
        (year + m * times) % m == year % m,
{
    vstd::arithmetic::div_mod::lemma_mod_multiples_vanish(times, year, m);
}

/// Whether `year` has a 29th of February.
fn leap(year: i32) -> (r: bool)
    ensures
        r == is_leap_year(year as int),
{
    // 2147484000 is a multiple of 400 that lifts every `i32` above zero.
    let lifted: u64 = (year as i64 + 2147484000) as u64;
    proof {
        lemma_lifted(year as int, 536871000, 4);
        lemma_lifted(year as int, 21474840, 100);
        lemma_lifted(year as int, 5368710, 400);
    }
    let by_four = lifted % 4 == 0;
    let by_hundred = lifted % 100 == 0;
    let by_four_hundred = lifted % 400 == 0;
    by_four && (!by_hundred || by_four_hundred)
}

/// The number of days of `month` in `year`.
fn month_length(year: i32, month: u8) -> (r: u8)
    ensures
        r == days_in_month(year as int, month as int),
{
    if month == 2 {
        if leap(year) {
            29
        } else {
            28
        }
    } else if month == 4 || month == 6 || month == 9 || month == 11 {
        30
    } else {
        31
    }
}

/// The calendar date of the local clock.
///
/// Reads `chrono::Local::now()` and takes its `date_naive()`; the year, month
/// and day are those of `chrono::Datelike`. Nothing is claimed of the result:
/// it changes from one call to the next.
#[verifier::external_body]
pub(crate) fn local_today() -> (r: Date) {
    let now = chrono::Local::now().date_naive();
    Date {
        year: chrono::Datelike::year(&now),
        month: chrono::Datelike::month(&now) as u8,
        day: chrono::Datelike::day(&now) as u8,
    }
}

/// A valid date that does not close the last representable year has a valid
/// successor, and the successor lies strictly after it.
pub proof fn law_next_day_follows(d: Date)
    requires
        d.is_valid(),
        !(d.ends_year() && d.year == i32::MAX),
    ensures
        d.next().is_valid(),
        d.precedes(d.next()),
{
}

/// A valid date that does not open the first representable year has a valid
/// predecessor, which lies strictly before it; and the day before the day
/// after a date, like the day after the day before it, is the date itself.
pub proof fn law_previous_day_precedes(d: Date)
    requires
        d.is_valid(),
    ensures
        !(d.starts_year() && d.year == i32::MIN) ==> d.prev().is_valid() && d.prev().precedes(d)
            && d.prev().next() == d,
        !(d.ends_year() && d.year == i32::MAX) ==> d.next().prev() == d,
{
}

/// No date precedes itself, and of two dates at most one precedes the other.
pub proof fn law_dates_are_ordered(a: Date, b: Date)
    ensures
        !a.precedes(a),
        a.precedes(b) ==> !b.precedes(a),
        a.precedes(b) || b.precedes(a) || a == b,
{
}

/// A number below a hundred is written with two digits.
proof fn lemma_two_digits(n: nat)
    requires
        n < 100,
    ensures
        padded(n, 2) == seq![digit_char((n / 10) as int), digit_char((n % 10) as int)],
{
    reveal_with_fuel(decimal, 2);
    if n < 10 {
        assert(repeated('0', 1) =~= seq!['0']);
        assert(padded(n, 2) =~= seq![digit_char(0), digit_char(n as int)]);
    } else {
        assert(repeated('0', 0) =~= Seq::<char>::empty());
        assert(padded(n, 2) =~= seq![digit_char((n / 10) as int), digit_char((n % 10) as int)]);
    }
}

/// A number below ten thousand is written with four digits.
proof fn lemma_four_digits(n: nat)
    requires
        n < 10000,
    ensures
        padded(n, 4) == seq![
            digit_char((n / 1000) as int),
            digit_char((n / 100 % 10) as int),
            digit_char((n / 10 % 10) as int),
            digit_char((n % 10) as int),
        ],
{
    reveal_with_fuel(decimal, 4);
    let want = seq![
        digit_char((n / 1000) as int),
        digit_char((n / 100 % 10) as int),
        digit_char((n / 10 % 10) as int),
        digit_char((n % 10) as int),
    ];
    if n < 10 {
        assert(repeated('0', 3) =~= seq!['0', '0', '0']);
        assert(padded(n, 4) =~= want);
    } else if n < 100 {
        assert(repeated('0', 2) =~= seq!['0', '0']);
        assert(padded(n, 4) =~= want);
    } else if n < 1000 {
        assert(repeated('0', 1) =~= seq!['0']);
        assert(padded(n, 4) =~= want);
    } else {
        assert(repeated('0', 0) =~= Seq::<char>::empty());
        assert(padded(n, 4) =~= want);
    }
}

/// The character of a digit is a digit of that value.
proof fn lemma_digit_reads_back(k: int)
    requires
        0 <= k <= 9,
    ensures
        is_digit(digit_char(k)),
        digit_value(digit_char(k)) == k,
{
}

/// A number below ten thousand is made up of its four digits.
proof fn lemma_four_places(y: int)
    requires
        0 <= y <= 9999,
    ensures
        0 <= y / 1000 <= 9,
        0 <= y / 100 % 10 <= 9,
        0 <= y / 10 % 10 <= 9,
        0 <= y % 10 <= 9,
        (y / 1000) * 1000 + (y / 100 % 10) * 100 + (y / 10 % 10) * 10 + y % 10 == y,
{
    let a = y / 10;
    let b = a / 10;
    let c = b / 10;
    assert(y == a * 10 + y % 10);
    assert(a == b * 10 + a % 10);
    assert(b == c * 10 + b % 10);
    assert(b == y / 100);
    assert(c == y / 1000);
}

/// A number below a hundred is made up of its two digits.
proof fn lemma_two_places(m: int)
    requires
        0 <= m <= 99,
    ensures
        0 <= m / 10 <= 9,
        0 <= m % 10 <= 9,
        (m / 10) * 10 + m % 10 == m,
{
}

/// The text `dddd-dd-dd` of ten given digits is read as the date of their
/// values.
proof fn lemma_digits_read(a: int, b: int, c: int, e: int, f: int, g: int, h: int, i: int)
    requires
        0 <= a <= 9,
        0 <= b <= 9,
        0 <= c <= 9,
        0 <= e <= 9,
        0 <= f <= 9,
        0 <= g <= 9,
        0 <= h <= 9,
        0 <= i <= 9,
        valid_ymd(a * 1000 + b * 100 + c * 10 + e, f * 10 + g, h * 10 + i),
    ensures
        iso_date(
            seq![
                digit_char(a),
                digit_char(b),
                digit_char(c),
                digit_char(e),
                '-',
                digit_char(f),
                digit_char(g),
                '-',
                digit_char(h),
                digit_char(i),
            ],
        ) == Some(
            Date {
                year: (a * 1000 + b * 100 + c * 10 + e) as i32,
                month: (f * 10 + g) as u8,
                day: (h * 10 + i) as u8,
            },
        ),
{
    lemma_digit_reads_back(a);
    lemma_digit_reads_back(b);
    lemma_digit_reads_back(c);
    lemma_digit_reads_back(e);
    lemma_digit_reads_back(f);
    lemma_digit_reads_back(g);
    lemma_digit_reads_back(h);
    lemma_digit_reads_back(i);
    let text = seq![
        digit_char(a),
        digit_char(b),
        digit_char(c),
        digit_char(e),
        '-',
        digit_char(f),
        digit_char(g),
        '-',
        digit_char(h),
        digit_char(i),
    ];
    assert(text.len() == 10);
    assert(text[0] == digit_char(a));
    assert(text[1] == digit_char(b));
    assert(text[2] == digit_char(c));
    assert(text[3] == digit_char(e));
    assert(text[4] == '-');
    assert(text[5] == digit_char(f));
    assert(text[6] == digit_char(g));
    assert(text[7] == '-');
    assert(text[8] == digit_char(h));
    assert(text[9] == digit_char(i));
    assert(iso_shape(text));
}

/// A date of the years 0 to 9999 that is written as `YYYY-MM-DD` is read
/// back as itself.
pub proof fn law_iso_text_reads_back(d: Date)
    requires
        d.is_valid(),
        0 <= d.year <= 9999,
    ensures
        iso_date(d.iso_text()) == Some(d),
{
    let y = d.year as int;
    let m = d.month as int;
    let n = d.day as int;
    lemma_four_digits(d.year as nat);
    lemma_two_digits(d.month as nat);
    lemma_two_digits(d.day as nat);
    lemma_four_places(y);
    lemma_two_places(m);
    lemma_two_places(n);
    let text = seq![
        digit_char(y / 1000),
        digit_char(y / 100 % 10),
        digit_char(y / 10 % 10),
        digit_char(y % 10),
        '-',
        digit_char(m / 10),
        digit_char(m % 10),
        '-',
        digit_char(n / 10),
        digit_char(n % 10),
    ];
    assert(d.iso_text() =~= text);
    lemma_digits_read(y / 1000, y / 100 % 10, y / 10 % 10, y % 10, m / 10, m % 10, n / 10, n % 10);
}

} // verus!
