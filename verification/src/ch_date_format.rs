//! The date codec: calendar days written as `DD/MM/YYYY`.
//!
//! A decoded date stands for midnight UTC at the start of its day.

use crate::decimal::{
    all_digits, decimal_text, is_digit, lemma_decimal_text, lemma_padded_text, lemma_signed_text,
    numeral_value, padded_text, parse_unsigned,
};
use crate::error::ErrorKind;
use crate::text::chars_of;
use vstd::prelude::*;

verus! {

/// The last year that a date can lie in.
pub const MAX_YEAR: u32 = 262_142;

/// The layout of a date on the wire, as `chrono` writes layouts: day, month
/// and year with `/` between them.
pub const FORMAT: &'static str = "%d/%m/%Y";

/// The character between the parts of a date.
pub const SEPARATOR: char = '/';

/// `year` has a 29th of February.
pub open spec fn is_leap_year(year: int) -> bool {
    year % 4 == 0 && (year % 100 != 0 || year % 400 == 0)
}

/// The number of days of a month.
pub open spec fn days_in_month(year: int, month: int) -> int {
    if month == 2 {
        if is_leap_year(year) {
            29
        } else {
            28
        }
    } else if month == 4 || month == 6 || month == 9 || month == 11 {
        30
    } else {
        31
    }
}

/// A year, a month and a day of it: the mathematical value of a [`Date`].
pub struct Ymd {
    pub year: int,
    pub month: int,
    pub day: int,
}

impl Ymd {
    /// The day exists in the proleptic Gregorian calendar, in a year from 0 to `MAX_YEAR`.
    pub open spec fn is_calendar_date(self) -> bool {
        &&& 0 <= self.year <= MAX_YEAR
        &&& 1 <= self.month <= 12
        &&& 1 <= self.day <= days_in_month(self.year, self.month)
    }

    /// The first of January 1970, which stands for "no date" where a field
    /// cannot be left out.
    pub open spec fn epoch() -> Ymd {
        Ymd { year: 1970, month: 1, day: 1 }
    }
}

/// A day of the calendar, at midnight UTC.
#[derive(Clone, Copy, Debug, PartialEq, Eq, Structural)]
pub struct Date {
    year: u32,
    month: u32,
    day: u32,
}

impl View for Date {
    type V = Ymd;

    closed spec fn view(&self) -> Ymd {
        Ymd { year: self.year as int, month: self.month as int, day: self.day as int }
    }
}

impl DeepView for Date {
    type V = Ymd;

    open spec fn deep_view(&self) -> Ymd {
        self@
    }
}

/// `chrono::NaiveDate`, a day of chrono's calendar, carried from where it
/// is made to where it is written.
#[verifier::external_type_specification]
#[verifier::external_body]
pub struct ExNaiveDate(chrono::NaiveDate);

/// The day that a `chrono::NaiveDate` holds.
pub uninterp spec fn day_of(date: chrono::NaiveDate) -> Ymd;

/// `chrono::NaiveDate::from_ymd_opt`: the date of the given day, which
/// chrono has for the days of the proleptic Gregorian calendar in the years
/// that it holds, and which end with `MAX_YEAR`. Years before 0 are not
/// asked for.
#[verifier::external_body]
fn chrono_date(year: i32, month: u32, day: u32) -> (r: Option<chrono::NaiveDate>)
    requires
        year >= 0,
    ensures
        match r {
            Some(date) => day_of(date) == (Ymd {
                year: year as int,
                month: month as int,
                day: day as int,
            }) && day_of(date).is_calendar_date(),
            None => !(Ymd {
                year: year as int,
                month: month as int,
                day: day as int,
            }).is_calendar_date(),
        },
{
    chrono::NaiveDate::from_ymd_opt(year, month, day)
}

/// `chrono::NaiveDate::format` with the layout `FORMAT`, written out: day
/// and month in two digits, the year in four, or behind a `+` where it needs
/// more.
#[verifier::external_body]
fn chrono_format(date: &chrono::NaiveDate, layout: &str) -> (s: String)
    requires
        layout@ == FORMAT@,
        day_of(*date).is_calendar_date(),
    ensures
        s@ == date_text(day_of(*date)),
{
    date.format(layout).to_string()
}

impl Date {
    #[verifier::type_invariant]
    spec fn is_valid(self) -> bool {
        self@.is_calendar_date()
    }

    /// The date of the given day, if the calendar has that day.
    pub fn new(year: u32, month: u32, day: u32) -> (r: Option<Date>)
        ensures
            match r {
                Some(date) => date@ == (Ymd {
                    year: year as int,
                    month: month as int,
                    day: day as int,
                }) && date@.is_calendar_date(),
                None => !(Ymd {
                    year: year as int,
                    month: month as int,
                    day: day as int,
                }).is_calendar_date(),
            },
    {
        if year <= MAX_YEAR && chrono_date(year as i32, month, day).is_some() {
            Some(Date { year, month, day })
        } else {
            None
        }
    }

    /// The date of a day that the calendar has.
    pub fn of(year: u32, month: u32, day: u32) -> (date: Date)
        requires
            (Ymd { year: year as int, month: month as int, day: day as int }).is_calendar_date(),
        ensures
            date@ == (Ymd { year: year as int, month: month as int, day: day as int }),
    {
        Date { year, month, day }
    }

    /// The year, from 0 to `MAX_YEAR`.
    pub fn year(&self) -> (year: u32)
        ensures
            year == self@.year,
            self@.is_calendar_date(),
    {
        proof {
            use_type_invariant(self);
        }
        self.year
    }

    /// The month, from 1 to 12.
    pub fn month(&self) -> (month: u32)
        ensures
            month == self@.month,
            self@.is_calendar_date(),
    {
        proof {
            use_type_invariant(self);
        }
        self.month
    }

    /// The day of the month, from 1.
    pub fn day(&self) -> (day: u32)
        ensures
            day == self@.day,
            self@.is_calendar_date(),
    {
        proof {
            use_type_invariant(self);
        }
        self.day
    }
}

/// The year as a date shows it: four digits, or a `+` and all its digits
/// where four are too few.
pub open spec fn year_text(year: nat) -> Seq<char> {
    if year < 10_000 {
        padded_text(year, 4)
    } else {
        seq!['+'] + decimal_text(year)
    }
}

/// The wire form of a date: `DD/MM/YYYY`.
pub open spec fn date_text(date: Ymd) -> Seq<char> {
    padded_text(date.day as nat, 2) + seq![SEPARATOR] + padded_text(date.month as nat, 2)
        + seq![SEPARATOR] + year_text(date.year as nat)
}

/// Where `c` first stands in `s`; the length of `s` where it does not.
pub open spec fn first_index(s: Seq<char>, c: char) -> nat
    decreases s.len(),
{
    if s.len() == 0 || s[0] == c {
        0
    } else {
        1 + first_index(s.drop_first(), c)
    }
}

/// The parts of `s` that lie between the occurrences of `sep`.
pub open spec fn split(s: Seq<char>, sep: char) -> Seq<Seq<char>>
    decreases s.len(),
{
    let k = first_index(s, sep) as int;
    if k >= s.len() {
        seq![s]
    } else {
        seq![s.take(k)] + split(s.skip(k + 1), sep)
    }
}

/// The date that a wire string denotes: three parts between two separators,
/// each an unsigned numeral, which give day, month and year of a day that
/// the calendar has.
pub open spec fn date_of_text(s: Seq<char>) -> Option<Ymd> {
    let parts = split(s, SEPARATOR);
    if parts.len() != 3 {
        None
    } else {
        match (numeral_value(parts[0]), numeral_value(parts[1]), numeral_value(parts[2])) {
            (Some(day), Some(month), Some(year)) => {
                let date = Ymd { year: year as int, month: month as int, day: day as int };
                if date.is_calendar_date() {
                    Some(date)
                } else {
                    None
                }
            },
            _ => None,
        }
    }
}

/// `first_index` gives the least place at which `c` stands.
pub proof fn lemma_first_index(s: Seq<char>, c: char, n: int)
    requires
        0 <= n <= s.len(),
        forall|i: int| 0 <= i < n ==> s[i] != c,
        n < s.len() ==> s[n] == c,
    ensures
        first_index(s, c) == n,
    decreases n,
{
    if n > 0 {
        lemma_first_index(s.drop_first(), c, n - 1);
    }
}

/// Every string has one part at least.
pub proof fn lemma_split_len(s: Seq<char>, sep: char)
    ensures
        split(s, sep).len() >= 1,
    decreases s.len(),
{
    let k = first_index(s, sep) as int;
    if k < s.len() {
        lemma_split_len(s.skip(k + 1), sep);
    }
}

/// A string without the separator is one part.
pub proof fn lemma_split_one(a: Seq<char>, sep: char)
    requires
        forall|i: int| 0 <= i < a.len() ==> a[i] != sep,
    ensures
        split(a, sep) == seq![a],
{
    lemma_first_index(a, sep, a.len() as int);
}

/// A string without the separator, the separator, and more: the first part
/// is that string, and the other parts are those of the rest.
pub proof fn lemma_split_head(a: Seq<char>, sep: char, rest: Seq<char>)
    requires
        forall|i: int| 0 <= i < a.len() ==> a[i] != sep,
    ensures
        split(a + seq![sep] + rest, sep) == seq![a] + split(rest, sep),
{
    let s = a + seq![sep] + rest;
    lemma_first_index(s, sep, a.len() as int);
    assert(s.take(a.len() as int) =~= a);
    assert(s.skip(a.len() as int + 1) =~= rest);
}

/// What `split` does at the first separator.
pub proof fn lemma_split_step(s: Seq<char>, sep: char)
    ensures
        first_index(s, sep) >= s.len() ==> split(s, sep) == seq![s],
        first_index(s, sep) < s.len() ==> split(s, sep) == seq![s.take(first_index(s, sep) as int)]
            + split(s.skip(first_index(s, sep) as int + 1), sep),
        first_index(s, sep) < s.len() ==> split(s, sep).len() == 1 + split(
            s.skip(first_index(s, sep) as int + 1),
            sep,
        ).len(),
{
}

/// A string with separators at `p1` and `p2` and none before them has three
/// parts exactly where it has no third separator, and those parts lie
/// between the two.
pub proof fn lemma_split_three(s: Seq<char>, sep: char, p1: int, p2: int)
    requires
        0 <= p1 < p2 < s.len(),
        first_index(s, sep) == p1,
        first_index(s.skip(p1 + 1), sep) == p2 - p1 - 1,
    ensures
        first_index(s.skip(p2 + 1), sep) < s.len() - p2 - 1 ==> split(s, sep).len() >= 4,
        first_index(s.skip(p2 + 1), sep) >= s.len() - p2 - 1 ==> split(s, sep) =~= seq![
            s.subrange(0, p1),
            s.subrange(p1 + 1, p2),
            s.subrange(p2 + 1, s.len() as int),
        ],
{
    let tail1 = s.skip(p1 + 1);
    let tail2 = s.skip(p2 + 1);
    assert(tail1.skip(p2 - p1) =~= tail2);
    assert(tail1.take(p2 - p1 - 1) =~= s.subrange(p1 + 1, p2));
    assert(s.take(p1) =~= s.subrange(0, p1));
    assert(tail2 =~= s.subrange(p2 + 1, s.len() as int));
    lemma_split_step(s, sep);
    lemma_split_step(tail1, sep);
    lemma_split_step(tail2, sep);
    if first_index(tail2, sep) < tail2.len() {
        lemma_split_len(tail2.skip(first_index(tail2, sep) as int + 1), sep);
    }
}

/// The position of the first `c` in `chars` at or after `from`; the length
/// of `chars` where there is none.
fn find(chars: &Vec<char>, from: usize, c: char) -> (k: usize)
    requires
        from <= chars.len(),
    ensures
        from <= k <= chars.len(),
        k - from == first_index(chars@.skip(from as int), c),
{
    let mut k: usize = from;
    while k < chars.len() && chars[k] != c
        invariant
            from <= k <= chars.len(),
            forall|i: int| from <= i < k ==> chars@[i] != c,
        decreases chars.len() - k,
    {
        k = k + 1;
    }
    proof {
        lemma_first_index(chars@.skip(from as int), c, k - from);
    }
    k
}

/// Writes a date in its wire form.
pub fn serialize(date: &Date) -> (s: String)
    ensures
        s@ == date_text(date@),
{
    proof {
        use_type_invariant(date);
    }
    match chrono_date(date.year as i32, date.month, date.day) {
        Some(day) => chrono_format(&day, FORMAT),
        None => String::new(),
    }
}

/// Reads a date from its wire form. Fails with `MalformedDate` where the
/// string has not three parts, a part is no numeral, or the calendar has no
/// such day.
pub fn deserialize(s: &str) -> (r: Result<Date, ErrorKind>)
    ensures
        match r {
            Ok(date) => date_of_text(s@) == Some(date@),
            Err(kind) => kind == ErrorKind::MalformedDate && date_of_text(s@) is None,
        },
{
    let chars = chars_of(s);
    let n: usize = chars.len();
    let p1: usize = find(&chars, 0, SEPARATOR);
    assert(chars@.skip(0) =~= chars@);
    if p1 >= n {
        return Err(ErrorKind::MalformedDate);
    }
    let p2: usize = find(&chars, p1 + 1, SEPARATOR);
    if p2 >= n {
        proof {
            lemma_split_step(chars@, SEPARATOR);
        }
        return Err(ErrorKind::MalformedDate);
    }
    let p3: usize = find(&chars, p2 + 1, SEPARATOR);
    proof {
        lemma_split_three(chars@, SEPARATOR, p1 as int, p2 as int);
    }
    if p3 < n {
        return Err(ErrorKind::MalformedDate);
    }
    let day = parse_unsigned(&chars, 0, p1, 31);
    let month = parse_unsigned(&chars, p1 + 1, p2, 12);
    let year = parse_unsigned(&chars, p2 + 1, n, MAX_YEAR);
    match (day, month, year) {
        (Some(day), Some(month), Some(year)) => match Date::new(year, month, day) {
            Some(date) => Ok(date),
            None => Err(ErrorKind::MalformedDate),
        },
        _ => Err(ErrorKind::MalformedDate),
    }
}

/// The date that stands for "no date": 1 January 1970.
pub fn empty_value() -> (date: Date)
    ensures
        date@ == Ymd::epoch(),
{
    Date { year: 1970, month: 1, day: 1 }
}

/// The date is the one that stands for "no date".
pub fn is_empty(dt: Date) -> (b: bool)
    ensures
        b == (dt@ == Ymd::epoch()),
{
    dt.year == 1970 && dt.month == 1 && dt.day == 1
}

/// A string of digits holds neither the separator nor a `+`.
proof fn lemma_digits_hold_no_separator(s: Seq<char>)
    requires
        all_digits(s),
    ensures
        forall|i: int| 0 <= i < s.len() ==> s[i] != SEPARATOR,
{
    assert forall|i: int| 0 <= i < s.len() implies s[i] != SEPARATOR by {
        assert(is_digit(s[i]));
    }
}

/// Reading what was written gives the date back: decoding is a left inverse
/// of encoding on every date of the calendar.
pub proof fn lemma_date_round_trip(date: Ymd)
    requires
        date.is_calendar_date(),
    ensures
        date_of_text(date_text(date)) == Some(date),
{
    let day = padded_text(date.day as nat, 2);
    let month = padded_text(date.month as nat, 2);
    let year = year_text(date.year as nat);
    lemma_padded_text(date.day as nat, 2);
    lemma_padded_text(date.month as nat, 2);
    lemma_digits_hold_no_separator(day);
    lemma_digits_hold_no_separator(month);
    if date.year < 10_000 {
        lemma_padded_text(date.year as nat, 4);
        lemma_digits_hold_no_separator(year);
    } else {
        lemma_decimal_text(date.year as nat);
        lemma_signed_text(date.year as nat);
        lemma_digits_hold_no_separator(decimal_text(date.year as nat));
        assert forall|i: int| 0 <= i < year.len() implies year[i] != SEPARATOR by {
            if i > 0 {
                assert(year[i] == decimal_text(date.year as nat)[i - 1]);
            }
        }
    }
    let rest = month + seq![SEPARATOR] + year;
    assert(date_text(date) =~= day + seq![SEPARATOR] + rest);
    lemma_split_head(day, SEPARATOR, rest);
    lemma_split_head(month, SEPARATOR, year);
    lemma_split_one(year, SEPARATOR);
    let parts = split(date_text(date), SEPARATOR);
    assert(parts =~= seq![day, month, year]);
}

} // verus!
