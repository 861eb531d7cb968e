//! Calendar dates without a time of day, written `YYYY-MM-DD`.

use vstd::prelude::*;
use vstd::string::*;

verus! {

/// A calendar date. Every value is a date that exists: the fields are set
/// only by [`Date::new`] and [`Date::parse`].
#[derive(Debug, Clone, Copy, PartialEq, Eq, Structural)]
pub struct Date {
    year: u16,
    month: u8,
    day: u8,
}

/// Mathematical value of a [`Date`].
pub struct DateView {
    pub year: int,
    pub month: int,
    pub day: int,
}

/// The date of a year, a month and a day of the month.
pub open spec fn date_of(year: int, month: int, day: int) -> DateView {
    DateView { year, month, day }
}

/// Whether the year has a 29th of February.
pub open spec fn is_leap_year(year: int) -> bool {
    year % 4 == 0 && (year % 100 != 0 || year % 400 == 0)
}

/// The number of days of a month of a year.
pub open spec fn days_in_month(year: int, month: int) -> int {
    if month == 2 {
        if is_leap_year(year) {
            29
        } else {
            28
        }
    } else if month == 4 || month == 6 || month == 9 || month == 11 {
        30
    } else {
        31
    }
}

/// Whether the three numbers name a day that exists, in a year of four
/// digits.
pub open spec fn is_calendar_date(date: DateView) -> bool {
    &&& 0 <= date.year <= 9999
    &&& 1 <= date.month <= 12
    &&& 1 <= date.day <= days_in_month(date.year, date.month)
}

/// The number by which dates are ordered: a later date has a larger one.
pub open spec fn ordinal(date: DateView) -> int {
    date.year * 10000 + date.month * 100 + date.day
}

/// The character of a decimal digit.
pub open spec fn digit(value: int) -> char {
    if value == 0 {
        '0'
    } else if value == 1 {
        '1'
    } else if value == 2 {
        '2'
    } else if value == 3 {
        '3'
    } else if value == 4 {
        '4'
    } else if value == 5 {
        '5'
    } else if value == 6 {
        '6'
    } else if value == 7 {
        '7'
    } else if value == 8 {
        '8'
    } else {
        '9'
    }
}

/// The text of a date: four digits of the year, two of the month, two of the
/// day, with a hyphen between them.
pub open spec fn date_text(date: DateView) -> Seq<char> {
    seq![
        digit(date.year / 1000),
        digit(date.year / 100 % 10),
        digit(date.year / 10 % 10),
        digit(date.year % 10),
        '-',
        digit(date.month / 10),
        digit(date.month % 10),
        '-',
        digit(date.day / 10),
        digit(date.day % 10),
    ]
}

/// The value of a decimal digit, or `None` for any other character.
pub open spec fn digit_of(c: char) -> Option<int> {
    if c == '0' {
        Some(0)
    } else if c == '1' {
        Some(1)
    } else if c == '2' {
        Some(2)
    } else if c == '3' {
        Some(3)
    } else if c == '4' {
        Some(4)
    } else if c == '5' {
        Some(5)
    } else if c == '6' {
        Some(6)
    } else if c == '7' {
        Some(7)
    } else if c == '8' {
        Some(8)
    } else if c == '9' {
        Some(9)
    } else {
        None
    }
}

/// The number that two characters write in decimal, or `None` unless both
/// are digits.
pub open spec fn two_digits_of(high: char, low: char) -> Option<int> {
    match (digit_of(high), digit_of(low)) {
        (Some(h), Some(l)) => Some(h * 10 + l),
        _ => None,
    }
}

/// The date that a text writes as `YYYY-MM-DD`, or `None` where the text
/// has another shape or the day does not exist.
pub open spec fn parsed_date(text: Seq<char>) -> Option<DateView> {
    if text.len() == 10 && text[4] == '-' && text[7] == '-' {
        match (
            two_digits_of(text[0], text[1]),
            two_digits_of(text[2], text[3]),
            two_digits_of(text[5], text[6]),
            two_digits_of(text[8], text[9]),
        ) {
            (Some(century), Some(years), Some(month), Some(day)) => {
                let date = date_of(century * 100 + years, month, day);
                if is_calendar_date(date) {
                    Some(date)
                } else {
                    None
                }
            },
            _ => None,
        }
    } else {
        None
    }
}

/// The value of a decimal digit, or `None` for any other character.
pub fn digit_value(c: char) -> (value: Option<u8>)
    ensures
        value matches Some(v) ==> digit_of(c) == Some(v as int),
        value is None ==> digit_of(c) is None,
{
    match c {
        '0' => Some(0),
        '1' => Some(1),
        '2' => Some(2),
        '3' => Some(3),
        '4' => Some(4),
        '5' => Some(5),
        '6' => Some(6),
        '7' => Some(7),
        '8' => Some(8),
        '9' => Some(9),
        _ => None,
    }
}

/// The number that two characters of a text write in decimal.
fn two_digits(text: &str, at: usize) -> (value: Option<u8>)
    requires
        at + 1 < text@.len(),
        at < usize::MAX,
    ensures
        value matches Some(v) ==> two_digits_of(text@[at as int], text@[at + 1]) == Some(v as int),
        value is None ==> two_digits_of(text@[at as int], text@[at + 1]) is None,
{
    match (digit_value(text.get_char(at)), digit_value(text.get_char(at + 1))) {
        (Some(high), Some(low)) => Some(high * 10 + low),
        _ => None,
    }
}

/// The one-character text of a decimal digit.
fn digit_str(value: u8) -> (text: &'static str)
    requires
        value < 10,
    ensures
        text@ == seq![digit(value as int)],
{
    proof {
        reveal_strlit("0");
        reveal_strlit("1");
        reveal_strlit("2");
        reveal_strlit("3");
        reveal_strlit("4");
        reveal_strlit("5");
        reveal_strlit("6");
        reveal_strlit("7");
        reveal_strlit("8");
        reveal_strlit("9");
    }
    let text = match value {
        0 => "0",
        1 => "1",
        2 => "2",
        3 => "3",
        4 => "4",
        5 => "5",
        6 => "6",
        7 => "7",
        8 => "8",
        _ => "9",
    };
    assert(text@ =~= seq![digit(value as int)]);
    text
}

/// The number of days of a month of a year.
fn month_length(year: u16, month: u8) -> (days: u8)
    ensures
        days == days_in_month(year as int, month as int),
{
    if month == 2 {
        if year % 4 == 0 && (year % 100 != 0 || year % 400 == 0) {
            29
        } else {
            28
        }
    } else if month == 4 || month == 6 || month == 9 || month == 11 {
        30
    } else {
        31
    }
}

impl View for Date {
    type V = DateView;

    closed spec fn view(&self) -> DateView {
        DateView { year: self.year as int, month: self.month as int, day: self.day as int }
    }
}

impl Date {
    #[verifier::type_invariant]
    spec fn exists_in_calendar(self) -> bool {
        is_calendar_date(self@)
    }

    /// The date of the three numbers, where that day exists.
    pub fn new(year: u16, month: u8, day: u8) -> (made: Option<Date>)
        ensures
            made matches Some(date) ==> date@ == date_of(year as int, month as int, day as int),
            made is Some <==> is_calendar_date(date_of(year as int, month as int, day as int)),
    {
        if year <= 9999 && 1 <= month && month <= 12 && 1 <= day && day <= month_length(
            year,
            month,
        ) {
            Some(Date { year, month, day })
        } else {
            None
        }
    }

    /// The year, from 0 to 9999.
    pub fn year(&self) -> (year: u16)
        ensures
            year == self@.year,
            is_calendar_date(self@),
    {
        proof {
            use_type_invariant(self);
        }
        self.year
    }

    /// The month, from 1 to 12.
    pub fn month(&self) -> (month: u8)
        ensures
            month == self@.month,
            is_calendar_date(self@),
    {
        proof {
            use_type_invariant(self);
        }
        self.month
    }

    /// The day of the month, from 1.
    pub fn day(&self) -> (day: u8)
        ensures
            day == self@.day,
            is_calendar_date(self@),
    {
        proof {
            use_type_invariant(self);
        }
        self.day
    }

    /// The number by which dates are ordered.
    pub fn ordinal(&self) -> (number: u32)
        ensures
            number == ordinal(self@),
            is_calendar_date(self@),
    {
        proof {
            use_type_invariant(self);
        }
        self.year as u32 * 10000 + self.month as u32 * 100 + self.day as u32
    }

    /// Writes the date as `YYYY-MM-DD`.
    pub fn to_text(&self) -> (text: String)
        ensures
            text@ == date_text(self@),
            is_calendar_date(self@),
    {
        proof {
            use_type_invariant(self);
        }
        let mut text = String::new();
        text.append(digit_str((self.year / 1000) as u8));
        text.append(digit_str((self.year / 100 % 10) as u8));
        text.append(digit_str((self.year / 10 % 10) as u8));
        text.append(digit_str((self.year % 10) as u8));
        text.append("-");
        text.append(digit_str(self.month / 10));
        text.append(digit_str(self.month % 10));
        text.append("-");
        text.append(digit_str(self.day / 10));
        text.append(digit_str(self.day % 10));
        proof {
            reveal_strlit("-");
            assert(text@ =~= date_text(self@));
        }
        text
    }

    /// Reads a date written `YYYY-MM-DD`: `Some` exactly for the text of a
    /// day that exists.
    pub fn parse(text: &str) -> (parsed: Option<Date>)
        ensures
            parsed matches Some(date) ==> parsed_date(text@) == Some(date@),
            parsed is None ==> parsed_date(text@) is None,
            parsed matches Some(date) ==> is_calendar_date(date@) && text@ == date_text(date@),
            parsed is None ==> forall|date: DateView|
                is_calendar_date(date) ==> #[trigger] date_text(date) != text@,
    {
        if text.unicode_len() != 10 {
            proof {
                lemma_only_texts_parse(text@);
            }
            return None;
        }
        if text.get_char(4) != '-' || text.get_char(7) != '-' {
            proof {
                lemma_only_texts_parse(text@);
            }
            return None;
        }
        let parsed = match (
            two_digits(text, 0),
            two_digits(text, 2),
            two_digits(text, 5),
            two_digits(text, 8),
        ) {
            (Some(century), Some(years), Some(month), Some(day)) => {
                let year: u16 = century as u16 * 100 + years as u16;
                Date::new(year, month, day)
            },
            _ => None,
        };
        proof {
            if parsed is Some {
                lemma_parse_gives_text(text@);
            } else {
                lemma_only_texts_parse(text@);
            }
        }
        parsed
    }
}

/// A digit is read back from its character.
pub proof fn lemma_digit_read_back(value: int)
    requires
        0 <= value < 10,
    ensures
        digit_of(digit(value)) == Some(value),
{
}

/// A character that reads as a digit is the character of that digit.
pub proof fn lemma_digit_written_back(c: char)
    requires
        digit_of(c) is Some,
    ensures
        0 <= digit_of(c).unwrap() < 10,
        digit(digit_of(c).unwrap()) == c,
{
}

/// Writing a date and reading the text gives the date back.
pub proof fn lemma_text_parses(date: DateView)
    requires
        is_calendar_date(date),
    ensures
        parsed_date(date_text(date)) == Some(date),
{
    let text = date_text(date);
    lemma_digit_read_back(date.year / 1000);
    lemma_digit_read_back(date.year / 100 % 10);
    lemma_digit_read_back(date.year / 10 % 10);
    lemma_digit_read_back(date.year % 10);
    lemma_digit_read_back(date.month / 10);
    lemma_digit_read_back(date.month % 10);
    lemma_digit_read_back(date.day / 10);
    lemma_digit_read_back(date.day % 10);
    assert(two_digits_of(text[0], text[1]) == Some(date.year / 100));
    assert(two_digits_of(text[2], text[3]) == Some(date.year % 100));
    assert(two_digits_of(text[5], text[6]) == Some(date.month));
    assert(two_digits_of(text[8], text[9]) == Some(date.day));
}

/// A text that reads as a date is the text of that date, and the date
/// exists.
pub proof fn lemma_parse_gives_text(text: Seq<char>)
    requires
        parsed_date(text) is Some,
    ensures
        is_calendar_date(parsed_date(text).unwrap()),
        date_text(parsed_date(text).unwrap()) == text,
{
    let date = parsed_date(text).unwrap();
    lemma_digit_written_back(text[0]);
    lemma_digit_written_back(text[1]);
    lemma_digit_written_back(text[2]);
    lemma_digit_written_back(text[3]);
    lemma_digit_written_back(text[5]);
    lemma_digit_written_back(text[6]);
    lemma_digit_written_back(text[8]);
    lemma_digit_written_back(text[9]);
    let a = digit_of(text[0]).unwrap();
    let b = digit_of(text[1]).unwrap();
    let c = digit_of(text[2]).unwrap();
    let d = digit_of(text[3]).unwrap();
    assert(date.year == a * 1000 + b * 100 + c * 10 + d);
    assert(date.year / 1000 == a);
    assert(date.year / 100 % 10 == b);
    assert(date.year / 10 % 10 == c);
    assert(date.year % 10 == d);
    assert(date_text(date) =~= text);
}

/// A text that does not read as a date is the text of no date that exists.
pub proof fn lemma_only_texts_parse(text: Seq<char>)
    requires
        parsed_date(text) is None,
    ensures
        forall|date: DateView| is_calendar_date(date) ==> #[trigger] date_text(date) != text,
{
    assert forall|date: DateView| is_calendar_date(date) implies #[trigger] date_text(date)
        != text by {
        lemma_text_parses(date);
    }
}

} // verus!
