//! Calendar dates, read from text and from the clock.

use vstd::prelude::*;
use vstd::string::*;
use chrono::Datelike;
use crate::text::decimal;

verus! {

/// The numeral of a number, with zeros before it where it has fewer than `width` digits.
pub open spec fn zero_padded(n: nat, width: nat) -> Seq<char> {
    if decimal(n).len() < width {
        Seq::new((width - decimal(n).len()) as nat, |i: int| '0') + decimal(n)
    } else {
        decimal(n)
    }
}

/// A year as dates write it: four digits or more; a year before the year 0 or after
/// the year 9999 carries its sign.
pub open spec fn year_text(year: int) -> Seq<char> {
    if 0 <= year <= 9999 {
        zero_padded(year as nat, 4)
    } else if year < 0 {
        seq!['-'] + zero_padded((-year) as nat, 4)
    } else {
        seq!['+'] + zero_padded(year as nat, 4)
    }
}

/// A day of the proleptic Gregorian calendar.
#[derive(Debug, Clone, Copy, PartialEq, Eq, Structural)]
pub struct CalendarDate {
    pub year: i32,
    pub month: u32,
    pub day: u32,
}

impl CalendarDate {
    /// Month and day are in the range of a calendar.
    pub open spec fn in_calendar_range(self) -> bool {
        1 <= self.month <= 12 && 1 <= self.day <= 31
    }

    /// The day as text: the year, the month in two digits and the day in two digits,
    /// with dashes between them.
    pub open spec fn text(self) -> Seq<char> {
        year_text(self.year as int) + seq!['-'] + zero_padded(self.month as nat, 2) + seq!['-']
            + zero_padded(self.day as nat, 2)
    }

    /// Earlier in time, for two days of the calendar.
    pub open spec fn earlier_than(self, other: CalendarDate) -> bool {
        self.year < other.year || (self.year == other.year && (self.month < other.month || (
        self.month == other.month && self.day < other.day)))
    }

    pub fn is_before(&self, other: &CalendarDate) -> (r: bool)
        ensures
            r == self.earlier_than(*other),
    {
        self.year < other.year || (self.year == other.year && (self.month < other.month || (
        self.month == other.month && self.day < other.day)))
    }
}

/// Whether a text is the text of a day of the calendar.
pub open spec fn is_date_text(s: Seq<char>) -> bool {
    exists|d: CalendarDate| d.in_calendar_range() && s == #[trigger] d.text()
}

/// The date that `chrono::NaiveDate::parse_from_str` reads from a text under a
/// `strftime` format, or nothing where it reports an error.
pub uninterp spec fn chrono_date(text: Seq<char>, format: Seq<char>) -> Option<CalendarDate>;

/// Reads a date with `chrono::NaiveDate::parse_from_str`. The parser only returns days
/// that exist, so month and day are in the range of a calendar.
#[verifier::external_body]
pub(crate) fn parse_date(text: &str, format: &str) -> (r: Option<CalendarDate>)
    ensures
        r == chrono_date(text@, format@),
        r matches Some(d) ==> d.in_calendar_range(),
{
    match chrono::NaiveDate::parse_from_str(text, format) {
        Ok(d) => Some(CalendarDate { year: d.year(), month: d.month(), day: d.day() }),
        Err(_) => None,
    }
}

/// Reads the clock with `chrono::Utc::now` and gives today's date in the zone that
/// lies `offset_secs` seconds east of UTC. Nothing is known of the date but that it is
/// a day of the calendar.
#[verifier::external_body]
pub(crate) fn today_at_offset(offset_secs: i32) -> (r: CalendarDate)
    requires
        -86_400 < offset_secs < 86_400,
    ensures
        r.in_calendar_range(),
{
    let zone = chrono::FixedOffset::east_opt(offset_secs).unwrap();
    let d = chrono::Utc::now().with_timezone(&zone).date_naive();
    CalendarDate { year: d.year(), month: d.month(), day: d.day() }
}

/// Reads the clock with `chrono::Utc::now` and writes today's date in the zone that
/// lies `offset_secs` seconds east of UTC with `chrono::DateTime::format`. Only the
/// format of year, month and day is admitted: a malformed one would make the call fail.
/// Which day is written depends on the clock; whichever it is, the format writes its
/// year in four digits or more, signed outside the years 0 to 9999, and its month and
/// its day in two digits each.
#[verifier::external_body]
pub(crate) fn today_text_at_offset(offset_secs: i32, format: &str) -> (r: String)
    requires
        -86_400 < offset_secs < 86_400,
        format@ == "%Y-%m-%d"@,
    ensures
        is_date_text(r@),
{
    let zone = chrono::FixedOffset::east_opt(offset_secs).unwrap();
    chrono::Utc::now().with_timezone(&zone).format(format).to_string()
}

/// Reads the clock with `chrono::Utc::now` and writes the moment as RFC 3339 text.
#[verifier::external_body]
pub(crate) fn now_rfc3339() -> (r: String) {
    chrono::Utc::now().to_rfc3339()
}

} // verus!
