//! The daily challenge: which dates may be asked for, and how a missing one is fetched.

use vstd::prelude::*;
use vstd::string::*;
use crate::date::{chrono_date, parse_date, CalendarDate};
use crate::domain::{LeetCodeDomain, DATE_FORMAT};
use crate::pattern::{is_match, regex_captures};
use crate::problem::{bad_request_problem, ProblemDetail};
use crate::fallback::{claim_answer, claimed, fallback_key, key_of, FallbackClaim, FallbackMap};
use crate::requests::DailyQuery;
use crate::text::{opt_text, str_eq, texts};

verus! {

/// The shape of a date in a request: four digits, two digits, two digits, with dashes.
pub const DATE_PATTERN: &'static str = "^\\d{4}-\\d{2}-\\d{2}$";

/// The first day that has a daily challenge.
pub open spec fn first_daily() -> CalendarDate {
    CalendarDate { year: 2020, month: 4, day: 1 }
}

/// Why a date is refused.
#[derive(Debug, Clone, Copy, PartialEq, Eq, Structural)]
pub enum DailyDateError {
    /// The text does not have the shape of a date.
    BadFormat,
    /// The text has the shape of a date but names no day of the calendar.
    NotADate,
    /// The day lies before the first daily challenge.
    TooEarly,
    /// The day lies after today.
    InFuture,
}

impl DailyDateError {
    pub open spec fn detail(self) -> Seq<char> {
        match self {
            DailyDateError::BadFormat => "invalid date format, expected YYYY-MM-DD"@,
            DailyDateError::NotADate => "invalid calendar date"@,
            DailyDateError::TooEarly => "date must be >= 2020-04-01"@,
            DailyDateError::InFuture => "date must be <= today"@,
        }
    }

    /// The refusal as a problem document.
    pub fn problem(&self) -> (r: ProblemDetail)
        ensures
            r@ == bad_request_problem(self.detail()),
    {
        match self {
            DailyDateError::BadFormat => ProblemDetail::bad_request(
                "invalid date format, expected YYYY-MM-DD",
            ),
            DailyDateError::NotADate => ProblemDetail::bad_request("invalid calendar date"),
            DailyDateError::TooEarly => ProblemDetail::bad_request("date must be >= 2020-04-01"),
            DailyDateError::InFuture => ProblemDetail::bad_request("date must be <= today"),
        }
    }
}

/// The verdict on a date, given whether its text has the shape of a date, what day
/// the text names, and today's date. The shape is judged first, then the calendar,
/// then the lower bound, then the upper one.
pub open spec fn judged_date(shaped: bool, parsed: Option<CalendarDate>, today: CalendarDate) -> Result<
    CalendarDate,
    DailyDateError,
> {
    if !shaped {
        Err(DailyDateError::BadFormat)
    } else {
        match parsed {
            None => Err(DailyDateError::NotADate),
            Some(d) => if d.earlier_than(first_daily()) {
                Err(DailyDateError::TooEarly)
            } else if today.earlier_than(d) {
                Err(DailyDateError::InFuture)
            } else {
                Ok(d)
            },
        }
    }
}

/// Judges a date from what the two readings of its text gave.
pub fn judge_daily_date(shaped: bool, parsed: Option<CalendarDate>, today: CalendarDate) -> (r:
    Result<CalendarDate, DailyDateError>)
    ensures
        r == judged_date(shaped, parsed, today),
{
    if !shaped {
        return Err(DailyDateError::BadFormat);
    }
    match parsed {
        None => Err(DailyDateError::NotADate),
        Some(d) => {
            let first = CalendarDate { year: 2020, month: 4, day: 1 };
            if d.is_before(&first) {
                Err(DailyDateError::TooEarly)
            } else if today.is_before(&d) {
                Err(DailyDateError::InFuture)
            } else {
                Ok(d)
            }
        },
    }
}

/// Checks the date of a request against the calendar and the days that have a
/// challenge: from the first daily challenge up to `today`.
pub fn check_daily_date(date: &str, today: CalendarDate) -> (r: Result<
    CalendarDate,
    DailyDateError,
>)
    ensures
        r == judged_date(
            regex_captures(DATE_PATTERN@, date@) is Some,
            chrono_date(date@, DATE_FORMAT@),
            today,
        ),
        r matches Ok(d) ==> d.in_calendar_range(),
{
    let shaped = is_match(DATE_PATTERN, date);
    let parsed = parse_date(date, DATE_FORMAT);
    judge_daily_date(shaped, parsed, today)
}

/// The arguments of the helper that fetches a challenge: the challenge of today is
/// asked for as such, any other by its date.
pub open spec fn fetch_args(date: Seq<char>, today: Seq<char>, domain: LeetCodeDomain) -> Seq<
    Seq<char>,
> {
    if date == today {
        seq!["--daily"@, "--domain"@, domain.name()]
    } else {
        seq!["--date"@, date, "--domain"@, domain.name()]
    }
}

/// Builds the arguments of the helper that fetches the challenge of `date`.
pub fn fallback_args(date: &str, today: &str, domain: LeetCodeDomain) -> (r: Vec<String>)
    ensures
        crate::text::texts(r@) == fetch_args(date@, today@, domain),
{
    let mut args: Vec<String> = Vec::new();
    if str_eq(date, today) {
        args.push("--daily".to_owned());
    } else {
        args.push("--date".to_owned());
        args.push(date.to_owned());
    }
    args.push("--domain".to_owned());
    args.push(domain.to_text());
    args
}

/// The challenge that a request asks for.
#[derive(Debug)]
pub struct DailyLookup {
    pub domain: LeetCodeDomain,
    /// The date as the catalog holds it.
    pub date: String,
    pub day: CalendarDate,
    /// The key of the attempts to fetch the challenge.
    pub key: u64,
}

/// The challenge that a request for a site asks for, given today's date on the site
/// as text and as a day: the challenge of the date that the request names, or of
/// today, if that date may be asked for.
pub open spec fn looked_up(
    domain: LeetCodeDomain,
    date: Option<Seq<char>>,
    today_text: Seq<char>,
    today: CalendarDate,
) -> Result<(Seq<char>, CalendarDate, int), DailyDateError> {
    let text = match date {
        Some(d) => d,
        None => today_text,
    };
    match judged_date(
        regex_captures(DATE_PATTERN@, text) is Some,
        chrono_date(text, DATE_FORMAT@),
        today,
    ) {
        Ok(day) => Ok((text, day, key_of(domain, day))),
        Err(e) => Err(e),
    }
}

/// Works out which challenge a request for a site asks for.
pub fn lookup_at(
    domain: LeetCodeDomain,
    date: Option<&str>,
    today_text: &str,
    today: CalendarDate,
) -> (r: Result<DailyLookup, DailyDateError>)
    ensures
        match r {
            Ok(l) => l.domain == domain && looked_up(
                domain,
                crate::domain::opt_str(date),
                today_text@,
                today,
            ) == Ok::<(Seq<char>, CalendarDate, int), DailyDateError>(
                (l.date@, l.day, l.key as int),
            ),
            Err(e) => looked_up(domain, crate::domain::opt_str(date), today_text@, today) == Err::<
                (Seq<char>, CalendarDate, int),
                DailyDateError,
            >(e),
        },
{
    let text = match date {
        Some(d) => d,
        None => today_text,
    };
    match check_daily_date(text, today) {
        Ok(day) => Ok(
            DailyLookup { domain, date: text.to_owned(), day, key: fallback_key(domain, day) },
        ),
        Err(e) => Err(e),
    }
}

/// Works out which challenge a request asks for, by the clock of the site that the
/// request means. A request that names no site that exists is refused for that; any
/// other request is judged as [`looked_up`] says, for what the clock gave.
pub fn plan_daily(query: &DailyQuery) -> (r: Result<DailyLookup, ProblemDetail>)
    ensures
        match crate::domain::resolved_domain(opt_text(query.domain), opt_text(query.source)) {
            Err(refusal) => r matches Err(e) && e@ == refusal,
            Ok(domain) => exists|today_text: Seq<char>, today: CalendarDate|
                match #[trigger] looked_up(domain, opt_text(query.date), today_text, today) {
                    Ok(found) => r matches Ok(l) && l.domain == domain && found == (
                        l.date@,
                        l.day,
                        l.key as int,
                    ),
                    Err(fault) => r matches Err(e) && e@ == bad_request_problem(fault.detail()),
                },
        },
{
    let domain = match query.site() {
        Ok(d) => d,
        Err(e) => {
            return Err(e);
        },
    };
    let today_text = domain.today();
    let today = domain.today_naive();
    let date = match &query.date {
        Some(d) => Some(d.as_str()),
        None => None,
    };
    let found = lookup_at(domain, date, today_text.as_str(), today);
    proof {
        let _ = looked_up(domain, opt_text(query.date), today_text@, today);
    }
    match found {
        Ok(l) => Ok(l),
        Err(e) => Err(e.problem()),
    }
}

/// What a request does about a challenge that the catalog does not hold.
#[derive(Debug)]
pub enum FetchDecision {
    /// An attempt runs or pauses: the client is told to ask again.
    Wait { retry_after: u64 },
    /// The request claimed the attempt: the helper is to be started with the arguments.
    Start { args: Vec<String> },
}

/// Answers a request whose challenge the catalog does not hold, at the monotonic time
/// `now`: claims the fetch where none runs and none pauses, and says with which
/// arguments the helper is to be started.
pub fn claim_fetch(map: &mut FallbackMap, lookup: &DailyLookup, today_text: &str, now: u64) -> (r:
    FetchDecision)
    ensures
        final(map)@ == claimed(old(map)@, lookup.key, now),
        match r {
            FetchDecision::Wait { retry_after } => claim_answer(old(map)@, lookup.key, now) == (
                FallbackClaim::Busy { retry_after }
            ),
            FetchDecision::Start { args } => claim_answer(old(map)@, lookup.key, now)
                == FallbackClaim::Claimed && texts(args@) == fetch_args(
                lookup.date@,
                today_text@,
                lookup.domain,
            ),
        },
{
    match map.claim(lookup.key, now) {
        FallbackClaim::Busy { retry_after } => FetchDecision::Wait { retry_after },
        FallbackClaim::Claimed => FetchDecision::Start {
            args: fallback_args(lookup.date.as_str(), today_text, lookup.domain),
        },
    }
}

} // verus!
