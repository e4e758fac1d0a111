//! The two LeetCode sites and how a request names one of them.

use vstd::prelude::*;
use vstd::string::*;
use crate::date::{is_date_text, today_at_offset, today_text_at_offset, CalendarDate};
use crate::problem::{bad_request_problem, ProblemDetail, ProblemView};
use crate::text::{join, str_eq};

verus! {

/// The format in which dates are written: year, month and day, with dashes.
pub const DATE_FORMAT: &'static str = "%Y-%m-%d";

/// A LeetCode site: the global one or the Chinese one.
#[derive(Debug, Clone, Copy, PartialEq, Eq, Structural)]
pub enum LeetCodeDomain {
    Com,
    Cn,
}

impl LeetCodeDomain {
    pub open spec fn name(self) -> Seq<char> {
        match self {
            LeetCodeDomain::Com => "com"@,
            LeetCodeDomain::Cn => "cn"@,
        }
    }

    /// The site named by a text, if the text names one.
    pub open spec fn named(s: Seq<char>) -> Option<LeetCodeDomain> {
        if s == "com"@ {
            Some(LeetCodeDomain::Com)
        } else if s == "cn"@ {
            Some(LeetCodeDomain::Cn)
        } else {
            None
        }
    }

    /// Seconds east of UTC of the zone in which the site counts its days:
    /// UTC for the global site, UTC+8 for the Chinese one.
    pub open spec fn zone_offset(self) -> int {
        match self {
            LeetCodeDomain::Com => 0,
            LeetCodeDomain::Cn => 28_800,
        }
    }

    pub fn as_str(&self) -> (r: &'static str)
        ensures
            r@ == self.name(),
    {
        match self {
            LeetCodeDomain::Com => "com",
            LeetCodeDomain::Cn => "cn",
        }
    }

    pub fn to_text(&self) -> (r: String)
        ensures
            r@ == self.name(),
    {
        self.as_str().to_owned()
    }

    /// Reads a site name. Any text but `com` and `cn` is refused with a message
    /// that quotes it.
    pub fn parse(s: &str) -> (r: Result<LeetCodeDomain, String>)
        ensures
            match r {
                Ok(d) => Self::named(s@) == Some(d),
                Err(e) => Self::named(s@) is None && e@ == "invalid domain: "@ + s@,
            },
    {
        if str_eq(s, "com") {
            Ok(LeetCodeDomain::Com)
        } else if str_eq(s, "cn") {
            Ok(LeetCodeDomain::Cn)
        } else {
            Err(join("invalid domain: ", s))
        }
    }

    pub fn utc_offset_secs(&self) -> (r: i32)
        ensures
            r == self.zone_offset(),
    {
        match self {
            LeetCodeDomain::Com => 0,
            LeetCodeDomain::Cn => 28_800,
        }
    }

    /// Today's date on the site, as text. Which day it is comes from the clock, so two
    /// calls may differ; the text is that of a day of the calendar.
    pub fn today(&self) -> (r: String)
        ensures
            is_date_text(r@),
    {
        today_text_at_offset(self.utc_offset_secs(), DATE_FORMAT)
    }

    /// Today's date on the site. It comes from the clock, so two calls may differ.
    pub fn today_naive(&self) -> (r: CalendarDate)
        ensures
            r.in_calendar_range(),
    {
        today_at_offset(self.utc_offset_secs())
    }
}

pub open spec fn opt_str(o: Option<&str>) -> Option<Seq<char>> {
    match o {
        Some(s) => Some(s@),
        None => None,
    }
}

/// The site named by the `source` parameter of a request.
pub open spec fn site_of_source(s: Seq<char>) -> Option<LeetCodeDomain> {
    if s == "leetcode.com"@ {
        Some(LeetCodeDomain::Com)
    } else if s == "leetcode.cn"@ {
        Some(LeetCodeDomain::Cn)
    } else {
        None
    }
}

pub open spec fn invalid_source_detail(s: Seq<char>) -> Seq<char> {
    "invalid source '"@ + s + "', expected 'leetcode.com' or 'leetcode.cn'"@
}

/// The site that the `domain` and `source` parameters of a request name together.
/// A bad `source` is reported before a bad `domain`, and both before a conflict.
/// Without either parameter the global site is meant.
pub open spec fn resolved_domain(domain: Option<Seq<char>>, source: Option<Seq<char>>) -> Result<
    LeetCodeDomain,
    ProblemView,
> {
    if source is Some && site_of_source(source->0) is None {
        Err(bad_request_problem(invalid_source_detail(source->0)))
    } else if domain is Some && LeetCodeDomain::named(domain->0) is None {
        Err(bad_request_problem("domain must be 'com' or 'cn'"@))
    } else {
        match (domain, source) {
            (Some(d), Some(s)) => if LeetCodeDomain::named(d) != site_of_source(s) {
                Err(bad_request_problem("domain and source conflict"@))
            } else {
                Ok(LeetCodeDomain::named(d)->0)
            },
            (Some(d), None) => Ok(LeetCodeDomain::named(d)->0),
            (None, Some(s)) => Ok(site_of_source(s)->0),
            (None, None) => Ok(LeetCodeDomain::Com),
        }
    }
}

/// Works out which site a request means.
pub fn resolve_domain(domain: Option<&str>, source: Option<&str>) -> (r: Result<
    LeetCodeDomain,
    ProblemDetail,
>)
    ensures
        match r {
            Ok(d) => resolved_domain(opt_str(domain), opt_str(source)) == Ok::<
                LeetCodeDomain,
                ProblemView,
            >(d),
            Err(e) => resolved_domain(opt_str(domain), opt_str(source)) == Err::<
                LeetCodeDomain,
                ProblemView,
            >(e@),
        },
{
    let from_source = match source {
        Some(s) => {
            if str_eq(s, "leetcode.com") {
                Some(LeetCodeDomain::Com)
            } else if str_eq(s, "leetcode.cn") {
                Some(LeetCodeDomain::Cn)
            } else {
                let head = join("invalid source '", s);
                let detail = head.concat("', expected 'leetcode.com' or 'leetcode.cn'");
                return Err(ProblemDetail::bad_request(detail.as_str()));
            }
        },
        None => None,
    };
    let from_domain = match domain {
        Some(d) => match LeetCodeDomain::parse(d) {
            Ok(site) => Some(site),
            Err(_) => {
                return Err(ProblemDetail::bad_request("domain must be 'com' or 'cn'"));
            },
        },
        None => None,
    };
    match (from_domain, from_source) {
        (Some(d), Some(s)) => {
            if d != s {
                Err(ProblemDetail::bad_request("domain and source conflict"))
            } else {
                Ok(d)
            }
        },
        (Some(d), None) => Ok(d),
        (None, Some(s)) => Ok(s),
        (None, None) => Ok(LeetCodeDomain::Com),
    }
}

} // verus!
