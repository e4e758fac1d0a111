//! The parameters of the requests that carry a decision of their own.

use vstd::prelude::*;
use vstd::string::*;
use crate::auth::{secret_accepted, token_auth_setting};
use crate::domain::{resolve_domain, resolved_domain, LeetCodeDomain};
use crate::listing::{ListRequest, ListRequestView};
use crate::problem::{ProblemDetail, ProblemView};
use crate::text::opt_text;

verus! {

/// The parameters of a request for a daily challenge.
#[derive(Debug)]
pub struct DailyQuery {
    pub domain: Option<String>,
    pub source: Option<String>,
    pub date: Option<String>,
}

impl DailyQuery {
    /// The site that the request means.
    pub fn site(&self) -> (r: Result<LeetCodeDomain, ProblemDetail>)
        ensures
            match r {
                Ok(d) => resolved_domain(opt_text(self.domain), opt_text(self.source)) == Ok::<
                    LeetCodeDomain,
                    ProblemView,
                >(d),
                Err(e) => resolved_domain(opt_text(self.domain), opt_text(self.source)) == Err::<
                    LeetCodeDomain,
                    ProblemView,
                >(e@),
            },
    {
        let domain = match &self.domain {
            Some(d) => Some(d.as_str()),
            None => None,
        };
        let source = match &self.source {
            Some(s) => Some(s.as_str()),
            None => None,
        };
        resolve_domain(domain, source)
    }

    /// The date that the request means: its own, or today's.
    pub fn date_or(&self, today: &str) -> (r: String)
        ensures
            r@ == match self.date {
                Some(d) => d@,
                None => today@,
            },
    {
        match &self.date {
            Some(d) => d.clone(),
            None => today.to_owned(),
        }
    }
}

/// The parameters of the page that lists problems for the administrator.
#[derive(Debug)]
pub struct ProblemsPageQuery {
    pub source: Option<String>,
    pub page: Option<u32>,
}

/// The number of rows on a page of the administration.
pub const ADMIN_PER_PAGE: u32 = 50;

impl ProblemsPageQuery {
    /// The listing that the page shows: the problems of the source, LeetCode if none
    /// is named, fifty to a page, without any filter.
    pub fn list_request(&self) -> (r: ListRequest)
        ensures
            r@ == (ListRequestView {
                source: match self.source {
                    Some(s) => s@,
                    None => "leetcode"@,
                },
                page: match self.page {
                    Some(p) => p,
                    None => 1,
                },
                per_page: ADMIN_PER_PAGE,
                difficulty: None,
                tags: None,
                search: None,
                sort_by: None,
                sort_order: None,
                tag_mode: "any"@,
                rating_min_bits: None,
                rating_max_bits: None,
            }),
    {
        ListRequest {
            source: match &self.source {
                Some(s) => s.clone(),
                None => "leetcode".to_owned(),
            },
            page: match self.page {
                Some(p) => p,
                None => 1,
            },
            per_page: ADMIN_PER_PAGE,
            difficulty: None,
            tags: None,
            search: None,
            sort_by: None,
            sort_order: None,
            tag_mode: "any".to_owned(),
            rating_min_bits: None,
            rating_max_bits: None,
        }
    }
}

/// What the login form carries.
#[derive(Debug)]
pub struct LoginForm {
    pub secret: String,
}

impl LoginForm {
    /// Whether the form opens a session: a secret has to be configured, and the form
    /// has to carry it.
    pub fn accepted(&self, configured: &str) -> (r: bool)
        ensures
            r == (configured@.len() > 0 && self.secret@ == configured@),
    {
        secret_accepted(configured, self.secret.as_str())
    }
}

/// A request to turn token authentication on or off.
#[derive(Debug, Clone, Copy, PartialEq, Eq, Structural)]
pub struct TokenAuthSettingRequest {
    pub enabled: bool,
}

impl TokenAuthSettingRequest {
    /// The value to store for the setting.
    pub fn stored_value(&self) -> (r: &'static str)
        ensures
            r@ == if self.enabled {
                "1"@
            } else {
                "0"@
            },
    {
        token_auth_setting(self.enabled)
    }
}

/// A request for a new API token.
#[derive(Debug)]
pub struct CreateTokenRequest {
    pub label: Option<String>,
}

} // verus!
