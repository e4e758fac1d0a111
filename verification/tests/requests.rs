use oj_api::auth::{check_admin, check_bearer, AdminAccess, BearerDecision};
use oj_api::domain::LeetCodeDomain;
use oj_api::listing::plan_listing;
use oj_api::requests::{
    DailyQuery, LoginForm, ProblemsPageQuery, TokenAuthSettingRequest, ADMIN_PER_PAGE,
};

#[test]
fn bearer_guard_passes_when_switched_off() {
    assert_eq!(check_bearer(false, None), BearerDecision::Pass);
    assert_eq!(check_bearer(false, Some("Bearer abc")), BearerDecision::Pass);
}

#[test]
fn bearer_guard_wants_a_token_when_switched_on() {
    assert_eq!(check_bearer(true, None), BearerDecision::Reject);
    assert_eq!(check_bearer(true, Some("Bearer ")), BearerDecision::Reject);
    assert_eq!(check_bearer(true, Some("Token abc")), BearerDecision::Reject);
    assert_eq!(
        check_bearer(true, Some("Bearer  abc ")),
        BearerDecision::Validate { token: "abc".to_string() }
    );
}

#[test]
fn admin_guard_accepts_secret_or_live_session() {
    assert_eq!(check_admin("s3cret", Some("s3cret"), None, 100), AdminAccess::Granted);
    assert_eq!(check_admin("s3cret", Some("s3cret"), Some(50), 100), AdminAccess::Granted);
    assert_eq!(check_admin("s3cret", None, Some(101), 100), AdminAccess::Granted);
    assert_eq!(check_admin("s3cret", Some("wrong"), Some(101), 100), AdminAccess::Granted);
}

#[test]
fn admin_guard_forgets_expired_session() {
    assert_eq!(check_admin("s3cret", None, Some(100), 100), AdminAccess::Expired);
    assert_eq!(check_admin("s3cret", Some("wrong"), Some(99), 100), AdminAccess::Expired);
}

#[test]
fn admin_guard_denies_everything_else() {
    assert_eq!(check_admin("s3cret", None, None, 100), AdminAccess::Denied);
    assert_eq!(check_admin("s3cret", Some("wrong"), None, 100), AdminAccess::Denied);
    assert_eq!(check_admin("", Some(""), None, 100), AdminAccess::Denied);
}

#[test]
fn daily_query_names_site_and_date() {
    let query = DailyQuery {
        domain: Some("cn".to_string()),
        source: Some("leetcode.cn".to_string()),
        date: Some("2024-01-15".to_string()),
    };
    assert_eq!(query.site().unwrap(), LeetCodeDomain::Cn);
    assert_eq!(query.date_or("2024-06-01"), "2024-01-15");
    let query = DailyQuery { domain: None, source: None, date: None };
    assert_eq!(query.site().unwrap(), LeetCodeDomain::Com);
    assert_eq!(query.date_or("2024-06-01"), "2024-06-01");
    let query = DailyQuery { domain: Some("com".to_string()), source: Some("leetcode.cn".to_string()), date: None };
    assert_eq!(query.site().unwrap_err().detail, "domain and source conflict");
}

#[test]
fn problems_page_lists_fifty_of_leetcode() {
    let request = ProblemsPageQuery { source: None, page: None }.list_request();
    assert_eq!(request.source, "leetcode");
    assert_eq!(request.page, 1);
    assert_eq!(request.per_page, 50);
    assert_eq!(ADMIN_PER_PAGE, 50);
    assert_eq!(request.tag_mode, "any");
    assert!(request.difficulty.is_none() && request.tags.is_none() && request.search.is_none());
    assert!(request.sort_by.is_none() && request.sort_order.is_none());
    assert!(request.rating_min_bits.is_none() && request.rating_max_bits.is_none());
    let request =
        ProblemsPageQuery { source: Some("luogu".to_string()), page: Some(3) }.list_request();
    assert_eq!(request.source, "luogu");
    let plan = plan_listing(&request);
    assert_eq!(plan.window.page, 3);
    assert_eq!(plan.window.per_page, 50);
    assert_eq!(plan.window.offset, 100);
}

#[test]
fn login_needs_the_configured_secret() {
    let form = LoginForm { secret: "s3cret".to_string() };
    assert!(form.accepted("s3cret"));
    assert!(!form.accepted("other"));
    assert!(!form.accepted(""));
    assert!(!LoginForm { secret: String::new() }.accepted(""));
}

#[test]
fn token_auth_request_is_stored_as_one_or_zero() {
    assert_eq!(TokenAuthSettingRequest { enabled: true }.stored_value(), "1");
    assert_eq!(TokenAuthSettingRequest { enabled: false }.stored_value(), "0");
}
