use oj_api::auth::{
    answers_as_api, bearer_token, extract_cookie, hex_string, new_token, secret_accepted,
    session_alive, session_cookie, session_expiry, token_auth_enabled, token_auth_setting,
    CLEARED_COOKIE, SESSION_COOKIE,
};
use oj_api::catalog::{
    check_catalog_source, escape_html, needs_slug_lookup, parse_json_array, rewritten_content,
    stored_id_text, ApiToken, EmbeddingStats, StoredId,
};
use oj_api::config::{
    judge_secret, CrawlerConfig, DatabaseConfig, EmbeddingConfig, LoggingConfig, SecretStrength,
};
use oj_api::health::{health_report, judge_dimension, DimensionProbe, DimensionVerdict};
use oj_api::listing::{
    escape_like, is_greater64, join_with, order_by, page_window, parse_tags, plan_listing,
    total_pages, validate_list_query, ListRequest, PageWindow, SqlParam,
};
use oj_api::natsort::{flush_segment, natural_sort_key};
use oj_api::problem::{FieldError, ProblemDetail};
use oj_api::procgroup::{kill_outcome, kill_target, KillOutcome};
use oj_api::text::{decimal_string, from_chars, split_trimmed, str_eq, to_chars};

#[test]
fn problem_documents_carry_title_and_status() {
    let cases = [
        (ProblemDetail::not_found("a"), "Not Found", 404),
        (ProblemDetail::bad_request("a"), "Bad Request", 400),
        (ProblemDetail::unauthorized("a"), "Unauthorized", 401),
        (ProblemDetail::conflict("a"), "Conflict", 409),
        (ProblemDetail::internal("a"), "Internal Server Error", 500),
        (ProblemDetail::bad_gateway("a"), "Bad Gateway", 502),
        (ProblemDetail::gateway_timeout("a"), "Gateway Timeout", 504),
    ];
    for (problem, title, status) in cases {
        assert_eq!(problem.error_type, "about:blank");
        assert_eq!(problem.title, title);
        assert_eq!(problem.status, status);
        assert_eq!(problem.detail, "a");
        assert!(problem.errors.is_none());
    }
}

#[test]
fn validation_problem_lists_its_fields() {
    let problem = ProblemDetail::validation(
        "bad input",
        vec![FieldError { field: "limit".to_string(), message: "too large".to_string() }],
    );
    assert_eq!(problem.title, "Validation Error");
    assert_eq!(problem.status, 400);
    assert_eq!(problem.detail, "bad input");
    let errors = problem.errors.unwrap();
    assert_eq!(errors.len(), 1);
    assert_eq!(errors[0].field, "limit");
    assert_eq!(errors[0].message, "too large");
}

#[test]
fn pids_zero_and_one_are_never_signalled() {
    assert_eq!(kill_target(0), None);
    assert_eq!(kill_target(1), None);
    assert_eq!(kill_target(2), Some(-2));
    assert_eq!(kill_target(4321), Some(-4321));
    assert_eq!(kill_target(i32::MAX as u32), Some(-i32::MAX));
    assert_eq!(kill_target(i32::MAX as u32 + 1), None);
    assert_eq!(kill_target(u32::MAX), None);
}

#[test]
fn missing_group_is_no_error() {
    assert_eq!(kill_outcome(0, false), KillOutcome::Sent);
    assert_eq!(kill_outcome(0, true), KillOutcome::Sent);
    assert_eq!(kill_outcome(-1, true), KillOutcome::AlreadyGone);
    assert_eq!(kill_outcome(-1, false), KillOutcome::Failed);
    assert!(KillOutcome::Sent.delivered());
    assert!(!KillOutcome::AlreadyGone.delivered());
    assert!(!KillOutcome::Failed.delivered());
}

#[test]
fn natural_key_has_exact_values() {
    assert_eq!(natural_sort_key("B2"), "b00000000000000000002");
    assert_eq!(natural_sort_key("1900A"), "00000000000000001900a");
    assert_eq!(natural_sort_key("12345678901234567890"), "12345678901234567890");
    assert_eq!(natural_sort_key("123456789012345678901"), "123456789012345678901");
    assert_eq!(natural_sort_key("a1b2"), "a00000000000000000001b00000000000000000002");
    assert_eq!(natural_sort_key("\u{c9}cole7"), "\u{c9}cole00000000000000000007");
    assert_eq!(natural_sort_key("x\u{0663}"), "x\u{0663}");
}

#[test]
fn segments_are_padded_or_lowered() {
    let mut out = String::from(">");
    flush_segment(&mut out, "42", true);
    assert_eq!(out, ">00000000000000000042");
    flush_segment(&mut out, "AbC", false);
    assert_eq!(out, ">00000000000000000042abc");
    flush_segment(&mut out, "", true);
    assert_eq!(out, ">00000000000000000042abc00000000000000000000");
    flush_segment(&mut out, "", false);
    assert_eq!(out.len(), 44);
}

#[test]
fn texts_convert_and_compare() {
    assert_eq!(to_chars("h\u{e9}!"), vec!['h', '\u{e9}', '!']);
    assert_eq!(from_chars(&vec!['o', 'k']), "ok");
    assert!(str_eq("abc", "abc"));
    assert!(!str_eq("abc", "abd"));
    assert!(!str_eq("abc", "ab"));
    assert_eq!(decimal_string(0), "0");
    assert_eq!(decimal_string(7), "7");
    assert_eq!(decimal_string(10), "10");
    assert_eq!(decimal_string(256), "256");
    assert_eq!(decimal_string(u64::MAX), "18446744073709551615");
    assert_eq!(split_trimmed(" a ; b;c ", ';'), vec!["a", "b", "c"]);
    assert_eq!(split_trimmed("", ';'), vec![""]);
    assert_eq!(split_trimmed(";", ';'), vec!["", ""]);
}

#[test]
fn configuration_has_its_defaults() {
    let db = DatabaseConfig::default();
    assert_eq!(db.path, "data/data.db");
    assert_eq!(db.pool_max_size, 8);
    assert_eq!(db.busy_timeout_ms, 5000);
    let crawler = CrawlerConfig::default();
    assert_eq!(crawler.timeout_secs, 300);
    assert!(crawler.per_source_timeout.is_empty());
    let embedding = EmbeddingConfig::default();
    assert_eq!(embedding.timeout_secs, 30);
    assert_eq!(embedding.over_fetch_factor, 4);
    assert_eq!(embedding.concurrency, 4);
    assert!(embedding.is_valid());
    assert_eq!(LoggingConfig::default().rust_log, "info");
}

#[test]
fn concurrency_must_be_between_1_and_32() {
    for (n, ok) in [(0u32, false), (1, true), (4, true), (32, true), (33, false)] {
        let config = EmbeddingConfig { concurrency: n, ..EmbeddingConfig::default() };
        assert_eq!(config.is_valid(), ok);
    }
}

#[test]
fn weak_secrets_are_noticed() {
    assert_eq!(judge_secret(""), SecretStrength::Empty);
    assert_eq!(judge_secret("changeme"), SecretStrength::Placeholder);
    assert_eq!(judge_secret("s3cret"), SecretStrength::Chosen);
}

#[test]
fn bearer_token_is_read_from_the_header() {
    assert_eq!(bearer_token(None), None);
    assert_eq!(bearer_token(Some("Bearer abc")), Some("abc".to_string()));
    assert_eq!(bearer_token(Some("Bearer   abc  ")), Some("abc".to_string()));
    assert_eq!(bearer_token(Some("Bearer ")), None);
    assert_eq!(bearer_token(Some("Bearer    ")), None);
    assert_eq!(bearer_token(Some("bearer abc")), None);
    assert_eq!(bearer_token(Some("Bearerabc")), None);
    assert_eq!(bearer_token(Some("Basic abc")), None);
    assert_eq!(bearer_token(Some("")), None);
}

#[test]
fn cookie_is_read_from_the_headers() {
    let headers = vec!["a=1; oj_admin_session=tok; b=2".to_string()];
    assert_eq!(extract_cookie(&headers, SESSION_COOKIE), Some("tok".to_string()));
    assert_eq!(extract_cookie(&headers, "a"), Some("1".to_string()));
    assert_eq!(extract_cookie(&headers, "b"), Some("2".to_string()));
    assert_eq!(extract_cookie(&headers, "c"), None);
    let headers = vec!["x".to_string(), "k=v=w;k=second".to_string(), "k=third".to_string()];
    assert_eq!(extract_cookie(&headers, "k"), Some("v=w".to_string()));
    assert_eq!(extract_cookie(&headers, "x"), None);
    assert_eq!(extract_cookie(&Vec::new(), "k"), None);
    let headers = vec!["k =v".to_string(), "=v".to_string(), "e=".to_string()];
    assert_eq!(extract_cookie(&headers, "k"), None);
    assert_eq!(extract_cookie(&headers, "k "), Some("v".to_string()));
    assert_eq!(extract_cookie(&headers, ""), Some("v".to_string()));
    assert_eq!(extract_cookie(&headers, "e"), Some("".to_string()));
}

#[test]
fn secret_must_be_configured_and_equal() {
    assert!(secret_accepted("s3cret", "s3cret"));
    assert!(!secret_accepted("s3cret", "other"));
    assert!(!secret_accepted("", ""));
    assert!(!secret_accepted("", "x"));
}

#[test]
fn session_lasts_eight_hours() {
    assert_eq!(session_expiry(1000), 1000 + 28800);
    assert!(session_alive(1001, 1000));
    assert!(!session_alive(1000, 1000));
    assert!(!session_alive(999, 1000));
    assert_eq!(
        session_cookie("abc"),
        "oj_admin_session=abc; Path=/admin; HttpOnly; SameSite=Lax; Max-Age=28800"
    );
    assert_eq!(CLEARED_COOKIE, "oj_admin_session=; Path=/admin; HttpOnly; SameSite=Lax; Max-Age=0");
}

#[test]
fn api_paths_are_told_from_pages() {
    assert!(answers_as_api("/admin/api/crawlers/status"));
    assert!(answers_as_api("/api/"));
    assert!(!answers_as_api("/admin/"));
    assert!(!answers_as_api("/admin/api"));
    assert!(!answers_as_api("/api"));
    assert!(!answers_as_api(""));
}

#[test]
fn tokens_are_sixty_four_hex_digits() {
    assert_eq!(hex_string(&vec![0x00, 0x0f, 0xa5, 0xff]), "000fa5ff");
    assert_eq!(hex_string(&Vec::new()), "");
    let a = new_token();
    let b = new_token();
    assert_eq!(a.len(), 64);
    assert!(a.chars().all(|c| c.is_ascii_digit() || ('a'..='f').contains(&c)));
    assert_ne!(a, b);
}

#[test]
fn token_auth_setting_defaults_to_on() {
    assert!(token_auth_enabled(None));
    assert!(token_auth_enabled(Some("1")));
    assert!(!token_auth_enabled(Some("0")));
    assert!(!token_auth_enabled(Some("true")));
    assert_eq!(token_auth_setting(true), "1");
    assert_eq!(token_auth_setting(false), "0");
}

#[test]
fn health_needs_connection_index_and_dimension() {
    let ok = health_report(true, true, Some(768));
    assert!(ok.healthy && ok.db && ok.sqlite_vec);
    assert_eq!(ok.vec_dimension, Some(768));
    assert_eq!(ok.status_code(), 200);
    assert_eq!(ok.status_word(), "ok");
    let wrong = health_report(true, true, Some(512));
    assert!(!wrong.healthy && wrong.db && wrong.sqlite_vec);
    assert_eq!(wrong.status_code(), 503);
    assert_eq!(wrong.status_word(), "unhealthy");
    assert!(!health_report(true, true, None).healthy);
    let no_vec = health_report(true, false, Some(768));
    assert!(!no_vec.healthy && !no_vec.sqlite_vec);
    let down = health_report(false, true, Some(768));
    assert!(!down.healthy && !down.db && !down.sqlite_vec);
    assert_eq!(down.vec_dimension, None);
}

#[test]
fn stored_dimension_is_judged_at_start() {
    assert_eq!(judge_dimension(DimensionProbe::Found { dimension: 768 }), DimensionVerdict::Passed);
    assert_eq!(
        judge_dimension(DimensionProbe::Found { dimension: 1536 }),
        DimensionVerdict::Mismatch { found: 1536 }
    );
    assert_eq!(judge_dimension(DimensionProbe::NoRows), DimensionVerdict::Skipped);
    assert_eq!(judge_dimension(DimensionProbe::Failed), DimensionVerdict::Skipped);
}

#[test]
fn stored_lists_are_read_from_json() {
    assert_eq!(parse_json_array(None), Vec::<String>::new());
    assert_eq!(parse_json_array(Some("".to_string())), Vec::<String>::new());
    assert_eq!(parse_json_array(Some("not json".to_string())), Vec::<String>::new());
    assert_eq!(parse_json_array(Some("[1,2]".to_string())), Vec::<String>::new());
    assert_eq!(parse_json_array(Some("[]".to_string())), Vec::<String>::new());
    assert_eq!(
        parse_json_array(Some("[\"dp\", \"graph\\u0021\"]".to_string())),
        vec!["dp".to_string(), "graph!".to_string()]
    );
}

#[test]
fn rewritten_content_is_trimmed() {
    assert_eq!(rewritten_content("  text \n"), Some("text".to_string()));
    assert_eq!(rewritten_content(" \n\t"), None);
    assert_eq!(rewritten_content(""), None);
}

#[test]
fn pending_embeddings_never_go_below_zero() {
    let stats = EmbeddingStats::new("leetcode".to_string(), 100, 80, 30);
    assert_eq!(stats.pending, 50);
    assert_eq!(stats.total, 100);
    let stats = EmbeddingStats::new("leetcode".to_string(), 100, 30, 80);
    assert_eq!(stats.pending, 0);
    let token = ApiToken::issued("t".to_string(), Some("ci".to_string()), 17);
    assert_eq!(token.is_active, 1);
    assert_eq!(token.created_at, 17);
    assert_eq!(token.last_used_at, None);
}

#[test]
fn stored_ids_become_text() {
    assert_eq!(stored_id_text(StoredId::Integer(1)), "1");
    assert_eq!(stored_id_text(StoredId::Integer(0)), "0");
    assert_eq!(stored_id_text(StoredId::Integer(-42)), "-42");
    assert_eq!(stored_id_text(StoredId::Integer(i64::MAX)), i64::MAX.to_string());
    assert_eq!(stored_id_text(StoredId::Integer(i64::MIN)), i64::MIN.to_string());
    assert_eq!(stored_id_text(StoredId::Text("two-sum".to_string())), "two-sum");
    assert_eq!(stored_id_text(StoredId::Other), "");
}

#[test]
fn only_leetcode_slugs_are_looked_up() {
    assert!(needs_slug_lookup("leetcode", "two-sum"));
    assert!(needs_slug_lookup("leetcode", "1a"));
    assert!(!needs_slug_lookup("leetcode", "1"));
    assert!(!needs_slug_lookup("leetcode", ""));
    assert!(!needs_slug_lookup("atcoder", "abc300_a"));
}

#[test]
fn page_window_is_clamped() {
    assert_eq!(page_window(1, 20), PageWindow { page: 1, per_page: 20, offset: 0 });
    assert_eq!(page_window(3, 20), PageWindow { page: 3, per_page: 20, offset: 40 });
    assert_eq!(page_window(0, 0), PageWindow { page: 1, per_page: 1, offset: 0 });
    assert_eq!(page_window(2, 1000), PageWindow { page: 2, per_page: 100, offset: 100 });
    assert_eq!(page_window(u32::MAX, 100), PageWindow { page: u32::MAX, per_page: 100, offset: u32::MAX });
}

#[test]
fn total_pages_round_up() {
    assert_eq!(total_pages(0, 20), 0);
    assert_eq!(total_pages(1, 20), 1);
    assert_eq!(total_pages(20, 20), 1);
    assert_eq!(total_pages(21, 20), 2);
    assert_eq!(total_pages(u32::MAX, 1), u32::MAX);
    assert_eq!(total_pages(u32::MAX, 100), 42949673);
}

#[test]
fn like_patterns_escape_wildcards() {
    assert_eq!(escape_like("plain"), "plain");
    assert_eq!(escape_like("50%_off\\now"), "50\\%\\_off\\\\now");
    assert_eq!(escape_like(""), "");
    assert_eq!(
        escape_like("50%_off\\now"),
        "50%_off\\now".replace('\\', "\\\\").replace('%', "\\%").replace('_', "\\_")
    );
}

#[test]
fn list_query_is_checked() {
    assert_eq!(validate_list_query(None, None, None, None, None), Ok(()));
    assert_eq!(
        validate_list_query(Some("rating"), Some("desc"), Some("all"), Some(1.0f64.to_bits()), Some(2.0f64.to_bits())),
        Ok(())
    );
    assert_eq!(
        validate_list_query(Some("title"), Some("up"), Some("some"), None, None),
        Err("invalid sort_by: title".to_string())
    );
    assert_eq!(
        validate_list_query(Some("id"), Some("up"), Some("some"), None, None),
        Err("invalid sort_order: up".to_string())
    );
    assert_eq!(
        validate_list_query(None, None, Some("some"), None, None),
        Err("invalid tag_mode: some".to_string())
    );
    assert_eq!(
        validate_list_query(None, None, None, Some(3.0f64.to_bits()), Some(2.0f64.to_bits())),
        Err("rating_min must be <= rating_max".to_string())
    );
    assert_eq!(validate_list_query(None, None, None, Some(2.0f64.to_bits()), Some(2.0f64.to_bits())), Ok(()));
    assert_eq!(validate_list_query(None, None, None, Some(f64::NAN.to_bits()), Some(2.0f64.to_bits())), Ok(()));
    assert_eq!(validate_list_query(None, None, None, Some(3.0f64.to_bits()), None), Ok(()));
}

#[test]
fn binary64_numbers_compare_by_key() {
    let values = [f64::NEG_INFINITY, -2.0, -0.0, 0.0, 1e-320, 1.5, 1800.0, f64::MAX, f64::INFINITY];
    for a in values {
        for b in values {
            assert_eq!(is_greater64(a.to_bits(), b.to_bits()), a > b);
        }
        assert!(!is_greater64(a.to_bits(), f64::NAN.to_bits()));
        assert!(!is_greater64(f64::NAN.to_bits(), a.to_bits()));
    }
}

#[test]
fn tags_are_cut_trimmed_and_kept_when_not_empty() {
    assert_eq!(parse_tags("dp, graph ,,tree, "), vec!["dp", "graph", "tree"]);
    assert_eq!(parse_tags(""), Vec::<String>::new());
    assert_eq!(parse_tags(" , "), Vec::<String>::new());
}

#[test]
fn order_follows_the_request() {
    assert_eq!(order_by(None, None), ("natural_sort_key(id)", "ASC"));
    assert_eq!(order_by(None, Some("desc")), ("natural_sort_key(id)", "ASC"));
    assert_eq!(order_by(Some("id"), Some("desc")), ("natural_sort_key(id)", "DESC"));
    assert_eq!(order_by(Some("rating"), Some("asc")), ("rating", "ASC"));
    assert_eq!(order_by(Some("ac_rate"), None), ("ac_rate", "ASC"));
    let (column, direction) = order_by(Some("difficulty"), Some("desc"));
    assert!(column.starts_with("CASE WHEN LOWER(difficulty)='easy' THEN 1"));
    assert_eq!(direction, "DESC");
}

#[test]
fn pieces_are_joined_with_the_separator() {
    assert_eq!(join_with(&Vec::new(), ", "), "");
    assert_eq!(join_with(&vec!["a".to_string()], ", "), "a");
    assert_eq!(join_with(&vec!["a".to_string(), "".to_string(), "c".to_string()], ", "), "a, , c");
}

fn texts_of(params: &[SqlParam]) -> Vec<String> {
    params
        .iter()
        .map(|p| match p {
            SqlParam::Text(s) => format!("T:{}", s),
            SqlParam::Real(bits) => format!("R:{}", f64::from_bits(*bits)),
            SqlParam::Int(n) => format!("I:{}", n),
        })
        .collect()
}

fn request(source: &str) -> ListRequest {
    ListRequest {
        source: source.to_string(),
        page: 1,
        per_page: 20,
        difficulty: None,
        tags: None,
        search: None,
        sort_by: None,
        sort_order: None,
        tag_mode: "any".to_string(),
        rating_min_bits: None,
        rating_max_bits: None,
    }
}

const COLUMNS: &str = "SELECT id, source, slug, title, title_cn, difficulty, ac_rate, rating, contest, problem_index, tags, link FROM problems WHERE ";

#[test]
fn plain_listing_filters_by_source_only() {
    let plan = plan_listing(&request("leetcode"));
    assert_eq!(plan.count_sql, "SELECT COUNT(*) FROM problems WHERE source = ?1");
    assert_eq!(
        plan.select_sql,
        format!(
            "{}source = ?1 ORDER BY natural_sort_key(id) ASC, natural_sort_key(id) ASC, id ASC LIMIT ?2 OFFSET ?3",
            COLUMNS
        )
    );
    assert_eq!(texts_of(&plan.filter_params), vec!["T:leetcode"]);
    assert_eq!(plan.window, PageWindow { page: 1, per_page: 20, offset: 0 });
}

#[test]
fn full_listing_numbers_its_parameters() {
    let mut req = request("codeforces");
    req.page = 3;
    req.per_page = 500;
    req.difficulty = Some("Hard".to_string());
    req.search = Some("  50%_a ".to_string());
    req.tags = Some(vec!["dp".to_string(), "math".to_string()]);
    req.tag_mode = "all".to_string();
    req.sort_by = Some("rating".to_string());
    req.sort_order = Some("desc".to_string());
    req.rating_min_bits = Some(1200.0f64.to_bits());
    req.rating_max_bits = Some(1800.0f64.to_bits());
    let plan = plan_listing(&req);
    let tag = |n: u32| {
        format!(
            "EXISTS (SELECT 1 FROM json_each(CASE WHEN tags IS NOT NULL AND tags != '' THEN tags ELSE '[]' END) WHERE LOWER(value) = LOWER(?{}))",
            n
        )
    };
    let conditions = format!(
        "source = ?1 AND LOWER(difficulty) = LOWER(?2) AND (id LIKE ?3 ESCAPE '\\' OR COALESCE(title,'') LIKE ?4 ESCAPE '\\' OR COALESCE(title_cn,'') LIKE ?5 ESCAPE '\\') AND ({} AND {}) AND rating >= ?8 AND rating <= ?9",
        tag(6),
        tag(7)
    );
    assert_eq!(plan.count_sql, format!("SELECT COUNT(*) FROM problems WHERE {}", conditions));
    assert_eq!(
        plan.select_sql,
        format!(
            "{}{} ORDER BY rating DESC, natural_sort_key(id) ASC, id ASC LIMIT ?10 OFFSET ?11",
            COLUMNS, conditions
        )
    );
    assert_eq!(
        texts_of(&plan.filter_params),
        vec![
            "T:codeforces",
            "T:Hard",
            "T:%50\\%\\_a%",
            "T:%50\\%\\_a%",
            "T:%50\\%\\_a%",
            "T:dp",
            "T:math",
            "R:1200",
            "R:1800"
        ]
    );
    assert_eq!(plan.window, PageWindow { page: 3, per_page: 100, offset: 200 });
}

#[test]
fn listing_skips_blank_search_and_empty_tags() {
    let mut req = request("luogu");
    req.search = Some("   ".to_string());
    req.tags = Some(Vec::new());
    let plan = plan_listing(&req);
    assert_eq!(plan.count_sql, "SELECT COUNT(*) FROM problems WHERE source = ?1");
    assert_eq!(plan.filter_params.len(), 1);
    req.tags = Some(vec!["a".to_string(), "b".to_string()]);
    let plan = plan_listing(&req);
    assert!(plan.count_sql.contains("LOWER(?2)) OR EXISTS"));
    assert!(plan.select_sql.ends_with("LIMIT ?4 OFFSET ?5"));
}

#[test]
fn catalog_lists_four_sources() {
    for source in ["atcoder", "leetcode", "codeforces", "luogu"] {
        assert!(check_catalog_source(source).is_ok());
    }
    for source in ["spoj", "uva", "diag", "", "LeetCode"] {
        let e = check_catalog_source(source).unwrap_err();
        assert_eq!(e.status, 400);
        assert_eq!(e.detail, format!("invalid source: {}", source));
    }
}

#[test]
fn markup_is_escaped_for_html() {
    assert_eq!(escape_html("plain text"), "plain text");
    assert_eq!(escape_html("<a href=\"x\">Tom & 'Jerry'</a>"), "&lt;a href=&quot;x&quot;&gt;Tom &amp; &#x27;Jerry&#x27;&lt;/a&gt;");
    assert_eq!(escape_html(""), "");
    assert_eq!(escape_html("&amp;"), "&amp;amp;");
}
