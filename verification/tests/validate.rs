use oj_api::args::{ArgSpec, ValueType};
use oj_api::sources::CrawlerSource;
use oj_api::validate::{check_args, parse_unsigned, validate_args, ArgError, ArgFault};

fn strings(args: &[&str]) -> Vec<String> {
    args.iter().map(|s| s.to_string()).collect()
}

fn float_readings(args: &[String]) -> Vec<Option<u64>> {
    args.iter().map(|s| s.parse::<f64>().ok().map(f64::to_bits)).collect()
}

fn run(source: CrawlerSource, args: &[&str]) -> Result<Vec<String>, String> {
    let raw = strings(args);
    let floats = float_readings(&raw);
    validate_args(&source, &raw, &floats)
}

fn fault(source: CrawlerSource, args: &[&str]) -> ArgError {
    let raw = strings(args);
    let floats = float_readings(&raw);
    check_args(&source.arg_specs(), &raw, &floats).unwrap_err()
}

#[test]
fn valid_arguments_come_back_unchanged() {
    assert_eq!(run(CrawlerSource::LeetCode, &[]), Ok(Vec::new()));
    assert_eq!(run(CrawlerSource::LeetCode, &["--daily"]), Ok(strings(&["--daily"])));
    let args = ["--date", "2024-01-15", "--domain", "cn", "--monthly", "2024", "12"];
    assert_eq!(run(CrawlerSource::LeetCode, &args), Ok(strings(&args)));
    let args = ["--rate-limit", "0.5", "--contest", "abc300", "--data-dir", "data/atcoder"];
    assert_eq!(run(CrawlerSource::AtCoder, &args), Ok(strings(&args)));
    let args = ["--contest", "1900", "--include-gym"];
    assert_eq!(run(CrawlerSource::Codeforces, &args), Ok(strings(&args)));
    let args = ["--batch-size", "+20", "--training-list", "x"];
    assert_eq!(run(CrawlerSource::Luogu, &args), Ok(strings(&args)));
    assert_eq!(run(CrawlerSource::Diag, &["--test", "ping"]), Ok(strings(&["--test", "ping"])));
}

#[test]
fn value_that_looks_like_a_flag_is_taken_as_value() {
    let args = ["--contest", "--resume"];
    assert_eq!(run(CrawlerSource::AtCoder, &args), Ok(strings(&args)));
}

#[test]
fn rejects_impossible_date() {
    assert_eq!(
        run(CrawlerSource::LeetCode, &["--date", "2024-13-40"]),
        Err("--date: invalid date '2024-13-40', expected YYYY-MM-DD".to_string())
    );
    assert_eq!(fault(CrawlerSource::LeetCode, &["--date", "2024-02-30"]).fault, ArgFault::InvalidDate);
    assert_eq!(fault(CrawlerSource::LeetCode, &["--date", "yesterday"]).fault, ArgFault::InvalidDate);
    assert!(run(CrawlerSource::LeetCode, &["--date", "2024-02-29"]).is_ok());
}

#[test]
fn rejects_year_before_2000() {
    assert_eq!(
        run(CrawlerSource::LeetCode, &["--monthly", "1999", "1"]),
        Err("--monthly: year must be between 2000 and 2100".to_string())
    );
    assert_eq!(fault(CrawlerSource::LeetCode, &["--monthly", "2101", "1"]).fault, ArgFault::YearOutOfRange);
    assert!(run(CrawlerSource::LeetCode, &["--monthly", "2000", "1"]).is_ok());
    assert!(run(CrawlerSource::LeetCode, &["--monthly", "2100", "12"]).is_ok());
}

#[test]
fn rejects_month_thirteen() {
    assert_eq!(
        run(CrawlerSource::LeetCode, &["--monthly", "2024", "13"]),
        Err("--monthly: month must be between 1 and 12".to_string())
    );
    assert_eq!(fault(CrawlerSource::LeetCode, &["--monthly", "2024", "0"]).fault, ArgFault::MonthOutOfRange);
}

#[test]
fn rejects_year_and_month_that_are_no_numbers() {
    assert_eq!(
        run(CrawlerSource::LeetCode, &["--monthly", "70000", "1"]),
        Err("--monthly: invalid year '70000'".to_string())
    );
    assert_eq!(
        run(CrawlerSource::LeetCode, &["--monthly", "2024", "256"]),
        Err("--monthly: invalid month '256'".to_string())
    );
    assert_eq!(
        run(CrawlerSource::LeetCode, &["--monthly", "x", "y"]),
        Err("--monthly: invalid year 'x'".to_string())
    );
    assert_eq!(
        run(CrawlerSource::LeetCode, &["--monthly", "1999", "y"]),
        Err("--monthly: invalid month 'y'".to_string())
    );
}

#[test]
fn rejects_absolute_data_dir() {
    assert_eq!(
        run(CrawlerSource::AtCoder, &["--data-dir", "/etc"]),
        Err("--data-dir: must be a relative path".to_string())
    );
    assert_eq!(
        run(CrawlerSource::Spoj, &["--db-path", "/var/db"]),
        Err("--db-path: must be a relative path".to_string())
    );
}

#[test]
fn rejects_parent_traversal() {
    assert_eq!(
        run(CrawlerSource::AtCoder, &["--data-dir", "../x"]),
        Err("--data-dir: must not contain '..'".to_string())
    );
    assert_eq!(fault(CrawlerSource::Luogu, &["--db-path", "a/..b"]).fault, ArgFault::ParentTraversal);
    assert!(run(CrawlerSource::Luogu, &["--db-path", "a/.b/c."]).is_ok());
}

#[test]
fn other_text_values_may_hold_anything() {
    assert!(run(CrawlerSource::AtCoder, &["--contest", "/../x"]).is_ok());
    assert_eq!(
        run(CrawlerSource::AtCoder, &["--contest", ""]),
        Err("--contest: value must not be empty".to_string())
    );
    assert_eq!(fault(CrawlerSource::AtCoder, &["--data-dir", ""]).fault, ArgFault::EmptyValue);
}

#[test]
fn rejects_token_without_flag() {
    assert_eq!(
        run(CrawlerSource::LeetCode, &["daily"]),
        Err("unexpected value without flag: daily".to_string())
    );
    assert_eq!(
        run(CrawlerSource::LeetCode, &["--daily", "-x"]),
        Err("unexpected value without flag: -x".to_string())
    );
    assert_eq!(fault(CrawlerSource::LeetCode, &["--daily", ""]), ArgError { fault: ArgFault::UnexpectedValue, at: 1 });
}

#[test]
fn rejects_unknown_flag() {
    assert_eq!(
        run(CrawlerSource::LeetCode, &["--sync"]),
        Err("unknown argument: --sync".to_string())
    );
    assert_eq!(run(CrawlerSource::Diag, &["--daily"]), Err("unknown argument: --daily".to_string()));
    assert_eq!(run(CrawlerSource::LeetCode, &["--"]), Err("unknown argument: --".to_string()));
}

#[test]
fn rejects_duplicate_flag() {
    assert_eq!(
        run(CrawlerSource::LeetCode, &["--daily", "--full", "--daily"]),
        Err("duplicate argument: --daily".to_string())
    );
    assert_eq!(
        fault(CrawlerSource::LeetCode, &["--date", "2024-01-01", "--date", "2024-01-02"]),
        ArgError { fault: ArgFault::DuplicateArgument, at: 2 }
    );
}

#[test]
fn rejects_missing_values() {
    assert_eq!(
        run(CrawlerSource::LeetCode, &["--date"]),
        Err("--date requires 1 value(s)".to_string())
    );
    assert_eq!(
        run(CrawlerSource::LeetCode, &["--daily", "--monthly", "2024"]),
        Err("--monthly requires 2 value(s)".to_string())
    );
    assert_eq!(
        fault(CrawlerSource::LeetCode, &["--monthly"]),
        ArgError { fault: ArgFault::MissingValues { arity: 2 }, at: 0 }
    );
}

#[test]
fn rejects_bad_integer() {
    assert_eq!(
        run(CrawlerSource::Codeforces, &["--contest", "12a"]),
        Err("--contest: invalid integer '12a'".to_string())
    );
    for bad in ["", "+", "-1", " 1", "1 ", "1_000", "18446744073709551616", "0x10", "1.0"] {
        assert_eq!(fault(CrawlerSource::Codeforces, &["--contest", bad]).fault, ArgFault::InvalidInteger);
    }
    for good in ["0", "+7", "007", "18446744073709551615", "000000000000000000000000000001"] {
        assert!(run(CrawlerSource::Codeforces, &["--contest", good]).is_ok());
    }
}

#[test]
fn rejects_float_that_is_not_finite_and_positive() {
    assert_eq!(
        run(CrawlerSource::AtCoder, &["--rate-limit", "fast"]),
        Err("--rate-limit: invalid positive float 'fast'".to_string())
    );
    for bad in ["0", "0.0", "-0.0", "-1.5", "inf", "-inf", "NaN", "1e999", "1e-999", ""] {
        assert_eq!(fault(CrawlerSource::AtCoder, &["--rate-limit", bad]).fault, ArgFault::InvalidFloat);
    }
    for good in ["1", "0.5", "1e-300", "5e-324", "1.7976931348623157e308", "+2.5", ".5"] {
        assert!(run(CrawlerSource::AtCoder, &["--rate-limit", good]).is_ok());
    }
}

#[test]
fn float_without_reading_is_rejected() {
    let raw = strings(&["--rate-limit", "0.5"]);
    let none: Vec<Option<u64>> = Vec::new();
    assert_eq!(
        validate_args(&CrawlerSource::AtCoder, &raw, &none),
        Err("--rate-limit: invalid positive float '0.5'".to_string())
    );
    let partial = vec![None];
    assert!(validate_args(&CrawlerSource::AtCoder, &raw, &partial).is_err());
}

#[test]
fn rejects_bad_domain() {
    assert_eq!(
        run(CrawlerSource::LeetCode, &["--domain", "org"]),
        Err("--domain: invalid domain 'org', expected 'com' or 'cn'".to_string())
    );
    assert!(run(CrawlerSource::LeetCode, &["--domain", "com"]).is_ok());
    assert!(run(CrawlerSource::LeetCode, &["--domain", "cn"]).is_ok());
    assert_eq!(fault(CrawlerSource::LeetCode, &["--domain", "CN"]).fault, ArgFault::InvalidDomain);
}

#[test]
fn first_fault_wins() {
    assert_eq!(
        fault(CrawlerSource::LeetCode, &["--date", "nope", "--bogus"]),
        ArgError { fault: ArgFault::InvalidDate, at: 0 }
    );
    assert_eq!(
        fault(CrawlerSource::LeetCode, &["--daily", "--bogus", "--date", "nope"]),
        ArgError { fault: ArgFault::UnknownArgument, at: 1 }
    );
}

#[test]
fn empty_table_knows_no_flag() {
    let specs: Vec<ArgSpec> = Vec::new();
    let raw = strings(&["--x"]);
    assert_eq!(
        check_args(&specs, &raw, &vec![None]),
        Err(ArgError { fault: ArgFault::UnknownArgument, at: 0 })
    );
    assert_eq!(check_args(&specs, &Vec::new(), &Vec::new()), Ok(()));
}

#[test]
fn unsigned_numbers_are_read_as_the_integer_types_read_them() {
    assert_eq!(parse_unsigned("0", 255), Some(0));
    assert_eq!(parse_unsigned("255", 255), Some(255));
    assert_eq!(parse_unsigned("256", 255), None);
    assert_eq!(parse_unsigned("+12", 255), Some(12));
    assert_eq!(parse_unsigned("0012", 255), Some(12));
    assert_eq!(parse_unsigned("", 255), None);
    assert_eq!(parse_unsigned("+", 255), None);
    assert_eq!(parse_unsigned("++1", 255), None);
    assert_eq!(parse_unsigned("-1", 255), None);
    assert_eq!(parse_unsigned("\u{0661}", 255), None);
    assert_eq!(parse_unsigned("18446744073709551615", u64::MAX), Some(u64::MAX));
    assert_eq!(parse_unsigned("18446744073709551616", u64::MAX), None);
    for text in ["7", "+7", "65535", "65536", "99999999999999999999999", "1a", "٣"] {
        assert_eq!(parse_unsigned(text, 65535), text.parse::<u16>().ok().map(u64::from));
        assert_eq!(parse_unsigned(text, 255), text.parse::<u8>().ok().map(u64::from));
        assert_eq!(parse_unsigned(text, u64::MAX), text.parse::<u64>().ok());
    }
}

#[test]
fn sources_are_read_by_name() {
    assert_eq!(CrawlerSource::parse("leetcode"), Ok(CrawlerSource::LeetCode));
    assert_eq!(CrawlerSource::parse("atcoder"), Ok(CrawlerSource::AtCoder));
    assert_eq!(CrawlerSource::parse("codeforces"), Ok(CrawlerSource::Codeforces));
    assert_eq!(CrawlerSource::parse("luogu"), Ok(CrawlerSource::Luogu));
    assert_eq!(CrawlerSource::parse("spoj"), Ok(CrawlerSource::Spoj));
    assert_eq!(CrawlerSource::parse("diag"), Ok(CrawlerSource::Diag));
    assert_eq!(CrawlerSource::parse("uva"), Err("invalid source: uva".to_string()));
    assert_eq!(CrawlerSource::parse("LeetCode"), Err("invalid source: LeetCode".to_string()));
}

#[test]
fn sources_have_their_scripts() {
    assert_eq!(CrawlerSource::LeetCode.script_name(), "leetcode.py");
    assert_eq!(CrawlerSource::AtCoder.script_name(), "atcoder.py");
    assert_eq!(CrawlerSource::Codeforces.script_name(), "codeforces.py");
    assert_eq!(CrawlerSource::Luogu.script_name(), "luogu.py");
    assert_eq!(CrawlerSource::Spoj.script_name(), "luogu.py");
    assert_eq!(CrawlerSource::Diag.script_name(), "diag.py");
}

#[test]
fn tables_hold_the_declared_arguments() {
    let leetcode = CrawlerSource::LeetCode.arg_specs();
    assert_eq!(leetcode.len(), 9);
    assert_eq!(leetcode[0].flag, "--init");
    assert_eq!(leetcode[0].arity, 0);
    assert_eq!(leetcode[0].value_type, ValueType::NoValue);
    assert_eq!(leetcode[4].flag, "--monthly");
    assert_eq!(leetcode[4].arity, 2);
    assert_eq!(leetcode[4].value_type, ValueType::YearMonth);
    assert_eq!(CrawlerSource::AtCoder.arg_specs().len(), 12);
    assert_eq!(CrawlerSource::Codeforces.arg_specs().len(), 13);
    assert_eq!(CrawlerSource::Luogu.arg_specs().len(), 11);
    assert_eq!(CrawlerSource::Spoj.arg_specs().len(), 9);
    let diag = CrawlerSource::Diag.arg_specs();
    assert_eq!(diag.len(), 1);
    assert_eq!(diag[0].flag, "--test");
    assert_eq!(diag[0].value_type, ValueType::Str);
    assert!(diag[0].ui_exposed);
    let hidden: Vec<&str> = CrawlerSource::Spoj
        .arg_specs()
        .iter()
        .filter(|s| !s.ui_exposed)
        .map(|s| s.flag)
        .collect();
    assert_eq!(hidden, vec!["--source", "--data-dir", "--db-path"]);
}

#[test]
fn error_message_can_be_built_from_the_fault() {
    let raw = strings(&["--monthly", "2024", "13"]);
    let err = ArgError { fault: ArgFault::MonthOutOfRange, at: 0 };
    assert_eq!(err.message(&raw), "--monthly: month must be between 1 and 12");
    let err = ArgError { fault: ArgFault::InvalidMonth, at: 0 };
    assert_eq!(err.message(&raw), "--monthly: invalid month '13'");
    let err = ArgError { fault: ArgFault::MissingValues { arity: 200 }, at: 7 };
    assert_eq!(err.message(&raw), " requires 200 value(s)");
}
