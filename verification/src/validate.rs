//! The check of a raw argument list against the table of a helper.
//!
//! The list is read from left to right. Each flag has to be declared, may come once,
//! and takes as many of the following tokens as its declaration says; those tokens
//! are checked by the kind of value that the flag takes. The first fault ends the check.

use vstd::prelude::*;
use vstd::string::*;
use crate::args::{consistent, ArgSpec, ValueType};
use crate::date::{chrono_date, parse_date};
use crate::domain::DATE_FORMAT;
use crate::sources::CrawlerSource;
use crate::text::{all_digits, clone_texts, decimal, decimal_string, is_digit, join, str_eq, texts, to_chars};

verus! {

/// What is wrong with an argument list.
#[derive(Debug, Clone, Copy, PartialEq, Eq, Structural)]
pub enum ArgFault {
    /// A token stands where a flag is due and does not begin with two dashes.
    UnexpectedValue,
    /// The flag is not declared for the helper.
    UnknownArgument,
    /// The flag came before.
    DuplicateArgument,
    /// Fewer tokens follow the flag than it takes.
    MissingValues { arity: u8 },
    InvalidDate,
    InvalidInteger,
    InvalidFloat,
    EmptyValue,
    /// A path that begins at the root.
    AbsolutePath,
    /// A path that holds two dots in a row.
    ParentTraversal,
    InvalidDomain,
    InvalidYear,
    InvalidMonth,
    YearOutOfRange,
    MonthOutOfRange,
}

/// The first fault of an argument list, and the position of the flag at fault.
#[derive(Debug, Clone, Copy, PartialEq, Eq, Structural)]
pub struct ArgError {
    pub fault: ArgFault,
    pub at: usize,
}

pub open spec fn starts_with_dashes(s: Seq<char>) -> bool {
    s.len() >= 2 && s[0] == '-' && s[1] == '-'
}

/// The first declaration at or after `from` whose flag is the token.
pub open spec fn find_spec_from(specs: Seq<ArgSpec>, token: Seq<char>, from: int) -> Option<int>
    decreases specs.len() - from,
{
    if from < 0 || from >= specs.len() {
        None
    } else if specs[from].flag@ == token {
        Some(from)
    } else {
        find_spec_from(specs, token, from + 1)
    }
}

/// The first declaration whose flag is the token.
pub open spec fn find_spec(specs: Seq<ArgSpec>, token: Seq<char>) -> Option<int> {
    find_spec_from(specs, token, 0)
}

pub open spec fn digit_value(c: char) -> nat {
    (c as int - '0' as int) as nat
}

/// The number written by a sequence of decimal digits.
pub open spec fn digits_value(s: Seq<char>) -> nat
    decreases s.len(),
{
    if s.len() == 0 {
        0
    } else {
        digits_value(s.drop_last()) * 10 + digit_value(s.last())
    }
}

/// The text without a leading plus sign.
pub open spec fn unsigned_body(s: Seq<char>) -> Seq<char> {
    if s.len() > 0 && s[0] == '+' {
        s.skip(1)
    } else {
        s
    }
}

/// The number that a text writes, as the unsigned integer types read it: an optional
/// plus sign, then one decimal digit or more, and a value of at most `max`.
pub open spec fn unsigned_value(s: Seq<char>, max: nat) -> Option<nat> {
    let body = unsigned_body(s);
    if body.len() > 0 && all_digits(body) && digits_value(body) <= max {
        Some(digits_value(body))
    } else {
        None
    }
}

/// Whether the bit pattern of a binary64 number stands for a finite number above zero:
/// the sign is clear, the exponent is not the one of infinity and NaN, and some bit is set.
pub open spec fn positive_finite(bits: u64) -> bool {
    0 < bits < 0x7FF0_0000_0000_0000
}

/// The flags whose value is a path below the working directory.
pub open spec fn is_path_flag(flag: Seq<char>) -> bool {
    flag == "--data-dir"@ || flag == "--db-path"@
}

/// Whether two dots stand side by side somewhere in the text.
pub open spec fn has_double_dot(s: Seq<char>) -> bool {
    exists|i: int| 0 <= i < s.len() - 1 && s[i] == '.' && #[trigger] s[i + 1] == '.'
}

/// What the reading of a token as a binary64 number gave, for a position of the list;
/// nothing beyond the end of the readings.
pub open spec fn float_at(floats: Seq<Option<u64>>, i: int) -> Option<u64> {
    if 0 <= i < floats.len() {
        floats[i]
    } else {
        None
    }
}

/// The fault in the values of the flag at position `i`, if there is one.
pub open spec fn value_fault(
    spec: ArgSpec,
    args: Seq<Seq<char>>,
    floats: Seq<Option<u64>>,
    i: int,
) -> Option<ArgFault> {
    let v = args[i + 1];
    match spec.value_type {
        ValueType::NoValue => None,
        ValueType::Date => if chrono_date(v, DATE_FORMAT@) is None {
            Some(ArgFault::InvalidDate)
        } else {
            None
        },
        ValueType::Int => if unsigned_value(v, u64::MAX as nat) is None {
            Some(ArgFault::InvalidInteger)
        } else {
            None
        },
        ValueType::Float => if float_at(floats, i + 1) matches Some(bits) && positive_finite(
            bits,
        ) {
            None
        } else {
            Some(ArgFault::InvalidFloat)
        },
        ValueType::Str => if v.len() == 0 {
            Some(ArgFault::EmptyValue)
        } else if is_path_flag(spec.flag@) && v[0] == '/' {
            Some(ArgFault::AbsolutePath)
        } else if is_path_flag(spec.flag@) && has_double_dot(v) {
            Some(ArgFault::ParentTraversal)
        } else {
            None
        },
        ValueType::Domain => if v == "com"@ || v == "cn"@ {
            None
        } else {
            Some(ArgFault::InvalidDomain)
        },
        ValueType::YearMonth => {
            let year = unsigned_value(v, u16::MAX as nat);
            let month = unsigned_value(args[i + 2], u8::MAX as nat);
            if year is None {
                Some(ArgFault::InvalidYear)
            } else if month is None {
                Some(ArgFault::InvalidMonth)
            } else if !(2000 <= year->0 <= 2100) {
                Some(ArgFault::YearOutOfRange)
            } else if !(1 <= month->0 <= 12) {
                Some(ArgFault::MonthOutOfRange)
            } else {
                None
            }
        },
    }
}

/// The first fault found from position `i` on, when the declarations in `seen` have
/// been used by the flags before `i`.
pub open spec fn first_error(
    specs: Seq<ArgSpec>,
    args: Seq<Seq<char>>,
    floats: Seq<Option<u64>>,
    i: int,
    seen: Set<int>,
) -> Option<ArgError>
    decreases args.len() - i,
{
    if i < 0 || i >= args.len() {
        None
    } else if !starts_with_dashes(args[i]) {
        Some(ArgError { fault: ArgFault::UnexpectedValue, at: i as usize })
    } else {
        match find_spec(specs, args[i]) {
            None => Some(ArgError { fault: ArgFault::UnknownArgument, at: i as usize }),
            Some(k) => {
                let spec = specs[k];
                if seen.contains(k) {
                    Some(ArgError { fault: ArgFault::DuplicateArgument, at: i as usize })
                } else if i + spec.arity >= args.len() {
                    Some(
                        ArgError {
                            fault: ArgFault::MissingValues { arity: spec.arity },
                            at: i as usize,
                        },
                    )
                } else {
                    match value_fault(spec, args, floats, i) {
                        Some(fault) => Some(ArgError { fault, at: i as usize }),
                        None => first_error(
                            specs,
                            args,
                            floats,
                            i + 1 + spec.arity,
                            seen.insert(k),
                        ),
                    }
                }
            },
        }
    }
}

/// The verdict on a whole argument list.
pub open spec fn args_error(specs: Seq<ArgSpec>, args: Seq<Seq<char>>, floats: Seq<Option<u64>>) -> Option<
    ArgError,
> {
    first_error(specs, args, floats, 0, Set::empty())
}

/// The token at a position of the list, empty beyond its end.
pub open spec fn token_at(args: Seq<Seq<char>>, i: int) -> Seq<char> {
    if 0 <= i < args.len() {
        args[i]
    } else {
        Seq::empty()
    }
}

/// The reason given for a fault: it names the flag and, where a value is at fault, quotes it.
pub open spec fn fault_message(e: ArgError, args: Seq<Seq<char>>) -> Seq<char> {
    let token = token_at(args, e.at as int);
    let v1 = token_at(args, e.at + 1);
    let v2 = token_at(args, e.at + 2);
    match e.fault {
        ArgFault::UnexpectedValue => "unexpected value without flag: "@ + token,
        ArgFault::UnknownArgument => "unknown argument: "@ + token,
        ArgFault::DuplicateArgument => "duplicate argument: "@ + token,
        ArgFault::MissingValues { arity } => token + " requires "@ + decimal(arity as nat)
            + " value(s)"@,
        ArgFault::InvalidDate => token + ": invalid date '"@ + v1 + "', expected YYYY-MM-DD"@,
        ArgFault::InvalidInteger => token + ": invalid integer '"@ + v1 + "'"@,
        ArgFault::InvalidFloat => token + ": invalid positive float '"@ + v1 + "'"@,
        ArgFault::EmptyValue => token + ": value must not be empty"@,
        ArgFault::AbsolutePath => token + ": must be a relative path"@,
        ArgFault::ParentTraversal => token + ": must not contain '..'"@,
        ArgFault::InvalidDomain => token + ": invalid domain '"@ + v1
            + "', expected 'com' or 'cn'"@,
        ArgFault::InvalidYear => token + ": invalid year '"@ + v1 + "'"@,
        ArgFault::InvalidMonth => token + ": invalid month '"@ + v2 + "'"@,
        ArgFault::YearOutOfRange => token + ": year must be between 2000 and 2100"@,
        ArgFault::MonthOutOfRange => token + ": month must be between 1 and 12"@,
    }
}

proof fn lemma_digits_prefix(s: Seq<char>, k: int)
    requires
        0 <= k <= s.len(),
    ensures
        digits_value(s.take(k)) <= digits_value(s),
    decreases s.len(),
{
    if k == s.len() {
        assert(s.take(k) =~= s);
    } else {
        lemma_digits_prefix(s.drop_last(), k);
        assert(s.drop_last().take(k) =~= s.take(k));
    }
}

/// Reads an unsigned decimal number of at most `max`.
pub fn parse_unsigned(s: &str, max: u64) -> (r: Option<u64>)
    ensures
        match r {
            Some(v) => unsigned_value(s@, max as nat) == Some(v as nat),
            None => unsigned_value(s@, max as nat) is None,
        },
{
    let v = to_chars(s);
    let start: usize = if v.len() > 0 && v[0] == '+' {
        1
    } else {
        0
    };
    let ghost body = unsigned_body(s@);
    if start == v.len() {
        return None;
    }
    let mut acc: u64 = 0;
    let mut i: usize = start;
    while i < v.len()
        invariant
            start <= i <= v.len(),
            start < v.len(),
            v@ == s@,
            body == unsigned_body(s@),
            body == v@.skip(start as int),
            all_digits(body.take(i - start)),
            acc == digits_value(body.take(i - start)),
            acc <= max,
        decreases v.len() - i,
    {
        let c = v[i];
        assert(body[i - start] == c);
        if !(c >= '0' && c <= '9') {
            return None;
        }
        let d: u64 = (c as u32 - '0' as u32) as u64;
        let ghost next_prefix = body.take(i - start + 1);
        assert(next_prefix.drop_last() =~= body.take(i - start));
        assert(all_digits(next_prefix));
        let next: u128 = acc as u128 * 10 + d as u128;
        if next > max as u128 {
            proof {
                if all_digits(body) {
                    lemma_digits_prefix(body, i - start + 1);
                }
            }
            return None;
        }
        acc = next as u64;
        i += 1;
    }
    assert(body.take(i - start) =~= body);
    Some(acc)
}

fn begins_with_dashes(s: &str) -> (r: bool)
    ensures
        r == starts_with_dashes(s@),
{
    let v = to_chars(s);
    v.len() >= 2 && v[0] == '-' && v[1] == '-'
}

fn begins_with_slash(s: &str) -> (r: bool)
    ensures
        r == (s@.len() > 0 && s@[0] == '/'),
{
    let v = to_chars(s);
    v.len() > 0 && v[0] == '/'
}

fn holds_double_dot(s: &str) -> (r: bool)
    ensures
        r == has_double_dot(s@),
{
    let v = to_chars(s);
    if v.len() < 2 {
        return false;
    }
    let mut i: usize = 0;
    while i < v.len() - 1
        invariant
            v.len() >= 2,
            i <= v.len() - 1,
            v@ == s@,
            forall|j: int| 0 <= j < i ==> !(v@[j] == '.' && #[trigger] v@[j + 1] == '.'),
        decreases v.len() - i,
    {
        if v[i] == '.' && v[i + 1] == '.' {
            return true;
        }
        i += 1;
    }
    false
}

fn is_finite_above_zero(bits: u64) -> (r: bool)
    ensures
        r == positive_finite(bits),
{
    0 < bits && bits < 0x7FF0_0000_0000_0000
}

/// Finds the declaration of a flag.
pub fn lookup(specs: &Vec<ArgSpec>, token: &str) -> (r: Option<usize>)
    ensures
        match r {
            Some(k) => find_spec(specs@, token@) == Some(k as int) && k < specs.len(),
            None => find_spec(specs@, token@) is None,
        },
{
    let mut k: usize = 0;
    while k < specs.len()
        invariant
            k <= specs.len(),
            find_spec(specs@, token@) == find_spec_from(specs@, token@, k as int),
        decreases specs.len() - k,
    {
        if str_eq(specs[k].flag, token) {
            return Some(k);
        }
        k += 1;
    }
    None
}

/// Checks the values of the flag at position `i` by the kind that the flag takes.
fn check_values(spec: &ArgSpec, args: &Vec<String>, floats: &Vec<Option<u64>>, i: usize) -> (r:
    Option<ArgFault>)
    requires
        i + spec.value_type.values_read() < args.len(),
    ensures
        r == value_fault(*spec, texts(args@), floats@, i as int),
{
    match spec.value_type {
        ValueType::NoValue => None,
        ValueType::Date => {
            let v = args[i + 1].as_str();
            if parse_date(v, DATE_FORMAT).is_none() {
                Some(ArgFault::InvalidDate)
            } else {
                None
            }
        },
        ValueType::Int => {
            let v = args[i + 1].as_str();
            if parse_unsigned(v, u64::MAX).is_none() {
                Some(ArgFault::InvalidInteger)
            } else {
                None
            }
        },
        ValueType::Float => {
            let reading = if i + 1 < floats.len() {
                floats[i + 1]
            } else {
                None
            };
            match reading {
                Some(bits) => if is_finite_above_zero(bits) {
                    None
                } else {
                    Some(ArgFault::InvalidFloat)
                },
                None => Some(ArgFault::InvalidFloat),
            }
        },
        ValueType::Str => {
            let v = args[i + 1].as_str();
            if v.is_empty() {
                return Some(ArgFault::EmptyValue);
            }
            if str_eq(spec.flag, "--data-dir") || str_eq(spec.flag, "--db-path") {
                if begins_with_slash(v) {
                    return Some(ArgFault::AbsolutePath);
                }
                if holds_double_dot(v) {
                    return Some(ArgFault::ParentTraversal);
                }
            }
            None
        },
        ValueType::Domain => {
            let v = args[i + 1].as_str();
            if str_eq(v, "com") || str_eq(v, "cn") {
                None
            } else {
                Some(ArgFault::InvalidDomain)
            }
        },
        ValueType::YearMonth => {
            let year = parse_unsigned(args[i + 1].as_str(), 65535);
            let month = parse_unsigned(args[i + 2].as_str(), 255);
            match (year, month) {
                (None, _) => Some(ArgFault::InvalidYear),
                (Some(_), None) => Some(ArgFault::InvalidMonth),
                (Some(y), Some(m)) => if !(2000 <= y && y <= 2100) {
                    Some(ArgFault::YearOutOfRange)
                } else if !(1 <= m && m <= 12) {
                    Some(ArgFault::MonthOutOfRange)
                } else {
                    None
                },
            }
        },
    }
}

/// Checks an argument list against a table. `floats` holds, for each token, the bit
/// pattern of the binary64 number that the token writes, or nothing where it writes none.
pub fn check_args(specs: &Vec<ArgSpec>, args: &Vec<String>, floats: &Vec<Option<u64>>) -> (r:
    Result<(), ArgError>)
    requires
        consistent(specs@),
    ensures
        match r {
            Ok(()) => args_error(specs@, texts(args@), floats@) is None,
            Err(e) => args_error(specs@, texts(args@), floats@) == Some(e) && e.at < args.len(),
        },
{
    let mut seen: Vec<bool> = Vec::new();
    let mut k: usize = 0;
    while k < specs.len()
        invariant
            k <= specs.len(),
            seen.len() == k,
            forall|j: int| 0 <= j < k ==> !seen@[j],
        decreases specs.len() - k,
    {
        seen.push(false);
        k += 1;
    }
    let ghost used: Set<int> = Set::empty();
    let ghost all = texts(args@);
    let mut i: usize = 0;
    while i < args.len()
        invariant
            i <= args.len(),
            all == texts(args@),
            consistent(specs@),
            seen.len() == specs.len(),
            forall|j: int| 0 <= j < seen.len() ==> seen@[j] == used.contains(j),
            args_error(specs@, all, floats@) == first_error(specs@, all, floats@, i as int, used),
        decreases args.len() - i,
    {
        let token = args[i].as_str();
        if !begins_with_dashes(token) {
            return Err(ArgError { fault: ArgFault::UnexpectedValue, at: i });
        }
        let found = lookup(specs, token);
        let k = match found {
            None => {
                return Err(ArgError { fault: ArgFault::UnknownArgument, at: i });
            },
            Some(k) => k,
        };
        if seen[k] {
            return Err(ArgError { fault: ArgFault::DuplicateArgument, at: i });
        }
        let spec = specs[k];
        let arity = spec.arity as usize;
        if arity >= args.len() - i {
            return Err(ArgError { fault: ArgFault::MissingValues { arity: spec.arity }, at: i });
        }
        if let Some(fault) = check_values(&spec, args, floats, i) {
            return Err(ArgError { fault, at: i });
        }
        seen.set(k, true);
        proof {
            used = used.insert(k as int);
        }
        i = i + 1 + arity;
    }
    Ok(())
}

fn token_or_empty(args: &Vec<String>, base: usize, offset: usize) -> (r: &str)
    ensures
        r@ == token_at(texts(args@), base + offset),
{
    if base < args.len() && offset < args.len() - base {
        args[base + offset].as_str()
    } else {
        proof {
            reveal_strlit("");
        }
        ""
    }
}

impl ArgError {
    /// The reason in words, for the person who sent the arguments.
    pub fn message(&self, args: &Vec<String>) -> (r: String)
        ensures
            r@ == fault_message(*self, texts(args@)),
    {
        let token = token_or_empty(args, self.at, 0);
        let v1 = token_or_empty(args, self.at, 1);
        let v2 = token_or_empty(args, self.at, 2);
        match self.fault {
            ArgFault::UnexpectedValue => join("unexpected value without flag: ", token),
            ArgFault::UnknownArgument => join("unknown argument: ", token),
            ArgFault::DuplicateArgument => join("duplicate argument: ", token),
            ArgFault::MissingValues { arity } => {
                let n = decimal_string(arity as u64);
                join(token, " requires ").concat(n.as_str()).concat(" value(s)")
            },
            ArgFault::InvalidDate => join(token, ": invalid date '").concat(v1).concat(
                "', expected YYYY-MM-DD",
            ),
            ArgFault::InvalidInteger => join(token, ": invalid integer '").concat(v1).concat("'"),
            ArgFault::InvalidFloat => join(token, ": invalid positive float '").concat(v1).concat(
                "'",
            ),
            ArgFault::EmptyValue => join(token, ": value must not be empty"),
            ArgFault::AbsolutePath => join(token, ": must be a relative path"),
            ArgFault::ParentTraversal => join(token, ": must not contain '..'"),
            ArgFault::InvalidDomain => join(token, ": invalid domain '").concat(v1).concat(
                "', expected 'com' or 'cn'",
            ),
            ArgFault::InvalidYear => join(token, ": invalid year '").concat(v1).concat("'"),
            ArgFault::InvalidMonth => join(token, ": invalid month '").concat(v2).concat("'"),
            ArgFault::YearOutOfRange => join(token, ": year must be between 2000 and 2100"),
            ArgFault::MonthOutOfRange => join(token, ": month must be between 1 and 12"),
        }
    }
}

/// The verdict on the raw arguments of a helper: the arguments as they came, or the
/// reason for which they are refused.
pub open spec fn validated(source: CrawlerSource, args: Seq<Seq<char>>, floats: Seq<Option<u64>>) -> Result<
    Seq<Seq<char>>,
    Seq<char>,
> {
    match args_error(source.table(), args, floats) {
        None => Ok(args),
        Some(e) => Err(fault_message(e, args)),
    }
}

/// Checks the raw arguments of a helper and hands them back unchanged, or says why
/// they are refused. `float_bits` holds, for each argument, the bit pattern of the
/// binary64 number that the argument writes, or nothing where it writes none.
pub fn validate_args(source: &CrawlerSource, raw_args: &Vec<String>, float_bits: &Vec<Option<u64>>) -> (r:
    Result<Vec<String>, String>)
    ensures
        match r {
            Ok(args) => validated(*source, texts(raw_args@), float_bits@) == Ok::<
                Seq<Seq<char>>,
                Seq<char>,
            >(texts(args@)),
            Err(reason) => validated(*source, texts(raw_args@), float_bits@) == Err::<
                Seq<Seq<char>>,
                Seq<char>,
            >(reason@),
        },
{
    let specs = source.arg_specs();
    match check_args(&specs, raw_args, float_bits) {
        Ok(()) => Ok(clone_texts(raw_args)),
        Err(e) => Err(e.message(raw_args)),
    }
}

} // verus!
