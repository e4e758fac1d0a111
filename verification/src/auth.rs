//! Who may call: bearer tokens for the public interface, a secret or a session for
//! the administration.

use vstd::prelude::*;
use vstd::string::*;
use crate::text::{
    find_char,
    from_chars_range,
    index_of,
    split_trimmed,
    str_eq,
    texts,
    to_chars,
    trimmed,
    trimmed_pieces,
};

verus! {

/// How long a session of the administration lasts, in seconds.
pub const SESSION_SECS: i64 = 28_800;

/// The number of random bytes in a token.
pub const TOKEN_BYTES: usize = 32;

/// Whether the text begins with `Bearer` and a blank.
pub open spec fn is_bearer(h: Seq<char>) -> bool {
    h.len() >= 7 && h[0] == 'B' && h[1] == 'e' && h[2] == 'a' && h[3] == 'r' && h[4] == 'e'
        && h[5] == 'r' && h[6] == ' '
}

/// The token that an `authorization` header carries: what follows `Bearer`, trimmed,
/// if anything is left.
pub open spec fn bearer_token_of(header: Option<Seq<char>>) -> Option<Seq<char>> {
    match header {
        Some(h) => if is_bearer(h) && trimmed(h.skip(7)).len() > 0 {
            Some(trimmed(h.skip(7)))
        } else {
            None
        },
        None => None,
    }
}

/// Reads the token of an `authorization` header.
pub fn bearer_token(header: Option<&str>) -> (r: Option<String>)
    ensures
        crate::text::opt_text(r) == bearer_token_of(crate::domain::opt_str(header)),
{
    match header {
        Some(h) => {
            let v = to_chars(h);
            if v.len() >= 7 && v[0] == 'B' && v[1] == 'e' && v[2] == 'a' && v[3] == 'r' && v[4]
                == 'e' && v[5] == 'r' && v[6] == ' ' {
                let rest = from_chars_range(&v, 7, v.len());
                let token = rest.as_str().trim();
                if token.is_empty() {
                    None
                } else {
                    Some(token.to_owned())
                }
            } else {
                None
            }
        },
        None => None,
    }
}

/// The value of a cookie pair if the pair is `name=value` for the given name.
pub open spec fn pair_value(pair: Seq<char>, name: Seq<char>) -> Option<Seq<char>> {
    let eq = index_of(pair, '=');
    if eq < pair.len() && pair.take(eq) == name {
        Some(pair.skip(eq + 1))
    } else {
        None
    }
}

/// The value of the first pair at or after `from` that carries the name.
pub open spec fn first_value(pairs: Seq<Seq<char>>, name: Seq<char>, from: int) -> Option<
    Seq<char>,
>
    decreases pairs.len() - from,
{
    if from < 0 || from >= pairs.len() {
        None
    } else if pair_value(pairs[from], name) is Some {
        pair_value(pairs[from], name)
    } else {
        first_value(pairs, name, from + 1)
    }
}

/// The value of a cookie in one `cookie` header: the header is cut at its
/// semicolons, the pieces are trimmed, and the first pair with the name counts.
pub open spec fn cookie_in(header: Seq<char>, name: Seq<char>) -> Option<Seq<char>> {
    first_value(trimmed_pieces(header, ';'), name, 0)
}

/// The value of a cookie in the `cookie` headers of a request, from `from` on: the
/// first header that carries the cookie counts.
pub open spec fn cookie_from(headers: Seq<Seq<char>>, name: Seq<char>, from: int) -> Option<
    Seq<char>,
>
    decreases headers.len() - from,
{
    if from < 0 || from >= headers.len() {
        None
    } else if cookie_in(headers[from], name) is Some {
        cookie_in(headers[from], name)
    } else {
        cookie_from(headers, name, from + 1)
    }
}

fn value_of_pair(pair: &str, name: &str) -> (r: Option<String>)
    ensures
        crate::text::opt_text(r) == pair_value(pair@, name@),
{
    let v = to_chars(pair);
    let eq = find_char(&v, '=');
    if eq < v.len() {
        let key = from_chars_range(&v, 0, eq);
        if str_eq(key.as_str(), name) {
            let value = from_chars_range(&v, eq + 1, v.len());
            return Some(value);
        }
    }
    None
}

fn cookie_in_header(header: &str, name: &str) -> (r: Option<String>)
    ensures
        crate::text::opt_text(r) == cookie_in(header@, name@),
{
    let pairs = split_trimmed(header, ';');
    let mut k: usize = 0;
    while k < pairs.len()
        invariant
            k <= pairs.len(),
            texts(pairs@) == trimmed_pieces(header@, ';'),
            cookie_in(header@, name@) == first_value(texts(pairs@), name@, k as int),
        decreases pairs.len() - k,
    {
        if let Some(value) = value_of_pair(pairs[k].as_str(), name) {
            return Some(value);
        }
        k += 1;
    }
    None
}

/// Reads a cookie from the `cookie` headers of a request, given in their order.
pub fn extract_cookie(headers: &Vec<String>, name: &str) -> (r: Option<String>)
    ensures
        crate::text::opt_text(r) == cookie_from(texts(headers@), name@, 0),
{
    let mut k: usize = 0;
    while k < headers.len()
        invariant
            k <= headers.len(),
            cookie_from(texts(headers@), name@, 0) == cookie_from(
                texts(headers@),
                name@,
                k as int,
            ),
        decreases headers.len() - k,
    {
        if let Some(value) = cookie_in_header(headers[k].as_str(), name) {
            return Some(value);
        }
        k += 1;
    }
    None
}

/// Whether a secret that a caller gives is the administrator's: a secret has to be
/// configured, and the two have to be the same.
pub fn secret_accepted(configured: &str, given: &str) -> (r: bool)
    ensures
        r == (configured@.len() > 0 && given@ == configured@),
{
    !configured.is_empty() && str_eq(given, configured)
}

/// Whether a session that ends at `expires_at` is still good at `now`.
pub fn session_alive(expires_at: i64, now: i64) -> (r: bool)
    ensures
        r == (expires_at > now),
{
    expires_at > now
}

/// When a session that begins at `now` ends.
pub fn session_expiry(now: i64) -> (r: i64)
    requires
        now + SESSION_SECS <= i64::MAX,
    ensures
        r == now + SESSION_SECS,
{
    now + SESSION_SECS
}

/// Whether `/api/` stands somewhere in the path.
pub open spec fn is_api_path(path: Seq<char>) -> bool {
    exists|i: int|
        0 <= i && i + 4 < path.len() && #[trigger] path[i] == '/' && path[i + 1] == 'a' && path[i
            + 2] == 'p' && path[i + 3] == 'i' && path[i + 4] == '/'
}

/// Whether a refused caller is told so as a client of the interface, and not sent
/// to the login page.
pub fn answers_as_api(path: &str) -> (r: bool)
    ensures
        r == is_api_path(path@),
{
    let v = to_chars(path);
    if v.len() < 5 {
        return false;
    }
    let mut i: usize = 0;
    while i < v.len() - 4
        invariant
            v@ == path@,
            v.len() >= 5,
            i <= v.len() - 4,
            forall|k: int|
                0 <= k < i ==> !(#[trigger] v@[k] == '/' && v@[k + 1] == 'a' && v@[k + 2] == 'p'
                    && v@[k + 3] == 'i' && v@[k + 4] == '/'),
        decreases v.len() - i,
    {
        if v[i] == '/' && v[i + 1] == 'a' && v[i + 2] == 'p' && v[i + 3] == 'i' && v[i + 4]
            == '/' {
            return true;
        }
        i += 1;
    }
    false
}

/// What the guard of the public interface does with a request.
#[derive(Debug, PartialEq, Eq)]
pub enum BearerDecision {
    /// Token authentication is off: the request passes.
    Pass,
    /// The request carries a token, which has to be looked up among the active ones.
    Validate { token: String },
    /// The request carries no token: it is refused.
    Reject,
}

/// Decides on a request to the public interface from its `authorization` header.
pub fn check_bearer(enabled: bool, header: Option<&str>) -> (r: BearerDecision)
    ensures
        match r {
            BearerDecision::Pass => !enabled,
            BearerDecision::Validate { token } => enabled && bearer_token_of(
                crate::domain::opt_str(header),
            ) == Some(token@),
            BearerDecision::Reject => enabled && bearer_token_of(crate::domain::opt_str(header))
                is None,
        },
{
    if !enabled {
        return BearerDecision::Pass;
    }
    match bearer_token(header) {
        Some(token) => BearerDecision::Validate { token },
        None => BearerDecision::Reject,
    }
}

/// What the guard of the administration does with a request.
#[derive(Debug, Clone, Copy, PartialEq, Eq, Structural)]
pub enum AdminAccess {
    /// The request is let through.
    Granted,
    /// The session of the request has run out: it is to be forgotten, and the request
    /// is refused.
    Expired,
    /// The request is refused.
    Denied,
}

/// The verdict on a request to the administration: the secret in its header lets it
/// through, else a session that is still good; a session that has run out is
/// forgotten. `session_expiry` is the end of the session that the cookie names, if
/// the cookie names a known session.
pub open spec fn admin_access_of(
    configured: Seq<char>,
    header_secret: Option<Seq<char>>,
    session_expiry: Option<i64>,
    now: i64,
) -> AdminAccess {
    if header_secret is Some && configured.len() > 0 && header_secret->0 == configured {
        AdminAccess::Granted
    } else {
        match session_expiry {
            Some(end) => if end > now {
                AdminAccess::Granted
            } else {
                AdminAccess::Expired
            },
            None => AdminAccess::Denied,
        }
    }
}

/// Decides on a request to the administration.
pub fn check_admin(
    configured: &str,
    header_secret: Option<&str>,
    session_expiry: Option<i64>,
    now: i64,
) -> (r: AdminAccess)
    ensures
        r == admin_access_of(
            configured@,
            crate::domain::opt_str(header_secret),
            session_expiry,
            now,
        ),
{
    if let Some(given) = header_secret {
        if secret_accepted(configured, given) {
            return AdminAccess::Granted;
        }
    }
    match session_expiry {
        Some(end) => if session_alive(end, now) {
            AdminAccess::Granted
        } else {
            AdminAccess::Expired
        },
        None => AdminAccess::Denied,
    }
}

/// The digit of a value below sixteen, in lower case.
pub open spec fn hex_digit(n: int) -> char {
    if n < 10 {
        ((n + 48) as u8) as char
    } else {
        ((n + 87) as u8) as char
    }
}

/// The bytes in hexadecimal, two digits each, high digit first.
pub open spec fn hex_of(bytes: Seq<u8>) -> Seq<char> {
    Seq::new(
        2 * bytes.len(),
        |i: int|
            if i % 2 == 0 {
                hex_digit(bytes[i / 2] as int / 16)
            } else {
                hex_digit(bytes[i / 2] as int % 16)
            },
    )
}

fn hex_digit_of(n: u8) -> (r: char)
    requires
        n < 16,
    ensures
        r == hex_digit(n as int),
{
    if n < 10 {
        (n + 48) as char
    } else {
        (n + 87) as char
    }
}

/// Writes bytes in hexadecimal.
pub fn hex_string(bytes: &Vec<u8>) -> (r: String)
    ensures
        r@ == hex_of(bytes@),
{
    let mut out = String::new();
    let mut i: usize = 0;
    while i < bytes.len()
        invariant
            i <= bytes.len(),
            out@ == hex_of(bytes@).take(2 * i),
        decreases bytes.len() - i,
    {
        let b = bytes[i];
        out.push(hex_digit_of(b / 16));
        out.push(hex_digit_of(b % 16));
        i += 1;
    }
    out
}

/// Draws `n` random bytes from `rand::thread_rng`. Nothing is known of them but
/// their number.
#[verifier::external_body]
fn random_bytes(n: usize) -> (r: Vec<u8>)
    ensures
        r@.len() == n,
{
    let mut rng = rand::thread_rng();
    (0..n).map(|_| rand::Rng::gen(&mut rng)).collect()
}

/// A fresh token: `TOKEN_BYTES` random bytes in hexadecimal.
pub fn new_token() -> (r: String)
    ensures
        exists|bytes: Seq<u8>| bytes.len() == TOKEN_BYTES && r@ == hex_of(bytes),
        r@.len() == 2 * TOKEN_BYTES,
{
    let bytes = random_bytes(TOKEN_BYTES);
    hex_string(&bytes)
}

/// The name of the cookie that carries a session of the administration.
pub const SESSION_COOKIE: &'static str = "oj_admin_session";

/// The header that hands a session to the browser.
pub fn session_cookie(token: &str) -> (r: String)
    ensures
        r@ == "oj_admin_session="@ + token@
            + "; Path=/admin; HttpOnly; SameSite=Lax; Max-Age=28800"@,
{
    crate::text::join("oj_admin_session=", token).concat(
        "; Path=/admin; HttpOnly; SameSite=Lax; Max-Age=28800",
    )
}

/// The header that takes the session from the browser.
pub const CLEARED_COOKIE: &'static str =
    "oj_admin_session=; Path=/admin; HttpOnly; SameSite=Lax; Max-Age=0";

/// Whether token authentication is on, by the stored setting: it is on unless the
/// setting is there and is not `1`.
pub fn token_auth_enabled(setting: Option<&str>) -> (r: bool)
    ensures
        r == match setting {
            Some(v) => v@ == "1"@,
            None => true,
        },
{
    match setting {
        Some(v) => str_eq(v, "1"),
        None => true,
    }
}

/// The stored form of the setting that turns token authentication on or off.
pub fn token_auth_setting(enabled: bool) -> (r: &'static str)
    ensures
        r@ == if enabled {
            "1"@
        } else {
            "0"@
        },
{
    if enabled {
        "1"
    } else {
        "0"
    }
}

} // verus!
