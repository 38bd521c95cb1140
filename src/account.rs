//! Accounts and access control: which routes are public, how a bearer
//! credential is read, and when a token has expired.
use vstd::prelude::*;

use crate::media_type::same_text;

verus! {

#[derive(Clone, Debug, PartialEq, Eq)]
pub struct LoginUser {
    pub username: String,
    pub password: String,
}

#[derive(Clone, Debug, PartialEq, Eq)]
pub struct RegisterUser {
    pub username: String,
    pub password: String,
    pub email: String,
    pub nickname: String,
}

/// A partial update of a profile: absent fields are left alone.
#[derive(Clone, Debug, PartialEq, Eq)]
pub struct UpdateUser {
    pub nickname: Option<String>,
    pub gender: Option<i8>,
    pub avatar: Option<String>,
}

#[derive(Clone, Debug, PartialEq, Eq)]
pub struct LoginResponse {
    pub token: String,
}

/// What a token asserts: whose it is, and until when (milliseconds since
/// the epoch) it is valid.
#[derive(Clone, Debug, PartialEq, Eq)]
pub struct Claims {
    pub username: String,
    pub email: Option<String>,
    pub exp: u64,
}

/// The editable part of a user's profile.
#[derive(Clone, Debug, PartialEq, Eq)]
pub struct Profile {
    pub nickname: String,
    pub avatar: Option<String>,
    pub gender: i8,
}

#[derive(Clone, Copy, Debug, PartialEq, Eq, Structural)]
pub enum HttpMethod {
    Get,
    Post,
    Put,
    Patch,
    Delete,
    Other,
}

/// How long a token stays valid: thirty days, in milliseconds.
pub const TOKEN_LIFETIME_MILLIS: i64 = 2592000000;

/// Whether the password given at login is the stored one.
pub fn password_matches(stored: &str, given: &LoginUser) -> (r: bool)
    ensures
        r == (stored@ == given.password@),
{
    same_text(stored, given.password.as_str())
}

/// The claims of a token issued at `now_millis`; `None` where the expiry
/// does not fit.
pub fn login_claims(username: String, email: String, now_millis: i64) -> (r: Option<Claims>)
    ensures
        (0 <= now_millis && now_millis + TOKEN_LIFETIME_MILLIS <= i64::MAX) <==> r.is_some(),
        r.is_some() ==> r.unwrap() == (Claims {
            username,
            email: Some(email),
            exp: (now_millis + TOKEN_LIFETIME_MILLIS) as u64,
        }),
{
    if now_millis < 0 || now_millis > i64::MAX - TOKEN_LIFETIME_MILLIS {
        return None;
    }
    Some(Claims { username, email: Some(email), exp: (now_millis + TOKEN_LIFETIME_MILLIS) as u64 })
}

/// Whether a token has expired at `now_millis`.
pub fn is_expired(claims: &Claims, now_millis: i64) -> (r: bool)
    ensures
        r == ((claims.exp as int) < now_millis as int),
{
    now_millis >= 0 && claims.exp < now_millis as u64
}

/// The credential of an `Authorization` header of the form `Bearer <token>`.
pub open spec fn bearer_of(header: Seq<char>) -> Option<Seq<char>> {
    if header.len() >= 7 && header.subrange(0, 7) == "Bearer "@ {
        Some(header.subrange(7, header.len() as int))
    } else {
        None
    }
}

pub fn bearer_token(header: &str) -> (r: Option<String>)
    ensures
        match r {
            Some(t) => bearer_of(header@) == Some(t@),
            None => bearer_of(header@).is_none(),
        },
{
    let n = header.unicode_len();
    if n < 7 {
        return None;
    }
    if same_text(header.substring_char(0, 7), "Bearer ") {
        Some(header.substring_char(7, n).to_owned())
    } else {
        None
    }
}

/// Applies the fields that an update carries.
pub fn apply_update(profile: &mut Profile, update: &UpdateUser)
    ensures
        final(profile).nickname == match update.nickname {
            Some(n) => n,
            None => old(profile).nickname,
        },
        final(profile).avatar == match update.avatar {
            Some(a) => Some(a),
            None => old(profile).avatar,
        },
        final(profile).gender == match update.gender {
            Some(g) => g,
            None => old(profile).gender,
        },
{
    if let Some(n) = &update.nickname {
        profile.nickname = n.clone();
    }
    if let Some(a) = &update.avatar {
        profile.avatar = Some(a.clone());
    }
    if let Some(g) = update.gender {
        profile.gender = g;
    }
}

/// Name for what `regex::Regex::new(pattern)` and `is_match(text)` report:
/// `None` where the pattern does not compile, else whether it matches.
pub uninterp spec fn regex_matches(pattern: Seq<char>, text: Seq<char>) -> Option<bool>;

/// Relies on regex::Regex::new and Regex::is_match; the outcome depends on
/// the pattern and the text alone.
#[verifier::external_body]
fn pattern_matches(pattern: &str, text: &str) -> (r: Option<bool>)
    ensures
        r == regex_matches(pattern@, text@),
{
    match regex::Regex::new(pattern) {
        Ok(re) => Some(re.is_match(text)),
        Err(_) => None,
    }
}

pub open spec fn route_open(pattern: Seq<char>, allowed: HttpMethod, path: Seq<char>, method: HttpMethod) -> bool {
    allowed == method && regex_matches(pattern, path) == Some(true)
}

/// The routes served without a credential.
pub open spec fn is_public_route(path: Seq<char>, method: HttpMethod) -> bool {
    ||| route_open("^/$"@, HttpMethod::Get, path, method)
    ||| route_open("^/favicon.ico$"@, HttpMethod::Get, path, method)
    ||| route_open("^/user/login$"@, HttpMethod::Post, path, method)
    ||| route_open("^/user/register$"@, HttpMethod::Post, path, method)
    ||| route_open("^/v/s/\\d{4}/\\d{2}/\\d{2}/\\w+\\.\\w+$"@, HttpMethod::Get, path, method)
    ||| route_open("^/v/p/\\d{4}/\\d{2}/\\d{2}/\\w+\\.\\w+$"@, HttpMethod::Get, path, method)
    ||| route_open("^/image/\\d{4}/\\d{2}/\\d{2}/\\w+\\.\\w+$"@, HttpMethod::Get, path, method)
    ||| route_open("^/image/thumbnail/\\d{4}/\\d{2}/\\d{2}/\\w+\\.\\w+$"@, HttpMethod::Get, path, method)
}

fn opens(pattern: &str, allowed: HttpMethod, path: &str, method: HttpMethod) -> (r: bool)
    ensures
        r == route_open(pattern@, allowed, path@, method),
{
    allowed == method && pattern_matches(pattern, path) == Some(true)
}

/// Whether a request may pass without a credential.
pub fn should_skip_auth(path: &str, method: HttpMethod) -> (r: bool)
    ensures
        r == is_public_route(path@, method),
{
    opens("^/$", HttpMethod::Get, path, method) || opens("^/favicon.ico$", HttpMethod::Get, path, method)
        || opens("^/user/login$", HttpMethod::Post, path, method)
        || opens("^/user/register$", HttpMethod::Post, path, method)
        || opens("^/v/s/\\d{4}/\\d{2}/\\d{2}/\\w+\\.\\w+$", HttpMethod::Get, path, method)
        || opens("^/v/p/\\d{4}/\\d{2}/\\d{2}/\\w+\\.\\w+$", HttpMethod::Get, path, method)
        || opens("^/image/\\d{4}/\\d{2}/\\d{2}/\\w+\\.\\w+$", HttpMethod::Get, path, method)
        || opens("^/image/thumbnail/\\d{4}/\\d{2}/\\d{2}/\\w+\\.\\w+$", HttpMethod::Get, path, method)
}

/// The first decision on a request's access.
#[derive(Clone, Debug, PartialEq, Eq)]
pub enum AccessStep {
    /// A public route: let it through.
    Pass,
    /// Verify this bearer token, then look up its user.
    Verify(String),
    /// No usable credential: unauthorized.
    Deny,
}

pub fn access_step(path: &str, method: HttpMethod, authorization: Option<&str>) -> (r: AccessStep)
    ensures
        is_public_route(path@, method) ==> r == AccessStep::Pass,
        !is_public_route(path@, method) ==> match authorization {
            Some(h) => match bearer_of(h@) {
                Some(t) => r is Verify && r->Verify_0@ == t,
                None => r == AccessStep::Deny,
            },
            None => r == AccessStep::Deny,
        },
{
    if should_skip_auth(path, method) {
        return AccessStep::Pass;
    }
    match authorization {
        Some(h) => match bearer_token(h) {
            Some(t) => AccessStep::Verify(t),
            None => AccessStep::Deny,
        },
        None => AccessStep::Deny,
    }
}

} // verus!
