//! Authenticating before the handshake.
//!
//! Before the WebSocket handshake the program may fetch a login URL with one
//! HTTP GET and carry the session cookie of the response over to the
//! handshake request. The request itself is made by the caller; the
//! functions here decide how it is made and what is taken from its response.

use vstd::prelude::*;
use vstd::string::*;
use crate::text::chars_of;

verus! {

/// A cookie as a name and a value.
#[derive(Debug, PartialEq, Eq)]
pub struct CookiePair {
    /// The cookie's name.
    pub name: String,
    /// The cookie's value.
    pub value: String,
}

impl View for CookiePair {
    type V = (Seq<char>, Seq<char>);

    open spec fn view(&self) -> (Seq<char>, Seq<char>) {
        (self.name@, self.value@)
    }
}

/// How the login request is made.
#[derive(Debug, Clone, Copy, PartialEq, Eq)]
pub struct LoginRequest {
    /// Whether the request goes over TLS.
    pub tls: bool,
    /// Whether redirects are followed. If not, the first redirect response is
    /// taken as it is.
    pub follow_redirect: bool,
}

/// What came of the login request.
#[derive(Debug, PartialEq, Eq)]
pub enum LoginResponse {
    /// A response, with the cookies of its `Set-Cookie` headers in the order
    /// of the headers.
    Cookies(Vec<CookiePair>),
    /// The request failed.
    Failed,
}

/// What the login step yields.
#[derive(Debug, PartialEq, Eq)]
pub enum LoginOutcome {
    /// The session cookie to attach to the handshake request.
    Cookie(CookiePair),
    /// There was a response, and none of its cookies is a session cookie.
    NoMatchingCookie,
    /// The request failed.
    RequestFailed,
}

/// Whether `c` is the lower-case ASCII letter `letter` in either case.
pub open spec fn is_letter(c: char, letter: char) -> bool {
    c == letter || c as u32 + 0x20 == letter as u32
}

/// Whether the seven characters of `name` from `at` on spell `session`, in
/// any mix of upper and lower case.
pub open spec fn session_at(name: Seq<char>, at: int) -> bool {
    &&& 0 <= at
    &&& at + 7 <= name.len()
    &&& is_letter(name[at], 's')
    &&& is_letter(name[at + 1], 'e')
    &&& is_letter(name[at + 2], 's')
    &&& is_letter(name[at + 3], 's')
    &&& is_letter(name[at + 4], 'i')
    &&& is_letter(name[at + 5], 'o')
    &&& is_letter(name[at + 6], 'n')
}

/// Whether a cookie name marks a session cookie: it contains `session`
/// somewhere, in any mix of upper and lower case.
pub open spec fn names_session(name: Seq<char>) -> bool {
    exists|at: int| session_at(name, at)
}

/// The position of the session cookie among `cookies`: the first cookie
/// whose name marks a session cookie.
pub open spec fn is_first_session_cookie(cookies: Seq<CookiePair>, i: int) -> bool {
    &&& 0 <= i < cookies.len()
    &&& names_session(cookies[i].name@)
    &&& forall|j: int| 0 <= j < i ==> !names_session(#[trigger] cookies[j].name@)
}

/// Whether the scheme of the login URL asks for TLS.
pub open spec fn scheme_requires_tls(scheme: Seq<char>) -> bool {
    scheme == seq!['h', 't', 't', 'p', 's']
}

fn letter_matches(c: char, letter: char) -> (same: bool)
    requires
        0x61 <= letter as u32 <= 0x7A,
    ensures
        same == is_letter(c, letter),
{
    c == letter || c as u32 + 0x20 == letter as u32
}

fn session_starts_at(name: &Vec<char>, at: usize) -> (found: bool)
    requires
        at + 7 <= name.len(),
    ensures
        found == session_at(name@, at as int),
{
    letter_matches(name[at], 's') && letter_matches(name[at + 1], 'e') && letter_matches(
        name[at + 2],
        's',
    ) && letter_matches(name[at + 3], 's') && letter_matches(name[at + 4], 'i') && letter_matches(
        name[at + 5],
        'o',
    ) && letter_matches(name[at + 6], 'n')
}

/// Tests whether a cookie name marks a session cookie.
pub fn is_session_name(name: &str) -> (found: bool)
    ensures
        found == names_session(name@),
{
    let chars = chars_of(name);
    if chars.len() < 7 {
        return false;
    }
    let last: usize = chars.len() - 7;
    let mut at: usize = 0;
    while at <= last
        invariant
            chars@ == name@,
            last + 7 == chars.len(),
            at <= last + 1,
            forall|k: int| 0 <= k < at ==> !session_at(name@, k),
        decreases last + 1 - at,
    {
        if session_starts_at(&chars, at) {
            return true;
        }
        at += 1;
    }
    false
}

/// Picks the session cookie from the cookies of a response: the first, in
/// the order of the headers, whose name contains `session` in any mix of
/// case; none if no name does.
pub fn extract_cookie(cookies: &Vec<CookiePair>) -> (cookie: Option<CookiePair>)
    ensures
        match cookie {
            Some(found) => exists|i: int|
                #[trigger] is_first_session_cookie(cookies@, i) && found@ == cookies@[i]@,
            None => forall|i: int|
                0 <= i < cookies@.len() ==> !names_session(#[trigger] cookies@[i].name@),
        },
{
    let mut i: usize = 0;
    while i < cookies.len()
        invariant
            i <= cookies.len(),
            forall|j: int| 0 <= j < i ==> !names_session(#[trigger] cookies@[j].name@),
        decreases cookies.len() - i,
    {
        if is_session_name(cookies[i].name.as_str()) {
            let found = CookiePair { name: cookies[i].name.clone(), value: cookies[i].value.clone() };
            assert(is_first_session_cookie(cookies@, i as int));
            return Some(found);
        }
        i += 1;
    }
    None
}

/// Decides how the login request is made: over TLS exactly if the scheme of
/// the login URL is `https`; following redirects only if that is configured.
pub fn login_request(scheme: &str, follow_redirect: bool) -> (request: LoginRequest)
    ensures
        request.tls == scheme_requires_tls(scheme@),
        request.follow_redirect == follow_redirect,
{
    proof {
        reveal_strlit("https");
        assert("https"@ =~= seq!['h', 't', 't', 'p', 's']);
    }
    let tls = String::from_str(scheme) == String::from_str("https");
    LoginRequest { tls, follow_redirect }
}

/// Decides what the login step yields: the session cookie of the response,
/// or which of the two ways of having none it is.
pub fn login_outcome(response: &LoginResponse) -> (outcome: LoginOutcome)
    ensures
        match *response {
            LoginResponse::Failed => outcome == LoginOutcome::RequestFailed,
            LoginResponse::Cookies(cookies) => match outcome {
                LoginOutcome::Cookie(found) => exists|i: int|
                    #[trigger] is_first_session_cookie(cookies@, i) && found@ == cookies@[i]@,
                LoginOutcome::NoMatchingCookie => forall|i: int|
                    0 <= i < cookies@.len() ==> !names_session(#[trigger] cookies@[i].name@),
                LoginOutcome::RequestFailed => false,
            },
        },
{
    match response {
        LoginResponse::Failed => LoginOutcome::RequestFailed,
        LoginResponse::Cookies(cookies) => match extract_cookie(cookies) {
            Some(found) => LoginOutcome::Cookie(found),
            None => LoginOutcome::NoMatchingCookie,
        },
    }
}

} // verus!
