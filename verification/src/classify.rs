//! Classification of ambiguous HTTP error bodies into semantic outcomes.
//!
//! The backend reports password problems with no stable error code, so the
//! body text is the only reliable signal. The classifier decides between
//! "needs a password", "the password was wrong", and "not password-related",
//! and must never read an unrelated failure as a password issue.

use vstd::prelude::*;
use vstd::string::StringExecFns;
use crate::text::contains_seq;
use crate::text::contains_sub;
use crate::text::dec_of;
use crate::text::str_eq;
use crate::text::u64_to_dec;

verus! {

/// What `str::to_lowercase` returns for a string: a mapping determined by the
/// characters of its argument alone.
pub uninterp spec fn lower_of(s: Seq<char>) -> Seq<char>;

/// Relies on str::to_lowercase: the lowercased text depends on the
/// characters of the input alone.
#[verifier::external_body]
fn to_lower(s: &str) -> (r: String)
    ensures
        r@ == lower_of(s@),
{
    s.to_lowercase()
}

/// The two authentication outcomes the backend can signal.
#[derive(Clone, Copy, Debug, PartialEq, Eq, Structural)]
pub enum AuthOutcome {
    /// The share is protected and no password was accepted yet.
    Required,
    /// A password was submitted and rejected.
    Invalid,
}

impl AuthOutcome {
    /// The sentinel string for this outcome, surfaced to the caller both as a
    /// control-flow signal and as a literal error payload.
    pub open spec fn code_spec(self) -> Seq<char> {
        match self {
            AuthOutcome::Required => "PASSWORD_REQUIRED"@,
            AuthOutcome::Invalid => "PASSWORD_INVALID"@,
        }
    }

    /// The sentinel string for this outcome.
    pub fn code(&self) -> (r: &'static str)
        ensures
            r@ == self.code_spec(),
    {
        match self {
            AuthOutcome::Required => "PASSWORD_REQUIRED",
            AuthOutcome::Invalid => "PASSWORD_INVALID",
        }
    }
}

/// An error string is one of the two authentication sentinels.
pub open spec fn is_auth_code(s: Seq<char>) -> bool {
    s == "PASSWORD_REQUIRED"@ || s == "PASSWORD_INVALID"@
}

/// Whether an error string is one of the two authentication sentinels.
pub fn is_auth_code_exec(s: &str) -> (r: bool)
    ensures
        r == is_auth_code(s@),
{
    str_eq(s, "PASSWORD_REQUIRED") || str_eq(s, "PASSWORD_INVALID")
}

/// The status is a 2xx success.
pub open spec fn is_http_success(status: u16) -> bool {
    200 <= status <= 299
}

/// The status is a 3xx redirect.
pub open spec fn is_redirect(status: u16) -> bool {
    300 <= status <= 399
}

/// The status codes to which body-text classification applies at all.
pub open spec fn is_auth_status(status: u16) -> bool {
    status == 401 || status == 403 || status == 400
}

/// The lowercased body mentions passwords or encryption at all, in English or
/// in the vendor's localized phrasing.
pub open spec fn password_related(l: Seq<char>) -> bool {
    ||| contains_seq(l, "password"@)
    ||| contains_seq(l, "encrypted"@)
    ||| contains_seq(l, "\u{8bf7}\u{8f93}\u{5165}\u{5bc6}\u{7801}"@)
    ||| contains_seq(l, "\u{5bc6}\u{7801}"@)
}

/// The lowercased body says explicitly that the supplied value was wrong.
pub open spec fn says_password_wrong(l: Seq<char>) -> bool {
    ||| (contains_seq(l, "invalid"@) && contains_seq(l, "password"@))
    ||| contains_seq(l, "incorrect"@)
    ||| contains_seq(l, "wrong"@)
}

/// The classifier's decision on a status code, a lowercased body, and whether
/// a password was already supplied. `None` means the failure is unrelated to
/// authentication and the caller surfaces the raw status.
pub open spec fn classify_spec(status: u16, l: Seq<char>, had_password: bool) -> Option<
    AuthOutcome,
> {
    if !is_auth_status(status) {
        None
    } else if !password_related(l) {
        None
    } else if says_password_wrong(l) {
        Some(AuthOutcome::Invalid)
    } else if had_password {
        Some(AuthOutcome::Invalid)
    } else {
        Some(AuthOutcome::Required)
    }
}

/// Decides whether a failed response is a password problem, and which one.
pub fn parse_password_error(status: u16, body: &str, had_password: bool) -> (r: Option<
    AuthOutcome,
>)
    ensures
        r == classify_spec(status, lower_of(body@), had_password),
{
    if !(status == 401 || status == 403 || status == 400) {
        return None;
    }
    let lower = to_lower(body);
    let l = lower.as_str();
    let related = contains_sub(l, "password") || contains_sub(l, "encrypted") || contains_sub(
        l,
        "\u{8bf7}\u{8f93}\u{5165}\u{5bc6}\u{7801}",
    ) || contains_sub(l, "\u{5bc6}\u{7801}");
    if !related {
        return None;
    }
    if contains_sub(l, "invalid") && contains_sub(l, "password") {
        return Some(AuthOutcome::Invalid);
    }
    if contains_sub(l, "incorrect") || contains_sub(l, "wrong") {
        return Some(AuthOutcome::Invalid);
    }
    if had_password {
        Some(AuthOutcome::Invalid)
    } else {
        Some(AuthOutcome::Required)
    }
}

/// The error string for a failed response: the authentication sentinel when
/// the classifier recognizes a password problem, else `prefix` followed by
/// the raw HTTP status.
pub fn failure_message(prefix: &str, status: u16, body: &str, had_password: bool) -> (r: String)
    ensures
        r@ == match classify_spec(status, lower_of(body@), had_password) {
            Some(o) => o.code_spec(),
            None => prefix@ + "HTTP "@ + dec_of(status as nat),
        },
{
    match parse_password_error(status, body, had_password) {
        Some(o) => String::from_str(o.code()),
        None => {
            let r = String::from_str(prefix).concat("HTTP ").concat(
                u64_to_dec(status as u64).as_str(),
            );
            assert(r@ =~= prefix@ + "HTTP "@ + dec_of(status as nat));
            r
        },
    }
}

} // verus!
