//! Session and password negotiation: detecting the password form, extracting
//! the anti-forgery token it embeds, and judging the submission's response.

use vstd::prelude::*;
use vstd::string::StrSliceExecFns;
use vstd::string::StringExecFns;
use crate::classify::classify_spec;
use crate::classify::is_http_success;
use crate::classify::is_redirect;
use crate::classify::lower_of;
use crate::classify::parse_password_error;
use crate::text::contains_seq;
use crate::text::contains_sub;
use crate::text::dec_of;
use crate::text::find_char_from;
use crate::text::find_sub;
use crate::text::first_match_at;
use crate::text::substring_string;
use crate::text::u64_to_dec;

verus! {

/// The landing page's own password prompt: the text shown (in either
/// language) when a protected share asks for its password.
pub open spec fn password_page_markers(body: Seq<char>) -> bool {
    ||| contains_seq(body, "Please input the password"@)
    ||| contains_seq(body, "\u{8bf7}\u{8f93}\u{5165}\u{5bc6}\u{7801}"@)
}

/// The landing page holds a password form: either the prompt text or a
/// password input field.
pub open spec fn password_form_markers(html: Seq<char>) -> bool {
    ||| password_page_markers(html)
    ||| contains_seq(html, "id=\"password\""@)
    ||| contains_seq(html, "name=\"password\""@)
}

/// Decides from the landing page's HTML whether the share asks for a
/// password before it serves content.
pub fn detect_password_prompt(html: &str) -> (r: bool)
    ensures
        r == password_form_markers(html@),
{
    contains_sub(html, "Please input the password") || contains_sub(
        html,
        "\u{8bf7}\u{8f93}\u{5165}\u{5bc6}\u{7801}",
    ) || contains_sub(html, "id=\"password\"") || contains_sub(html, "name=\"password\"")
}

/// A protected share with no supplied password fails at once, before any
/// listing or download request is issued.
pub fn preflight_password(needs_password: bool, has_password: bool) -> (r: Result<(), String>)
    ensures
        (r is Ok) == !(needs_password && !has_password),
        r matches Err(m) ==> m@ == "PASSWORD_REQUIRED"@,
{
    if needs_password && !has_password {
        Err(String::from_str("PASSWORD_REQUIRED"))
    } else {
        Ok(())
    }
}

/// In `after`, the first occurrence of `opener` is at `v`, and the value
/// `tok` runs from just past the opener to the first following `closer`.
pub open spec fn quoted_value_at(
    after: Seq<char>,
    opener: Seq<char>,
    closer: char,
    tok: Seq<char>,
) -> bool {
    exists|v: int|
        #[trigger] first_match_at(after, opener, v) && (exists|e: int|
            {
                &&& v + opener.len() <= e < after.len()
                &&& after[e] == closer
                &&& (forall|j: int| v + opener.len() <= j < e ==> after[j] != closer)
                &&& tok == after.subrange(v + opener.len(), e)
            })
}

/// `after` holds an occurrence of `opener` with a `closer` somewhere after
/// it, so a quoted value can be read out.
pub open spec fn has_quoted_value(after: Seq<char>, opener: Seq<char>, closer: char) -> bool {
    exists|v: int|
        #[trigger] first_match_at(after, opener, v) && (exists|e: int|
            v + opener.len() <= e < after.len() && after[e] == closer)
}

/// Reads the anti-forgery token out of the landing page's HTML: the value of
/// the first `csrfmiddlewaretoken` field after that name, accepting both
/// double- and single-quoted attribute syntax (double quotes first).
/// Returns `None` when no such field with a closed value is present; the
/// password form is then submitted without a token.
pub fn extract_csrf_token(html: &str) -> (r: Option<String>)
    ensures
        match r {
            Some(tok) => exists|p: int|
                #[trigger] first_match_at(html@, "csrfmiddlewaretoken"@, p) && {
                    let after = html@.subrange(p, html@.len() as int);
                    ||| quoted_value_at(after, "value=\""@, '"', tok@)
                    ||| (!has_quoted_value(after, "value=\""@, '"') && quoted_value_at(
                        after,
                        "value='"@,
                        '\'',
                        tok@,
                    ))
                },
            None => forall|p: int|
                #[trigger] first_match_at(html@, "csrfmiddlewaretoken"@, p) ==> {
                    let after = html@.subrange(p, html@.len() as int);
                    &&& !has_quoted_value(after, "value=\""@, '"')
                    &&& !has_quoted_value(after, "value='"@, '\'')
                },
        },
{
    proof {
        reveal_strlit("value=\"");
        reveal_strlit("value='");
    }
    let p = match find_sub(html, "csrfmiddlewaretoken") {
        Some(p) => p,
        None => {
            return None;
        },
    };
    let after = html.substring_char(p, html.unicode_len());
    // Materializes the machine bound on the suffix's character count, which
    // the index arithmetic below needs.
    let _after_len: usize = after.unicode_len();
    if let Some(v) = find_sub(after, "value=\"") {
        let start: usize = v + 7;
        if let Some(e) = find_char_from(after, '"', start) {
            return Some(substring_string(after, start, e));
        }
    }
    if let Some(v) = find_sub(after, "value='") {
        let start: usize = v + 7;
        if let Some(e) = find_char_from(after, '\'', start) {
            return Some(substring_string(after, start, e));
        }
    }
    None
}

/// Judges the response to the password submission. A successful or
/// redirecting status whose body still shows the password prompt means the
/// password was wrong; without the prompt the session is authenticated. Any
/// other status goes through the error classifier, with a raw-status message
/// when the failure is not password-related.
pub fn evaluate_password_response(status: u16, body: &str) -> (r: Result<(), String>)
    ensures
        is_http_success(status) || is_redirect(status) ==> (match r {
            Ok(()) => !password_page_markers(body@),
            Err(m) => password_page_markers(body@) && m@ == "PASSWORD_INVALID"@,
        }),
        !(is_http_success(status) || is_redirect(status)) ==> (r matches Err(m) && m@ == match
            classify_spec(status, lower_of(body@), true) {
            Some(o) => o.code_spec(),
            None => "password verification failed: "@ + "HTTP "@ + dec_of(status as nat),
        }),
{
    if (200 <= status && status <= 299) || (300 <= status && status <= 399) {
        if contains_sub(body, "Please input the password") || contains_sub(
            body,
            "\u{8bf7}\u{8f93}\u{5165}\u{5bc6}\u{7801}",
        ) {
            Err(String::from_str("PASSWORD_INVALID"))
        } else {
            Ok(())
        }
    } else {
        Err(crate::classify::failure_message("password verification failed: ", status, body, true))
    }
}

} // verus!
