use cloud_download::classify::failure_message;
use cloud_download::classify::parse_password_error;
use cloud_download::classify::AuthOutcome;
use cloud_download::session::detect_password_prompt;
use cloud_download::session::evaluate_password_response;
use cloud_download::session::preflight_password;

#[test]
fn prompt_without_password_means_password_required() {
    let r = parse_password_error(403, "Please input the password", false);
    assert_eq!(r, Some(AuthOutcome::Required));
}

#[test]
fn prompt_with_password_means_password_invalid() {
    let r = parse_password_error(403, "Please input the password", true);
    assert_eq!(r, Some(AuthOutcome::Invalid));
}

#[test]
fn unrelated_body_is_not_a_password_problem() {
    assert_eq!(parse_password_error(403, "not found", false), None);
    assert_eq!(parse_password_error(403, "not found", true), None);
}

#[test]
fn classification_is_case_insensitive() {
    let r = parse_password_error(403, "PLEASE INPUT THE PASSWORD", false);
    assert_eq!(r, Some(AuthOutcome::Required));
}

#[test]
fn explicit_wrong_password_wins_even_without_supplied_password() {
    assert_eq!(
        parse_password_error(400, "Invalid password, try again", false),
        Some(AuthOutcome::Invalid)
    );
    assert_eq!(
        parse_password_error(401, "The password is incorrect", false),
        Some(AuthOutcome::Invalid)
    );
}

#[test]
fn localized_prompt_is_recognized() {
    let r = parse_password_error(403, "\u{8bf7}\u{8f93}\u{5165}\u{5bc6}\u{7801}", false);
    assert_eq!(r, Some(AuthOutcome::Required));
}

#[test]
fn classification_applies_only_to_auth_statuses() {
    assert_eq!(parse_password_error(500, "password needed", false), None);
    assert_eq!(parse_password_error(404, "encrypted share", true), None);
}

#[test]
fn failure_message_keeps_the_raw_status_for_unrelated_errors() {
    let m = failure_message("download failed: ", 404, "gone", false);
    assert_eq!(m, "download failed: HTTP 404");
}

#[test]
fn failure_message_surfaces_the_sentinel_for_password_problems() {
    let m = failure_message("download failed: ", 403, "Please input the password", false);
    assert_eq!(m, "PASSWORD_REQUIRED");
}

#[test]
fn password_form_is_detected_by_field_or_prompt() {
    assert!(detect_password_prompt("<html>Please input the password</html>"));
    assert!(detect_password_prompt("<input id=\"password\" type=\"password\">"));
    assert!(detect_password_prompt("<input name=\"password\">"));
    assert!(!detect_password_prompt("<html><body>file listing</body></html>"));
}

#[test]
fn protected_share_without_password_fails_fast() {
    let r = preflight_password(true, false);
    assert_eq!(r, Err("PASSWORD_REQUIRED".to_string()));
}

#[test]
fn open_share_or_supplied_password_passes_preflight() {
    assert_eq!(preflight_password(false, false), Ok(()));
    assert_eq!(preflight_password(false, true), Ok(()));
    assert_eq!(preflight_password(true, true), Ok(()));
}

#[test]
fn accepted_password_clears_the_prompt() {
    assert_eq!(evaluate_password_response(200, "<html>files</html>"), Ok(()));
}

#[test]
fn lingering_prompt_after_success_means_wrong_password() {
    let r = evaluate_password_response(200, "<html>Please input the password</html>");
    assert_eq!(r, Err("PASSWORD_INVALID".to_string()));
}

#[test]
fn redirect_counts_as_submission_success() {
    assert_eq!(evaluate_password_response(302, "<html>moved</html>"), Ok(()));
}

#[test]
fn failed_submission_goes_through_the_classifier() {
    let r = evaluate_password_response(403, "Please input the password");
    assert_eq!(r, Err("PASSWORD_INVALID".to_string()));
    let r = evaluate_password_response(500, "server error");
    assert_eq!(r, Err("password verification failed: HTTP 500".to_string()));
}
