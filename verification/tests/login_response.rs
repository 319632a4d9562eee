use synology_filestation_tools::synology_api::interpret_login_response;
use synology_filestation_tools::synology_api::LoginOutcome;

#[test]
fn success_with_token_and_pairing_id() {
    let body = "{\"data\":{\"did\":\"dev42\",\"sid\":\"tok99\"},\"success\":true}";
    let outcome = interpret_login_response(body);
    assert!(matches!(
        outcome,
        LoginOutcome::Success { ref token, ref device_id }
            if token == "tok99" && device_id.as_deref() == Some("dev42")
    ));
}

#[test]
fn success_with_token_and_no_pairing_id() {
    let body = "{\"data\":{\"sid\":\"tok99\"},\"success\":true}";
    let outcome = interpret_login_response(body);
    assert!(matches!(
        outcome,
        LoginOutcome::Success { ref token, ref device_id }
            if token == "tok99" && device_id.is_none()
    ));
}

#[test]
fn success_without_token_is_malformed() {
    let body = "{\"data\":{},\"success\":true}";
    assert!(matches!(interpret_login_response(body), LoginOutcome::NetworkFailure));
}

#[test]
fn error_codes_map_to_their_outcomes() {
    let invalid = "{\"error\":{\"code\":400},\"success\":false}";
    assert!(matches!(interpret_login_response(invalid), LoginOutcome::InvalidCredentials));
    let otp_required = "{\"error\":{\"code\":403},\"success\":false}";
    assert!(matches!(interpret_login_response(otp_required), LoginOutcome::OneTimeCodeRequired));
    let otp_rejected = "{\"error\":{\"code\":404},\"success\":false}";
    assert!(matches!(interpret_login_response(otp_rejected), LoginOutcome::OneTimeCodeRejected));
    let other = "{\"error\":{\"code\":407},\"success\":false}";
    assert!(matches!(interpret_login_response(other), LoginOutcome::NetworkFailure));
}

#[test]
fn garbage_bodies_count_as_network_failure() {
    assert!(matches!(interpret_login_response(""), LoginOutcome::NetworkFailure));
    assert!(matches!(interpret_login_response("not json at all"), LoginOutcome::NetworkFailure));
    let no_code = "{\"success\":false}";
    assert!(matches!(interpret_login_response(no_code), LoginOutcome::NetworkFailure));
}
