use crux_passkey::ceremony::{
    credential_ids, keep_updated, login_finish, login_start, read_stored_passkeys,
    register_finish, register_start, stored_passkeys, updated_credentials, Failure, Login,
    Registration, Started, RELYING_PARTY_NAME,
};
use webauthn_rs::prelude::AuthenticationResult;
use crux_passkey::server::{Response, LOGIN_COOKIE, REGISTER_COOKIE};
use crux_passkey::session::{Session, SessionId};
use webauthn_rs::prelude::Passkey;

const STORED_CREDENTIAL: &str = r#"{"cred_id":"uZcVDBVS68E_MtAgeQpElJxldF_6cY9sSvbWqx_qRh8wiu42lyRBRmh5yFeD_r9k130dMbFHBHI9RTFgdJQIzQ","cred":{"type_":"ES256","key":{"EC_EC2":{"curve":"SECP256R1","x":[194,126,127,109,252,23,131,21,252,6,223,99,44,254,140,27,230,17,94,5,133,28,104,41,144,69,171,149,161,26,200,243],"y":[143,123,183,156,24,178,21,248,117,159,162,69,171,52,188,252,26,59,6,47,103,92,19,58,117,103,249,0,219,8,95,196]}}},"counter":2,"user_verified":false,"backup_eligible":false,"backup_state":false,"registration_policy":"preferred","extensions":{"cred_protect":"NotRequested","hmac_create_secret":"NotRequested"},"attestation":{"data":{"Basic":["MIICvTCCAaWgAwIBAgIEK_F8eDANBgkqhkiG9w0BAQsFADAuMSwwKgYDVQQDEyNZdWJpY28gVTJGIFJvb3QgQ0EgU2VyaWFsIDQ1NzIwMDYzMTAgFw0xNDA4MDEwMDAwMDBaGA8yMDUwMDkwNDAwMDAwMFowbjELMAkGA1UEBhMCU0UxEjAQBgNVBAoMCVl1YmljbyBBQjEiMCAGA1UECwwZQXV0aGVudGljYXRvciBBdHRlc3RhdGlvbjEnMCUGA1UEAwweWXViaWNvIFUyRiBFRSBTZXJpYWwgNzM3MjQ2MzI4MFkwEwYHKoZIzj0CAQYIKoZIzj0DAQcDQgAEdMLHhCPIcS6bSPJZWGb8cECuTN8H13fVha8Ek5nt-pI8vrSflxb59Vp4bDQlH8jzXj3oW1ZwUDjHC6EnGWB5i6NsMGowIgYJKwYBBAGCxAoCBBUxLjMuNi4xLjQuMS40MTQ4Mi4xLjcwEwYLKwYBBAGC5RwCAQEEBAMCAiQwIQYLKwYBBAGC5RwBAQQEEgQQxe9V_62aS5-1gK3rr-Am0DAMBgNVHRMBAf8EAjAAMA0GCSqGSIb3DQEBCwUAA4IBAQCLbpN2nXhNbunZANJxAn_Cd-S4JuZsObnUiLnLLS0FPWa01TY8F7oJ8bE-aFa4kTe6NQQfi8-yiZrQ8N-JL4f7gNdQPSrH-r3iFd4SvroDe1jaJO4J9LeiFjmRdcVa-5cqNF4G1fPCofvw9W4lKnObuPakr0x_icdVq1MXhYdUtQk6Zr5mBnc4FhN9qi7DXqLHD5G7ZFUmGwfIcD2-0m1f1mwQS8yRD5-_aDCf3vutwddoi3crtivzyromwbKklR4qHunJ75LGZLZA8pJ_mXnUQ6TTsgRqPvPXgQPbSyGMf2z_DIPbQqCD_Bmc4dj9o6LozheBdDtcZCAjSPTAd_ui"]},"metadata":"None"},"attestation_format":"Packed"}"#;

fn stored_json() -> Vec<u8> {
    format!("{{\"cred\":{}}}", STORED_CREDENTIAL).into_bytes()
}

fn stored_passkey() -> Passkey {
    serde_json::from_slice(&stored_json()).unwrap()
}

/// The stored passkey, under another credential identifier or with another
/// backup eligibility.
fn variant_passkey(cred_id: &str, backup_eligible: bool) -> Passkey {
    let mut value: serde_json::Value = serde_json::from_slice(&stored_json()).unwrap();
    value["cred"]["cred_id"] = serde_json::Value::from(cred_id);
    value["cred"]["backup_eligible"] = serde_json::Value::from(backup_eligible);
    serde_json::from_value(value).unwrap()
}

fn stored_id() -> String {
    let value: serde_json::Value = serde_json::from_slice(&stored_json()).unwrap();
    value["cred"]["cred_id"].as_str().unwrap().to_string()
}

fn login_result(cred_id: &str, counter: u32, backup_eligible: bool) -> AuthenticationResult {
    let json = format!(
        "{{\"cred_id\":\"{cred_id}\",\"needs_update\":true,\"user_verified\":false,\"backup_state\":false,\"backup_eligible\":{backup_eligible},\"counter\":{counter},\"extensions\":{{}}}}"
    );
    serde_json::from_str(&json).unwrap()
}

fn counter_of(passkey: &Passkey) -> u64 {
    serde_json::to_value(passkey).unwrap()["cred"]["counter"].as_u64().unwrap()
}

fn text(status: u16, body: &str) -> Response {
    Response { status, headers: vec![], body: body.as_bytes().to_vec() }
}

fn answer(started: Result<Started, Failure>) -> Response {
    match started {
        Ok(Started::Answer(response)) => response,
        _ => panic!("expected an answer"),
    }
}

fn challenge(started: Result<Started, Failure>) -> (Session, Response) {
    match started {
        Ok(Started::Challenge { session, response }) => (session, response),
        _ => panic!("expected a challenge"),
    }
}

fn session_with(data: &[u8]) -> Session {
    Session { id: SessionId(7), data: data.to_vec() }
}

#[test]
fn relying_party_is_named_crux_passkey() {
    assert_eq!(RELYING_PARTY_NAME, "Crux Passkey");
}

#[test]
fn register_start_without_username_is_refused() {
    assert_eq!(answer(register_start(None, 1, &[], "example.com")), text(400, "no username"));
}

#[test]
fn register_start_with_empty_username_reports_the_error() {
    assert_eq!(
        answer(register_start(Some(""), 1, &[], "example.com")),
        text(400, "error InvalidUsername")
    );
}

#[test]
fn register_start_with_bad_relying_party_fails() {
    assert!(matches!(
        register_start(Some("alice"), 1, &[], "not a domain"),
        Err(Failure::Configuration)
    ));
}

#[test]
fn register_start_hands_out_a_challenge_and_a_session() {
    let (session, response) = challenge(register_start(Some("alice"), 42, &[vec![1, 2, 3]], "example.com"));
    assert_eq!(response.status, 200);
    assert_eq!(response.headers[0].name, "Content-Type");
    assert_eq!(response.headers[0].value, "application/json");
    assert_eq!(response.headers[1].name, "set-cookie");
    assert_eq!(response.headers[1].value, session.cookie(REGISTER_COOKIE, "/auth"));
    let body: serde_json::Value = serde_json::from_slice(&response.body).unwrap();
    assert_eq!(body["publicKey"]["rp"]["name"], "Crux Passkey");
    assert_eq!(body["publicKey"]["rp"]["id"], "example.com");
    assert_eq!(body["publicKey"]["user"]["name"], "alice");
    let data: serde_json::Value = serde_json::from_slice(&session.data).unwrap();
    assert_eq!(data[0], "alice");
    assert_eq!(data[1], "00000000-0000-0000-0000-00000000002a");
}

#[test]
fn register_finish_without_session_is_refused() {
    match register_finish(None, b"{}", "example.com") {
        Ok(Registration::Answer(response)) => assert_eq!(response, text(400, "no session")),
        _ => panic!("expected an answer"),
    }
}

#[test]
fn register_finish_with_unreadable_body_fails() {
    assert!(matches!(
        register_finish(Some(session_with(b"[]")), b"not json", "example.com"),
        Err(Failure::Malformed)
    ));
}

#[test]
fn login_start_without_username_is_refused() {
    assert_eq!(answer(login_start(None, 1, &[], "example.com")), text(400, "no username"));
}

#[test]
fn login_start_without_credentials_is_refused() {
    assert_eq!(
        answer(login_start(Some("alice"), 1, &[], "example.com")),
        text(400, "no credentials found")
    );
}

#[test]
fn login_start_hands_out_a_challenge_and_a_session() {
    let (session, response) = challenge(login_start(Some("alice"), 42, &[stored_passkey()], "example.com"));
    assert_eq!(response.status, 200);
    assert_eq!(response.headers[1].value, session.cookie(LOGIN_COOKIE, "/auth"));
    let body: serde_json::Value = serde_json::from_slice(&response.body).unwrap();
    assert_eq!(body["publicKey"]["rpId"], "example.com");
    let data: serde_json::Value = serde_json::from_slice(&session.data).unwrap();
    assert_eq!(data[0], "00000000-0000-0000-0000-00000000002a");
}

#[test]
fn login_finish_without_session_is_refused() {
    match login_finish(None, b"{}", "example.com") {
        Ok(Login::Answer(response)) => assert_eq!(response, text(400, "no session")),
        _ => panic!("expected an answer"),
    }
}

#[test]
fn login_finish_with_unreadable_body_fails() {
    assert!(matches!(
        login_finish(Some(session_with(b"[]")), b"not json", "example.com"),
        Err(Failure::Malformed)
    ));
}

#[test]
fn only_updated_credentials_are_saved_again() {
    let first = stored_passkey();
    let second = stored_passkey();
    let third = stored_passkey();
    let kept = keep_updated(vec![(first, Some(true)), (second, None), (third, Some(false))]);
    assert_eq!(kept.len(), 1);
    assert_eq!(kept[0].cred_id(), stored_passkey().cred_id());
}

#[test]
fn a_login_saves_back_the_credentials_it_changed() {
    let result = login_result(&stored_id(), 5, false);
    let changed = updated_credentials(vec![variant_passkey("AAAA", false), stored_passkey()], &result)
        .unwrap();
    assert_eq!(changed.len(), 1);
    assert_eq!(changed[0].cred_id(), stored_passkey().cred_id());
    assert_eq!(counter_of(&changed[0]), 5);
}

#[test]
fn a_login_that_changes_nothing_saves_nothing() {
    let result = login_result(&stored_id(), 1, false);
    assert!(updated_credentials(vec![stored_passkey()], &result).unwrap().is_empty());
}

#[test]
fn a_login_that_takes_backup_eligibility_away_fails() {
    let result = login_result(&stored_id(), 5, false);
    assert_eq!(
        updated_credentials(vec![variant_passkey(&stored_id(), true)], &result).unwrap_err(),
        Failure::LostBackupEligibility
    );
    let other = login_result("AAAA", 5, false);
    assert!(updated_credentials(vec![variant_passkey(&stored_id(), true)], &other)
        .unwrap()
        .is_empty());
}

#[test]
fn stored_credentials_are_read_in_order_skipping_empty_rows() {
    let blobs = vec![Some(stored_json()), None, Some(stored_json())];
    let passkeys = stored_passkeys(&blobs);
    assert_eq!(passkeys.len(), 2);
    assert_eq!(read_stored_passkeys(&blobs).unwrap().len(), 2);
    assert!(read_stored_passkeys(&vec![Some(stored_json()), Some(b"junk".to_vec())]).is_none());
    assert!(read_stored_passkeys(&vec![]).unwrap().is_empty());
}

#[test]
fn credential_ids_name_the_stored_credentials() {
    let ids = credential_ids(&[stored_passkey(), variant_passkey("AAAA", false)]);
    assert_eq!(ids.len(), 2);
    assert_eq!(ids[0], stored_passkey().cred_id().0);
    assert_eq!(ids[1], vec![0u8, 0, 0]);
}
