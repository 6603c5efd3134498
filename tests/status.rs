use talk_api_client::response::TalkStatusResponse;
use talk_api_client::status::Status;

#[test]
fn status_body_decodes_to_mismatch_password() {
    let body: serde_json::Value = serde_json::from_str("{\"status\": 12}").unwrap();
    let code = body["status"].as_i64().unwrap();
    let resp = TalkStatusResponse::<()>::from_status_code(code, None).unwrap();
    assert_eq!(resp.status, Status::MismatchPassword);
    assert!(resp.data.is_none());
}

#[test]
fn status_codes_round_trip() {
    for s in [
        Status::Success,
        Status::SuccessWithAccount,
        Status::MismatchPassword,
        Status::DeviceNotRegistered,
        Status::UpgradeRequired,
        Status::InvalidToken,
    ] {
        assert_eq!(Status::from_code(s.code() as i64), Some(s));
    }
    assert_eq!(Status::DeviceNotRegistered.code(), -100);
    assert_eq!(Status::from_code(-100001), Some(Status::MigrationFailure));
}

#[test]
fn unknown_status_code_is_refused() {
    assert_eq!(Status::from_code(2), None);
    assert_eq!(Status::from_code(1 << 40), None);
    assert!(TalkStatusResponse::<u8>::from_status_code(7, Some(1)).is_none());
}

#[test]
fn status_response_keeps_payload() {
    let resp = TalkStatusResponse::from_status_code(0, Some(5u8)).unwrap();
    assert_eq!(resp.status, Status::Success);
    assert_eq!(resp.data, Some(5));
}
