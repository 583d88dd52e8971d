use sunk::{ApiError, Response};

fn value(text: &str) -> serde_json::Value {
    serde_json::from_str::<serde_json::Value>(text).unwrap()
}

fn ok_envelope() -> Response {
    Response::empty("ok".to_string(), "1.14.0".to_string())
}

#[test]
fn no_payload_yields_nothing() {
    let r = ok_envelope();
    assert!(r.is_ok());
    assert_eq!(r.into_value(), None);
}

#[test]
fn error_takes_precedence_over_payload() {
    let mut r = ok_envelope();
    r.status = "failed".to_string();
    r.error = Some(ApiError::NotFound);
    r.album = Some(value("{\"id\": \"1\"}"));
    assert!(r.is_err());
    assert_eq!(r.into_result(), Err(ApiError::NotFound));
}

#[test]
fn error_envelope_decodes_to_the_mapped_error() {
    let mut r = ok_envelope();
    r.status = "failed".to_string();
    r.error = Some(ApiError::from_code(
        70,
        "Requested resource not found".to_string(),
    ));
    assert_eq!(r.into_result(), Err(ApiError::NotFound));
}

#[test]
fn single_payload_is_returned_whichever_field_it_is() {
    let payload = value("{\"id\": \"42\"}");

    let mut r = ok_envelope();
    r.song = Some(payload.clone());
    assert_eq!(r.into_result(), Ok(Some(payload.clone())));

    let mut r = ok_envelope();
    r.scan_status = Some(payload.clone());
    assert_eq!(r.into_result(), Ok(Some(payload.clone())));

    let mut r = ok_envelope();
    r.jukebox_playlist = Some(payload.clone());
    assert_eq!(r.into_result(), Ok(Some(payload.clone())));

    let mut r = ok_envelope();
    r.license = Some(payload.clone());
    assert_eq!(r.into_result(), Ok(Some(payload.clone())));

    let mut r = ok_envelope();
    r.videos = Some(payload.clone());
    assert_eq!(r.into_result(), Ok(Some(payload)));
}

#[test]
fn priority_order_picks_the_earlier_field() {
    let first = value("{\"which\": \"album\"}");
    let second = value("{\"which\": \"videos\"}");
    let mut r = ok_envelope();
    r.album = Some(first.clone());
    r.videos = Some(second);
    assert_eq!(r.into_value(), Some(first));
}

#[test]
fn into_error_hands_back_the_error() {
    let mut r = ok_envelope();
    r.error = Some(ApiError::Ldap);
    assert_eq!(r.into_error(), Some(ApiError::Ldap));
    assert_eq!(ok_envelope().into_error(), None);
}
