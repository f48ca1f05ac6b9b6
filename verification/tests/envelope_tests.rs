use local_server::envelope::{ApiResponse, ServerError};

#[test]
fn success_envelope_has_code_200_and_payload() {
    let r: ApiResponse<i32> = ApiResponse::success(41);
    assert_eq!(r.code, 200);
    assert_eq!(r.msg, "success");
    assert_eq!(r.data, Some(41));
}

#[test]
fn error_envelope_keeps_code_and_message_and_no_payload() {
    let r: ApiResponse<i32> = ApiResponse::error(418, "teapot");
    assert_eq!(r.code, 418);
    assert_eq!(r.msg, "teapot");
    assert!(r.data.is_none());
}

#[test]
fn not_found_maps_to_404() {
    let e = ServerError::NotFound(String::from("Matter not found"));
    assert_eq!(e.status_code(), 404);
}

#[test]
fn bad_request_maps_to_400() {
    let e = ServerError::BadRequest(String::from("nope"));
    assert_eq!(e.status_code(), 400);
}

#[test]
fn database_error_maps_to_500() {
    let e = ServerError::DatabaseError(String::from("disk on fire"));
    assert_eq!(e.status_code(), 500);
}

#[test]
fn startup_error_maps_to_500() {
    let e = ServerError::StartupError(String::from("bind failed"));
    assert_eq!(e.status_code(), 500);
}

#[test]
fn error_envelope_carries_status_and_message_without_data() {
    let e = ServerError::NotFound(String::from("Todo not found"));
    let env = e.into_envelope();
    assert_eq!(env.code, 404);
    assert_eq!(env.msg, "Todo not found");
    assert!(env.data.is_none());
}
