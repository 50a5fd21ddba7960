//! Response-envelope classification and unwrapping.

use milky::api::system::GetLoginInfoResponse;
use milky::envelope::{unwrap_envelope, verdict, CallVerdict};
use milky::error::{DecodeError, MilkyError};
use milky::json::JsonValue;

#[test]
fn verdict_is_total_and_exclusive() {
    let statuses: Vec<u16> = vec![0, 100, 199, 200, 204, 299, 300, 404, 500];
    let bodies = vec![("ok", 0i64), ("ok", 1), ("failed", 0), ("failed", 34)];
    for &h in &statuses {
        for &(s, rc) in &bodies {
            let v = verdict(h, s, rc);
            let expect = if !(200..300).contains(&h) {
                CallVerdict::TransportError
            } else if s == "ok" && rc == 0 {
                CallVerdict::Success
            } else {
                CallVerdict::ApplicationError
            };
            assert_eq!(v, expect);
        }
    }
}

#[test]
fn call_succeeds_with_typed_payload() {
    let body = "{\"status\":\"ok\",\"retcode\":0,\"data\":{\"uin\":1,\"nickname\":\"x\"}}";
    let data = unwrap_envelope(200, body).expect("call must succeed");
    let login = GetLoginInfoResponse::from_data(&data).expect("payload must decode");
    assert_eq!(login.uin, 1);
    assert_eq!(login.nickname, "x");
}

#[test]
fn call_failure_carries_retcode() {
    let body = "{\"status\":\"failed\",\"retcode\":34,\"message\":\"no perm\"}";
    match unwrap_envelope(200, body) {
        Err(MilkyError::ApiError { message, retcode }) => {
            assert_eq!(retcode, Some(34));
            assert_eq!(message, "no perm");
        }
        other => panic!("expected an application error, got {:?}", other),
    }
}

#[test]
fn nonzero_retcode_fails_even_when_status_is_ok() {
    let body = "{\"status\":\"ok\",\"retcode\":7}";
    match unwrap_envelope(200, body) {
        Err(MilkyError::ApiError { retcode, .. }) => assert_eq!(retcode, Some(7)),
        other => panic!("expected an application error, got {:?}", other),
    }
}

#[test]
fn non_2xx_is_a_transport_error_whatever_the_body() {
    let body = "{\"status\":\"ok\",\"retcode\":0}";
    match unwrap_envelope(500, body) {
        Err(MilkyError::HttpApiError { status, message }) => {
            assert_eq!(status, 500);
            assert_eq!(message, body);
        }
        other => panic!("expected a transport error, got {:?}", other),
    }
}

#[test]
fn absent_data_means_empty_result() {
    let body = "{\"status\":\"ok\",\"retcode\":0}";
    let data = unwrap_envelope(204, body).expect("call must succeed");
    assert!(matches!(data, JsonValue::Null));
}

#[test]
fn malformed_body_is_a_decode_error() {
    match unwrap_envelope(200, "not json") {
        Err(MilkyError::Json(DecodeError::Syntax)) => {}
        other => panic!("expected a syntax error, got {:?}", other),
    }
    match unwrap_envelope(200, "{\"retcode\":0}") {
        Err(MilkyError::Json(DecodeError::MissingField)) => {}
        other => panic!("expected a missing field, got {:?}", other),
    }
}
