//! Unwrapping the response envelope of a remote call.
//!
//! Every call returns `{status, retcode, data, message}`.  Classification
//! is total and exclusive: an HTTP status outside the 2xx range is a
//! transport failure whatever the body holds; a 2xx response whose envelope
//! says anything but `status == "ok" && retcode == 0` is an application
//! failure; and only the remaining case is success, whose payload is the
//! `data` member, with absence meaning an empty result.

use vstd::prelude::*;

use crate::error::{DecodeError, MilkyError};
use crate::json::{jv_model, spec_obj_get, JsonValue, str_eq};
use crate::json_parse::{parse_document, spec_parse};

verus! {

/// The three possible verdicts on a call's outcome.
#[derive(Clone, Copy, Debug, PartialEq, Eq, Structural)]
pub enum CallVerdict {
    /// The call succeeded and its payload is owed.
    Success,
    /// The remote executed the call and rejected the operation.
    ApplicationError,
    /// The call failed at the HTTP level.
    TransportError,
}

/// The HTTP status belongs to the 2xx range.
pub open spec fn is_http_ok(http_status: u16) -> bool {
    200 <= http_status < 300
}

/// The verdict on a call, as a function of the HTTP status and the
/// envelope's `status` and `retcode`: total by construction.
pub open spec fn spec_verdict(http_status: u16, status: Seq<char>, retcode: i64) -> CallVerdict {
    if !is_http_ok(http_status) {
        CallVerdict::TransportError
    } else if status == "ok"@ && retcode == 0 {
        CallVerdict::Success
    } else {
        CallVerdict::ApplicationError
    }
}

/// Classification is total and exclusive: for every triple, exactly one of
/// the three verdicts applies, and it is the one the envelope rule names.
pub proof fn lemma_verdict_total_exclusive(http_status: u16, status: Seq<char>, retcode: i64)
    ensures
        spec_verdict(http_status, status, retcode) == CallVerdict::TransportError <==> !is_http_ok(
            http_status,
        ),
        spec_verdict(http_status, status, retcode) == CallVerdict::Success <==> (is_http_ok(
            http_status,
        ) && status == "ok"@ && retcode == 0),
        spec_verdict(http_status, status, retcode) == CallVerdict::ApplicationError <==> (
        is_http_ok(http_status) && !(status == "ok"@ && retcode == 0)),
{
}

/// The verdict, computed.
pub fn verdict(http_status: u16, status: &str, retcode: i64) -> (r: CallVerdict)
    ensures
        r == spec_verdict(http_status, status@, retcode),
{
    if !(200 <= http_status && http_status < 300) {
        CallVerdict::TransportError
    } else if str_eq(status, "ok") && retcode == 0 {
        CallVerdict::Success
    } else {
        CallVerdict::ApplicationError
    }
}

/// How the unwrapped result must relate to the parsed 2xx envelope
/// document.
pub open spec fn envelope_rel(v: JsonValue, r: Result<JsonValue, MilkyError>) -> bool {
    match crate::codec::fld_str(v, "status"@) {
        Err(e) => r == Err::<JsonValue, MilkyError>(MilkyError::Json(e)),
        Ok(st) => match crate::codec::fld_i64(v, "retcode"@) {
            Err(e) => r == Err::<JsonValue, MilkyError>(MilkyError::Json(e)),
            Ok(rc) => match crate::codec::opt_str(v, "message"@) {
                Err(e) => r == Err::<JsonValue, MilkyError>(MilkyError::Json(e)),
                Ok(msg) => if st@ == "ok"@ && rc == 0 {
                    match spec_obj_get(v, "data"@) {
                        Some(d) => r == Ok::<JsonValue, MilkyError>(d),
                        None => r == Ok::<JsonValue, MilkyError>(JsonValue::Null),
                    }
                } else {
                    match r {
                        Err(MilkyError::ApiError { message, retcode }) => retcode == Some(rc) && (
                        match msg {
                            Some(m) => message@ == m@,
                            None => message@ == "unknown api error"@,
                        }),
                        _ => false,
                    }
                },
            },
        },
    }
}

/// Unwraps one call's response: the HTTP status and the raw body text in,
/// the success payload or the classified error out.
///
/// A non-2xx status is a transport error carrying the body verbatim.  A
/// 2xx body that is not a well-formed document, or not an envelope, is a
/// decode error.  A well-formed envelope is classified by `spec_verdict`;
/// success hands back the `data` member, with `null` standing in when the
/// member is absent.
pub fn unwrap_envelope(http_status: u16, body: &str) -> (r: Result<JsonValue, MilkyError>)
    ensures
        !is_http_ok(http_status) ==> (r matches Err(MilkyError::HttpApiError { status, message })
            && status == http_status && message@ == body@),
        is_http_ok(http_status) && spec_parse(body@) is None ==> r == Err::<JsonValue, MilkyError>(
            MilkyError::Json(DecodeError::Syntax),
        ),
        is_http_ok(http_status) && spec_parse(body@) is Some ==> exists|v: JsonValue|
            spec_parse(body@) == Some(jv_model(v)) && #[trigger] envelope_rel(v, r),
{
    if !(200 <= http_status && http_status < 300) {
        return Err(
            MilkyError::HttpApiError { status: http_status, message: String::from_str(body) },
        );
    }
    match parse_document(body) {
        None => Err(MilkyError::Json(DecodeError::Syntax)),
        Some(v) => {
            let status = match crate::event_codec::x_fld_str(&v, "status") {
                Err(e) => {
                    proof {
                        assert(envelope_rel(v, Err::<JsonValue, MilkyError>(MilkyError::Json(e))));
                    }
                    return Err(MilkyError::Json(e));
                },
                Ok(s) => s,
            };
            let retcode = match crate::event_codec::x_fld_i64(&v, "retcode") {
                Err(e) => {
                    proof {
                        assert(envelope_rel(v, Err::<JsonValue, MilkyError>(MilkyError::Json(e))));
                    }
                    return Err(MilkyError::Json(e));
                },
                Ok(rc) => rc,
            };
            let message_opt = match crate::event_codec::x_opt_str(&v, "message") {
                Err(e) => {
                    proof {
                        assert(envelope_rel(v, Err::<JsonValue, MilkyError>(MilkyError::Json(e))));
                    }
                    return Err(MilkyError::Json(e));
                },
                Ok(m) => m,
            };
            if str_eq(status.as_str(), "ok") && retcode == 0 {
                let ghost gv = v;
                let r = match v.take_field("data") {
                    Some(d) => Ok(d),
                    None => Ok(JsonValue::Null),
                };
                proof {
                    assert(envelope_rel(gv, r));
                }
                r
            } else {
                let message = match message_opt {
                    Some(m) => m,
                    None => String::from_str("unknown api error"),
                };
                let r = Err(MilkyError::ApiError { message, retcode: Some(retcode) });
                proof {
                    assert(envelope_rel(v, r));
                }
                r
            }
        },
    }
}

} // verus!
