use vstd::prelude::*;

verus! {

/// A decode failure for one inbound frame or payload.  Decoding is total:
/// every malformed input maps to one of these values, never a panic.
#[derive(Clone, Copy, Debug, PartialEq, Eq, Structural)]
pub enum DecodeError {
    /// The text is not a well-formed document of the wire grammar.
    Syntax,
    /// A value that had to be an object (or the whole frame) is not one.
    NotAnObject,
    /// A required field is absent.
    MissingField,
    /// A field is present but holds a value of the wrong shape.
    WrongType,
    /// The outer `event_type` tag is not in the closed set.
    UnknownEventType,
    /// The nested `message_scene` tag is not `friend`, `group` or `temp`.
    UnknownScene,
    /// A segment's `type` tag is not in the closed set.
    UnknownSegmentType,
    /// An integer field does not fit the declared width.
    IntOutOfRange,
}

/// Everything that can go wrong in the client.  Errors carry plain values;
/// failures of outside components are folded into the matching variant at
/// the call site that observed them.
#[derive(Clone, Debug)]
pub enum MilkyError {
    /// The event connection failed or was lost mid-stream.
    WebSocket(String),
    /// An address string could not be parsed.
    UrlParse(String),
    /// The address uses a scheme the client does not support.
    UnsupportedScheme(String),
    /// A payload could not be decoded.
    Json(DecodeError),
    /// An I/O failure outside the protocol itself.
    Io(String),
    /// The remote executed the call but rejected the operation.
    ApiError { message: String, retcode: Option<i64> },
    /// The call failed at the HTTP level: non-2xx status with the body text.
    HttpApiError { status: u16, message: String },
    /// No connection is established.
    NotConnected,
    /// The call did not resolve in time.
    Timeout,
    /// The response did not have the expected shape.
    UnexpectedResponse,
    /// A correlation identifier did not match.
    EchoMismatch,
    /// An internal invariant was violated by a collaborator.
    Internal(String),
}

} // verus!
