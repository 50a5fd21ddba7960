//! Record types shared by requests and responses.

use vstd::prelude::*;

verus! {

/// The envelope around every remote-call response.
///
/// Invariant of the protocol: `status == "ok" && retcode == 0` exactly when
/// the call succeeded, and only then may `data` be present.
pub struct ApiResponse<T> {
    /// `"ok"` on success, `"failed"` otherwise.
    pub status: String,
    /// Zero on success; an application-defined code otherwise.
    pub retcode: i64,
    /// The payload, present only on success.
    pub data: Option<T>,
    /// Diagnostic text, usually present on failure.
    pub message: Option<String>,
}

/// An outbound remote call.
pub struct ApiRequest<P> {
    /// The operation to perform.
    pub action: String,
    /// The operation's parameter record.
    pub params: P,
    /// Optional correlation tag.
    pub echo: Option<String>,
}

/// The platform a protocol implementation poses as.
#[derive(Clone, Copy, Debug, PartialEq, Eq, Structural)]
pub enum Platform {
    Windows,
    Linux,
    MacOS,
    AndroidPad,
    AndroidPhone,
    Ipad,
    IPhone,
    Harmony,
    Watch,
}

/// A user's declared sex.
#[derive(Clone, Copy, Debug, PartialEq, Eq, Structural)]
pub enum Sex {
    Male,
    Female,
    Unknown,
}

/// The conversational context of a message: direct, group, or transient.
#[derive(Clone, Copy, Debug, PartialEq, Eq, Structural)]
pub enum MessageScene {
    /// A direct conversation with a friend.
    Friend,
    /// A group conversation.
    Group,
    /// A transient session, possibly originating from a group.
    Temp,
}

/// The processing state of a request-like notification.
#[derive(Clone, Copy, Debug, PartialEq, Eq, Structural)]
pub enum RequestState {
    Pending,
    Accepted,
    Rejected,
    Ignored,
}

} // verus!
