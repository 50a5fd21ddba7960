//! Client-side core for a chat-platform bot API: a typed event model with a
//! verified wire codec, response-envelope handling for remote calls, and the
//! pure state machines behind the transport's connect/read/shutdown paths.

use vstd::prelude::*;

pub mod api;
pub mod channel;
pub mod codec;
pub mod dispatch;
pub mod envelope;
pub mod error;
pub mod event_codec;
pub mod json;
pub mod json_laws;
pub mod json_parse;
pub mod json_print;
pub mod text;
pub mod transport;
pub mod types;

pub use error::MilkyError;
pub use types::event::{Event, EventKind};
pub use types::friend::{Friend, FriendCategory};
pub use types::group::{Group, GroupAnnouncement, GroupFile, GroupFolder, GroupMember};
pub use types::message::{in_coming, out_going};

verus! {

/// Outcome type used throughout the crate.
pub type MilkyResult<T> = Result<T, crate::error::MilkyError>;

} // verus!
