//! Messages as received, and their segments.

use vstd::prelude::*;

use crate::types::common::MessageScene;
use crate::types::friend::Friend;
use crate::types::group::{Group, GroupMember};

verus! {

/// The fields every received message carries, whatever its scene.
#[derive(Clone, Debug)]
pub struct IncomingMessage {
    /// The friend or group the message belongs to.
    pub peer_id: i64,
    /// The message's sequence number within its `(peer, scene)` stream.
    pub message_seq: i64,
    /// The sender's account number.
    pub sender_id: i64,
    /// When the message was sent, as a Unix timestamp in seconds.
    pub time: i64,
    /// The message's content, in order.
    pub segments: Vec<IncomingSegment>,
    /// The scene the message belongs to.
    pub message_scene: MessageScene,
}

/// A message received in a direct conversation.
#[derive(Clone, Debug)]
pub struct FriendMessage {
    /// The shared message fields.
    pub message: IncomingMessage,
    /// The sending friend's profile.
    pub friend: Friend,
}

/// A message received in a group.
#[derive(Clone, Debug)]
pub struct GroupMessage {
    /// The shared message fields.
    pub message: IncomingMessage,
    /// The group's profile.
    pub group: Group,
    /// The sending member's profile.
    pub group_member: GroupMember,
}

/// A message received in a transient session.
#[derive(Clone, Debug)]
pub struct TempMessage {
    /// The shared message fields.
    pub message: IncomingMessage,
    /// The group the session originated from, if any.
    pub group: Option<Group>,
}

/// One message inside a received combined forward.
#[derive(Clone, Debug)]
pub struct IncomingForwardMessage {
    /// The original sender's display name.
    pub sender_name: String,
    /// The original sender's avatar address.
    pub avatar_url: String,
    /// When the original message was sent.
    pub time: i64,
    /// The original message's content.
    pub segments: Vec<IncomingSegment>,
}

/// One unit of received message content.  The closed set of kinds; an
/// unknown kind on the wire is a decode failure, never a coercion.
#[derive(Clone, Debug)]
pub enum IncomingSegment {
    /// Plain text.
    Text { text: String },
    /// A mention of one member.
    Mention { user_id: i64 },
    /// A mention of everyone.
    MentionAll {},
    /// A built-in face.
    Face { face_id: String },
    /// A reference to an earlier message.
    Reply { message_seq: i64 },
    /// A picture.
    Image {
        resource_id: String,
        temp_url: String,
        width: i32,
        height: i32,
        summary: String,
        sub_type: String,
    },
    /// A voice recording.
    Record { resource_id: String, temp_url: String, duration: i32 },
    /// A video.
    Video { resource_id: String, temp_url: String, width: i32, height: i32, duration: i32 },
    /// A file.
    File { file_id: String, file_name: String, file_size: i64, file_hash: Option<String> },
    /// A reference to a combined forward.
    Forward { forward_id: String },
    /// A marketplace face.
    MarketFace { url: String },
    /// A light application card.
    LightApp { app_name: String, json_payload: String },
    /// An XML card.
    XML { service_id: i32, xml_payload: String },
}

} // verus!
