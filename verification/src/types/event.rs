//! The typed event model: one closed union of event kinds, selected on the
//! wire by a two-key tag (`event_type` beside a `data` payload), and, for
//! received messages, a second discriminator (`message_scene`) found inside
//! the payload itself.

use vstd::prelude::*;

use crate::types::common::MessageScene;
use crate::types::message::in_coming::{FriendMessage, GroupMessage, TempMessage};

verus! {

/// One platform event, as delivered to the consumer.
#[derive(Clone, Debug)]
pub struct Event {
    /// When the event happened, as a Unix timestamp in seconds.
    pub time: i64,
    /// The receiving bot's own account number.
    pub self_id: i64,
    /// What happened.
    pub kind: EventKind,
}

/// The closed set of event kinds.
#[derive(Clone, Debug)]
pub enum EventKind {
    /// The bot went offline.
    BotOffline(BotOfflineData),
    /// A message arrived; its shape is selected by its scene.
    MessageReceive(MessageEvent),
    /// A message was recalled.
    MessageRecall(MessageRecallData),
    /// A friend request arrived.
    FriendRequest(FriendRequestData),
    /// Someone asked to join a group.
    GroupJoinRequest(GroupJoinRequestData),
    /// A member invited someone into a group.
    GroupInvitedJoinRequest(GroupInvitedJoinRequestData),
    /// The bot was invited into a group.
    GroupInvitationRequest(GroupInvitationRequestData),
    /// A friend nudged, or was nudged by, the bot.
    FriendNudge(FriendNudgeData),
    /// A file was exchanged in a direct conversation.
    FriendFileUpload(FriendFileUploadData),
    /// A member was made or unmade administrator.
    GroupAdminChange(GroupAdminChangeData),
    /// A group message was marked or unmarked as highlighted.
    GroupEssenceMessageChange(GroupEssenceMessageChangeData),
    /// A member joined a group.
    GroupMemberIncrease(GroupMemberIncreaseData),
    /// A member left or was removed from a group.
    GroupMemberDecrease(GroupMemberDecreaseData),
    /// A group was renamed.
    GroupNameChange(GroupNameChangeData),
    /// A reaction was added to or removed from a group message.
    GroupMessageReaction(GroupMessageReactionData),
    /// A member was muted or unmuted.
    GroupMute(GroupMuteData),
    /// A whole group was muted or unmuted.
    GroupWholeMute(GroupWholeMuteData),
    /// A nudge happened inside a group.
    GroupNudge(GroupNudgeData),
    /// A file was uploaded to a group.
    GroupFileUpload(GroupFileUploadData),
}

/// A received message, in one of three shapes selected by the
/// `message_scene` field inside the payload.
#[derive(Clone, Debug)]
pub enum MessageEvent {
    /// A direct message, with the sender's friend profile.
    Friend(FriendMessage),
    /// A group message, with the group's and the sender's profiles.
    Group(GroupMessage),
    /// A transient-session message, with its originating group if any.
    Temp(TempMessage),
}

/// Why the bot went offline.
#[derive(Clone, Debug)]
pub struct BotOfflineData {
    /// The platform's stated reason.
    pub reason: String,
}

/// A recalled message.
#[derive(Clone, Debug)]
pub struct MessageRecallData {
    /// The scene the recalled message belonged to.
    pub message_scene: MessageScene,
    /// The friend or group concerned.
    pub peer_id: i64,
    /// The recalled message's sequence number.
    pub message_seq: i64,
    /// The recalled message's sender.
    pub sender_id: i64,
    /// Who performed the recall.
    pub operator_id: i64,
}

/// An incoming friend request.
#[derive(Clone, Debug)]
pub struct FriendRequestData {
    /// The handle used to accept or reject the request.
    pub request_id: String,
    /// The requesting account.
    pub operator_id: i64,
    /// Text attached to the request.
    pub comment: Option<String>,
    /// How the request was made.
    pub via: Option<String>,
}

/// Someone asked to join a group.
#[derive(Clone, Debug)]
pub struct GroupJoinRequestData {
    pub request_id: String,
    pub operator_id: i64,
    pub group_id: i64,
    pub comment: Option<String>,
}

/// A member invited someone into a group.
#[derive(Clone, Debug)]
pub struct GroupInvitedJoinRequestData {
    pub request_id: String,
    pub operator_id: i64,
    pub group_id: i64,
    pub invitee_id: i64,
}

/// The bot was invited into a group.
#[derive(Clone, Debug)]
pub struct GroupInvitationRequestData {
    pub request_id: String,
    pub operator_id: i64,
    pub group_id: i64,
}

/// A nudge in a direct conversation.
#[derive(Clone, Debug)]
pub struct FriendNudgeData {
    /// The friend concerned.
    pub user_id: i64,
    /// Whether the bot sent the nudge.
    pub is_self_send: bool,
    /// Whether the bot received the nudge.
    pub is_self_receive: bool,
}

/// A file exchanged in a direct conversation.
#[derive(Clone, Debug)]
pub struct FriendFileUploadData {
    pub user_id: i64,
    pub file_id: String,
    pub file_name: String,
    pub file_size: i64,
    pub is_self: bool,
}

/// A member was made or unmade administrator.
#[derive(Clone, Debug)]
pub struct GroupAdminChangeData {
    pub group_id: i64,
    pub user_id: i64,
    pub is_set: bool,
}

/// A message was marked or unmarked as highlighted.
#[derive(Clone, Debug)]
pub struct GroupEssenceMessageChangeData {
    pub group_id: i64,
    pub message_seq: i64,
    pub is_set: bool,
}

/// A member joined a group.
#[derive(Clone, Debug)]
pub struct GroupMemberIncreaseData {
    pub group_id: i64,
    pub user_id: i64,
    /// The approving administrator, where applicable.
    pub operator_id: Option<i64>,
    /// The inviting member, where applicable.
    pub invitor_id: Option<i64>,
}

/// A member left or was removed from a group.
#[derive(Clone, Debug)]
pub struct GroupMemberDecreaseData {
    pub group_id: i64,
    pub user_id: i64,
    /// The removing administrator, where applicable.
    pub operator_id: Option<i64>,
}

/// A group was renamed.
#[derive(Clone, Debug)]
pub struct GroupNameChangeData {
    pub group_id: i64,
    /// The new name.
    pub name: String,
    pub operator_id: i64,
}

/// A reaction was added to or removed from a group message.
#[derive(Clone, Debug)]
pub struct GroupMessageReactionData {
    pub group_id: i64,
    pub user_id: i64,
    pub message_seq: i64,
    pub face_id: String,
    /// `true` for added; a missing value means added.
    pub is_add: Option<bool>,
}

/// A member was muted or unmuted.
#[derive(Clone, Debug)]
pub struct GroupMuteData {
    pub group_id: i64,
    pub user_id: i64,
    /// The mute's length in seconds; zero means unmuted.
    pub duration: i32,
}

/// A whole group was muted or unmuted.
#[derive(Clone, Debug)]
pub struct GroupWholeMuteData {
    pub group_id: i64,
    pub operator_id: i64,
    pub is_mute: bool,
}

/// A nudge inside a group.
#[derive(Clone, Debug)]
pub struct GroupNudgeData {
    pub group_id: i64,
    pub sender_id: i64,
    pub receiver_id: i64,
}

/// A file uploaded to a group.
#[derive(Clone, Debug)]
pub struct GroupFileUploadData {
    pub group_id: i64,
    pub user_id: i64,
    pub file_id: String,
    pub file_name: String,
    pub file_size: i64,
}

} // verus!
