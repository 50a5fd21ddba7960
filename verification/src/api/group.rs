//! Records of the group management and interaction operations.

use vstd::prelude::*;

use crate::types::group::{GroupAnnouncement, GroupEssenceMessage, GroupNotification};

verus! {

/// The default of the affirmative flags in these records.
pub fn default_true() -> (r: bool)
    ensures
        r,
{
    true
}

/// Which request feed a notification verdict addresses.
#[derive(Clone, Copy, Debug, PartialEq, Eq, Structural)]
pub enum GroupNotificationType {
    JoinRequest,
    InvitedJoinRequest,
}

pub struct SetGroupNameRequest {
    pub group_id: i64,
    pub new_group_name: String,
}

pub struct SetGroupNameParams {
    pub group_id: i64,
    pub new_group_name: String,
}

pub struct SetGroupAvatarRequest {
    pub group_id: i64,
    /// A `file://`, `http(s)://` or `base64://` address.
    pub image_uri: String,
}

pub struct SetGroupAvatarParams {
    pub group_id: i64,
    pub image_uri: String,
}

pub struct SetGroupMemberCardRequest {
    pub group_id: i64,
    pub user_id: i64,
    pub card: String,
}

pub struct SetGroupMemberCardParams {
    pub group_id: i64,
    pub user_id: i64,
    pub card: String,
}

pub struct SetGroupMemberSpecialTitleRequest {
    pub group_id: i64,
    pub user_id: i64,
    pub special_title: String,
}

pub struct SetGroupMemberSpecialTitleParams {
    pub group_id: i64,
    pub user_id: i64,
    pub special_title: String,
}

pub struct SetGroupMemberAdminRequest {
    pub group_id: i64,
    pub user_id: i64,
    pub is_set: bool,
}

impl SetGroupMemberAdminRequest {
    /// An administrator change; a missing flag defaults to granting.
    pub fn new(group_id: i64, user_id: i64, is_set: Option<bool>) -> (r: Self)
        ensures
            r.group_id == group_id,
            r.user_id == user_id,
            r.is_set == (match is_set {
                Some(b) => b,
                None => true,
            }),
    {
        let is_set = match is_set {
            Some(b) => b,
            None => true,
        };
        Self { group_id, user_id, is_set }
    }
}

pub struct SetGroupMemberAdminParams {
    pub group_id: i64,
    pub user_id: i64,
    pub is_set: bool,
}

pub struct SetGroupMemberMuteRequest {
    pub group_id: i64,
    pub user_id: i64,
    /// Seconds; zero lifts the mute.
    pub duration: i64,
}

impl SetGroupMemberMuteRequest {
    /// A mute change; a missing duration defaults to lifting the mute.
    pub fn new(group_id: i64, user_id: i64, duration: Option<i64>) -> (r: Self)
        ensures
            r.group_id == group_id,
            r.user_id == user_id,
            r.duration == (match duration {
                Some(s) => s,
                None => 0i64,
            }),
    {
        let duration = match duration {
            Some(s) => s,
            None => 0,
        };
        Self { group_id, user_id, duration }
    }
}

pub struct SetGroupMemberMuteParams {
    pub group_id: i64,
    pub user_id: i64,
    pub duration: i64,
}

pub struct SetGroupWholeMuteRequest {
    pub group_id: i64,
    pub is_mute: bool,
}

impl SetGroupWholeMuteRequest {
    /// A whole-group mute change; a missing flag defaults to muting.
    pub fn new(group_id: i64, is_mute: Option<bool>) -> (r: Self)
        ensures
            r.group_id == group_id,
            r.is_mute == (match is_mute {
                Some(b) => b,
                None => true,
            }),
    {
        let is_mute = match is_mute {
            Some(b) => b,
            None => true,
        };
        Self { group_id, is_mute }
    }
}

pub struct SetGroupWholeMuteParams {
    pub group_id: i64,
    pub is_mute: bool,
}

pub struct KickGroupMemberRequest {
    pub group_id: i64,
    pub user_id: i64,
    pub reject_add_request: bool,
}

impl KickGroupMemberRequest {
    /// A removal; a missing flag defaults to rejecting later join requests.
    pub fn new(group_id: i64, user_id: i64, reject_add_request: Option<bool>) -> (r: Self)
        ensures
            r.group_id == group_id,
            r.user_id == user_id,
            r.reject_add_request == (match reject_add_request {
                Some(b) => b,
                None => true,
            }),
    {
        let reject_add_request = match reject_add_request {
            Some(b) => b,
            None => true,
        };
        Self { group_id, user_id, reject_add_request }
    }
}

pub struct KickGroupMemberParams {
    pub group_id: i64,
    pub user_id: i64,
    pub reject_add_request: bool,
}

pub struct GetGroupAnnouncementListRequest {
    pub group_id: i64,
}

pub struct GetGroupAnnouncementListParams {
    pub group_id: i64,
}

pub struct GetGroupAnnouncementListResponse {
    pub announcements: Vec<GroupAnnouncement>,
}

pub struct SendGroupAnnouncementRequest {
    pub group_id: i64,
    pub content: String,
    pub image_uri: Option<String>,
}

pub struct SendGroupAnnouncementParams {
    pub group_id: i64,
    pub content: String,
    pub image_uri: String,
}

pub struct DeleteGroupAnnouncementRequest {
    pub group_id: i64,
    pub announcement_id: i64,
}

pub struct DeleteGroupAnnouncementParams {
    pub group_id: i64,
    pub announcement_id: i64,
}

pub struct GetGroupEssenceMessagesRequest {
    pub group_id: i64,
    pub page_index: i32,
    pub page_size: i32,
}

pub struct GetGroupEssenceMessagesParams {
    pub group_id: i64,
    pub page_index: i32,
    pub page_size: i32,
}

pub struct GetGroupEssenceMessagesResponse {
    pub messages: Vec<GroupEssenceMessage>,
    pub is_end: bool,
}

pub struct SetGroupEssenceMessageRequest {
    pub group_id: i64,
    pub message_seq: i64,
    pub is_set: bool,
}

impl SetGroupEssenceMessageRequest {
    /// A highlight change; a missing flag defaults to highlighting.
    pub fn new(group_id: i64, message_seq: i64, is_set: Option<bool>) -> (r: Self)
        ensures
            r.group_id == group_id,
            r.message_seq == message_seq,
            r.is_set == (match is_set {
                Some(b) => b,
                None => true,
            }),
    {
        let is_set = match is_set {
            Some(b) => b,
            None => true,
        };
        Self { group_id, message_seq, is_set }
    }
}

pub struct SetGroupEssenceMessageParams {
    pub group_id: i64,
    pub message_seq: i64,
    pub is_set: bool,
}

pub struct QuitGroupRequest {
    pub group_id: i64,
}

pub struct QuitGroupParams {
    pub group_id: i64,
}

pub struct SendGroupMessageReactionRequest {
    pub group_id: i64,
    pub message_seq: i64,
    pub reaction: String,
    pub is_add: bool,
}

impl SendGroupMessageReactionRequest {
    /// A reaction change; a missing flag defaults to adding.
    pub fn new(group_id: i64, message_seq: i64, reaction: String, is_add: Option<bool>) -> (r:
        Self)
        ensures
            r.group_id == group_id,
            r.message_seq == message_seq,
            r.reaction == reaction,
            r.is_add == (match is_add {
                Some(b) => b,
                None => true,
            }),
    {
        let is_add = match is_add {
            Some(b) => b,
            None => true,
        };
        Self { group_id, message_seq, reaction, is_add }
    }
}

pub struct SendGroupMessageReactionParams {
    pub group_id: i64,
    pub message_seq: i64,
    pub reaction: String,
    pub is_add: bool,
}

pub struct SendGroupNudgeRequest {
    pub group_id: i64,
    pub user_id: i64,
}

pub struct SendGroupNudgeParams {
    pub group_id: i64,
    pub user_id: i64,
}

pub struct GetGroupNotificationsRequest {
    pub start_notification_seq: Option<i64>,
    pub is_filtered: bool,
    pub limit: i32,
}

impl GetGroupNotificationsRequest {
    /// A feed request; a missing filter flag defaults to the unfiltered
    /// feed and a missing limit to twenty.
    pub fn new(
        start_notification_seq: Option<i64>,
        is_filtered: Option<bool>,
        limit: Option<i32>,
    ) -> (r: Self)
        ensures
            r.start_notification_seq == start_notification_seq,
            r.is_filtered == (match is_filtered {
                Some(b) => b,
                None => false,
            }),
            r.limit == (match limit {
                Some(l) => l,
                None => 20i32,
            }),
    {
        let is_filtered = match is_filtered {
            Some(b) => b,
            None => false,
        };
        let limit = match limit {
            Some(l) => l,
            None => 20,
        };
        Self { start_notification_seq, is_filtered, limit }
    }
}

pub struct GetGroupNotificationParams {
    pub start_notification_seq: Option<i64>,
    pub is_filtered: bool,
    pub limit: i32,
}

pub struct GetGroupNotificationResponse {
    pub notifications: Vec<GroupNotification>,
    pub next_notification_seq: Option<i64>,
}

pub struct AcceptGroupRequestRequest {
    pub notification_seq: String,
    pub notification_type: GroupNotificationType,
    pub group_id: i64,
    pub is_filtered: bool,
}

pub struct AcceptGroupRequestParams {
    pub notification_seq: String,
    pub is_filtered: bool,
}

pub struct RejectGroupRequestRequest {
    pub notification_seq: String,
    pub notification_type: GroupNotificationType,
    pub group_id: i64,
    pub is_filtered: bool,
    pub reason: Option<String>,
}

pub struct RejectGroupRequestParams {
    pub notification_seq: String,
    pub is_filtered: bool,
    pub reason: Option<String>,
}

pub struct AcceptGroupInvitationRequest {
    pub group_id: i64,
    pub invitation_seq: String,
}

pub struct AcceptGroupInvitationParams {
    pub group_id: i64,
    pub invitation_seq: String,
}

pub struct RejectGroupInvitationRequest {
    pub group_id: i64,
    pub invitation_seq: String,
}

pub struct RejectGroupInvitationParams {
    pub group_id: i64,
    pub invitation_seq: String,
}

} // verus!
