//! Groups, their members, announcements, files and notifications.

use vstd::prelude::*;

use crate::types::common::{RequestState, Sex};
use crate::types::message::in_coming::IncomingSegment;

verus! {

/// A member's role within a group.
#[derive(Clone, Copy, Debug, PartialEq, Eq, Structural)]
pub enum GroupRole {
    Owner,
    Admin,
    Member,
}

/// A group's profile.
#[derive(Clone, Debug)]
pub struct Group {
    /// The group's number.
    pub group_id: i64,
    /// The group's display name.
    pub group_name: String,
    /// The current member count.
    pub member_count: i32,
    /// The maximum member count.
    pub max_member_count: i32,
}

/// A group member's profile.
#[derive(Clone, Debug)]
pub struct GroupMember {
    /// The member's account number.
    pub user_id: i64,
    /// The member's nickname.
    pub nickname: String,
    /// The member's declared sex.
    pub sex: Sex,
    /// The group this profile belongs to.
    pub group_id: i64,
    /// The member's name card in the group.
    pub card: String,
    /// The member's special title.
    pub title: String,
    /// The member's level within the group.
    pub level: i32,
    /// The member's role within the group.
    pub role: GroupRole,
    /// When the member joined, as a Unix timestamp in seconds.
    pub join_time: i64,
    /// When the member last spoke, as a Unix timestamp in seconds.
    pub last_sent_time: i64,
    /// When a mute on the member ends, if one is in force.
    pub shut_up_end_time: Option<i64>,
}

/// One of a group's highlighted messages.
#[derive(Clone, Debug)]
pub struct GroupEssenceMessage {
    pub group_id: i64,
    pub message_seq: i64,
    pub message_time: i64,
    pub sender_id: i64,
    pub sender_name: String,
    pub operator_id: i64,
    pub operator_name: String,
    pub operation_time: i64,
    pub segments: Vec<IncomingSegment>,
}

/// A group announcement.
#[derive(Clone, Debug)]
pub struct GroupAnnouncement {
    pub group_id: i64,
    pub announcement_id: String,
    pub user_id: i64,
    pub time: i64,
    pub content: String,
    pub image_url: Option<String>,
}

/// A file in a group's file space.
#[derive(Clone, Debug)]
pub struct GroupFile {
    pub group_id: i64,
    pub file_id: String,
    pub file_name: String,
    pub parent_folder_id: String,
    pub file_size: i64,
    pub uploaded_time: i64,
    pub expire_time: i64,
    pub uploader_id: i64,
    pub downloaded_times: i32,
}

/// A folder in a group's file space.
#[derive(Clone, Debug)]
pub struct GroupFolder {
    pub group_id: i64,
    pub folder_id: String,
    pub parent_folder_id: String,
    pub folder_name: String,
    pub created_time: i64,
    pub last_modified_time: i64,
    pub creator_id: i64,
    pub file_count: i32,
}

/// One entry in a group's notification feed.
#[derive(Clone, Debug)]
pub struct GroupNotification {
    /// The group concerned.
    pub group_id: i64,
    /// The acting account.
    pub operator_id: i64,
    /// The notification's sequence number.
    pub notification_seq: i64,
    /// What happened.
    pub notification_kind: GroupNotificationKind,
}

/// The kinds of group notification.
#[derive(Clone, Debug)]
pub enum GroupNotificationKind {
    JoinRequest { is_filtered: bool, initiator_id: i64, state: RequestState, comment: String },
    AdminChange { target_user_id: i64, is_set: bool },
    Kick { target_user_id: i64 },
    Quit { target_user_id: i64 },
    InvitedJoinRequest { initiator_id: i64, target_user_id: i64, state: RequestState },
}

} // verus!
