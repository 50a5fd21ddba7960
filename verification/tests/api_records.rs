//! The defaults the request builders fill in.

use milky::api::file::{MoveGroupFileRequest, UploadGroupFileRequest};
use milky::api::friend::{GetFriendRequestsRequest, SendFriendNudgeRequest, SendProfileLikeRequest};
use milky::api::group::{
    default_true, GetGroupNotificationsRequest, KickGroupMemberRequest, SetGroupMemberAdminRequest,
    SetGroupMemberMuteRequest, SetGroupWholeMuteRequest,
};
use milky::api::message::GetHistoryMessageParams;
use milky::types::common::MessageScene;

#[test]
fn affirmative_flags_default_to_true() {
    assert!(default_true());
    assert!(SetGroupMemberAdminRequest::new(1, 2, None).is_set);
    assert!(!SetGroupMemberAdminRequest::new(1, 2, Some(false)).is_set);
    assert!(SetGroupWholeMuteRequest::new(1, None).is_mute);
    assert!(KickGroupMemberRequest::new(1, 2, None).reject_add_request);
}

#[test]
fn numeric_defaults() {
    assert_eq!(SetGroupMemberMuteRequest::new(1, 2, None).duration, 0);
    assert_eq!(SetGroupMemberMuteRequest::new(1, 2, Some(60)).duration, 60);
    assert_eq!(SendProfileLikeRequest::new(1, None).count, 1);
    let fr = GetFriendRequestsRequest::new(None, None);
    assert_eq!(fr.limit, 20);
    assert!(!fr.is_filtered);
    let gn = GetGroupNotificationsRequest::new(None, None, None);
    assert_eq!(gn.limit, 20);
    assert!(!gn.is_filtered);
    let h = GetHistoryMessageParams::new(MessageScene::Group, 5, None, None);
    assert_eq!(h.limit, 20);
    assert_eq!(h.peer_id, 5);
}

#[test]
fn folder_defaults_to_root() {
    let up = UploadGroupFileRequest::new(1, None, "file:///a".to_string(), "a".to_string());
    assert_eq!(up.parent_folder_id, "/");
    let mv = MoveGroupFileRequest::new(1, "f".to_string(), None, Some("t".to_string()));
    assert_eq!(mv.parent_folder_id, "/");
    assert_eq!(mv.target_folder_id, "t");
}

#[test]
fn nudge_defaults_to_the_friend() {
    assert!(!SendFriendNudgeRequest::new(1, None).is_self);
    assert!(SendFriendNudgeRequest::new(1, Some(true)).is_self);
}
