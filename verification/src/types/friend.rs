//! Friends and friend requests.

use vstd::prelude::*;

use crate::types::common::Sex;

verus! {

/// A friend's profile.
#[derive(Clone, Debug)]
pub struct Friend {
    /// The friend's account number.
    pub user_id: i64,
    /// The friend's nickname.
    pub nickname: String,
    /// The friend's declared sex.
    pub sex: Sex,
    /// An optional secondary identifier.
    pub qid: Option<String>,
    /// The remark set for this friend.
    pub remark: String,
    /// The category the friend is filed under, if any.
    pub category: Option<FriendCategory>,
}

/// A friend-list category.
#[derive(Clone, Debug)]
pub struct FriendCategory {
    /// The category's identifier.
    pub category_id: i32,
    /// The category's display name.
    pub category_name: String,
}

/// The processing state of a friend request.
#[derive(Clone, Copy, Debug, PartialEq, Eq, Structural)]
pub enum FriendRequestState {
    Pending,
    Accepted,
    Rejected,
    Ignored,
}

/// A pending or settled friend request.
#[derive(Clone, Debug)]
pub struct FriendRequest {
    /// When the request was made, as a Unix timestamp in seconds.
    pub time: i64,
    /// The requesting account.
    pub initiator_id: i64,
    /// The requesting account's opaque identifier.
    pub initiator_uid: String,
    /// The target account.
    pub target_user_id: i64,
    /// The target account's opaque identifier.
    pub target_user_uid: String,
    /// The request's state.
    pub state: FriendRequestState,
    /// Text attached to the request.
    pub comment: String,
    /// How the request was made.
    pub via: String,
    /// Whether the request was filed as coming from a risk account.
    pub is_filtered: bool,
}

} // verus!
