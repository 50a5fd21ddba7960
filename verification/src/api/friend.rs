//! Records of the friend interaction operations.

use vstd::prelude::*;

use crate::types::friend::FriendRequest;

verus! {

pub struct SendFriendNudgeRequest {
    pub user_id: i64,
    pub is_self: bool,
}

impl SendFriendNudgeRequest {
    /// A nudge request; a missing `is_self` defaults to nudging the friend.
    pub fn new(user_id: i64, is_self: Option<bool>) -> (r: Self)
        ensures
            r.user_id == user_id,
            r.is_self == (match is_self {
                Some(b) => b,
                None => false,
            }),
    {
        let is_self = match is_self {
            Some(b) => b,
            None => false,
        };
        Self { user_id, is_self }
    }
}

pub struct SendFriendNudgeParams {
    pub user_id: i64,
    pub is_self: bool,
}

pub struct SendProfileLikeRequest {
    pub user_id: i64,
    /// How many likes; the platform bounds the daily total.
    pub count: i32,
}

impl SendProfileLikeRequest {
    /// A like request; a missing count defaults to one.
    pub fn new(user_id: i64, count: Option<i32>) -> (r: Self)
        ensures
            r.user_id == user_id,
            r.count == (match count {
                Some(c) => c,
                None => 1i32,
            }),
    {
        let count = match count {
            Some(c) => c,
            None => 1,
        };
        Self { user_id, count }
    }
}

pub struct SendProfileLikeParams {
    pub user_id: i64,
    pub count: i32,
}

pub struct GetFriendRequestsRequest {
    pub limit: i32,
    pub is_filtered: bool,
}

impl GetFriendRequestsRequest {
    /// A listing request; a missing limit defaults to twenty, and a missing
    /// filter flag to the unfiltered feed.
    pub fn new(limit: Option<i32>, is_filtered: Option<bool>) -> (r: Self)
        ensures
            r.limit == (match limit {
                Some(l) => l,
                None => 20i32,
            }),
            r.is_filtered == (match is_filtered {
                Some(b) => b,
                None => false,
            }),
    {
        let limit = match limit {
            Some(l) => l,
            None => 20,
        };
        let is_filtered = match is_filtered {
            Some(b) => b,
            None => false,
        };
        Self { limit, is_filtered }
    }
}

pub struct GetFriendRequestsResponse {
    pub requests: Vec<FriendRequest>,
}

pub struct AcceptFriendRequestRequest {
    pub initiator_uid: i64,
    pub is_filtered: bool,
}

pub struct RejectFriendRequestRequest {
    pub initiator_uid: i64,
    pub is_filtered: bool,
    pub reason: String,
}

} // verus!
