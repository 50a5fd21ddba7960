//! Records of the account and directory operations.

use vstd::prelude::*;

use crate::types::common::{Platform, Sex};
use crate::types::friend::Friend;
use crate::types::group::{Group, GroupMember};

verus! {

/// Asks for the logged-in account's identity.
pub struct GetLoginInfoRequest {}

/// Alias shape kept for callers of the older parameter names.
pub struct GetLoginInfoParams {}

/// The logged-in account's identity.
pub struct GetLoginInfoResponse {
    /// The account number.
    pub uin: i64,
    /// The account's nickname.
    pub nickname: String,
}

pub struct GetImplInfoRequest {}

pub struct GetImplInfoParams {}

/// What the protocol implementation reports about itself.
pub struct GetImplInfoResponse {
    pub impl_name: String,
    pub impl_version: String,
    pub qq_protocol_version: String,
    pub qq_protocol_type: Platform,
    pub milky_version: String,
}

pub struct GetUserProfileRequest {
    pub user_id: i64,
}

pub struct GetUserProfileParams {
    pub user_id: i64,
}

/// A user's profile card.
pub struct GetUserProfileResponse {
    pub nickname: String,
    pub qid: String,
    pub age: i32,
    pub sex: Sex,
    pub remark: String,
    pub bio: String,
    pub level: i32,
    pub country: String,
    pub city: String,
    pub school: String,
}

pub struct GetFriendListRequest {
    /// Skip the cache and ask the server.
    pub no_cache: bool,
}

pub struct GetFriendListParams {
    pub no_cache: bool,
}

pub struct GetFriendListResponse {
    pub friends: Vec<Friend>,
}

pub struct GetFriendInfoRequest {
    pub user_id: i64,
    pub no_cache: bool,
}

pub struct GetFriendInfoParams {
    pub user_id: i64,
    pub no_cache: bool,
}

pub struct GetFriendInfoResponse {
    pub friend: Friend,
}

pub struct GetGroupListRequest {
    pub no_cache: bool,
}

pub struct GetGroupListParams {
    pub no_cache: bool,
}

pub struct GetGroupListResponse {
    pub groups: Vec<Group>,
}

pub struct GetGroupInfoRequest {
    pub group_id: i64,
    pub no_cache: bool,
}

pub struct GetGroupInfoParams {
    pub group_id: i64,
    pub no_cache: bool,
}

pub struct GetGroupInfoResponse {
    pub group: Group,
}

pub struct GetGroupMemberListRequest {
    pub group_id: i64,
    pub no_cache: bool,
}

pub struct GetGroupMemberListParams {
    pub group_id: i64,
    pub no_cache: bool,
}

pub struct GetGroupMemberListResponse {
    pub members: Vec<GroupMember>,
}

pub struct GetGroupMemberInfoRequest {
    pub group_id: i64,
    pub user_id: i64,
    pub no_cache: bool,
}

pub struct GetGroupMemberInfoParams {
    pub group_id: i64,
    pub user_id: i64,
    pub no_cache: bool,
}

pub struct GetGroupMemberInfoResponse {
    pub member: GroupMember,
}

pub struct GetCookiesRequest {
    pub domain: String,
}

pub struct GetCookiesParams {
    pub domain: String,
}

pub struct GetCookiesResponse {
    pub cookies: String,
}

pub struct GetCsrfTokenRequest {}

pub struct GetCsrfTokenParams {}

pub struct GetCsrfTokenResponse {
    pub csrf_token: String,
}

pub struct SetAvatarRequest {
    /// A `file://`, `http(s)://` or `base64://` address.
    pub uri: String,
}

pub struct SetNicknameRequest {
    pub new_nickname: String,
}

pub struct SetBioRequest {
    pub new_bio: String,
}

pub struct GetCustomFaceUrlListRequest {}

pub struct GetCustomFaceUrlListResponse {
    pub faces: Vec<String>,
}

/// Decodes the payload of a `get_login_info` call.
pub open spec fn dec_login_info(v: crate::json::JsonValue) -> Result<
    GetLoginInfoResponse,
    crate::error::DecodeError,
> {
    match crate::codec::fld_i64(v, "uin"@) {
        Err(e) => Err(e),
        Ok(uin) => match crate::codec::fld_str(v, "nickname"@) {
            Err(e) => Err(e),
            Ok(nickname) => Ok(GetLoginInfoResponse { uin, nickname }),
        },
    }
}

impl GetLoginInfoResponse {
    /// Decodes a call's `data` payload into the typed result, exactly as
    /// `dec_login_info` denotes.
    pub fn from_data(v: &crate::json::JsonValue) -> (r: Result<Self, crate::error::DecodeError>)
        ensures
            r == dec_login_info(*v),
    {
        match crate::event_codec::x_fld_i64(v, "uin") {
            Err(e) => Err(e),
            Ok(uin) => match crate::event_codec::x_fld_str(v, "nickname") {
                Err(e) => Err(e),
                Ok(nickname) => Ok(GetLoginInfoResponse { uin, nickname }),
            },
        }
    }
}

} // verus!
