//! The decode and encode rules of the event wire format, as mathematics.
//!
//! Encoding maps an event to its wire document model ([`JsonModel`]);
//! decoding maps a document tree to an event or a [`DecodeError`].  Because
//! a decoded message carries its segments in a vector, which spec functions
//! cannot build, decoding targets a ghost image of the event
//! ([`EventM`]) in which segment vectors are sequences; `event_m` maps a
//! delivered [`Event`] to that image.
//!
//! The decoders are total: every tree maps to an event image or an error.

use vstd::prelude::*;

use crate::error::DecodeError;
use crate::json::{jv_model, spec_obj_get, JsonModel, JsonValue};
use crate::types::common::MessageScene;
use crate::types::common::Sex;
use crate::types::event::{
    BotOfflineData, Event, EventKind, FriendFileUploadData, FriendNudgeData, FriendRequestData,
    GroupAdminChangeData, GroupEssenceMessageChangeData, GroupFileUploadData,
    GroupInvitationRequestData, GroupInvitedJoinRequestData, GroupJoinRequestData,
    GroupMemberDecreaseData, GroupMemberIncreaseData, GroupMessageReactionData, GroupMuteData,
    GroupNameChangeData, GroupNudgeData, GroupWholeMuteData, MessageEvent, MessageRecallData,
};
use crate::types::friend::{Friend, FriendCategory};
use crate::types::group::{Group, GroupMember, GroupRole};
use crate::types::message::in_coming::IncomingMessage;
use crate::types::message::in_coming::IncomingSegment;

verus! {

// ---------------------------------------------------------------------------
// The ghost image of an event.
// ---------------------------------------------------------------------------

/// A received message's shared fields, with segments as a sequence.
pub struct IncomingMessageM {
    pub peer_id: i64,
    pub message_seq: i64,
    pub sender_id: i64,
    pub time: i64,
    pub segments: Seq<IncomingSegment>,
    pub message_scene: MessageScene,
}

/// The image of a direct message.
pub struct FriendMessageM {
    pub message: IncomingMessageM,
    pub friend: Friend,
}

/// The image of a group message.
pub struct GroupMessageM {
    pub message: IncomingMessageM,
    pub group: Group,
    pub group_member: GroupMember,
}

/// The image of a transient-session message.
pub struct TempMessageM {
    pub message: IncomingMessageM,
    pub group: Option<Group>,
}

/// The image of a received message.
pub enum MessageEventM {
    Friend(FriendMessageM),
    Group(GroupMessageM),
    Temp(TempMessageM),
}

/// The image of an event kind.
pub enum EventKindM {
    BotOffline(BotOfflineData),
    MessageReceive(MessageEventM),
    MessageRecall(MessageRecallData),
    FriendRequest(FriendRequestData),
    GroupJoinRequest(GroupJoinRequestData),
    GroupInvitedJoinRequest(GroupInvitedJoinRequestData),
    GroupInvitationRequest(GroupInvitationRequestData),
    FriendNudge(FriendNudgeData),
    FriendFileUpload(FriendFileUploadData),
    GroupAdminChange(GroupAdminChangeData),
    GroupEssenceMessageChange(GroupEssenceMessageChangeData),
    GroupMemberIncrease(GroupMemberIncreaseData),
    GroupMemberDecrease(GroupMemberDecreaseData),
    GroupNameChange(GroupNameChangeData),
    GroupMessageReaction(GroupMessageReactionData),
    GroupMute(GroupMuteData),
    GroupWholeMute(GroupWholeMuteData),
    GroupNudge(GroupNudgeData),
    GroupFileUpload(GroupFileUploadData),
}

/// The image of an event.
pub struct EventM {
    pub time: i64,
    pub self_id: i64,
    pub kind: EventKindM,
}

/// The image of a delivered message's shared fields.
pub open spec fn msg_m(m: IncomingMessage) -> IncomingMessageM {
    IncomingMessageM {
        peer_id: m.peer_id,
        message_seq: m.message_seq,
        sender_id: m.sender_id,
        time: m.time,
        segments: m.segments@,
        message_scene: m.message_scene,
    }
}

/// The image of a delivered message event.
pub open spec fn message_event_m(me: MessageEvent) -> MessageEventM {
    match me {
        MessageEvent::Friend(f) => MessageEventM::Friend(
            FriendMessageM { message: msg_m(f.message), friend: f.friend },
        ),
        MessageEvent::Group(g) => MessageEventM::Group(
            GroupMessageM {
                message: msg_m(g.message),
                group: g.group,
                group_member: g.group_member,
            },
        ),
        MessageEvent::Temp(t) => MessageEventM::Temp(
            TempMessageM { message: msg_m(t.message), group: t.group },
        ),
    }
}

/// The image of a delivered event kind.
pub open spec fn kind_m(k: EventKind) -> EventKindM {
    match k {
        EventKind::BotOffline(d) => EventKindM::BotOffline(d),
        EventKind::MessageReceive(me) => EventKindM::MessageReceive(message_event_m(me)),
        EventKind::MessageRecall(d) => EventKindM::MessageRecall(d),
        EventKind::FriendRequest(d) => EventKindM::FriendRequest(d),
        EventKind::GroupJoinRequest(d) => EventKindM::GroupJoinRequest(d),
        EventKind::GroupInvitedJoinRequest(d) => EventKindM::GroupInvitedJoinRequest(d),
        EventKind::GroupInvitationRequest(d) => EventKindM::GroupInvitationRequest(d),
        EventKind::FriendNudge(d) => EventKindM::FriendNudge(d),
        EventKind::FriendFileUpload(d) => EventKindM::FriendFileUpload(d),
        EventKind::GroupAdminChange(d) => EventKindM::GroupAdminChange(d),
        EventKind::GroupEssenceMessageChange(d) => EventKindM::GroupEssenceMessageChange(d),
        EventKind::GroupMemberIncrease(d) => EventKindM::GroupMemberIncrease(d),
        EventKind::GroupMemberDecrease(d) => EventKindM::GroupMemberDecrease(d),
        EventKind::GroupNameChange(d) => EventKindM::GroupNameChange(d),
        EventKind::GroupMessageReaction(d) => EventKindM::GroupMessageReaction(d),
        EventKind::GroupMute(d) => EventKindM::GroupMute(d),
        EventKind::GroupWholeMute(d) => EventKindM::GroupWholeMute(d),
        EventKind::GroupNudge(d) => EventKindM::GroupNudge(d),
        EventKind::GroupFileUpload(d) => EventKindM::GroupFileUpload(d),
    }
}

/// The image of a delivered event.
pub open spec fn event_m(e: Event) -> EventM {
    EventM { time: e.time, self_id: e.self_id, kind: kind_m(e.kind) }
}

// ---------------------------------------------------------------------------
// The string tables of the closed enumerations.
// ---------------------------------------------------------------------------

/// The wire name of a scene.
pub open spec fn scene_name(s: MessageScene) -> Seq<char> {
    match s {
        MessageScene::Friend => "friend"@,
        MessageScene::Group => "group"@,
        MessageScene::Temp => "temp"@,
    }
}

/// The scene a wire name denotes.
pub open spec fn scene_of(s: Seq<char>) -> Option<MessageScene> {
    if s == "friend"@ {
        Some(MessageScene::Friend)
    } else if s == "group"@ {
        Some(MessageScene::Group)
    } else if s == "temp"@ {
        Some(MessageScene::Temp)
    } else {
        None
    }
}

/// The wire name of a sex.
pub open spec fn sex_name(s: Sex) -> Seq<char> {
    match s {
        Sex::Male => "male"@,
        Sex::Female => "female"@,
        Sex::Unknown => "unknown"@,
    }
}

/// The sex a wire name denotes.
pub open spec fn sex_of(s: Seq<char>) -> Option<Sex> {
    if s == "male"@ {
        Some(Sex::Male)
    } else if s == "female"@ {
        Some(Sex::Female)
    } else if s == "unknown"@ {
        Some(Sex::Unknown)
    } else {
        None
    }
}

/// The wire name of a group role.
pub open spec fn role_name(r: GroupRole) -> Seq<char> {
    match r {
        GroupRole::Owner => "owner"@,
        GroupRole::Admin => "admin"@,
        GroupRole::Member => "member"@,
    }
}

/// The group role a wire name denotes.
pub open spec fn role_of(s: Seq<char>) -> Option<GroupRole> {
    if s == "owner"@ {
        Some(GroupRole::Owner)
    } else if s == "admin"@ {
        Some(GroupRole::Admin)
    } else if s == "member"@ {
        Some(GroupRole::Member)
    } else {
        None
    }
}

// ---------------------------------------------------------------------------
// Field access on a document tree.
// ---------------------------------------------------------------------------

/// The required field `key` of `v`.
pub open spec fn fld(v: JsonValue, key: Seq<char>) -> Result<JsonValue, DecodeError> {
    if !(v is Obj) {
        Err(DecodeError::NotAnObject)
    } else {
        match spec_obj_get(v, key) {
            None => Err(DecodeError::MissingField),
            Some(f) => Ok(f),
        }
    }
}

/// The required integer field `key` of `v`.
pub open spec fn fld_i64(v: JsonValue, key: Seq<char>) -> Result<i64, DecodeError> {
    match fld(v, key) {
        Err(e) => Err(e),
        Ok(JsonValue::Int(i)) => Ok(i),
        Ok(_) => Err(DecodeError::WrongType),
    }
}

/// The required 32-bit integer field `key` of `v`.
pub open spec fn fld_i32(v: JsonValue, key: Seq<char>) -> Result<i32, DecodeError> {
    match fld_i64(v, key) {
        Err(e) => Err(e),
        Ok(i) => if -0x8000_0000 <= i && i <= 0x7FFF_FFFF {
            Ok(i as i32)
        } else {
            Err(DecodeError::IntOutOfRange)
        },
    }
}

/// The required string field `key` of `v`.
pub open spec fn fld_str(v: JsonValue, key: Seq<char>) -> Result<String, DecodeError> {
    match fld(v, key) {
        Err(e) => Err(e),
        Ok(JsonValue::Str(s)) => Ok(s),
        Ok(_) => Err(DecodeError::WrongType),
    }
}

/// The required boolean field `key` of `v`.
pub open spec fn fld_bool(v: JsonValue, key: Seq<char>) -> Result<bool, DecodeError> {
    match fld(v, key) {
        Err(e) => Err(e),
        Ok(JsonValue::Bool(b)) => Ok(b),
        Ok(_) => Err(DecodeError::WrongType),
    }
}

/// The optional integer field `key` of `v`; absent or null means `None`.
pub open spec fn opt_i64(v: JsonValue, key: Seq<char>) -> Result<Option<i64>, DecodeError> {
    match spec_obj_get(v, key) {
        None => Ok(None),
        Some(JsonValue::Null) => Ok(None),
        Some(JsonValue::Int(i)) => Ok(Some(i)),
        Some(_) => Err(DecodeError::WrongType),
    }
}

/// The optional string field `key` of `v`; absent or null means `None`.
pub open spec fn opt_str(v: JsonValue, key: Seq<char>) -> Result<Option<String>, DecodeError> {
    match spec_obj_get(v, key) {
        None => Ok(None),
        Some(JsonValue::Null) => Ok(None),
        Some(JsonValue::Str(s)) => Ok(Some(s)),
        Some(_) => Err(DecodeError::WrongType),
    }
}

/// The optional boolean field `key` of `v`; absent or null means `None`.
pub open spec fn opt_bool(v: JsonValue, key: Seq<char>) -> Result<Option<bool>, DecodeError> {
    match spec_obj_get(v, key) {
        None => Ok(None),
        Some(JsonValue::Null) => Ok(None),
        Some(JsonValue::Bool(b)) => Ok(Some(b)),
        Some(_) => Err(DecodeError::WrongType),
    }
}

// ---------------------------------------------------------------------------
// Encoding: event image to document model.
// ---------------------------------------------------------------------------

/// An optional member, contributed only when present.
pub open spec fn opt_member(key: Seq<char>, m: Option<JsonModel>) -> Seq<(Seq<char>, JsonModel)> {
    match m {
        Some(x) => seq![(key, x)],
        None => Seq::empty(),
    }
}

/// The model of an optional string.
pub open spec fn enc_opt_str(s: Option<String>) -> Option<JsonModel> {
    match s {
        Some(x) => Some(JsonModel::Str(x@)),
        None => None,
    }
}

/// The model of an optional integer.
pub open spec fn enc_opt_i64(i: Option<i64>) -> Option<JsonModel> {
    match i {
        Some(x) => Some(JsonModel::Int(x as int)),
        None => None,
    }
}

/// The model of an optional boolean.
pub open spec fn enc_opt_bool(b: Option<bool>) -> Option<JsonModel> {
    match b {
        Some(x) => Some(JsonModel::Bool(x)),
        None => None,
    }
}

/// The wire model of a friend-list category.
pub open spec fn enc_category(c: FriendCategory) -> JsonModel {
    JsonModel::Obj(
        seq![
            ("category_id"@, JsonModel::Int(c.category_id as int)),
            ("category_name"@, JsonModel::Str(c.category_name@)),
        ],
    )
}

/// The wire model of a friend profile.
pub open spec fn enc_friend(f: Friend) -> JsonModel {
    JsonModel::Obj(
        seq![
            ("user_id"@, JsonModel::Int(f.user_id as int)),
            ("nickname"@, JsonModel::Str(f.nickname@)),
            ("sex"@, JsonModel::Str(sex_name(f.sex))),
        ] + opt_member("qid"@, enc_opt_str(f.qid)) + seq![
            ("remark"@, JsonModel::Str(f.remark@)),
        ] + opt_member(
            "category"@,
            match f.category {
                Some(c) => Some(enc_category(c)),
                None => None,
            },
        ),
    )
}

/// The wire model of a group profile.
pub open spec fn enc_group(g: Group) -> JsonModel {
    JsonModel::Obj(
        seq![
            ("group_id"@, JsonModel::Int(g.group_id as int)),
            ("group_name"@, JsonModel::Str(g.group_name@)),
            ("member_count"@, JsonModel::Int(g.member_count as int)),
            ("max_member_count"@, JsonModel::Int(g.max_member_count as int)),
        ],
    )
}

/// The wire model of a group member profile.
pub open spec fn enc_member(m: GroupMember) -> JsonModel {
    JsonModel::Obj(
        seq![
            ("user_id"@, JsonModel::Int(m.user_id as int)),
            ("nickname"@, JsonModel::Str(m.nickname@)),
            ("sex"@, JsonModel::Str(sex_name(m.sex))),
            ("group_id"@, JsonModel::Int(m.group_id as int)),
            ("card"@, JsonModel::Str(m.card@)),
            ("title"@, JsonModel::Str(m.title@)),
            ("level"@, JsonModel::Int(m.level as int)),
            ("role"@, JsonModel::Str(role_name(m.role))),
            ("join_time"@, JsonModel::Int(m.join_time as int)),
            ("last_sent_time"@, JsonModel::Int(m.last_sent_time as int)),
        ] + opt_member("shut_up_end_time"@, enc_opt_i64(m.shut_up_end_time)),
    )
}

/// A two-key tagged payload: the kind under `type`, the payload under
/// `data`.
pub open spec fn enc_tagged(tag: Seq<char>, data: JsonModel) -> JsonModel {
    JsonModel::Obj(seq![("type"@, JsonModel::Str(tag)), ("data"@, data)])
}

/// The wire model of one received segment.
pub open spec fn enc_segment(s: IncomingSegment) -> JsonModel {
    match s {
        IncomingSegment::Text { text } => enc_tagged(
            "text"@,
            JsonModel::Obj(seq![("text"@, JsonModel::Str(text@))]),
        ),
        IncomingSegment::Mention { user_id } => enc_tagged(
            "mention"@,
            JsonModel::Obj(seq![("user_id"@, JsonModel::Int(user_id as int))]),
        ),
        IncomingSegment::MentionAll {  } => enc_tagged("mention_all"@, JsonModel::Obj(Seq::empty())),
        IncomingSegment::Face { face_id } => enc_tagged(
            "face"@,
            JsonModel::Obj(seq![("face_id"@, JsonModel::Str(face_id@))]),
        ),
        IncomingSegment::Reply { message_seq } => enc_tagged(
            "reply"@,
            JsonModel::Obj(seq![("message_seq"@, JsonModel::Int(message_seq as int))]),
        ),
        IncomingSegment::Image { resource_id, temp_url, width, height, summary, sub_type } => enc_tagged(
            "image"@,
            JsonModel::Obj(
                seq![
                    ("resource_id"@, JsonModel::Str(resource_id@)),
                    ("temp_url"@, JsonModel::Str(temp_url@)),
                    ("width"@, JsonModel::Int(width as int)),
                    ("height"@, JsonModel::Int(height as int)),
                    ("summary"@, JsonModel::Str(summary@)),
                    ("sub_type"@, JsonModel::Str(sub_type@)),
                ],
            ),
        ),
        IncomingSegment::Record { resource_id, temp_url, duration } => enc_tagged(
            "record"@,
            JsonModel::Obj(
                seq![
                    ("resource_id"@, JsonModel::Str(resource_id@)),
                    ("temp_url"@, JsonModel::Str(temp_url@)),
                    ("duration"@, JsonModel::Int(duration as int)),
                ],
            ),
        ),
        IncomingSegment::Video { resource_id, temp_url, width, height, duration } => enc_tagged(
            "video"@,
            JsonModel::Obj(
                seq![
                    ("resource_id"@, JsonModel::Str(resource_id@)),
                    ("temp_url"@, JsonModel::Str(temp_url@)),
                    ("width"@, JsonModel::Int(width as int)),
                    ("height"@, JsonModel::Int(height as int)),
                    ("duration"@, JsonModel::Int(duration as int)),
                ],
            ),
        ),
        IncomingSegment::File { file_id, file_name, file_size, file_hash } => enc_tagged(
            "file"@,
            JsonModel::Obj(
                seq![
                    ("file_id"@, JsonModel::Str(file_id@)),
                    ("file_name"@, JsonModel::Str(file_name@)),
                    ("file_size"@, JsonModel::Int(file_size as int)),
                ] + opt_member("file_hash"@, enc_opt_str(file_hash)),
            ),
        ),
        IncomingSegment::Forward { forward_id } => enc_tagged(
            "forward"@,
            JsonModel::Obj(seq![("forward_id"@, JsonModel::Str(forward_id@))]),
        ),
        IncomingSegment::MarketFace { url } => enc_tagged(
            "market_face"@,
            JsonModel::Obj(seq![("url"@, JsonModel::Str(url@))]),
        ),
        IncomingSegment::LightApp { app_name, json_payload } => enc_tagged(
            "light_app"@,
            JsonModel::Obj(
                seq![
                    ("app_name"@, JsonModel::Str(app_name@)),
                    ("json_payload"@, JsonModel::Str(json_payload@)),
                ],
            ),
        ),
        IncomingSegment::XML { service_id, xml_payload } => enc_tagged(
            "xml"@,
            JsonModel::Obj(
                seq![
                    ("service_id"@, JsonModel::Int(service_id as int)),
                    ("xml_payload"@, JsonModel::Str(xml_payload@)),
                ],
            ),
        ),
    }
}

/// The wire models of a segment sequence, in order.
pub open spec fn enc_segments(ss: Seq<IncomingSegment>) -> Seq<JsonModel>
    decreases ss,
{
    if ss.len() == 0 {
        Seq::empty()
    } else {
        enc_segments(ss.drop_last()).push(enc_segment(ss.last()))
    }
}

/// The shared members of a received message's payload object.
pub open spec fn enc_msg_base(m: IncomingMessageM) -> Seq<(Seq<char>, JsonModel)> {
    seq![
        ("peer_id"@, JsonModel::Int(m.peer_id as int)),
        ("message_seq"@, JsonModel::Int(m.message_seq as int)),
        ("sender_id"@, JsonModel::Int(m.sender_id as int)),
        ("time"@, JsonModel::Int(m.time as int)),
        ("segments"@, JsonModel::Arr(enc_segments(m.segments))),
        ("message_scene"@, JsonModel::Str(scene_name(m.message_scene))),
    ]
}

/// The payload object of a received message, scene fields included.
pub open spec fn enc_message(me: MessageEventM) -> JsonModel {
    match me {
        MessageEventM::Friend(f) => JsonModel::Obj(
            enc_msg_base(f.message) + seq![("friend"@, enc_friend(f.friend))],
        ),
        MessageEventM::Group(g) => JsonModel::Obj(
            enc_msg_base(g.message) + seq![
                ("group"@, enc_group(g.group)),
                ("group_member"@, enc_member(g.group_member)),
            ],
        ),
        MessageEventM::Temp(t) => JsonModel::Obj(
            enc_msg_base(t.message) + opt_member(
                "group"@,
                match t.group {
                    Some(g) => Some(enc_group(g)),
                    None => None,
                },
            ),
        ),
    }
}

/// The outer tag of an event kind.
pub open spec fn kind_tag(k: EventKindM) -> Seq<char> {
    match k {
        EventKindM::BotOffline(_) => "bot_offline"@,
        EventKindM::MessageReceive(_) => "message_receive"@,
        EventKindM::MessageRecall(_) => "message_recall"@,
        EventKindM::FriendRequest(_) => "friend_request"@,
        EventKindM::GroupJoinRequest(_) => "group_join_request"@,
        EventKindM::GroupInvitedJoinRequest(_) => "group_invited_join_request"@,
        EventKindM::GroupInvitationRequest(_) => "group_invitation_request"@,
        EventKindM::FriendNudge(_) => "friend_nudge"@,
        EventKindM::FriendFileUpload(_) => "friend_file_upload"@,
        EventKindM::GroupAdminChange(_) => "group_admin_change"@,
        EventKindM::GroupEssenceMessageChange(_) => "group_essence_message_change"@,
        EventKindM::GroupMemberIncrease(_) => "group_member_increase"@,
        EventKindM::GroupMemberDecrease(_) => "group_member_decrease"@,
        EventKindM::GroupNameChange(_) => "group_name_change"@,
        EventKindM::GroupMessageReaction(_) => "group_message_reaction"@,
        EventKindM::GroupMute(_) => "group_mute"@,
        EventKindM::GroupWholeMute(_) => "group_whole_mute"@,
        EventKindM::GroupNudge(_) => "group_nudge"@,
        EventKindM::GroupFileUpload(_) => "group_file_upload"@,
    }
}

/// The payload object of an event kind.
pub open spec fn enc_kind_data(k: EventKindM) -> JsonModel {
    match k {
        EventKindM::BotOffline(d) => JsonModel::Obj(
            seq![("reason"@, JsonModel::Str(d.reason@))],
        ),
        EventKindM::MessageReceive(me) => enc_message(me),
        EventKindM::MessageRecall(d) => JsonModel::Obj(
            seq![
                ("message_scene"@, JsonModel::Str(scene_name(d.message_scene))),
                ("peer_id"@, JsonModel::Int(d.peer_id as int)),
                ("message_seq"@, JsonModel::Int(d.message_seq as int)),
                ("sender_id"@, JsonModel::Int(d.sender_id as int)),
                ("operator_id"@, JsonModel::Int(d.operator_id as int)),
            ],
        ),
        EventKindM::FriendRequest(d) => JsonModel::Obj(
            seq![
                ("request_id"@, JsonModel::Str(d.request_id@)),
                ("operator_id"@, JsonModel::Int(d.operator_id as int)),
            ] + opt_member("comment"@, enc_opt_str(d.comment)) + opt_member(
                "via"@,
                enc_opt_str(d.via),
            ),
        ),
        EventKindM::GroupJoinRequest(d) => JsonModel::Obj(
            seq![
                ("request_id"@, JsonModel::Str(d.request_id@)),
                ("operator_id"@, JsonModel::Int(d.operator_id as int)),
                ("group_id"@, JsonModel::Int(d.group_id as int)),
            ] + opt_member("comment"@, enc_opt_str(d.comment)),
        ),
        EventKindM::GroupInvitedJoinRequest(d) => JsonModel::Obj(
            seq![
                ("request_id"@, JsonModel::Str(d.request_id@)),
                ("operator_id"@, JsonModel::Int(d.operator_id as int)),
                ("group_id"@, JsonModel::Int(d.group_id as int)),
                ("invitee_id"@, JsonModel::Int(d.invitee_id as int)),
            ],
        ),
        EventKindM::GroupInvitationRequest(d) => JsonModel::Obj(
            seq![
                ("request_id"@, JsonModel::Str(d.request_id@)),
                ("operator_id"@, JsonModel::Int(d.operator_id as int)),
                ("group_id"@, JsonModel::Int(d.group_id as int)),
            ],
        ),
        EventKindM::FriendNudge(d) => JsonModel::Obj(
            seq![
                ("user_id"@, JsonModel::Int(d.user_id as int)),
                ("is_self_send"@, JsonModel::Bool(d.is_self_send)),
                ("is_self_receive"@, JsonModel::Bool(d.is_self_receive)),
            ],
        ),
        EventKindM::FriendFileUpload(d) => JsonModel::Obj(
            seq![
                ("user_id"@, JsonModel::Int(d.user_id as int)),
                ("file_id"@, JsonModel::Str(d.file_id@)),
                ("file_name"@, JsonModel::Str(d.file_name@)),
                ("file_size"@, JsonModel::Int(d.file_size as int)),
                ("is_self"@, JsonModel::Bool(d.is_self)),
            ],
        ),
        EventKindM::GroupAdminChange(d) => JsonModel::Obj(
            seq![
                ("group_id"@, JsonModel::Int(d.group_id as int)),
                ("user_id"@, JsonModel::Int(d.user_id as int)),
                ("is_set"@, JsonModel::Bool(d.is_set)),
            ],
        ),
        EventKindM::GroupEssenceMessageChange(d) => JsonModel::Obj(
            seq![
                ("group_id"@, JsonModel::Int(d.group_id as int)),
                ("message_seq"@, JsonModel::Int(d.message_seq as int)),
                ("is_set"@, JsonModel::Bool(d.is_set)),
            ],
        ),
        EventKindM::GroupMemberIncrease(d) => JsonModel::Obj(
            seq![
                ("group_id"@, JsonModel::Int(d.group_id as int)),
                ("user_id"@, JsonModel::Int(d.user_id as int)),
            ] + opt_member("operator_id"@, enc_opt_i64(d.operator_id)) + opt_member(
                "invitor_id"@,
                enc_opt_i64(d.invitor_id),
            ),
        ),
        EventKindM::GroupMemberDecrease(d) => JsonModel::Obj(
            seq![
                ("group_id"@, JsonModel::Int(d.group_id as int)),
                ("user_id"@, JsonModel::Int(d.user_id as int)),
            ] + opt_member("operator_id"@, enc_opt_i64(d.operator_id)),
        ),
        EventKindM::GroupNameChange(d) => JsonModel::Obj(
            seq![
                ("group_id"@, JsonModel::Int(d.group_id as int)),
                ("name"@, JsonModel::Str(d.name@)),
                ("operator_id"@, JsonModel::Int(d.operator_id as int)),
            ],
        ),
        EventKindM::GroupMessageReaction(d) => JsonModel::Obj(
            seq![
                ("group_id"@, JsonModel::Int(d.group_id as int)),
                ("user_id"@, JsonModel::Int(d.user_id as int)),
                ("message_seq"@, JsonModel::Int(d.message_seq as int)),
                ("face_id"@, JsonModel::Str(d.face_id@)),
            ] + opt_member("is_add"@, enc_opt_bool(d.is_add)),
        ),
        EventKindM::GroupMute(d) => JsonModel::Obj(
            seq![
                ("group_id"@, JsonModel::Int(d.group_id as int)),
                ("user_id"@, JsonModel::Int(d.user_id as int)),
                ("duration"@, JsonModel::Int(d.duration as int)),
            ],
        ),
        EventKindM::GroupWholeMute(d) => JsonModel::Obj(
            seq![
                ("group_id"@, JsonModel::Int(d.group_id as int)),
                ("operator_id"@, JsonModel::Int(d.operator_id as int)),
                ("is_mute"@, JsonModel::Bool(d.is_mute)),
            ],
        ),
        EventKindM::GroupNudge(d) => JsonModel::Obj(
            seq![
                ("group_id"@, JsonModel::Int(d.group_id as int)),
                ("sender_id"@, JsonModel::Int(d.sender_id as int)),
                ("receiver_id"@, JsonModel::Int(d.receiver_id as int)),
            ],
        ),
        EventKindM::GroupFileUpload(d) => JsonModel::Obj(
            seq![
                ("group_id"@, JsonModel::Int(d.group_id as int)),
                ("user_id"@, JsonModel::Int(d.user_id as int)),
                ("file_id"@, JsonModel::Str(d.file_id@)),
                ("file_name"@, JsonModel::Str(d.file_name@)),
                ("file_size"@, JsonModel::Int(d.file_size as int)),
            ],
        ),
    }
}

/// The wire model of a whole event frame: `time` and `self_id` beside the
/// two-key tag, `event_type` and `data`.
pub open spec fn enc_event(e: EventM) -> JsonModel {
    JsonModel::Obj(
        seq![
            ("time"@, JsonModel::Int(e.time as int)),
            ("self_id"@, JsonModel::Int(e.self_id as int)),
            ("event_type"@, JsonModel::Str(kind_tag(e.kind))),
            ("data"@, enc_kind_data(e.kind)),
        ],
    )
}

// ---------------------------------------------------------------------------
// Validity: the nested scene tag agrees with the shape it selects.
// ---------------------------------------------------------------------------

/// A received message is coherent when its `message_scene` field names the
/// shape it is carried in.  Decoding only ever produces coherent messages;
/// encoding requires them, since the scene field is what a decoder
/// dispatches on.
pub open spec fn wf_message_event(me: MessageEventM) -> bool {
    match me {
        MessageEventM::Friend(f) => f.message.message_scene == MessageScene::Friend,
        MessageEventM::Group(g) => g.message.message_scene == MessageScene::Group,
        MessageEventM::Temp(t) => t.message.message_scene == MessageScene::Temp,
    }
}

/// An event kind is coherent when a received message in it is.
pub open spec fn wf_event_kind(k: EventKindM) -> bool {
    match k {
        EventKindM::MessageReceive(me) => wf_message_event(me),
        _ => true,
    }
}

/// An event is coherent when its kind is.
pub open spec fn wf_event(e: EventM) -> bool {
    wf_event_kind(e.kind)
}

// ---------------------------------------------------------------------------
// Decoding: document tree to event image.
// ---------------------------------------------------------------------------

/// The required scene field `key` of `v`.
pub open spec fn dec_scene_field(v: JsonValue, key: Seq<char>) -> Result<
    MessageScene,
    DecodeError,
> {
    match fld_str(v, key) {
        Err(e) => Err(e),
        Ok(s) => match scene_of(s@) {
            Some(sc) => Ok(sc),
            None => Err(DecodeError::UnknownScene),
        },
    }
}

/// The required sex field `key` of `v`.
pub open spec fn dec_sex_field(v: JsonValue, key: Seq<char>) -> Result<Sex, DecodeError> {
    match fld_str(v, key) {
        Err(e) => Err(e),
        Ok(s) => match sex_of(s@) {
            Some(x) => Ok(x),
            None => Err(DecodeError::WrongType),
        },
    }
}

/// The required role field `key` of `v`.
pub open spec fn dec_role_field(v: JsonValue, key: Seq<char>) -> Result<GroupRole, DecodeError> {
    match fld_str(v, key) {
        Err(e) => Err(e),
        Ok(s) => match role_of(s@) {
            Some(x) => Ok(x),
            None => Err(DecodeError::WrongType),
        },
    }
}

/// Decodes a friend-list category.
pub open spec fn dec_category(v: JsonValue) -> Result<FriendCategory, DecodeError> {
    match fld_i32(v, "category_id"@) {
        Err(e) => Err(e),
        Ok(category_id) => match fld_str(v, "category_name"@) {
            Err(e) => Err(e),
            Ok(category_name) => Ok(FriendCategory { category_id, category_name }),
        },
    }
}

/// Decodes a friend profile.
pub open spec fn dec_friend(v: JsonValue) -> Result<Friend, DecodeError> {
    match fld_i64(v, "user_id"@) {
        Err(e) => Err(e),
        Ok(user_id) => match fld_str(v, "nickname"@) {
            Err(e) => Err(e),
            Ok(nickname) => match dec_sex_field(v, "sex"@) {
                Err(e) => Err(e),
                Ok(sex) => match opt_str(v, "qid"@) {
                    Err(e) => Err(e),
                    Ok(qid) => match fld_str(v, "remark"@) {
                        Err(e) => Err(e),
                        Ok(remark) => match spec_obj_get(v, "category"@) {
                            None => Ok(
                                Friend { user_id, nickname, sex, qid, remark, category: None },
                            ),
                            Some(JsonValue::Null) => Ok(
                                Friend { user_id, nickname, sex, qid, remark, category: None },
                            ),
                            Some(c) => match dec_category(c) {
                                Err(e) => Err(e),
                                Ok(cc) => Ok(
                                    Friend {
                                        user_id,
                                        nickname,
                                        sex,
                                        qid,
                                        remark,
                                        category: Some(cc),
                                    },
                                ),
                            },
                        },
                    },
                },
            },
        },
    }
}

/// Decodes a group profile.
pub open spec fn dec_group(v: JsonValue) -> Result<Group, DecodeError> {
    match fld_i64(v, "group_id"@) {
        Err(e) => Err(e),
        Ok(group_id) => match fld_str(v, "group_name"@) {
            Err(e) => Err(e),
            Ok(group_name) => match fld_i32(v, "member_count"@) {
                Err(e) => Err(e),
                Ok(member_count) => match fld_i32(v, "max_member_count"@) {
                    Err(e) => Err(e),
                    Ok(max_member_count) => Ok(
                        Group { group_id, group_name, member_count, max_member_count },
                    ),
                },
            },
        },
    }
}

/// Decodes a group member profile.
pub open spec fn dec_member(v: JsonValue) -> Result<GroupMember, DecodeError> {
    match fld_i64(v, "user_id"@) {
        Err(e) => Err(e),
        Ok(user_id) => match fld_str(v, "nickname"@) {
            Err(e) => Err(e),
            Ok(nickname) => match dec_sex_field(v, "sex"@) {
                Err(e) => Err(e),
                Ok(sex) => match fld_i64(v, "group_id"@) {
                    Err(e) => Err(e),
                    Ok(group_id) => match fld_str(v, "card"@) {
                        Err(e) => Err(e),
                        Ok(card) => match fld_str(v, "title"@) {
                            Err(e) => Err(e),
                            Ok(title) => match fld_i32(v, "level"@) {
                                Err(e) => Err(e),
                                Ok(level) => match dec_role_field(v, "role"@) {
                                    Err(e) => Err(e),
                                    Ok(role) => match fld_i64(v, "join_time"@) {
                                        Err(e) => Err(e),
                                        Ok(join_time) => match fld_i64(v, "last_sent_time"@) {
                                            Err(e) => Err(e),
                                            Ok(last_sent_time) => match opt_i64(
                                                v,
                                                "shut_up_end_time"@,
                                            ) {
                                                Err(e) => Err(e),
                                                Ok(shut_up_end_time) => Ok(
                                                    GroupMember {
                                                        user_id,
                                                        nickname,
                                                        sex,
                                                        group_id,
                                                        card,
                                                        title,
                                                        level,
                                                        role,
                                                        join_time,
                                                        last_sent_time,
                                                        shut_up_end_time,
                                                    },
                                                ),
                                            },
                                        },
                                    },
                                },
                            },
                        },
                    },
                },
            },
        },
    }
}

/// Decodes one segment: the two-key tag selects the kind, and an unknown
/// kind is rejected, never coerced.
pub open spec fn dec_segment(v: JsonValue) -> Result<IncomingSegment, DecodeError> {
    match fld_str(v, "type"@) {
        Err(e) => Err(e),
        Ok(tag) => match fld(v, "data"@) {
            Err(e) => Err(e),
            Ok(d) => dec_segment_data(tag@, d),
        },
    }
}

/// Decodes a `Text` segment payload.
pub open spec fn dec_seg_text(d: JsonValue) -> Result<IncomingSegment, DecodeError> {
    match fld_str(d, "text"@) {
        Err(e) => Err(e),
        Ok(text) =>
        Ok(IncomingSegment::Text { text }),
    }
}

/// Decodes a `Mention` segment payload.
pub open spec fn dec_seg_mention(d: JsonValue) -> Result<IncomingSegment, DecodeError> {
    match fld_i64(d, "user_id"@) {
        Err(e) => Err(e),
        Ok(user_id) =>
        Ok(IncomingSegment::Mention { user_id }),
    }
}

/// Decodes a `MentionAll` segment payload.
pub open spec fn dec_seg_mention_all(d: JsonValue) -> Result<IncomingSegment, DecodeError> {
    if d is Obj {
        Ok(IncomingSegment::MentionAll {  })
    } else {
        Err(DecodeError::NotAnObject)
    }
}

/// Decodes a `Face` segment payload.
pub open spec fn dec_seg_face(d: JsonValue) -> Result<IncomingSegment, DecodeError> {
    match fld_str(d, "face_id"@) {
        Err(e) => Err(e),
        Ok(face_id) =>
        Ok(IncomingSegment::Face { face_id }),
    }
}

/// Decodes a `Reply` segment payload.
pub open spec fn dec_seg_reply(d: JsonValue) -> Result<IncomingSegment, DecodeError> {
    match fld_i64(d, "message_seq"@) {
        Err(e) => Err(e),
        Ok(message_seq) =>
        Ok(IncomingSegment::Reply { message_seq }),
    }
}

/// Decodes a `Image` segment payload.
pub open spec fn dec_seg_image(d: JsonValue) -> Result<IncomingSegment, DecodeError> {
    match fld_str(d, "resource_id"@) {
        Err(e) => Err(e),
        Ok(resource_id) =>
        match fld_str(d, "temp_url"@) {
            Err(e) => Err(e),
            Ok(temp_url) =>
            match fld_i32(d, "width"@) {
                Err(e) => Err(e),
                Ok(width) =>
                match fld_i32(d, "height"@) {
                    Err(e) => Err(e),
                    Ok(height) =>
                    match fld_str(d, "summary"@) {
                        Err(e) => Err(e),
                        Ok(summary) =>
                        match fld_str(d, "sub_type"@) {
                            Err(e) => Err(e),
                            Ok(sub_type) =>
                            Ok(IncomingSegment::Image { resource_id, temp_url, width, height, summary, sub_type }),
                        },
                    },
                },
            },
        },
    }
}

/// Decodes a `Record` segment payload.
pub open spec fn dec_seg_record(d: JsonValue) -> Result<IncomingSegment, DecodeError> {
    match fld_str(d, "resource_id"@) {
        Err(e) => Err(e),
        Ok(resource_id) =>
        match fld_str(d, "temp_url"@) {
            Err(e) => Err(e),
            Ok(temp_url) =>
            match fld_i32(d, "duration"@) {
                Err(e) => Err(e),
                Ok(duration) =>
                Ok(IncomingSegment::Record { resource_id, temp_url, duration }),
            },
        },
    }
}

/// Decodes a `Video` segment payload.
pub open spec fn dec_seg_video(d: JsonValue) -> Result<IncomingSegment, DecodeError> {
    match fld_str(d, "resource_id"@) {
        Err(e) => Err(e),
        Ok(resource_id) =>
        match fld_str(d, "temp_url"@) {
            Err(e) => Err(e),
            Ok(temp_url) =>
            match fld_i32(d, "width"@) {
                Err(e) => Err(e),
                Ok(width) =>
                match fld_i32(d, "height"@) {
                    Err(e) => Err(e),
                    Ok(height) =>
                    match fld_i32(d, "duration"@) {
                        Err(e) => Err(e),
                        Ok(duration) =>
                        Ok(IncomingSegment::Video { resource_id, temp_url, width, height, duration }),
                    },
                },
            },
        },
    }
}

/// Decodes a `File` segment payload.
pub open spec fn dec_seg_file(d: JsonValue) -> Result<IncomingSegment, DecodeError> {
    match fld_str(d, "file_id"@) {
        Err(e) => Err(e),
        Ok(file_id) =>
        match fld_str(d, "file_name"@) {
            Err(e) => Err(e),
            Ok(file_name) =>
            match fld_i64(d, "file_size"@) {
                Err(e) => Err(e),
                Ok(file_size) =>
                match opt_str(d, "file_hash"@) {
                    Err(e) => Err(e),
                    Ok(file_hash) =>
                    Ok(IncomingSegment::File { file_id, file_name, file_size, file_hash }),
                },
            },
        },
    }
}

/// Decodes a `Forward` segment payload.
pub open spec fn dec_seg_forward(d: JsonValue) -> Result<IncomingSegment, DecodeError> {
    match fld_str(d, "forward_id"@) {
        Err(e) => Err(e),
        Ok(forward_id) =>
        Ok(IncomingSegment::Forward { forward_id }),
    }
}

/// Decodes a `MarketFace` segment payload.
pub open spec fn dec_seg_market_face(d: JsonValue) -> Result<IncomingSegment, DecodeError> {
    match fld_str(d, "url"@) {
        Err(e) => Err(e),
        Ok(url) =>
        Ok(IncomingSegment::MarketFace { url }),
    }
}

/// Decodes a `LightApp` segment payload.
pub open spec fn dec_seg_light_app(d: JsonValue) -> Result<IncomingSegment, DecodeError> {
    match fld_str(d, "app_name"@) {
        Err(e) => Err(e),
        Ok(app_name) =>
        match fld_str(d, "json_payload"@) {
            Err(e) => Err(e),
            Ok(json_payload) =>
            Ok(IncomingSegment::LightApp { app_name, json_payload }),
        },
    }
}

/// Decodes a `XML` segment payload.
pub open spec fn dec_seg_xml(d: JsonValue) -> Result<IncomingSegment, DecodeError> {
    match fld_i32(d, "service_id"@) {
        Err(e) => Err(e),
        Ok(service_id) =>
        match fld_str(d, "xml_payload"@) {
            Err(e) => Err(e),
            Ok(xml_payload) =>
            Ok(IncomingSegment::XML { service_id, xml_payload }),
        },
    }
}

/// Decodes a segment's payload, given its kind tag.
pub open spec fn dec_segment_data(tag: Seq<char>, d: JsonValue) -> Result<
    IncomingSegment,
    DecodeError,
> {
    if tag == "text"@ {
        dec_seg_text(d)
    } else if tag == "mention"@ {
        dec_seg_mention(d)
    } else if tag == "mention_all"@ {
        dec_seg_mention_all(d)
    } else if tag == "face"@ {
        dec_seg_face(d)
    } else if tag == "reply"@ {
        dec_seg_reply(d)
    } else if tag == "image"@ {
        dec_seg_image(d)
    } else if tag == "record"@ {
        dec_seg_record(d)
    } else if tag == "video"@ {
        dec_seg_video(d)
    } else if tag == "file"@ {
        dec_seg_file(d)
    } else if tag == "forward"@ {
        dec_seg_forward(d)
    } else if tag == "market_face"@ {
        dec_seg_market_face(d)
    } else if tag == "light_app"@ {
        dec_seg_light_app(d)
    } else if tag == "xml"@ {
        dec_seg_xml(d)
    } else {
        Err(DecodeError::UnknownSegmentType)
    }
}

/// Decodes a sequence of segments; the first failure fails the whole
/// message.
pub open spec fn dec_segments(items: Seq<JsonValue>) -> Result<Seq<IncomingSegment>, DecodeError>
    decreases items,
{
    if items.len() == 0 {
        Ok(Seq::empty())
    } else {
        match dec_segments(items.drop_last()) {
            Err(e) => Err(e),
            Ok(rest) => match dec_segment(items.last()) {
                Err(e) => Err(e),
                Ok(s) => Ok(rest.push(s)),
            },
        }
    }
}

/// Decodes the shared fields of a received message's payload.
pub open spec fn dec_msg_base(v: JsonValue) -> Result<IncomingMessageM, DecodeError> {
    match fld_i64(v, "peer_id"@) {
        Err(e) => Err(e),
        Ok(peer_id) => match fld_i64(v, "message_seq"@) {
            Err(e) => Err(e),
            Ok(message_seq) => match fld_i64(v, "sender_id"@) {
                Err(e) => Err(e),
                Ok(sender_id) => match fld_i64(v, "time"@) {
                    Err(e) => Err(e),
                    Ok(time) => match fld(v, "segments"@) {
                        Err(e) => Err(e),
                        Ok(JsonValue::Arr(items)) => match dec_segments(items@) {
                            Err(e) => Err(e),
                            Ok(segments) => match dec_scene_field(v, "message_scene"@) {
                                Err(e) => Err(e),
                                Ok(message_scene) => Ok(
                                    IncomingMessageM {
                                        peer_id,
                                        message_seq,
                                        sender_id,
                                        time,
                                        segments,
                                        message_scene,
                                    },
                                ),
                            },
                        },
                        Ok(_) => Err(DecodeError::WrongType),
                    },
                },
            },
        },
    }
}

/// Decodes a received message's payload: the shared fields, then the shape
/// the nested `message_scene` selects, with that shape's required
/// profiles.
pub open spec fn dec_message(v: JsonValue) -> Result<MessageEventM, DecodeError> {
    match dec_msg_base(v) {
        Err(e) => Err(e),
        Ok(base) => match base.message_scene {
            MessageScene::Friend => match fld(v, "friend"@) {
                Err(e) => Err(e),
                Ok(f) => match dec_friend(f) {
                    Err(e) => Err(e),
                    Ok(friend) => Ok(
                        MessageEventM::Friend(FriendMessageM { message: base, friend }),
                    ),
                },
            },
            MessageScene::Group => match fld(v, "group"@) {
                Err(e) => Err(e),
                Ok(g) => match dec_group(g) {
                    Err(e) => Err(e),
                    Ok(group) => match fld(v, "group_member"@) {
                        Err(e) => Err(e),
                        Ok(gm) => match dec_member(gm) {
                            Err(e) => Err(e),
                            Ok(group_member) => Ok(
                                MessageEventM::Group(
                                    GroupMessageM { message: base, group, group_member },
                                ),
                            ),
                        },
                    },
                },
            },
            MessageScene::Temp => match spec_obj_get(v, "group"@) {
                None => Ok(MessageEventM::Temp(TempMessageM { message: base, group: None })),
                Some(JsonValue::Null) => Ok(
                    MessageEventM::Temp(TempMessageM { message: base, group: None }),
                ),
                Some(g) => match dec_group(g) {
                    Err(e) => Err(e),
                    Ok(group) => Ok(
                        MessageEventM::Temp(TempMessageM { message: base, group: Some(group) }),
                    ),
                },
            },
        },
    }
}

/// Decodes the `BotOfflineData` payload.
pub open spec fn dec_ev_bot_offline(d: JsonValue) -> Result<BotOfflineData, DecodeError> {
    match fld_str(d, "reason"@) {
        Err(e) => Err(e),
        Ok(reason) =>
        Ok(BotOfflineData { reason }),
    }
}

/// Decodes the `MessageRecallData` payload.
pub open spec fn dec_ev_recall(d: JsonValue) -> Result<MessageRecallData, DecodeError> {
    match dec_scene_field(d, "message_scene"@) {
        Err(e) => Err(e),
        Ok(message_scene) =>
        match fld_i64(d, "peer_id"@) {
            Err(e) => Err(e),
            Ok(peer_id) =>
            match fld_i64(d, "message_seq"@) {
                Err(e) => Err(e),
                Ok(message_seq) =>
                match fld_i64(d, "sender_id"@) {
                    Err(e) => Err(e),
                    Ok(sender_id) =>
                    match fld_i64(d, "operator_id"@) {
                        Err(e) => Err(e),
                        Ok(operator_id) =>
                        Ok(MessageRecallData { message_scene, peer_id, message_seq, sender_id, operator_id }),
                    },
                },
            },
        },
    }
}

/// Decodes the `FriendRequestData` payload.
pub open spec fn dec_ev_friend_request(d: JsonValue) -> Result<FriendRequestData, DecodeError> {
    match fld_str(d, "request_id"@) {
        Err(e) => Err(e),
        Ok(request_id) =>
        match fld_i64(d, "operator_id"@) {
            Err(e) => Err(e),
            Ok(operator_id) =>
            match opt_str(d, "comment"@) {
                Err(e) => Err(e),
                Ok(comment) =>
                match opt_str(d, "via"@) {
                    Err(e) => Err(e),
                    Ok(via) =>
                    Ok(FriendRequestData { request_id, operator_id, comment, via }),
                },
            },
        },
    }
}

/// Decodes the `GroupJoinRequestData` payload.
pub open spec fn dec_ev_group_join_request(d: JsonValue) -> Result<GroupJoinRequestData, DecodeError> {
    match fld_str(d, "request_id"@) {
        Err(e) => Err(e),
        Ok(request_id) =>
        match fld_i64(d, "operator_id"@) {
            Err(e) => Err(e),
            Ok(operator_id) =>
            match fld_i64(d, "group_id"@) {
                Err(e) => Err(e),
                Ok(group_id) =>
                match opt_str(d, "comment"@) {
                    Err(e) => Err(e),
                    Ok(comment) =>
                    Ok(GroupJoinRequestData { request_id, operator_id, group_id, comment }),
                },
            },
        },
    }
}

/// Decodes the `GroupInvitedJoinRequestData` payload.
pub open spec fn dec_ev_group_invited_join_request(d: JsonValue) -> Result<GroupInvitedJoinRequestData, DecodeError> {
    match fld_str(d, "request_id"@) {
        Err(e) => Err(e),
        Ok(request_id) =>
        match fld_i64(d, "operator_id"@) {
            Err(e) => Err(e),
            Ok(operator_id) =>
            match fld_i64(d, "group_id"@) {
                Err(e) => Err(e),
                Ok(group_id) =>
                match fld_i64(d, "invitee_id"@) {
                    Err(e) => Err(e),
                    Ok(invitee_id) =>
                    Ok(GroupInvitedJoinRequestData { request_id, operator_id, group_id, invitee_id }),
                },
            },
        },
    }
}

/// Decodes the `GroupInvitationRequestData` payload.
pub open spec fn dec_ev_group_invitation_request(d: JsonValue) -> Result<GroupInvitationRequestData, DecodeError> {
    match fld_str(d, "request_id"@) {
        Err(e) => Err(e),
        Ok(request_id) =>
        match fld_i64(d, "operator_id"@) {
            Err(e) => Err(e),
            Ok(operator_id) =>
            match fld_i64(d, "group_id"@) {
                Err(e) => Err(e),
                Ok(group_id) =>
                Ok(GroupInvitationRequestData { request_id, operator_id, group_id }),
            },
        },
    }
}

/// Decodes the `FriendNudgeData` payload.
pub open spec fn dec_ev_friend_nudge(d: JsonValue) -> Result<FriendNudgeData, DecodeError> {
    match fld_i64(d, "user_id"@) {
        Err(e) => Err(e),
        Ok(user_id) =>
        match fld_bool(d, "is_self_send"@) {
            Err(e) => Err(e),
            Ok(is_self_send) =>
            match fld_bool(d, "is_self_receive"@) {
                Err(e) => Err(e),
                Ok(is_self_receive) =>
                Ok(FriendNudgeData { user_id, is_self_send, is_self_receive }),
            },
        },
    }
}

/// Decodes the `FriendFileUploadData` payload.
pub open spec fn dec_ev_friend_file_upload(d: JsonValue) -> Result<FriendFileUploadData, DecodeError> {
    match fld_i64(d, "user_id"@) {
        Err(e) => Err(e),
        Ok(user_id) =>
        match fld_str(d, "file_id"@) {
            Err(e) => Err(e),
            Ok(file_id) =>
            match fld_str(d, "file_name"@) {
                Err(e) => Err(e),
                Ok(file_name) =>
                match fld_i64(d, "file_size"@) {
                    Err(e) => Err(e),
                    Ok(file_size) =>
                    match fld_bool(d, "is_self"@) {
                        Err(e) => Err(e),
                        Ok(is_self) =>
                        Ok(FriendFileUploadData { user_id, file_id, file_name, file_size, is_self }),
                    },
                },
            },
        },
    }
}

/// Decodes the `GroupAdminChangeData` payload.
pub open spec fn dec_ev_group_admin_change(d: JsonValue) -> Result<GroupAdminChangeData, DecodeError> {
    match fld_i64(d, "group_id"@) {
        Err(e) => Err(e),
        Ok(group_id) =>
        match fld_i64(d, "user_id"@) {
            Err(e) => Err(e),
            Ok(user_id) =>
            match fld_bool(d, "is_set"@) {
                Err(e) => Err(e),
                Ok(is_set) =>
                Ok(GroupAdminChangeData { group_id, user_id, is_set }),
            },
        },
    }
}

/// Decodes the `GroupEssenceMessageChangeData` payload.
pub open spec fn dec_ev_group_essence_message_change(d: JsonValue) -> Result<GroupEssenceMessageChangeData, DecodeError> {
    match fld_i64(d, "group_id"@) {
        Err(e) => Err(e),
        Ok(group_id) =>
        match fld_i64(d, "message_seq"@) {
            Err(e) => Err(e),
            Ok(message_seq) =>
            match fld_bool(d, "is_set"@) {
                Err(e) => Err(e),
                Ok(is_set) =>
                Ok(GroupEssenceMessageChangeData { group_id, message_seq, is_set }),
            },
        },
    }
}

/// Decodes the `GroupMemberIncreaseData` payload.
pub open spec fn dec_ev_group_member_increase(d: JsonValue) -> Result<GroupMemberIncreaseData, DecodeError> {
    match fld_i64(d, "group_id"@) {
        Err(e) => Err(e),
        Ok(group_id) =>
        match fld_i64(d, "user_id"@) {
            Err(e) => Err(e),
            Ok(user_id) =>
            match opt_i64(d, "operator_id"@) {
                Err(e) => Err(e),
                Ok(operator_id) =>
                match opt_i64(d, "invitor_id"@) {
                    Err(e) => Err(e),
                    Ok(invitor_id) =>
                    Ok(GroupMemberIncreaseData { group_id, user_id, operator_id, invitor_id }),
                },
            },
        },
    }
}

/// Decodes the `GroupMemberDecreaseData` payload.
pub open spec fn dec_ev_group_member_decrease(d: JsonValue) -> Result<GroupMemberDecreaseData, DecodeError> {
    match fld_i64(d, "group_id"@) {
        Err(e) => Err(e),
        Ok(group_id) =>
        match fld_i64(d, "user_id"@) {
            Err(e) => Err(e),
            Ok(user_id) =>
            match opt_i64(d, "operator_id"@) {
                Err(e) => Err(e),
                Ok(operator_id) =>
                Ok(GroupMemberDecreaseData { group_id, user_id, operator_id }),
            },
        },
    }
}

/// Decodes the `GroupNameChangeData` payload.
pub open spec fn dec_ev_group_name_change(d: JsonValue) -> Result<GroupNameChangeData, DecodeError> {
    match fld_i64(d, "group_id"@) {
        Err(e) => Err(e),
        Ok(group_id) =>
        match fld_str(d, "name"@) {
            Err(e) => Err(e),
            Ok(name) =>
            match fld_i64(d, "operator_id"@) {
                Err(e) => Err(e),
                Ok(operator_id) =>
                Ok(GroupNameChangeData { group_id, name, operator_id }),
            },
        },
    }
}

/// Decodes the `GroupMessageReactionData` payload.
pub open spec fn dec_ev_group_message_reaction(d: JsonValue) -> Result<GroupMessageReactionData, DecodeError> {
    match fld_i64(d, "group_id"@) {
        Err(e) => Err(e),
        Ok(group_id) =>
        match fld_i64(d, "user_id"@) {
            Err(e) => Err(e),
            Ok(user_id) =>
            match fld_i64(d, "message_seq"@) {
                Err(e) => Err(e),
                Ok(message_seq) =>
                match fld_str(d, "face_id"@) {
                    Err(e) => Err(e),
                    Ok(face_id) =>
                    match opt_bool(d, "is_add"@) {
                        Err(e) => Err(e),
                        Ok(is_add) =>
                        Ok(GroupMessageReactionData { group_id, user_id, message_seq, face_id, is_add }),
                    },
                },
            },
        },
    }
}

/// Decodes the `GroupMuteData` payload.
pub open spec fn dec_ev_group_mute(d: JsonValue) -> Result<GroupMuteData, DecodeError> {
    match fld_i64(d, "group_id"@) {
        Err(e) => Err(e),
        Ok(group_id) =>
        match fld_i64(d, "user_id"@) {
            Err(e) => Err(e),
            Ok(user_id) =>
            match fld_i32(d, "duration"@) {
                Err(e) => Err(e),
                Ok(duration) =>
                Ok(GroupMuteData { group_id, user_id, duration }),
            },
        },
    }
}

/// Decodes the `GroupWholeMuteData` payload.
pub open spec fn dec_ev_group_whole_mute(d: JsonValue) -> Result<GroupWholeMuteData, DecodeError> {
    match fld_i64(d, "group_id"@) {
        Err(e) => Err(e),
        Ok(group_id) =>
        match fld_i64(d, "operator_id"@) {
            Err(e) => Err(e),
            Ok(operator_id) =>
            match fld_bool(d, "is_mute"@) {
                Err(e) => Err(e),
                Ok(is_mute) =>
                Ok(GroupWholeMuteData { group_id, operator_id, is_mute }),
            },
        },
    }
}

/// Decodes the `GroupNudgeData` payload.
pub open spec fn dec_ev_group_nudge(d: JsonValue) -> Result<GroupNudgeData, DecodeError> {
    match fld_i64(d, "group_id"@) {
        Err(e) => Err(e),
        Ok(group_id) =>
        match fld_i64(d, "sender_id"@) {
            Err(e) => Err(e),
            Ok(sender_id) =>
            match fld_i64(d, "receiver_id"@) {
                Err(e) => Err(e),
                Ok(receiver_id) =>
                Ok(GroupNudgeData { group_id, sender_id, receiver_id }),
            },
        },
    }
}

/// Decodes the `GroupFileUploadData` payload.
pub open spec fn dec_ev_group_file_upload(d: JsonValue) -> Result<GroupFileUploadData, DecodeError> {
    match fld_i64(d, "group_id"@) {
        Err(e) => Err(e),
        Ok(group_id) =>
        match fld_i64(d, "user_id"@) {
            Err(e) => Err(e),
            Ok(user_id) =>
            match fld_str(d, "file_id"@) {
                Err(e) => Err(e),
                Ok(file_id) =>
                match fld_str(d, "file_name"@) {
                    Err(e) => Err(e),
                    Ok(file_name) =>
                    match fld_i64(d, "file_size"@) {
                        Err(e) => Err(e),
                        Ok(file_size) =>
                        Ok(GroupFileUploadData { group_id, user_id, file_id, file_name, file_size }),
                    },
                },
            },
        },
    }
}

/// Decodes an event payload, given the outer tag; a tag outside the closed
/// set is rejected.
pub open spec fn dec_kind(tag: Seq<char>, d: JsonValue) -> Result<EventKindM, DecodeError> {
    if tag == "bot_offline"@ {
        match dec_ev_bot_offline(d) {
            Err(e) => Err(e),
            Ok(x) => Ok(EventKindM::BotOffline(x)),
        }
    } else if tag == "message_receive"@ {
        match dec_message(d) {
            Err(e) => Err(e),
            Ok(me) => Ok(EventKindM::MessageReceive(me)),
        }
    } else if tag == "message_recall"@ {
        match dec_ev_recall(d) {
            Err(e) => Err(e),
            Ok(x) => Ok(EventKindM::MessageRecall(x)),
        }
    } else if tag == "friend_request"@ {
        match dec_ev_friend_request(d) {
            Err(e) => Err(e),
            Ok(x) => Ok(EventKindM::FriendRequest(x)),
        }
    } else if tag == "group_join_request"@ {
        match dec_ev_group_join_request(d) {
            Err(e) => Err(e),
            Ok(x) => Ok(EventKindM::GroupJoinRequest(x)),
        }
    } else if tag == "group_invited_join_request"@ {
        match dec_ev_group_invited_join_request(d) {
            Err(e) => Err(e),
            Ok(x) => Ok(EventKindM::GroupInvitedJoinRequest(x)),
        }
    } else if tag == "group_invitation_request"@ {
        match dec_ev_group_invitation_request(d) {
            Err(e) => Err(e),
            Ok(x) => Ok(EventKindM::GroupInvitationRequest(x)),
        }
    } else if tag == "friend_nudge"@ {
        match dec_ev_friend_nudge(d) {
            Err(e) => Err(e),
            Ok(x) => Ok(EventKindM::FriendNudge(x)),
        }
    } else if tag == "friend_file_upload"@ {
        match dec_ev_friend_file_upload(d) {
            Err(e) => Err(e),
            Ok(x) => Ok(EventKindM::FriendFileUpload(x)),
        }
    } else if tag == "group_admin_change"@ {
        match dec_ev_group_admin_change(d) {
            Err(e) => Err(e),
            Ok(x) => Ok(EventKindM::GroupAdminChange(x)),
        }
    } else if tag == "group_essence_message_change"@ {
        match dec_ev_group_essence_message_change(d) {
            Err(e) => Err(e),
            Ok(x) => Ok(EventKindM::GroupEssenceMessageChange(x)),
        }
    } else if tag == "group_member_increase"@ {
        match dec_ev_group_member_increase(d) {
            Err(e) => Err(e),
            Ok(x) => Ok(EventKindM::GroupMemberIncrease(x)),
        }
    } else if tag == "group_member_decrease"@ {
        match dec_ev_group_member_decrease(d) {
            Err(e) => Err(e),
            Ok(x) => Ok(EventKindM::GroupMemberDecrease(x)),
        }
    } else if tag == "group_name_change"@ {
        match dec_ev_group_name_change(d) {
            Err(e) => Err(e),
            Ok(x) => Ok(EventKindM::GroupNameChange(x)),
        }
    } else if tag == "group_message_reaction"@ {
        match dec_ev_group_message_reaction(d) {
            Err(e) => Err(e),
            Ok(x) => Ok(EventKindM::GroupMessageReaction(x)),
        }
    } else if tag == "group_mute"@ {
        match dec_ev_group_mute(d) {
            Err(e) => Err(e),
            Ok(x) => Ok(EventKindM::GroupMute(x)),
        }
    } else if tag == "group_whole_mute"@ {
        match dec_ev_group_whole_mute(d) {
            Err(e) => Err(e),
            Ok(x) => Ok(EventKindM::GroupWholeMute(x)),
        }
    } else if tag == "group_nudge"@ {
        match dec_ev_group_nudge(d) {
            Err(e) => Err(e),
            Ok(x) => Ok(EventKindM::GroupNudge(x)),
        }
    } else if tag == "group_file_upload"@ {
        match dec_ev_group_file_upload(d) {
            Err(e) => Err(e),
            Ok(x) => Ok(EventKindM::GroupFileUpload(x)),
        }
    } else {
        Err(DecodeError::UnknownEventType)
    }
}

/// Decodes a whole frame: the outer fields, then the payload under the
/// outer tag.  Total: every tree yields an event image or an error.
pub open spec fn dec_event(v: JsonValue) -> Result<EventM, DecodeError> {
    match fld_i64(v, "time"@) {
        Err(e) => Err(e),
        Ok(time) => match fld_i64(v, "self_id"@) {
            Err(e) => Err(e),
            Ok(self_id) => match fld_str(v, "event_type"@) {
                Err(e) => Err(e),
                Ok(tag) => match fld(v, "data"@) {
                    Err(e) => Err(e),
                    Ok(d) => match dec_kind(tag@, d) {
                        Err(e) => Err(e),
                        Ok(kind) => Ok(EventM { time, self_id, kind }),
                    },
                },
            },
        },
    }
}

/// The nested scene tag deterministically selects the message shape: a
/// decoded message is coherent, its shape being exactly the one its
/// `message_scene` names; and a group-scene payload without the required
/// `group` or `group_member` member is rejected, not coerced.
pub proof fn lemma_scene_selects_shape(v: JsonValue)
    ensures
        dec_message(v) matches Ok(me) ==> wf_message_event(me),
        dec_message(v) matches Ok(me) ==> (dec_msg_base(v) matches Ok(b) && (match me {
            MessageEventM::Friend(_) => b.message_scene == MessageScene::Friend,
            MessageEventM::Group(_) => b.message_scene == MessageScene::Group,
            MessageEventM::Temp(_) => b.message_scene == MessageScene::Temp,
        })),
        (dec_msg_base(v) matches Ok(b) && b.message_scene == MessageScene::Group && spec_obj_get(
            v,
            "group"@,
        ) is None) ==> dec_message(v) == Err::<MessageEventM, DecodeError>(
            DecodeError::MissingField,
        ),
        (dec_msg_base(v) matches Ok(b) && b.message_scene == MessageScene::Group && spec_obj_get(
            v,
            "group_member"@,
        ) is None && (match spec_obj_get(v, "group"@) {
            Some(g) => dec_group(g) is Ok,
            None => false,
        })) ==> dec_message(v) == Err::<MessageEventM, DecodeError>(DecodeError::MissingField),
{
    if dec_msg_base(v) is Ok {
        assert(v is Obj);
    }
}

} // verus!
