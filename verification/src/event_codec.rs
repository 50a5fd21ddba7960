//! The executable event codec.
//!
//! Every decoder returns exactly what the corresponding spec decoder in
//! [`crate::codec`] denotes; every encoder builds a tree whose model is
//! exactly the spec encoding, and — the round-trip law — one that the spec
//! decoder maps back to the encoded value.

use vstd::prelude::*;

use crate::codec::{
    dec_category, dec_ev_bot_offline, dec_ev_friend_file_upload, dec_ev_friend_nudge,
    dec_ev_friend_request, dec_ev_group_admin_change, dec_ev_group_essence_message_change,
    dec_ev_group_file_upload, dec_ev_group_invitation_request, dec_ev_group_invited_join_request,
    dec_ev_group_join_request, dec_ev_group_member_decrease, dec_ev_group_member_increase,
    dec_ev_group_message_reaction, dec_ev_group_mute, dec_ev_group_name_change,
    dec_ev_group_nudge, dec_ev_group_whole_mute, dec_ev_recall, dec_event, dec_friend, dec_group, dec_kind, dec_member, dec_message,
    dec_msg_base, dec_role_field, dec_scene_field, dec_segment, dec_segment_data, dec_segments,
    dec_sex_field, enc_category, enc_event, enc_friend, enc_group, enc_kind_data, enc_member,
    enc_message, enc_msg_base, enc_segment, enc_segments, enc_tagged, event_m, fld, fld_bool,
    fld_i32, fld_i64, fld_str, kind_m, kind_tag, message_event_m, msg_m, opt_bool, opt_i64,
    opt_member, opt_str, role_name, role_of, scene_name, scene_of, sex_name, sex_of,
    wf_event, wf_event_kind, wf_message_event, EventM, EventKindM, FriendMessageM,
    GroupMessageM, IncomingMessageM, MessageEventM, TempMessageM,
};
use crate::error::DecodeError;
use crate::json::{jv_model, jv_model_fields, jv_model_seq, lemma_get_at, lemma_get_none,
    lemma_jv_model_fields, lemma_jv_model_seq, spec_obj_get, JsonModel, JsonValue, str_eq};
use crate::json_parse::{parse_document, spec_parse};
use crate::types::common::{MessageScene, Sex};
use crate::types::event::{
    BotOfflineData, Event, EventKind, FriendFileUploadData, FriendNudgeData, FriendRequestData,
    GroupAdminChangeData, GroupEssenceMessageChangeData, GroupFileUploadData,
    GroupInvitationRequestData, GroupInvitedJoinRequestData, GroupJoinRequestData,
    GroupMemberDecreaseData, GroupMemberIncreaseData, GroupMessageReactionData, GroupMuteData,
    GroupNameChangeData, GroupNudgeData, GroupWholeMuteData, MessageEvent, MessageRecallData,
};
use crate::types::friend::{Friend, FriendCategory};
use crate::types::group::{Group, GroupMember, GroupRole};
use crate::types::message::in_coming::{
    FriendMessage, GroupMessage, IncomingMessage, IncomingSegment, TempMessage,
};

verus! {

/// The required field `key` of `v`, as `fld`.
fn x_fld<'a>(v: &'a JsonValue, key: &str) -> (r: Result<&'a JsonValue, DecodeError>)
    ensures
        match r {
            Ok(f) => fld(*v, key@) == Ok::<JsonValue, DecodeError>(*f),
            Err(e) => fld(*v, key@) == Err::<JsonValue, DecodeError>(e),
        },
{
    match v {
        JsonValue::Obj(_) => match v.get(key) {
            Some(f) => Ok(f),
            None => Err(DecodeError::MissingField),
        },
        _ => Err(DecodeError::NotAnObject),
    }
}

/// The required integer field `key` of `v`, as `fld_i64`.
pub(crate) fn x_fld_i64(v: &JsonValue, key: &str) -> (r: Result<i64, DecodeError>)
    ensures
        r == fld_i64(*v, key@),
{
    match x_fld(v, key) {
        Err(e) => Err(e),
        Ok(f) => match f {
            JsonValue::Int(i) => Ok(*i),
            _ => Err(DecodeError::WrongType),
        },
    }
}

/// The required 32-bit integer field `key` of `v`, as `fld_i32`.
fn x_fld_i32(v: &JsonValue, key: &str) -> (r: Result<i32, DecodeError>)
    ensures
        r == fld_i32(*v, key@),
{
    match x_fld_i64(v, key) {
        Err(e) => Err(e),
        Ok(i) => if -0x8000_0000i64 <= i && i <= 0x7FFF_FFFFi64 {
            Ok(i as i32)
        } else {
            Err(DecodeError::IntOutOfRange)
        },
    }
}

/// The required string field `key` of `v`, as `fld_str`.
pub(crate) fn x_fld_str(v: &JsonValue, key: &str) -> (r: Result<String, DecodeError>)
    ensures
        r == fld_str(*v, key@),
{
    match x_fld(v, key) {
        Err(e) => Err(e),
        Ok(f) => match f {
            JsonValue::Str(s) => Ok(s.clone()),
            _ => Err(DecodeError::WrongType),
        },
    }
}

/// The required boolean field `key` of `v`, as `fld_bool`.
fn x_fld_bool(v: &JsonValue, key: &str) -> (r: Result<bool, DecodeError>)
    ensures
        r == fld_bool(*v, key@),
{
    match x_fld(v, key) {
        Err(e) => Err(e),
        Ok(f) => match f {
            JsonValue::Bool(b) => Ok(*b),
            _ => Err(DecodeError::WrongType),
        },
    }
}

/// The optional integer field `key` of `v`, as `opt_i64`.
fn x_opt_i64(v: &JsonValue, key: &str) -> (r: Result<Option<i64>, DecodeError>)
    ensures
        r == opt_i64(*v, key@),
{
    match v.get(key) {
        None => Ok(None),
        Some(f) => match f {
            JsonValue::Null => Ok(None),
            JsonValue::Int(i) => Ok(Some(*i)),
            _ => Err(DecodeError::WrongType),
        },
    }
}

/// The optional string field `key` of `v`, as `opt_str`.
pub(crate) fn x_opt_str(v: &JsonValue, key: &str) -> (r: Result<Option<String>, DecodeError>)
    ensures
        r == opt_str(*v, key@),
{
    match v.get(key) {
        None => Ok(None),
        Some(f) => match f {
            JsonValue::Null => Ok(None),
            JsonValue::Str(s) => Ok(Some(s.clone())),
            _ => Err(DecodeError::WrongType),
        },
    }
}

/// The optional boolean field `key` of `v`, as `opt_bool`.
fn x_opt_bool(v: &JsonValue, key: &str) -> (r: Result<Option<bool>, DecodeError>)
    ensures
        r == opt_bool(*v, key@),
{
    match v.get(key) {
        None => Ok(None),
        Some(f) => match f {
            JsonValue::Null => Ok(None),
            JsonValue::Bool(b) => Ok(Some(*b)),
            _ => Err(DecodeError::WrongType),
        },
    }
}

/// The scene a wire name denotes, as `scene_of`.
fn x_scene_of(s: &str) -> (r: Option<MessageScene>)
    ensures
        r == scene_of(s@),
{
    if str_eq(s, "friend") {
        Some(MessageScene::Friend)
    } else if str_eq(s, "group") {
        Some(MessageScene::Group)
    } else if str_eq(s, "temp") {
        Some(MessageScene::Temp)
    } else {
        None
    }
}

/// The required scene field, as `dec_scene_field`.
fn x_scene_field(v: &JsonValue, key: &str) -> (r: Result<MessageScene, DecodeError>)
    ensures
        r == dec_scene_field(*v, key@),
{
    match x_fld_str(v, key) {
        Err(e) => Err(e),
        Ok(s) => match x_scene_of(s.as_str()) {
            Some(sc) => Ok(sc),
            None => Err(DecodeError::UnknownScene),
        },
    }
}

/// The sex a wire name denotes, as `sex_of`.
fn x_sex_of(s: &str) -> (r: Option<Sex>)
    ensures
        r == sex_of(s@),
{
    if str_eq(s, "male") {
        Some(Sex::Male)
    } else if str_eq(s, "female") {
        Some(Sex::Female)
    } else if str_eq(s, "unknown") {
        Some(Sex::Unknown)
    } else {
        None
    }
}

/// The required sex field, as `dec_sex_field`.
fn x_sex_field(v: &JsonValue, key: &str) -> (r: Result<Sex, DecodeError>)
    ensures
        r == dec_sex_field(*v, key@),
{
    match x_fld_str(v, key) {
        Err(e) => Err(e),
        Ok(s) => match x_sex_of(s.as_str()) {
            Some(x) => Ok(x),
            None => Err(DecodeError::WrongType),
        },
    }
}

/// The group role a wire name denotes, as `role_of`.
fn x_role_of(s: &str) -> (r: Option<GroupRole>)
    ensures
        r == role_of(s@),
{
    if str_eq(s, "owner") {
        Some(GroupRole::Owner)
    } else if str_eq(s, "admin") {
        Some(GroupRole::Admin)
    } else if str_eq(s, "member") {
        Some(GroupRole::Member)
    } else {
        None
    }
}

/// The required role field, as `dec_role_field`.
fn x_role_field(v: &JsonValue, key: &str) -> (r: Result<GroupRole, DecodeError>)
    ensures
        r == dec_role_field(*v, key@),
{
    match x_fld_str(v, key) {
        Err(e) => Err(e),
        Ok(s) => match x_role_of(s.as_str()) {
            Some(x) => Ok(x),
            None => Err(DecodeError::WrongType),
        },
    }
}

/// Decodes a friend-list category, as `dec_category`.
fn decode_category(v: &JsonValue) -> (r: Result<FriendCategory, DecodeError>)
    ensures
        r == dec_category(*v),
{
    match x_fld_i32(v, "category_id") {
        Err(e) => Err(e),
        Ok(category_id) => match x_fld_str(v, "category_name") {
            Err(e) => Err(e),
            Ok(category_name) => Ok(FriendCategory { category_id, category_name }),
        },
    }
}

/// Decodes a friend profile, as `dec_friend`.
fn decode_friend(v: &JsonValue) -> (r: Result<Friend, DecodeError>)
    ensures
        r == dec_friend(*v),
{
    match x_fld_i64(v, "user_id") {
        Err(e) => Err(e),
        Ok(user_id) => match x_fld_str(v, "nickname") {
            Err(e) => Err(e),
            Ok(nickname) => match x_sex_field(v, "sex") {
                Err(e) => Err(e),
                Ok(sex) => match x_opt_str(v, "qid") {
                    Err(e) => Err(e),
                    Ok(qid) => match x_fld_str(v, "remark") {
                        Err(e) => Err(e),
                        Ok(remark) => match v.get("category") {
                            None => Ok(
                                Friend { user_id, nickname, sex, qid, remark, category: None },
                            ),
                            Some(JsonValue::Null) => Ok(
                                Friend { user_id, nickname, sex, qid, remark, category: None },
                            ),
                            Some(c) => match decode_category(c) {
                                Err(e) => Err(e),
                                Ok(cc) => Ok(
                                    Friend {
                                        user_id,
                                        nickname,
                                        sex,
                                        qid,
                                        remark,
                                        category: Some(cc),
                                    },
                                ),
                            },
                        },
                    },
                },
            },
        },
    }
}

/// Decodes a group profile, as `dec_group`.
fn decode_group(v: &JsonValue) -> (r: Result<Group, DecodeError>)
    ensures
        r == dec_group(*v),
{
    match x_fld_i64(v, "group_id") {
        Err(e) => Err(e),
        Ok(group_id) => match x_fld_str(v, "group_name") {
            Err(e) => Err(e),
            Ok(group_name) => match x_fld_i32(v, "member_count") {
                Err(e) => Err(e),
                Ok(member_count) => match x_fld_i32(v, "max_member_count") {
                    Err(e) => Err(e),
                    Ok(max_member_count) => Ok(
                        Group { group_id, group_name, member_count, max_member_count },
                    ),
                },
            },
        },
    }
}

/// Decodes a group member profile, as `dec_member`.
fn decode_member(v: &JsonValue) -> (r: Result<GroupMember, DecodeError>)
    ensures
        r == dec_member(*v),
{
    match x_fld_i64(v, "user_id") {
        Err(e) => Err(e),
        Ok(user_id) => match x_fld_str(v, "nickname") {
            Err(e) => Err(e),
            Ok(nickname) => match x_sex_field(v, "sex") {
                Err(e) => Err(e),
                Ok(sex) => match x_fld_i64(v, "group_id") {
                    Err(e) => Err(e),
                    Ok(group_id) => match x_fld_str(v, "card") {
                        Err(e) => Err(e),
                        Ok(card) => match x_fld_str(v, "title") {
                            Err(e) => Err(e),
                            Ok(title) => match x_fld_i32(v, "level") {
                                Err(e) => Err(e),
                                Ok(level) => match x_role_field(v, "role") {
                                    Err(e) => Err(e),
                                    Ok(role) => match x_fld_i64(v, "join_time") {
                                        Err(e) => Err(e),
                                        Ok(join_time) => match x_fld_i64(v, "last_sent_time") {
                                            Err(e) => Err(e),
                                            Ok(last_sent_time) => match x_opt_i64(
                                                v,
                                                "shut_up_end_time",
                                            ) {
                                                Err(e) => Err(e),
                                                Ok(shut_up_end_time) => Ok(
                                                    GroupMember {
                                                        user_id,
                                                        nickname,
                                                        sex,
                                                        group_id,
                                                        card,
                                                        title,
                                                        level,
                                                        role,
                                                        join_time,
                                                        last_sent_time,
                                                        shut_up_end_time,
                                                    },
                                                ),
                                            },
                                        },
                                    },
                                },
                            },
                        },
                    },
                },
            },
        },
    }
}

/// Decodes one segment, as `dec_segment`.
fn decode_segment(v: &JsonValue) -> (r: Result<IncomingSegment, DecodeError>)
    ensures
        r == dec_segment(*v),
{
    match x_fld_str(v, "type") {
        Err(e) => Err(e),
        Ok(tag) => match x_fld(v, "data") {
            Err(e) => Err(e),
            Ok(d) => decode_segment_data(tag.as_str(), d),
        },
    }
}

/// Decodes a segment's payload given its kind tag, as `dec_segment_data`.
#[verifier::rlimit(60)]
fn decode_segment_data(tag: &str, d: &JsonValue) -> (r: Result<IncomingSegment, DecodeError>)
    ensures
        r == dec_segment_data(tag@, *d),
{
    if str_eq(tag, "text") {
        match x_fld_str(d, "text") {
            Err(e) => Err(e),
            Ok(text) => Ok(IncomingSegment::Text { text }),
        }
    } else if str_eq(tag, "mention") {
        match x_fld_i64(d, "user_id") {
            Err(e) => Err(e),
            Ok(user_id) => Ok(IncomingSegment::Mention { user_id }),
        }
    } else if str_eq(tag, "mention_all") {
        match d {
            JsonValue::Obj(_) => Ok(IncomingSegment::MentionAll {  }),
            _ => Err(DecodeError::NotAnObject),
        }
    } else if str_eq(tag, "face") {
        match x_fld_str(d, "face_id") {
            Err(e) => Err(e),
            Ok(face_id) => Ok(IncomingSegment::Face { face_id }),
        }
    } else if str_eq(tag, "reply") {
        match x_fld_i64(d, "message_seq") {
            Err(e) => Err(e),
            Ok(message_seq) => Ok(IncomingSegment::Reply { message_seq }),
        }
    } else if str_eq(tag, "image") {
        match x_fld_str(d, "resource_id") {
            Err(e) => Err(e),
            Ok(resource_id) => match x_fld_str(d, "temp_url") {
                Err(e) => Err(e),
                Ok(temp_url) => match x_fld_i32(d, "width") {
                    Err(e) => Err(e),
                    Ok(width) => match x_fld_i32(d, "height") {
                        Err(e) => Err(e),
                        Ok(height) => match x_fld_str(d, "summary") {
                            Err(e) => Err(e),
                            Ok(summary) => match x_fld_str(d, "sub_type") {
                                Err(e) => Err(e),
                                Ok(sub_type) => Ok(
                                    IncomingSegment::Image {
                                        resource_id,
                                        temp_url,
                                        width,
                                        height,
                                        summary,
                                        sub_type,
                                    },
                                ),
                            },
                        },
                    },
                },
            },
        }
    } else if str_eq(tag, "record") {
        match x_fld_str(d, "resource_id") {
            Err(e) => Err(e),
            Ok(resource_id) => match x_fld_str(d, "temp_url") {
                Err(e) => Err(e),
                Ok(temp_url) => match x_fld_i32(d, "duration") {
                    Err(e) => Err(e),
                    Ok(duration) => Ok(IncomingSegment::Record { resource_id, temp_url, duration }),
                },
            },
        }
    } else if str_eq(tag, "video") {
        match x_fld_str(d, "resource_id") {
            Err(e) => Err(e),
            Ok(resource_id) => match x_fld_str(d, "temp_url") {
                Err(e) => Err(e),
                Ok(temp_url) => match x_fld_i32(d, "width") {
                    Err(e) => Err(e),
                    Ok(width) => match x_fld_i32(d, "height") {
                        Err(e) => Err(e),
                        Ok(height) => match x_fld_i32(d, "duration") {
                            Err(e) => Err(e),
                            Ok(duration) => Ok(
                                IncomingSegment::Video {
                                    resource_id,
                                    temp_url,
                                    width,
                                    height,
                                    duration,
                                },
                            ),
                        },
                    },
                },
            },
        }
    } else if str_eq(tag, "file") {
        match x_fld_str(d, "file_id") {
            Err(e) => Err(e),
            Ok(file_id) => match x_fld_str(d, "file_name") {
                Err(e) => Err(e),
                Ok(file_name) => match x_fld_i64(d, "file_size") {
                    Err(e) => Err(e),
                    Ok(file_size) => match x_opt_str(d, "file_hash") {
                        Err(e) => Err(e),
                        Ok(file_hash) => Ok(
                            IncomingSegment::File { file_id, file_name, file_size, file_hash },
                        ),
                    },
                },
            },
        }
    } else if str_eq(tag, "forward") {
        match x_fld_str(d, "forward_id") {
            Err(e) => Err(e),
            Ok(forward_id) => Ok(IncomingSegment::Forward { forward_id }),
        }
    } else if str_eq(tag, "market_face") {
        match x_fld_str(d, "url") {
            Err(e) => Err(e),
            Ok(url) => Ok(IncomingSegment::MarketFace { url }),
        }
    } else if str_eq(tag, "light_app") {
        match x_fld_str(d, "app_name") {
            Err(e) => Err(e),
            Ok(app_name) => match x_fld_str(d, "json_payload") {
                Err(e) => Err(e),
                Ok(json_payload) => Ok(IncomingSegment::LightApp { app_name, json_payload }),
            },
        }
    } else if str_eq(tag, "xml") {
        match x_fld_i32(d, "service_id") {
            Err(e) => Err(e),
            Ok(service_id) => match x_fld_str(d, "xml_payload") {
                Err(e) => Err(e),
                Ok(xml_payload) => Ok(IncomingSegment::XML { service_id, xml_payload }),
            },
        }
    } else {
        Err(DecodeError::UnknownSegmentType)
    }
}

/// An early failure decides the whole sequence.
proof fn lemma_dec_segments_err(items: Seq<JsonValue>, i: int)
    requires
        0 <= i <= items.len(),
        dec_segments(items.take(i)) is Err,
    ensures
        dec_segments(items) == dec_segments(items.take(i)),
    decreases items.len() - i,
{
    if i < items.len() {
        assert(items.take(i + 1).drop_last() =~= items.take(i));
        lemma_dec_segments_err(items, i + 1);
    } else {
        assert(items.take(i) =~= items);
    }
}

/// Decodes a sequence of segments, as `dec_segments`.
#[verifier::loop_isolation(false)]
fn decode_segments(items: &Vec<JsonValue>) -> (r: Result<Vec<IncomingSegment>, DecodeError>)
    ensures
        match r {
            Ok(ss) => dec_segments(items@) == Ok::<Seq<IncomingSegment>, DecodeError>(ss@),
            Err(e) => dec_segments(items@) == Err::<Seq<IncomingSegment>, DecodeError>(e),
        },
{
    let mut out: Vec<IncomingSegment> = Vec::new();
    let n = items.len();
    let mut i: usize = 0;
    proof {
        assert(items@.take(0) =~= Seq::<JsonValue>::empty());
    }
    while i < n
        invariant
            i <= n,
            n == items@.len(),
            dec_segments(items@.take(i as int)) == Ok::<Seq<IncomingSegment>, DecodeError>(out@),
        decreases n - i,
    {
        proof {
            assert(items@.take(i + 1).drop_last() =~= items@.take(i as int));
            assert(items@.take(i + 1).last() == items@[i as int]);
        }
        match decode_segment(&items[i]) {
            Err(e) => {
                proof {
                    lemma_dec_segments_err(items@, i + 1);
                }
                return Err(e);
            },
            Ok(s) => {
                out.push(s);
            },
        }
        i += 1;
    }
    proof {
        assert(items@.take(n as int) =~= items@);
    }
    Ok(out)
}

/// Decodes the shared fields of a message payload, as `dec_msg_base`.
fn decode_msg_base(v: &JsonValue) -> (r: Result<IncomingMessage, DecodeError>)
    ensures
        match r {
            Ok(m) => dec_msg_base(*v) == Ok::<IncomingMessageM, DecodeError>(msg_m(m)),
            Err(e) => dec_msg_base(*v) == Err::<IncomingMessageM, DecodeError>(e),
        },
{
    match x_fld_i64(v, "peer_id") {
        Err(e) => Err(e),
        Ok(peer_id) => match x_fld_i64(v, "message_seq") {
            Err(e) => Err(e),
            Ok(message_seq) => match x_fld_i64(v, "sender_id") {
                Err(e) => Err(e),
                Ok(sender_id) => match x_fld_i64(v, "time") {
                    Err(e) => Err(e),
                    Ok(time) => match x_fld(v, "segments") {
                        Err(e) => Err(e),
                        Ok(seg_field) => match seg_field {
                            JsonValue::Arr(items) => match decode_segments(items) {
                                Err(e) => Err(e),
                                Ok(segments) => match x_scene_field(v, "message_scene") {
                                    Err(e) => Err(e),
                                    Ok(message_scene) => Ok(
                                        IncomingMessage {
                                            peer_id,
                                            message_seq,
                                            sender_id,
                                            time,
                                            segments,
                                            message_scene,
                                        },
                                    ),
                                },
                            },
                            _ => Err(DecodeError::WrongType),
                        },
                    },
                },
            },
        },
    }
}

/// Decodes a message payload into its scene's shape, as `dec_message`.
fn decode_message(v: &JsonValue) -> (r: Result<MessageEvent, DecodeError>)
    ensures
        match r {
            Ok(me) => dec_message(*v) == Ok::<MessageEventM, DecodeError>(message_event_m(me)),
            Err(e) => dec_message(*v) == Err::<MessageEventM, DecodeError>(e),
        },
{
    match decode_msg_base(v) {
        Err(e) => Err(e),
        Ok(base) => match base.message_scene {
            MessageScene::Friend => match x_fld(v, "friend") {
                Err(e) => Err(e),
                Ok(f) => match decode_friend(f) {
                    Err(e) => Err(e),
                    Ok(friend) => Ok(
                        MessageEvent::Friend(FriendMessage { message: base, friend }),
                    ),
                },
            },
            MessageScene::Group => match x_fld(v, "group") {
                Err(e) => Err(e),
                Ok(g) => match decode_group(g) {
                    Err(e) => Err(e),
                    Ok(group) => match x_fld(v, "group_member") {
                        Err(e) => Err(e),
                        Ok(gm) => match decode_member(gm) {
                            Err(e) => Err(e),
                            Ok(group_member) => Ok(
                                MessageEvent::Group(
                                    GroupMessage { message: base, group, group_member },
                                ),
                            ),
                        },
                    },
                },
            },
            MessageScene::Temp => match v.get("group") {
                None => Ok(MessageEvent::Temp(TempMessage { message: base, group: None })),
                Some(JsonValue::Null) => Ok(
                    MessageEvent::Temp(TempMessage { message: base, group: None }),
                ),
                Some(g) => match decode_group(g) {
                    Err(e) => Err(e),
                    Ok(group) => Ok(
                        MessageEvent::Temp(TempMessage { message: base, group: Some(group) }),
                    ),
                },
            },
        },
    }
}

/// Decodes the `BotOfflineData` payload, as `dec_ev_bot_offline`.
fn x_ev_bot_offline(d: &JsonValue) -> (r: Result<BotOfflineData, DecodeError>)
    ensures
        r == dec_ev_bot_offline(*d),
{
    match x_fld_str(d, "reason") {
        Err(e) => Err(e),
        Ok(reason) =>
        Ok(BotOfflineData { reason }),
    }
}

/// Decodes the `MessageRecallData` payload, as `dec_ev_recall`.
fn x_ev_recall(d: &JsonValue) -> (r: Result<MessageRecallData, DecodeError>)
    ensures
        r == dec_ev_recall(*d),
{
    match x_scene_field(d, "message_scene") {
        Err(e) => Err(e),
        Ok(message_scene) =>
        match x_fld_i64(d, "peer_id") {
            Err(e) => Err(e),
            Ok(peer_id) =>
            match x_fld_i64(d, "message_seq") {
                Err(e) => Err(e),
                Ok(message_seq) =>
                match x_fld_i64(d, "sender_id") {
                    Err(e) => Err(e),
                    Ok(sender_id) =>
                    match x_fld_i64(d, "operator_id") {
                        Err(e) => Err(e),
                        Ok(operator_id) =>
                        Ok(MessageRecallData { message_scene, peer_id, message_seq, sender_id, operator_id }),
                    },
                },
            },
        },
    }
}

/// Decodes the `FriendRequestData` payload, as `dec_ev_friend_request`.
fn x_ev_friend_request(d: &JsonValue) -> (r: Result<FriendRequestData, DecodeError>)
    ensures
        r == dec_ev_friend_request(*d),
{
    match x_fld_str(d, "request_id") {
        Err(e) => Err(e),
        Ok(request_id) =>
        match x_fld_i64(d, "operator_id") {
            Err(e) => Err(e),
            Ok(operator_id) =>
            match x_opt_str(d, "comment") {
                Err(e) => Err(e),
                Ok(comment) =>
                match x_opt_str(d, "via") {
                    Err(e) => Err(e),
                    Ok(via) =>
                    Ok(FriendRequestData { request_id, operator_id, comment, via }),
                },
            },
        },
    }
}

/// Decodes the `GroupJoinRequestData` payload, as `dec_ev_group_join_request`.
fn x_ev_group_join_request(d: &JsonValue) -> (r: Result<GroupJoinRequestData, DecodeError>)
    ensures
        r == dec_ev_group_join_request(*d),
{
    match x_fld_str(d, "request_id") {
        Err(e) => Err(e),
        Ok(request_id) =>
        match x_fld_i64(d, "operator_id") {
            Err(e) => Err(e),
            Ok(operator_id) =>
            match x_fld_i64(d, "group_id") {
                Err(e) => Err(e),
                Ok(group_id) =>
                match x_opt_str(d, "comment") {
                    Err(e) => Err(e),
                    Ok(comment) =>
                    Ok(GroupJoinRequestData { request_id, operator_id, group_id, comment }),
                },
            },
        },
    }
}

/// Decodes the `GroupInvitedJoinRequestData` payload, as `dec_ev_group_invited_join_request`.
fn x_ev_group_invited_join_request(d: &JsonValue) -> (r: Result<GroupInvitedJoinRequestData, DecodeError>)
    ensures
        r == dec_ev_group_invited_join_request(*d),
{
    match x_fld_str(d, "request_id") {
        Err(e) => Err(e),
        Ok(request_id) =>
        match x_fld_i64(d, "operator_id") {
            Err(e) => Err(e),
            Ok(operator_id) =>
            match x_fld_i64(d, "group_id") {
                Err(e) => Err(e),
                Ok(group_id) =>
                match x_fld_i64(d, "invitee_id") {
                    Err(e) => Err(e),
                    Ok(invitee_id) =>
                    Ok(GroupInvitedJoinRequestData { request_id, operator_id, group_id, invitee_id }),
                },
            },
        },
    }
}

/// Decodes the `GroupInvitationRequestData` payload, as `dec_ev_group_invitation_request`.
fn x_ev_group_invitation_request(d: &JsonValue) -> (r: Result<GroupInvitationRequestData, DecodeError>)
    ensures
        r == dec_ev_group_invitation_request(*d),
{
    match x_fld_str(d, "request_id") {
        Err(e) => Err(e),
        Ok(request_id) =>
        match x_fld_i64(d, "operator_id") {
            Err(e) => Err(e),
            Ok(operator_id) =>
            match x_fld_i64(d, "group_id") {
                Err(e) => Err(e),
                Ok(group_id) =>
                Ok(GroupInvitationRequestData { request_id, operator_id, group_id }),
            },
        },
    }
}

/// Decodes the `FriendNudgeData` payload, as `dec_ev_friend_nudge`.
fn x_ev_friend_nudge(d: &JsonValue) -> (r: Result<FriendNudgeData, DecodeError>)
    ensures
        r == dec_ev_friend_nudge(*d),
{
    match x_fld_i64(d, "user_id") {
        Err(e) => Err(e),
        Ok(user_id) =>
        match x_fld_bool(d, "is_self_send") {
            Err(e) => Err(e),
            Ok(is_self_send) =>
            match x_fld_bool(d, "is_self_receive") {
                Err(e) => Err(e),
                Ok(is_self_receive) =>
                Ok(FriendNudgeData { user_id, is_self_send, is_self_receive }),
            },
        },
    }
}

/// Decodes the `FriendFileUploadData` payload, as `dec_ev_friend_file_upload`.
fn x_ev_friend_file_upload(d: &JsonValue) -> (r: Result<FriendFileUploadData, DecodeError>)
    ensures
        r == dec_ev_friend_file_upload(*d),
{
    match x_fld_i64(d, "user_id") {
        Err(e) => Err(e),
        Ok(user_id) =>
        match x_fld_str(d, "file_id") {
            Err(e) => Err(e),
            Ok(file_id) =>
            match x_fld_str(d, "file_name") {
                Err(e) => Err(e),
                Ok(file_name) =>
                match x_fld_i64(d, "file_size") {
                    Err(e) => Err(e),
                    Ok(file_size) =>
                    match x_fld_bool(d, "is_self") {
                        Err(e) => Err(e),
                        Ok(is_self) =>
                        Ok(FriendFileUploadData { user_id, file_id, file_name, file_size, is_self }),
                    },
                },
            },
        },
    }
}

/// Decodes the `GroupAdminChangeData` payload, as `dec_ev_group_admin_change`.
fn x_ev_group_admin_change(d: &JsonValue) -> (r: Result<GroupAdminChangeData, DecodeError>)
    ensures
        r == dec_ev_group_admin_change(*d),
{
    match x_fld_i64(d, "group_id") {
        Err(e) => Err(e),
        Ok(group_id) =>
        match x_fld_i64(d, "user_id") {
            Err(e) => Err(e),
            Ok(user_id) =>
            match x_fld_bool(d, "is_set") {
                Err(e) => Err(e),
                Ok(is_set) =>
                Ok(GroupAdminChangeData { group_id, user_id, is_set }),
            },
        },
    }
}

/// Decodes the `GroupEssenceMessageChangeData` payload, as `dec_ev_group_essence_message_change`.
fn x_ev_group_essence_message_change(d: &JsonValue) -> (r: Result<GroupEssenceMessageChangeData, DecodeError>)
    ensures
        r == dec_ev_group_essence_message_change(*d),
{
    match x_fld_i64(d, "group_id") {
        Err(e) => Err(e),
        Ok(group_id) =>
        match x_fld_i64(d, "message_seq") {
            Err(e) => Err(e),
            Ok(message_seq) =>
            match x_fld_bool(d, "is_set") {
                Err(e) => Err(e),
                Ok(is_set) =>
                Ok(GroupEssenceMessageChangeData { group_id, message_seq, is_set }),
            },
        },
    }
}

/// Decodes the `GroupMemberIncreaseData` payload, as `dec_ev_group_member_increase`.
fn x_ev_group_member_increase(d: &JsonValue) -> (r: Result<GroupMemberIncreaseData, DecodeError>)
    ensures
        r == dec_ev_group_member_increase(*d),
{
    match x_fld_i64(d, "group_id") {
        Err(e) => Err(e),
        Ok(group_id) =>
        match x_fld_i64(d, "user_id") {
            Err(e) => Err(e),
            Ok(user_id) =>
            match x_opt_i64(d, "operator_id") {
                Err(e) => Err(e),
                Ok(operator_id) =>
                match x_opt_i64(d, "invitor_id") {
                    Err(e) => Err(e),
                    Ok(invitor_id) =>
                    Ok(GroupMemberIncreaseData { group_id, user_id, operator_id, invitor_id }),
                },
            },
        },
    }
}

/// Decodes the `GroupMemberDecreaseData` payload, as `dec_ev_group_member_decrease`.
fn x_ev_group_member_decrease(d: &JsonValue) -> (r: Result<GroupMemberDecreaseData, DecodeError>)
    ensures
        r == dec_ev_group_member_decrease(*d),
{
    match x_fld_i64(d, "group_id") {
        Err(e) => Err(e),
        Ok(group_id) =>
        match x_fld_i64(d, "user_id") {
            Err(e) => Err(e),
            Ok(user_id) =>
            match x_opt_i64(d, "operator_id") {
                Err(e) => Err(e),
                Ok(operator_id) =>
                Ok(GroupMemberDecreaseData { group_id, user_id, operator_id }),
            },
        },
    }
}

/// Decodes the `GroupNameChangeData` payload, as `dec_ev_group_name_change`.
fn x_ev_group_name_change(d: &JsonValue) -> (r: Result<GroupNameChangeData, DecodeError>)
    ensures
        r == dec_ev_group_name_change(*d),
{
    match x_fld_i64(d, "group_id") {
        Err(e) => Err(e),
        Ok(group_id) =>
        match x_fld_str(d, "name") {
            Err(e) => Err(e),
            Ok(name) =>
            match x_fld_i64(d, "operator_id") {
                Err(e) => Err(e),
                Ok(operator_id) =>
                Ok(GroupNameChangeData { group_id, name, operator_id }),
            },
        },
    }
}

/// Decodes the `GroupMessageReactionData` payload, as `dec_ev_group_message_reaction`.
fn x_ev_group_message_reaction(d: &JsonValue) -> (r: Result<GroupMessageReactionData, DecodeError>)
    ensures
        r == dec_ev_group_message_reaction(*d),
{
    match x_fld_i64(d, "group_id") {
        Err(e) => Err(e),
        Ok(group_id) =>
        match x_fld_i64(d, "user_id") {
            Err(e) => Err(e),
            Ok(user_id) =>
            match x_fld_i64(d, "message_seq") {
                Err(e) => Err(e),
                Ok(message_seq) =>
                match x_fld_str(d, "face_id") {
                    Err(e) => Err(e),
                    Ok(face_id) =>
                    match x_opt_bool(d, "is_add") {
                        Err(e) => Err(e),
                        Ok(is_add) =>
                        Ok(GroupMessageReactionData { group_id, user_id, message_seq, face_id, is_add }),
                    },
                },
            },
        },
    }
}

/// Decodes the `GroupMuteData` payload, as `dec_ev_group_mute`.
fn x_ev_group_mute(d: &JsonValue) -> (r: Result<GroupMuteData, DecodeError>)
    ensures
        r == dec_ev_group_mute(*d),
{
    match x_fld_i64(d, "group_id") {
        Err(e) => Err(e),
        Ok(group_id) =>
        match x_fld_i64(d, "user_id") {
            Err(e) => Err(e),
            Ok(user_id) =>
            match x_fld_i32(d, "duration") {
                Err(e) => Err(e),
                Ok(duration) =>
                Ok(GroupMuteData { group_id, user_id, duration }),
            },
        },
    }
}

/// Decodes the `GroupWholeMuteData` payload, as `dec_ev_group_whole_mute`.
fn x_ev_group_whole_mute(d: &JsonValue) -> (r: Result<GroupWholeMuteData, DecodeError>)
    ensures
        r == dec_ev_group_whole_mute(*d),
{
    match x_fld_i64(d, "group_id") {
        Err(e) => Err(e),
        Ok(group_id) =>
        match x_fld_i64(d, "operator_id") {
            Err(e) => Err(e),
            Ok(operator_id) =>
            match x_fld_bool(d, "is_mute") {
                Err(e) => Err(e),
                Ok(is_mute) =>
                Ok(GroupWholeMuteData { group_id, operator_id, is_mute }),
            },
        },
    }
}

/// Decodes the `GroupNudgeData` payload, as `dec_ev_group_nudge`.
fn x_ev_group_nudge(d: &JsonValue) -> (r: Result<GroupNudgeData, DecodeError>)
    ensures
        r == dec_ev_group_nudge(*d),
{
    match x_fld_i64(d, "group_id") {
        Err(e) => Err(e),
        Ok(group_id) =>
        match x_fld_i64(d, "sender_id") {
            Err(e) => Err(e),
            Ok(sender_id) =>
            match x_fld_i64(d, "receiver_id") {
                Err(e) => Err(e),
                Ok(receiver_id) =>
                Ok(GroupNudgeData { group_id, sender_id, receiver_id }),
            },
        },
    }
}

/// Decodes the `GroupFileUploadData` payload, as `dec_ev_group_file_upload`.
fn x_ev_group_file_upload(d: &JsonValue) -> (r: Result<GroupFileUploadData, DecodeError>)
    ensures
        r == dec_ev_group_file_upload(*d),
{
    match x_fld_i64(d, "group_id") {
        Err(e) => Err(e),
        Ok(group_id) =>
        match x_fld_i64(d, "user_id") {
            Err(e) => Err(e),
            Ok(user_id) =>
            match x_fld_str(d, "file_id") {
                Err(e) => Err(e),
                Ok(file_id) =>
                match x_fld_str(d, "file_name") {
                    Err(e) => Err(e),
                    Ok(file_name) =>
                    match x_fld_i64(d, "file_size") {
                        Err(e) => Err(e),
                        Ok(file_size) =>
                        Ok(GroupFileUploadData { group_id, user_id, file_id, file_name, file_size }),
                    },
                },
            },
        },
    }
}

/// `dec_kind` at the `bot_offline` tag.
proof fn lemma_dk_bot_offline(tag: Seq<char>, d: JsonValue)
    requires
        tag == "bot_offline"@,
    ensures
        dec_kind(tag, d) == (match dec_ev_bot_offline(d) {
            Err(e) => Err::<EventKindM, DecodeError>(e),
            Ok(x) => Ok::<EventKindM, DecodeError>(EventKindM::BotOffline(x)),
        }),
{
}

/// `dec_kind` at the `message_recall` tag.
proof fn lemma_dk_recall(tag: Seq<char>, d: JsonValue)
    requires
        tag != "bot_offline"@,
        tag != "message_receive"@,
        tag == "message_recall"@,
    ensures
        dec_kind(tag, d) == (match dec_ev_recall(d) {
            Err(e) => Err::<EventKindM, DecodeError>(e),
            Ok(x) => Ok::<EventKindM, DecodeError>(EventKindM::MessageRecall(x)),
        }),
{
}

/// `dec_kind` at the `friend_request` tag.
proof fn lemma_dk_friend_request(tag: Seq<char>, d: JsonValue)
    requires
        tag != "bot_offline"@,
        tag != "message_receive"@,
        tag != "message_recall"@,
        tag == "friend_request"@,
    ensures
        dec_kind(tag, d) == (match dec_ev_friend_request(d) {
            Err(e) => Err::<EventKindM, DecodeError>(e),
            Ok(x) => Ok::<EventKindM, DecodeError>(EventKindM::FriendRequest(x)),
        }),
{
}

/// `dec_kind` at the `group_join_request` tag.
proof fn lemma_dk_group_join_request(tag: Seq<char>, d: JsonValue)
    requires
        tag != "bot_offline"@,
        tag != "message_receive"@,
        tag != "message_recall"@,
        tag != "friend_request"@,
        tag == "group_join_request"@,
    ensures
        dec_kind(tag, d) == (match dec_ev_group_join_request(d) {
            Err(e) => Err::<EventKindM, DecodeError>(e),
            Ok(x) => Ok::<EventKindM, DecodeError>(EventKindM::GroupJoinRequest(x)),
        }),
{
}

/// `dec_kind` at the `group_invited_join_request` tag.
proof fn lemma_dk_group_invited_join_request(tag: Seq<char>, d: JsonValue)
    requires
        tag != "bot_offline"@,
        tag != "message_receive"@,
        tag != "message_recall"@,
        tag != "friend_request"@,
        tag != "group_join_request"@,
        tag == "group_invited_join_request"@,
    ensures
        dec_kind(tag, d) == (match dec_ev_group_invited_join_request(d) {
            Err(e) => Err::<EventKindM, DecodeError>(e),
            Ok(x) => Ok::<EventKindM, DecodeError>(EventKindM::GroupInvitedJoinRequest(x)),
        }),
{
}

/// `dec_kind` at the `group_invitation_request` tag.
proof fn lemma_dk_group_invitation_request(tag: Seq<char>, d: JsonValue)
    requires
        tag != "bot_offline"@,
        tag != "message_receive"@,
        tag != "message_recall"@,
        tag != "friend_request"@,
        tag != "group_join_request"@,
        tag != "group_invited_join_request"@,
        tag == "group_invitation_request"@,
    ensures
        dec_kind(tag, d) == (match dec_ev_group_invitation_request(d) {
            Err(e) => Err::<EventKindM, DecodeError>(e),
            Ok(x) => Ok::<EventKindM, DecodeError>(EventKindM::GroupInvitationRequest(x)),
        }),
{
}

/// `dec_kind` at the `friend_nudge` tag.
proof fn lemma_dk_friend_nudge(tag: Seq<char>, d: JsonValue)
    requires
        tag != "bot_offline"@,
        tag != "message_receive"@,
        tag != "message_recall"@,
        tag != "friend_request"@,
        tag != "group_join_request"@,
        tag != "group_invited_join_request"@,
        tag != "group_invitation_request"@,
        tag == "friend_nudge"@,
    ensures
        dec_kind(tag, d) == (match dec_ev_friend_nudge(d) {
            Err(e) => Err::<EventKindM, DecodeError>(e),
            Ok(x) => Ok::<EventKindM, DecodeError>(EventKindM::FriendNudge(x)),
        }),
{
}

/// `dec_kind` at the `friend_file_upload` tag.
proof fn lemma_dk_friend_file_upload(tag: Seq<char>, d: JsonValue)
    requires
        tag != "bot_offline"@,
        tag != "message_receive"@,
        tag != "message_recall"@,
        tag != "friend_request"@,
        tag != "group_join_request"@,
        tag != "group_invited_join_request"@,
        tag != "group_invitation_request"@,
        tag != "friend_nudge"@,
        tag == "friend_file_upload"@,
    ensures
        dec_kind(tag, d) == (match dec_ev_friend_file_upload(d) {
            Err(e) => Err::<EventKindM, DecodeError>(e),
            Ok(x) => Ok::<EventKindM, DecodeError>(EventKindM::FriendFileUpload(x)),
        }),
{
}

/// `dec_kind` at the `group_admin_change` tag.
proof fn lemma_dk_group_admin_change(tag: Seq<char>, d: JsonValue)
    requires
        tag != "bot_offline"@,
        tag != "message_receive"@,
        tag != "message_recall"@,
        tag != "friend_request"@,
        tag != "group_join_request"@,
        tag != "group_invited_join_request"@,
        tag != "group_invitation_request"@,
        tag != "friend_nudge"@,
        tag != "friend_file_upload"@,
        tag == "group_admin_change"@,
    ensures
        dec_kind(tag, d) == (match dec_ev_group_admin_change(d) {
            Err(e) => Err::<EventKindM, DecodeError>(e),
            Ok(x) => Ok::<EventKindM, DecodeError>(EventKindM::GroupAdminChange(x)),
        }),
{
}

/// `dec_kind` at the `group_essence_message_change` tag.
proof fn lemma_dk_group_essence_message_change(tag: Seq<char>, d: JsonValue)
    requires
        tag != "bot_offline"@,
        tag != "message_receive"@,
        tag != "message_recall"@,
        tag != "friend_request"@,
        tag != "group_join_request"@,
        tag != "group_invited_join_request"@,
        tag != "group_invitation_request"@,
        tag != "friend_nudge"@,
        tag != "friend_file_upload"@,
        tag != "group_admin_change"@,
        tag == "group_essence_message_change"@,
    ensures
        dec_kind(tag, d) == (match dec_ev_group_essence_message_change(d) {
            Err(e) => Err::<EventKindM, DecodeError>(e),
            Ok(x) => Ok::<EventKindM, DecodeError>(EventKindM::GroupEssenceMessageChange(x)),
        }),
{
}

/// `dec_kind` at the `group_member_increase` tag.
proof fn lemma_dk_group_member_increase(tag: Seq<char>, d: JsonValue)
    requires
        tag != "bot_offline"@,
        tag != "message_receive"@,
        tag != "message_recall"@,
        tag != "friend_request"@,
        tag != "group_join_request"@,
        tag != "group_invited_join_request"@,
        tag != "group_invitation_request"@,
        tag != "friend_nudge"@,
        tag != "friend_file_upload"@,
        tag != "group_admin_change"@,
        tag != "group_essence_message_change"@,
        tag == "group_member_increase"@,
    ensures
        dec_kind(tag, d) == (match dec_ev_group_member_increase(d) {
            Err(e) => Err::<EventKindM, DecodeError>(e),
            Ok(x) => Ok::<EventKindM, DecodeError>(EventKindM::GroupMemberIncrease(x)),
        }),
{
}

/// `dec_kind` at the `group_member_decrease` tag.
proof fn lemma_dk_group_member_decrease(tag: Seq<char>, d: JsonValue)
    requires
        tag != "bot_offline"@,
        tag != "message_receive"@,
        tag != "message_recall"@,
        tag != "friend_request"@,
        tag != "group_join_request"@,
        tag != "group_invited_join_request"@,
        tag != "group_invitation_request"@,
        tag != "friend_nudge"@,
        tag != "friend_file_upload"@,
        tag != "group_admin_change"@,
        tag != "group_essence_message_change"@,
        tag != "group_member_increase"@,
        tag == "group_member_decrease"@,
    ensures
        dec_kind(tag, d) == (match dec_ev_group_member_decrease(d) {
            Err(e) => Err::<EventKindM, DecodeError>(e),
            Ok(x) => Ok::<EventKindM, DecodeError>(EventKindM::GroupMemberDecrease(x)),
        }),
{
}

/// `dec_kind` at the `group_name_change` tag.
proof fn lemma_dk_group_name_change(tag: Seq<char>, d: JsonValue)
    requires
        tag != "bot_offline"@,
        tag != "message_receive"@,
        tag != "message_recall"@,
        tag != "friend_request"@,
        tag != "group_join_request"@,
        tag != "group_invited_join_request"@,
        tag != "group_invitation_request"@,
        tag != "friend_nudge"@,
        tag != "friend_file_upload"@,
        tag != "group_admin_change"@,
        tag != "group_essence_message_change"@,
        tag != "group_member_increase"@,
        tag != "group_member_decrease"@,
        tag == "group_name_change"@,
    ensures
        dec_kind(tag, d) == (match dec_ev_group_name_change(d) {
            Err(e) => Err::<EventKindM, DecodeError>(e),
            Ok(x) => Ok::<EventKindM, DecodeError>(EventKindM::GroupNameChange(x)),
        }),
{
}

/// `dec_kind` at the `group_message_reaction` tag.
proof fn lemma_dk_group_message_reaction(tag: Seq<char>, d: JsonValue)
    requires
        tag != "bot_offline"@,
        tag != "message_receive"@,
        tag != "message_recall"@,
        tag != "friend_request"@,
        tag != "group_join_request"@,
        tag != "group_invited_join_request"@,
        tag != "group_invitation_request"@,
        tag != "friend_nudge"@,
        tag != "friend_file_upload"@,
        tag != "group_admin_change"@,
        tag != "group_essence_message_change"@,
        tag != "group_member_increase"@,
        tag != "group_member_decrease"@,
        tag != "group_name_change"@,
        tag == "group_message_reaction"@,
    ensures
        dec_kind(tag, d) == (match dec_ev_group_message_reaction(d) {
            Err(e) => Err::<EventKindM, DecodeError>(e),
            Ok(x) => Ok::<EventKindM, DecodeError>(EventKindM::GroupMessageReaction(x)),
        }),
{
}

/// `dec_kind` at the `group_mute` tag.
proof fn lemma_dk_group_mute(tag: Seq<char>, d: JsonValue)
    requires
        tag != "bot_offline"@,
        tag != "message_receive"@,
        tag != "message_recall"@,
        tag != "friend_request"@,
        tag != "group_join_request"@,
        tag != "group_invited_join_request"@,
        tag != "group_invitation_request"@,
        tag != "friend_nudge"@,
        tag != "friend_file_upload"@,
        tag != "group_admin_change"@,
        tag != "group_essence_message_change"@,
        tag != "group_member_increase"@,
        tag != "group_member_decrease"@,
        tag != "group_name_change"@,
        tag != "group_message_reaction"@,
        tag == "group_mute"@,
    ensures
        dec_kind(tag, d) == (match dec_ev_group_mute(d) {
            Err(e) => Err::<EventKindM, DecodeError>(e),
            Ok(x) => Ok::<EventKindM, DecodeError>(EventKindM::GroupMute(x)),
        }),
{
}

/// `dec_kind` at the `group_whole_mute` tag.
proof fn lemma_dk_group_whole_mute(tag: Seq<char>, d: JsonValue)
    requires
        tag != "bot_offline"@,
        tag != "message_receive"@,
        tag != "message_recall"@,
        tag != "friend_request"@,
        tag != "group_join_request"@,
        tag != "group_invited_join_request"@,
        tag != "group_invitation_request"@,
        tag != "friend_nudge"@,
        tag != "friend_file_upload"@,
        tag != "group_admin_change"@,
        tag != "group_essence_message_change"@,
        tag != "group_member_increase"@,
        tag != "group_member_decrease"@,
        tag != "group_name_change"@,
        tag != "group_message_reaction"@,
        tag != "group_mute"@,
        tag == "group_whole_mute"@,
    ensures
        dec_kind(tag, d) == (match dec_ev_group_whole_mute(d) {
            Err(e) => Err::<EventKindM, DecodeError>(e),
            Ok(x) => Ok::<EventKindM, DecodeError>(EventKindM::GroupWholeMute(x)),
        }),
{
}

/// `dec_kind` at the `group_nudge` tag.
proof fn lemma_dk_group_nudge(tag: Seq<char>, d: JsonValue)
    requires
        tag != "bot_offline"@,
        tag != "message_receive"@,
        tag != "message_recall"@,
        tag != "friend_request"@,
        tag != "group_join_request"@,
        tag != "group_invited_join_request"@,
        tag != "group_invitation_request"@,
        tag != "friend_nudge"@,
        tag != "friend_file_upload"@,
        tag != "group_admin_change"@,
        tag != "group_essence_message_change"@,
        tag != "group_member_increase"@,
        tag != "group_member_decrease"@,
        tag != "group_name_change"@,
        tag != "group_message_reaction"@,
        tag != "group_mute"@,
        tag != "group_whole_mute"@,
        tag == "group_nudge"@,
    ensures
        dec_kind(tag, d) == (match dec_ev_group_nudge(d) {
            Err(e) => Err::<EventKindM, DecodeError>(e),
            Ok(x) => Ok::<EventKindM, DecodeError>(EventKindM::GroupNudge(x)),
        }),
{
}

/// `dec_kind` at the `group_file_upload` tag.
proof fn lemma_dk_group_file_upload(tag: Seq<char>, d: JsonValue)
    requires
        tag != "bot_offline"@,
        tag != "message_receive"@,
        tag != "message_recall"@,
        tag != "friend_request"@,
        tag != "group_join_request"@,
        tag != "group_invited_join_request"@,
        tag != "group_invitation_request"@,
        tag != "friend_nudge"@,
        tag != "friend_file_upload"@,
        tag != "group_admin_change"@,
        tag != "group_essence_message_change"@,
        tag != "group_member_increase"@,
        tag != "group_member_decrease"@,
        tag != "group_name_change"@,
        tag != "group_message_reaction"@,
        tag != "group_mute"@,
        tag != "group_whole_mute"@,
        tag != "group_nudge"@,
        tag == "group_file_upload"@,
    ensures
        dec_kind(tag, d) == (match dec_ev_group_file_upload(d) {
            Err(e) => Err::<EventKindM, DecodeError>(e),
            Ok(x) => Ok::<EventKindM, DecodeError>(EventKindM::GroupFileUpload(x)),
        }),
{
}

/// `dec_kind` at the `message_receive` tag.
proof fn lemma_dk_message_receive(tag: Seq<char>, d: JsonValue)
    requires
        tag != "bot_offline"@,
        tag == "message_receive"@,
    ensures
        dec_kind(tag, d) == (match dec_message(d) {
            Err(e) => Err::<EventKindM, DecodeError>(e),
            Ok(me) => Ok::<EventKindM, DecodeError>(EventKindM::MessageReceive(me)),
        }),
{
}

/// A tag outside the closed set is always rejected with
/// `UnknownEventType`, whatever the payload holds.
pub proof fn lemma_unknown_tag(tag: Seq<char>, d: JsonValue)
    requires
        tag != "bot_offline"@,
        tag != "message_receive"@,
        tag != "message_recall"@,
        tag != "friend_request"@,
        tag != "group_join_request"@,
        tag != "group_invited_join_request"@,
        tag != "group_invitation_request"@,
        tag != "friend_nudge"@,
        tag != "friend_file_upload"@,
        tag != "group_admin_change"@,
        tag != "group_essence_message_change"@,
        tag != "group_member_increase"@,
        tag != "group_member_decrease"@,
        tag != "group_name_change"@,
        tag != "group_message_reaction"@,
        tag != "group_mute"@,
        tag != "group_whole_mute"@,
        tag != "group_nudge"@,
        tag != "group_file_upload"@,
    ensures
        dec_kind(tag, d) == Err::<EventKindM, DecodeError>(DecodeError::UnknownEventType),
{
}

/// Decodes an event payload given the outer tag, as `dec_kind`.
fn decode_kind(tag: &str, d: &JsonValue) -> (r: Result<EventKind, DecodeError>)
    ensures
        match r {
            Ok(k) => dec_kind(tag@, *d) == Ok::<EventKindM, DecodeError>(kind_m(k)),
            Err(e) => dec_kind(tag@, *d) == Err::<EventKindM, DecodeError>(e),
        },
{
    if str_eq(tag, "bot_offline") {
        proof { lemma_dk_bot_offline(tag@, *d); }
        match x_ev_bot_offline(d) {
            Err(e) => Err(e),
            Ok(x) => Ok(EventKind::BotOffline(x)),
        }
    } else if str_eq(tag, "message_receive") {
        proof { lemma_dk_message_receive(tag@, *d); }
        match decode_message(d) {
            Err(e) => Err(e),
            Ok(me) => Ok(EventKind::MessageReceive(me)),
        }
    } else if str_eq(tag, "message_recall") {
        proof { lemma_dk_recall(tag@, *d); }
        match x_ev_recall(d) {
            Err(e) => Err(e),
            Ok(x) => Ok(EventKind::MessageRecall(x)),
        }
    } else if str_eq(tag, "friend_request") {
        proof { lemma_dk_friend_request(tag@, *d); }
        match x_ev_friend_request(d) {
            Err(e) => Err(e),
            Ok(x) => Ok(EventKind::FriendRequest(x)),
        }
    } else if str_eq(tag, "group_join_request") {
        proof { lemma_dk_group_join_request(tag@, *d); }
        match x_ev_group_join_request(d) {
            Err(e) => Err(e),
            Ok(x) => Ok(EventKind::GroupJoinRequest(x)),
        }
    } else if str_eq(tag, "group_invited_join_request") {
        proof { lemma_dk_group_invited_join_request(tag@, *d); }
        match x_ev_group_invited_join_request(d) {
            Err(e) => Err(e),
            Ok(x) => Ok(EventKind::GroupInvitedJoinRequest(x)),
        }
    } else if str_eq(tag, "group_invitation_request") {
        proof { lemma_dk_group_invitation_request(tag@, *d); }
        match x_ev_group_invitation_request(d) {
            Err(e) => Err(e),
            Ok(x) => Ok(EventKind::GroupInvitationRequest(x)),
        }
    } else if str_eq(tag, "friend_nudge") {
        proof { lemma_dk_friend_nudge(tag@, *d); }
        match x_ev_friend_nudge(d) {
            Err(e) => Err(e),
            Ok(x) => Ok(EventKind::FriendNudge(x)),
        }
    } else if str_eq(tag, "friend_file_upload") {
        proof { lemma_dk_friend_file_upload(tag@, *d); }
        match x_ev_friend_file_upload(d) {
            Err(e) => Err(e),
            Ok(x) => Ok(EventKind::FriendFileUpload(x)),
        }
    } else if str_eq(tag, "group_admin_change") {
        proof { lemma_dk_group_admin_change(tag@, *d); }
        match x_ev_group_admin_change(d) {
            Err(e) => Err(e),
            Ok(x) => Ok(EventKind::GroupAdminChange(x)),
        }
    } else if str_eq(tag, "group_essence_message_change") {
        proof { lemma_dk_group_essence_message_change(tag@, *d); }
        match x_ev_group_essence_message_change(d) {
            Err(e) => Err(e),
            Ok(x) => Ok(EventKind::GroupEssenceMessageChange(x)),
        }
    } else if str_eq(tag, "group_member_increase") {
        proof { lemma_dk_group_member_increase(tag@, *d); }
        match x_ev_group_member_increase(d) {
            Err(e) => Err(e),
            Ok(x) => Ok(EventKind::GroupMemberIncrease(x)),
        }
    } else if str_eq(tag, "group_member_decrease") {
        proof { lemma_dk_group_member_decrease(tag@, *d); }
        match x_ev_group_member_decrease(d) {
            Err(e) => Err(e),
            Ok(x) => Ok(EventKind::GroupMemberDecrease(x)),
        }
    } else if str_eq(tag, "group_name_change") {
        proof { lemma_dk_group_name_change(tag@, *d); }
        match x_ev_group_name_change(d) {
            Err(e) => Err(e),
            Ok(x) => Ok(EventKind::GroupNameChange(x)),
        }
    } else if str_eq(tag, "group_message_reaction") {
        proof { lemma_dk_group_message_reaction(tag@, *d); }
        match x_ev_group_message_reaction(d) {
            Err(e) => Err(e),
            Ok(x) => Ok(EventKind::GroupMessageReaction(x)),
        }
    } else if str_eq(tag, "group_mute") {
        proof { lemma_dk_group_mute(tag@, *d); }
        match x_ev_group_mute(d) {
            Err(e) => Err(e),
            Ok(x) => Ok(EventKind::GroupMute(x)),
        }
    } else if str_eq(tag, "group_whole_mute") {
        proof { lemma_dk_group_whole_mute(tag@, *d); }
        match x_ev_group_whole_mute(d) {
            Err(e) => Err(e),
            Ok(x) => Ok(EventKind::GroupWholeMute(x)),
        }
    } else if str_eq(tag, "group_nudge") {
        proof { lemma_dk_group_nudge(tag@, *d); }
        match x_ev_group_nudge(d) {
            Err(e) => Err(e),
            Ok(x) => Ok(EventKind::GroupNudge(x)),
        }
    } else if str_eq(tag, "group_file_upload") {
        proof { lemma_dk_group_file_upload(tag@, *d); }
        match x_ev_group_file_upload(d) {
            Err(e) => Err(e),
            Ok(x) => Ok(EventKind::GroupFileUpload(x)),
        }
    } else {
        proof { lemma_unknown_tag(tag@, *d); }
        Err(DecodeError::UnknownEventType)
    }
}

/// Decodes a whole frame tree into a typed event, as `dec_event`.
pub fn decode_event(v: &JsonValue) -> (r: Result<Event, DecodeError>)
    ensures
        match r {
            Ok(e) => dec_event(*v) == Ok::<EventM, DecodeError>(event_m(e)),
            Err(er) => dec_event(*v) == Err::<EventM, DecodeError>(er),
        },
{
    match x_fld_i64(v, "time") {
        Err(e) => Err(e),
        Ok(time) => match x_fld_i64(v, "self_id") {
            Err(e) => Err(e),
            Ok(self_id) => match x_fld_str(v, "event_type") {
                Err(e) => Err(e),
                Ok(tag) => match x_fld(v, "data") {
                    Err(e) => Err(e),
                    Ok(d) => match decode_kind(tag.as_str(), d) {
                        Err(e) => Err(e),
                        Ok(kind) => Ok(Event { time, self_id, kind }),
                    },
                },
            },
        },
    }
}

/// Decodes one raw text frame into a typed event: a pure function of the
/// input text.  `Syntax` is returned when the text is not a well-formed
/// document of the wire grammar; otherwise the result is the decoder's
/// verdict on the parsed document — the typed event whose image the
/// document denotes, or the document's decode error.
pub fn decode_event_text(text: &str) -> (r: Result<Event, DecodeError>)
    ensures
        spec_parse(text@) is None ==> r == Err::<Event, DecodeError>(DecodeError::Syntax),
        spec_parse(text@) is Some ==> exists|v: JsonValue|
            spec_parse(text@) == Some(jv_model(v)) && (match #[trigger] dec_event(v) {
                Ok(em) => r matches Ok(e) && em == event_m(e),
                Err(er) => r == Err::<Event, DecodeError>(er),
            }),
{
    match parse_document(text) {
        None => Err(DecodeError::Syntax),
        Some(v) => {
            let r = decode_event(&v);
            proof {
                assert(spec_parse(text@) == Some(jv_model(v)) && (match dec_event(v) {
                    Ok(em) => r matches Ok(e) && em == event_m(e),
                    Err(er) => r == Err::<Event, DecodeError>(er),
                }));
            }
            r
        },
    }
}

/// Encodes a friend-list category; the spec decoder inverts it.
fn encode_category(c: &FriendCategory) -> (r: JsonValue)
    ensures
        jv_model(r) == enc_category(*c),
        dec_category(r) == Ok::<FriendCategory, DecodeError>(*c),
{
    let mut fields: Vec<(String, JsonValue)> = Vec::new();
    fields.push((String::from_str("category_id"), JsonValue::Int(c.category_id as i64)));
    fields.push((String::from_str("category_name"), JsonValue::Str(c.category_name.clone())));
    let r = JsonValue::Obj(fields);
    proof {
        reveal_strlit("category_id");
        reveal_strlit("category_name");
        let fs = r->Obj_0;
        lemma_jv_model_fields(fs@);
        assert(jv_model_fields(fs@) =~= enc_category(*c)->Obj_0);
        assert("category_id"@.len() == 11);
        assert("category_name"@.len() == 13);
        assert("category_id"@ != "category_name"@);
        lemma_get_at(fs@, "category_id"@, 0);
        lemma_get_at(fs@, "category_name"@, 1);
    }
    r
}

/// The wire name of a scene, computed.
fn x_scene_name(s: MessageScene) -> (r: String)
    ensures
        r@ == scene_name(s),
{
    match s {
        MessageScene::Friend => String::from_str("friend"),
        MessageScene::Group => String::from_str("group"),
        MessageScene::Temp => String::from_str("temp"),
    }
}

/// The wire name of a sex, computed.
fn x_sex_name(s: Sex) -> (r: String)
    ensures
        r@ == sex_name(s),
{
    match s {
        Sex::Male => String::from_str("male"),
        Sex::Female => String::from_str("female"),
        Sex::Unknown => String::from_str("unknown"),
    }
}

/// The wire name of a group role, computed.
fn x_role_name(s: GroupRole) -> (r: String)
    ensures
        r@ == role_name(s),
{
    match s {
        GroupRole::Owner => String::from_str("owner"),
        GroupRole::Admin => String::from_str("admin"),
        GroupRole::Member => String::from_str("member"),
    }
}

/// Encodes a friend profile; `dec_friend` inverts it.
#[verifier::rlimit(80)]
fn encode_friend(d: &Friend) -> (r: JsonValue)
    ensures
        jv_model(r) == enc_friend(*d),
        dec_friend(r) == Ok::<Friend, DecodeError>(*d),
{
    let mut fields: Vec<(String, JsonValue)> = Vec::new();
    fields.push((String::from_str("user_id"), JsonValue::Int(d.user_id)));
    fields.push((String::from_str("nickname"), JsonValue::Str(d.nickname.clone())));
    fields.push((String::from_str("sex"), JsonValue::Str(x_sex_name(d.sex))));
    if let Some(x) = &d.qid {
        fields.push((String::from_str("qid"), JsonValue::Str(x.clone())));
    }
    fields.push((String::from_str("remark"), JsonValue::Str(d.remark.clone())));
    if let Some(c) = &d.category {
        let cv = encode_category(c);
        fields.push((String::from_str("category"), cv));
    }
    let r = JsonValue::Obj(fields);
    proof {
        reveal_strlit("user_id");
        assert("user_id"@.len() == 7);
        assert("user_id"@[0] == 'u');
        reveal_strlit("nickname");
        assert("nickname"@.len() == 8);
        assert("nickname"@[0] == 'n');
        reveal_strlit("sex");
        assert("sex"@.len() == 3);
        assert("sex"@[0] == 's');
        reveal_strlit("qid");
        assert("qid"@.len() == 3);
        assert("qid"@[0] == 'q');
        reveal_strlit("remark");
        assert("remark"@.len() == 6);
        assert("remark"@[0] == 'r');
        reveal_strlit("category");
        assert("category"@.len() == 8);
        assert("category"@[0] == 'c');
        reveal_strlit("male");
        assert("male"@.len() == 4);
        reveal_strlit("female");
        assert("female"@.len() == 6);
        reveal_strlit("unknown");
        assert("unknown"@.len() == 7);
        assert(sex_of(sex_name(d.sex)) == Some(d.sex));
        let fs = r->Obj_0;
        lemma_jv_model_fields(fs@);
        if d.qid is Some {
            if d.category is Some {
                lemma_get_at(fs@, "user_id"@, 0);
                lemma_get_at(fs@, "nickname"@, 1);
                lemma_get_at(fs@, "sex"@, 2);
                lemma_get_at(fs@, "qid"@, 3);
                lemma_get_at(fs@, "remark"@, 4);
                lemma_get_at(fs@, "category"@, 5);
                assert(jv_model_fields(fs@) =~= enc_friend(*d)->Obj_0);
                assert(dec_friend(r) == Ok::<Friend, DecodeError>(*d));
            } else {
                lemma_get_at(fs@, "user_id"@, 0);
                lemma_get_at(fs@, "nickname"@, 1);
                lemma_get_at(fs@, "sex"@, 2);
                lemma_get_at(fs@, "qid"@, 3);
                lemma_get_at(fs@, "remark"@, 4);
                lemma_get_none(fs@, "category"@);
                assert(jv_model_fields(fs@) =~= enc_friend(*d)->Obj_0);
                assert(dec_friend(r) == Ok::<Friend, DecodeError>(*d));
            }
        } else {
            if d.category is Some {
                lemma_get_at(fs@, "user_id"@, 0);
                lemma_get_at(fs@, "nickname"@, 1);
                lemma_get_at(fs@, "sex"@, 2);
                lemma_get_none(fs@, "qid"@);
                lemma_get_at(fs@, "remark"@, 3);
                lemma_get_at(fs@, "category"@, 4);
                assert(jv_model_fields(fs@) =~= enc_friend(*d)->Obj_0);
                assert(dec_friend(r) == Ok::<Friend, DecodeError>(*d));
            } else {
                lemma_get_at(fs@, "user_id"@, 0);
                lemma_get_at(fs@, "nickname"@, 1);
                lemma_get_at(fs@, "sex"@, 2);
                lemma_get_none(fs@, "qid"@);
                lemma_get_at(fs@, "remark"@, 3);
                lemma_get_none(fs@, "category"@);
                assert(jv_model_fields(fs@) =~= enc_friend(*d)->Obj_0);
                assert(dec_friend(r) == Ok::<Friend, DecodeError>(*d));
            }
        }
    }
    r
}

/// Encodes a group profile; `dec_group` inverts it.
#[verifier::rlimit(80)]
fn encode_group(d: &Group) -> (r: JsonValue)
    ensures
        jv_model(r) == enc_group(*d),
        dec_group(r) == Ok::<Group, DecodeError>(*d),
{
    let mut fields: Vec<(String, JsonValue)> = Vec::new();
    fields.push((String::from_str("group_id"), JsonValue::Int(d.group_id)));
    fields.push((String::from_str("group_name"), JsonValue::Str(d.group_name.clone())));
    fields.push((String::from_str("member_count"), JsonValue::Int(d.member_count as i64)));
    fields.push((String::from_str("max_member_count"), JsonValue::Int(d.max_member_count as i64)));
    let r = JsonValue::Obj(fields);
    proof {
        reveal_strlit("group_id");
        assert("group_id"@.len() == 8);
        assert("group_id"@[0] == 'g');
        reveal_strlit("group_name");
        assert("group_name"@.len() == 10);
        assert("group_name"@[0] == 'g');
        reveal_strlit("member_count");
        assert("member_count"@.len() == 12);
        assert("member_count"@[0] == 'm');
        reveal_strlit("max_member_count");
        assert("max_member_count"@.len() == 16);
        assert("max_member_count"@[0] == 'm');
        let fs = r->Obj_0;
        lemma_jv_model_fields(fs@);
        lemma_get_at(fs@, "group_id"@, 0);
        lemma_get_at(fs@, "group_name"@, 1);
        lemma_get_at(fs@, "member_count"@, 2);
        lemma_get_at(fs@, "max_member_count"@, 3);
        assert(jv_model_fields(fs@) =~= enc_group(*d)->Obj_0);
        assert(dec_group(r) == Ok::<Group, DecodeError>(*d));
    }
    r
}

/// Encodes a group member profile; `dec_member` inverts it.
#[verifier::rlimit(80)]
fn encode_member(d: &GroupMember) -> (r: JsonValue)
    ensures
        jv_model(r) == enc_member(*d),
        dec_member(r) == Ok::<GroupMember, DecodeError>(*d),
{
    let mut fields: Vec<(String, JsonValue)> = Vec::new();
    fields.push((String::from_str("user_id"), JsonValue::Int(d.user_id)));
    fields.push((String::from_str("nickname"), JsonValue::Str(d.nickname.clone())));
    fields.push((String::from_str("sex"), JsonValue::Str(x_sex_name(d.sex))));
    fields.push((String::from_str("group_id"), JsonValue::Int(d.group_id)));
    fields.push((String::from_str("card"), JsonValue::Str(d.card.clone())));
    fields.push((String::from_str("title"), JsonValue::Str(d.title.clone())));
    fields.push((String::from_str("level"), JsonValue::Int(d.level as i64)));
    fields.push((String::from_str("role"), JsonValue::Str(x_role_name(d.role))));
    fields.push((String::from_str("join_time"), JsonValue::Int(d.join_time)));
    fields.push((String::from_str("last_sent_time"), JsonValue::Int(d.last_sent_time)));
    if let Some(x) = d.shut_up_end_time {
        fields.push((String::from_str("shut_up_end_time"), JsonValue::Int(x)));
    }
    let r = JsonValue::Obj(fields);
    proof {
        reveal_strlit("user_id");
        assert("user_id"@.len() == 7);
        assert("user_id"@[0] == 'u');
        reveal_strlit("nickname");
        assert("nickname"@.len() == 8);
        assert("nickname"@[0] == 'n');
        reveal_strlit("sex");
        assert("sex"@.len() == 3);
        assert("sex"@[0] == 's');
        reveal_strlit("group_id");
        assert("group_id"@.len() == 8);
        assert("group_id"@[0] == 'g');
        reveal_strlit("card");
        assert("card"@.len() == 4);
        assert("card"@[0] == 'c');
        reveal_strlit("title");
        assert("title"@.len() == 5);
        assert("title"@[0] == 't');
        reveal_strlit("level");
        assert("level"@.len() == 5);
        assert("level"@[0] == 'l');
        reveal_strlit("role");
        assert("role"@.len() == 4);
        assert("role"@[0] == 'r');
        reveal_strlit("join_time");
        assert("join_time"@.len() == 9);
        assert("join_time"@[0] == 'j');
        reveal_strlit("last_sent_time");
        assert("last_sent_time"@.len() == 14);
        assert("last_sent_time"@[0] == 'l');
        reveal_strlit("shut_up_end_time");
        assert("shut_up_end_time"@.len() == 16);
        assert("shut_up_end_time"@[0] == 's');
        reveal_strlit("male");
        assert("male"@.len() == 4);
        reveal_strlit("female");
        assert("female"@.len() == 6);
        reveal_strlit("unknown");
        assert("unknown"@.len() == 7);
        assert(sex_of(sex_name(d.sex)) == Some(d.sex));
        reveal_strlit("owner");
        assert("owner"@.len() == 5);
        assert("owner"@[0] == 'o');
        reveal_strlit("admin");
        assert("admin"@.len() == 5);
        assert("admin"@[0] == 'a');
        reveal_strlit("member");
        assert("member"@.len() == 6);
        assert("member"@[0] == 'm');
        assert(role_of(role_name(d.role)) == Some(d.role));
        let fs = r->Obj_0;
        lemma_jv_model_fields(fs@);
        if d.shut_up_end_time is Some {
            lemma_get_at(fs@, "user_id"@, 0);
            lemma_get_at(fs@, "nickname"@, 1);
            lemma_get_at(fs@, "sex"@, 2);
            lemma_get_at(fs@, "group_id"@, 3);
            lemma_get_at(fs@, "card"@, 4);
            lemma_get_at(fs@, "title"@, 5);
            lemma_get_at(fs@, "level"@, 6);
            lemma_get_at(fs@, "role"@, 7);
            lemma_get_at(fs@, "join_time"@, 8);
            lemma_get_at(fs@, "last_sent_time"@, 9);
            lemma_get_at(fs@, "shut_up_end_time"@, 10);
            assert(jv_model_fields(fs@) =~= enc_member(*d)->Obj_0);
            assert(dec_member(r) == Ok::<GroupMember, DecodeError>(*d));
        } else {
            lemma_get_at(fs@, "user_id"@, 0);
            lemma_get_at(fs@, "nickname"@, 1);
            lemma_get_at(fs@, "sex"@, 2);
            lemma_get_at(fs@, "group_id"@, 3);
            lemma_get_at(fs@, "card"@, 4);
            lemma_get_at(fs@, "title"@, 5);
            lemma_get_at(fs@, "level"@, 6);
            lemma_get_at(fs@, "role"@, 7);
            lemma_get_at(fs@, "join_time"@, 8);
            lemma_get_at(fs@, "last_sent_time"@, 9);
            lemma_get_none(fs@, "shut_up_end_time"@);
            assert(jv_model_fields(fs@) =~= enc_member(*d)->Obj_0);
            assert(dec_member(r) == Ok::<GroupMember, DecodeError>(*d));
        }
    }
    r
}

/// Encodes the `BotOfflineData` payload; `dec_ev_bot_offline` inverts it.
#[verifier::rlimit(60)]
fn x_enc_ev_bot_offline(d: &BotOfflineData) -> (r: JsonValue)
    ensures
        jv_model(r) == enc_kind_data(EventKindM::BotOffline(*d)),
        dec_ev_bot_offline(r) == Ok::<BotOfflineData, DecodeError>(*d),
{
    let mut fields: Vec<(String, JsonValue)> = Vec::new();
    fields.push((String::from_str("reason"), JsonValue::Str(d.reason.clone())));
    let r = JsonValue::Obj(fields);
    proof {
        reveal_strlit("reason");
        assert("reason"@.len() == 6);
        assert("reason"@[0] == 'r');
        let fs = r->Obj_0;
        lemma_jv_model_fields(fs@);
        lemma_get_at(fs@, "reason"@, 0);
        assert(jv_model_fields(fs@) =~= enc_kind_data(EventKindM::BotOffline(*d))->Obj_0);
        assert(dec_ev_bot_offline(r) == Ok::<BotOfflineData, DecodeError>(*d));
    }
    r
}

/// Encodes the `MessageRecallData` payload; `dec_ev_recall` inverts it.
#[verifier::rlimit(60)]
fn x_enc_ev_recall(d: &MessageRecallData) -> (r: JsonValue)
    ensures
        jv_model(r) == enc_kind_data(EventKindM::MessageRecall(*d)),
        dec_ev_recall(r) == Ok::<MessageRecallData, DecodeError>(*d),
{
    let mut fields: Vec<(String, JsonValue)> = Vec::new();
    fields.push((String::from_str("message_scene"), JsonValue::Str(x_scene_name(d.message_scene))));
    fields.push((String::from_str("peer_id"), JsonValue::Int(d.peer_id)));
    fields.push((String::from_str("message_seq"), JsonValue::Int(d.message_seq)));
    fields.push((String::from_str("sender_id"), JsonValue::Int(d.sender_id)));
    fields.push((String::from_str("operator_id"), JsonValue::Int(d.operator_id)));
    let r = JsonValue::Obj(fields);
    proof {
        reveal_strlit("message_scene");
        assert("message_scene"@.len() == 13);
        assert("message_scene"@[0] == 'm');
        reveal_strlit("peer_id");
        assert("peer_id"@.len() == 7);
        assert("peer_id"@[0] == 'p');
        reveal_strlit("message_seq");
        assert("message_seq"@.len() == 11);
        assert("message_seq"@[0] == 'm');
        reveal_strlit("sender_id");
        assert("sender_id"@.len() == 9);
        assert("sender_id"@[0] == 's');
        reveal_strlit("operator_id");
        assert("operator_id"@.len() == 11);
        assert("operator_id"@[0] == 'o');
        reveal_strlit("friend");
        assert("friend"@.len() == 6);
        reveal_strlit("group");
        assert("group"@.len() == 5);
        reveal_strlit("temp");
        assert("temp"@.len() == 4);
        assert(scene_of(scene_name(d.message_scene)) == Some(d.message_scene));
        let fs = r->Obj_0;
        lemma_jv_model_fields(fs@);
        lemma_get_at(fs@, "message_scene"@, 0);
        lemma_get_at(fs@, "peer_id"@, 1);
        lemma_get_at(fs@, "message_seq"@, 2);
        lemma_get_at(fs@, "sender_id"@, 3);
        lemma_get_at(fs@, "operator_id"@, 4);
        assert(jv_model_fields(fs@) =~= enc_kind_data(EventKindM::MessageRecall(*d))->Obj_0);
        assert(dec_ev_recall(r) == Ok::<MessageRecallData, DecodeError>(*d));
    }
    r
}

/// Encodes the `FriendRequestData` payload; `dec_ev_friend_request` inverts it.
#[verifier::rlimit(60)]
fn x_enc_ev_friend_request(d: &FriendRequestData) -> (r: JsonValue)
    ensures
        jv_model(r) == enc_kind_data(EventKindM::FriendRequest(*d)),
        dec_ev_friend_request(r) == Ok::<FriendRequestData, DecodeError>(*d),
{
    let mut fields: Vec<(String, JsonValue)> = Vec::new();
    fields.push((String::from_str("request_id"), JsonValue::Str(d.request_id.clone())));
    fields.push((String::from_str("operator_id"), JsonValue::Int(d.operator_id)));
    if let Some(x) = &d.comment {
        fields.push((String::from_str("comment"), JsonValue::Str(x.clone())));
    }
    if let Some(x) = &d.via {
        fields.push((String::from_str("via"), JsonValue::Str(x.clone())));
    }
    let r = JsonValue::Obj(fields);
    proof {
        reveal_strlit("request_id");
        assert("request_id"@.len() == 10);
        assert("request_id"@[0] == 'r');
        reveal_strlit("operator_id");
        assert("operator_id"@.len() == 11);
        assert("operator_id"@[0] == 'o');
        reveal_strlit("comment");
        assert("comment"@.len() == 7);
        assert("comment"@[0] == 'c');
        reveal_strlit("via");
        assert("via"@.len() == 3);
        assert("via"@[0] == 'v');
        let fs = r->Obj_0;
        lemma_jv_model_fields(fs@);
        if d.comment is Some {
            if d.via is Some {
                lemma_get_at(fs@, "request_id"@, 0);
                lemma_get_at(fs@, "operator_id"@, 1);
                lemma_get_at(fs@, "comment"@, 2);
                lemma_get_at(fs@, "via"@, 3);
                assert(jv_model_fields(fs@) =~= enc_kind_data(EventKindM::FriendRequest(*d))->Obj_0);
                assert(dec_ev_friend_request(r) == Ok::<FriendRequestData, DecodeError>(*d));
            } else {
                lemma_get_at(fs@, "request_id"@, 0);
                lemma_get_at(fs@, "operator_id"@, 1);
                lemma_get_at(fs@, "comment"@, 2);
                lemma_get_none(fs@, "via"@);
                assert(jv_model_fields(fs@) =~= enc_kind_data(EventKindM::FriendRequest(*d))->Obj_0);
                assert(dec_ev_friend_request(r) == Ok::<FriendRequestData, DecodeError>(*d));
            }
        } else {
            if d.via is Some {
                lemma_get_at(fs@, "request_id"@, 0);
                lemma_get_at(fs@, "operator_id"@, 1);
                lemma_get_none(fs@, "comment"@);
                lemma_get_at(fs@, "via"@, 2);
                assert(jv_model_fields(fs@) =~= enc_kind_data(EventKindM::FriendRequest(*d))->Obj_0);
                assert(dec_ev_friend_request(r) == Ok::<FriendRequestData, DecodeError>(*d));
            } else {
                lemma_get_at(fs@, "request_id"@, 0);
                lemma_get_at(fs@, "operator_id"@, 1);
                lemma_get_none(fs@, "comment"@);
                lemma_get_none(fs@, "via"@);
                assert(jv_model_fields(fs@) =~= enc_kind_data(EventKindM::FriendRequest(*d))->Obj_0);
                assert(dec_ev_friend_request(r) == Ok::<FriendRequestData, DecodeError>(*d));
            }
        }
    }
    r
}

/// Encodes the `GroupJoinRequestData` payload; `dec_ev_group_join_request` inverts it.
#[verifier::rlimit(60)]
fn x_enc_ev_group_join_request(d: &GroupJoinRequestData) -> (r: JsonValue)
    ensures
        jv_model(r) == enc_kind_data(EventKindM::GroupJoinRequest(*d)),
        dec_ev_group_join_request(r) == Ok::<GroupJoinRequestData, DecodeError>(*d),
{
    let mut fields: Vec<(String, JsonValue)> = Vec::new();
    fields.push((String::from_str("request_id"), JsonValue::Str(d.request_id.clone())));
    fields.push((String::from_str("operator_id"), JsonValue::Int(d.operator_id)));
    fields.push((String::from_str("group_id"), JsonValue::Int(d.group_id)));
    if let Some(x) = &d.comment {
        fields.push((String::from_str("comment"), JsonValue::Str(x.clone())));
    }
    let r = JsonValue::Obj(fields);
    proof {
        reveal_strlit("request_id");
        assert("request_id"@.len() == 10);
        assert("request_id"@[0] == 'r');
        reveal_strlit("operator_id");
        assert("operator_id"@.len() == 11);
        assert("operator_id"@[0] == 'o');
        reveal_strlit("group_id");
        assert("group_id"@.len() == 8);
        assert("group_id"@[0] == 'g');
        reveal_strlit("comment");
        assert("comment"@.len() == 7);
        assert("comment"@[0] == 'c');
        let fs = r->Obj_0;
        lemma_jv_model_fields(fs@);
        if d.comment is Some {
            lemma_get_at(fs@, "request_id"@, 0);
            lemma_get_at(fs@, "operator_id"@, 1);
            lemma_get_at(fs@, "group_id"@, 2);
            lemma_get_at(fs@, "comment"@, 3);
            assert(jv_model_fields(fs@) =~= enc_kind_data(EventKindM::GroupJoinRequest(*d))->Obj_0);
            assert(dec_ev_group_join_request(r) == Ok::<GroupJoinRequestData, DecodeError>(*d));
        } else {
            lemma_get_at(fs@, "request_id"@, 0);
            lemma_get_at(fs@, "operator_id"@, 1);
            lemma_get_at(fs@, "group_id"@, 2);
            lemma_get_none(fs@, "comment"@);
            assert(jv_model_fields(fs@) =~= enc_kind_data(EventKindM::GroupJoinRequest(*d))->Obj_0);
            assert(dec_ev_group_join_request(r) == Ok::<GroupJoinRequestData, DecodeError>(*d));
        }
    }
    r
}

/// Encodes the `GroupInvitedJoinRequestData` payload; `dec_ev_group_invited_join_request` inverts it.
#[verifier::rlimit(60)]
fn x_enc_ev_group_invited_join_request(d: &GroupInvitedJoinRequestData) -> (r: JsonValue)
    ensures
        jv_model(r) == enc_kind_data(EventKindM::GroupInvitedJoinRequest(*d)),
        dec_ev_group_invited_join_request(r) == Ok::<GroupInvitedJoinRequestData, DecodeError>(*d),
{
    let mut fields: Vec<(String, JsonValue)> = Vec::new();
    fields.push((String::from_str("request_id"), JsonValue::Str(d.request_id.clone())));
    fields.push((String::from_str("operator_id"), JsonValue::Int(d.operator_id)));
    fields.push((String::from_str("group_id"), JsonValue::Int(d.group_id)));
    fields.push((String::from_str("invitee_id"), JsonValue::Int(d.invitee_id)));
    let r = JsonValue::Obj(fields);
    proof {
        reveal_strlit("request_id");
        assert("request_id"@.len() == 10);
        assert("request_id"@[0] == 'r');
        reveal_strlit("operator_id");
        assert("operator_id"@.len() == 11);
        assert("operator_id"@[0] == 'o');
        reveal_strlit("group_id");
        assert("group_id"@.len() == 8);
        assert("group_id"@[0] == 'g');
        reveal_strlit("invitee_id");
        assert("invitee_id"@.len() == 10);
        assert("invitee_id"@[0] == 'i');
        let fs = r->Obj_0;
        lemma_jv_model_fields(fs@);
        lemma_get_at(fs@, "request_id"@, 0);
        lemma_get_at(fs@, "operator_id"@, 1);
        lemma_get_at(fs@, "group_id"@, 2);
        lemma_get_at(fs@, "invitee_id"@, 3);
        assert(jv_model_fields(fs@) =~= enc_kind_data(EventKindM::GroupInvitedJoinRequest(*d))->Obj_0);
        assert(dec_ev_group_invited_join_request(r) == Ok::<GroupInvitedJoinRequestData, DecodeError>(*d));
    }
    r
}

/// Encodes the `GroupInvitationRequestData` payload; `dec_ev_group_invitation_request` inverts it.
#[verifier::rlimit(60)]
fn x_enc_ev_group_invitation_request(d: &GroupInvitationRequestData) -> (r: JsonValue)
    ensures
        jv_model(r) == enc_kind_data(EventKindM::GroupInvitationRequest(*d)),
        dec_ev_group_invitation_request(r) == Ok::<GroupInvitationRequestData, DecodeError>(*d),
{
    let mut fields: Vec<(String, JsonValue)> = Vec::new();
    fields.push((String::from_str("request_id"), JsonValue::Str(d.request_id.clone())));
    fields.push((String::from_str("operator_id"), JsonValue::Int(d.operator_id)));
    fields.push((String::from_str("group_id"), JsonValue::Int(d.group_id)));
    let r = JsonValue::Obj(fields);
    proof {
        reveal_strlit("request_id");
        assert("request_id"@.len() == 10);
        assert("request_id"@[0] == 'r');
        reveal_strlit("operator_id");
        assert("operator_id"@.len() == 11);
        assert("operator_id"@[0] == 'o');
        reveal_strlit("group_id");
        assert("group_id"@.len() == 8);
        assert("group_id"@[0] == 'g');
        let fs = r->Obj_0;
        lemma_jv_model_fields(fs@);
        lemma_get_at(fs@, "request_id"@, 0);
        lemma_get_at(fs@, "operator_id"@, 1);
        lemma_get_at(fs@, "group_id"@, 2);
        assert(jv_model_fields(fs@) =~= enc_kind_data(EventKindM::GroupInvitationRequest(*d))->Obj_0);
        assert(dec_ev_group_invitation_request(r) == Ok::<GroupInvitationRequestData, DecodeError>(*d));
    }
    r
}

/// Encodes the `FriendNudgeData` payload; `dec_ev_friend_nudge` inverts it.
#[verifier::rlimit(60)]
fn x_enc_ev_friend_nudge(d: &FriendNudgeData) -> (r: JsonValue)
    ensures
        jv_model(r) == enc_kind_data(EventKindM::FriendNudge(*d)),
        dec_ev_friend_nudge(r) == Ok::<FriendNudgeData, DecodeError>(*d),
{
    let mut fields: Vec<(String, JsonValue)> = Vec::new();
    fields.push((String::from_str("user_id"), JsonValue::Int(d.user_id)));
    fields.push((String::from_str("is_self_send"), JsonValue::Bool(d.is_self_send)));
    fields.push((String::from_str("is_self_receive"), JsonValue::Bool(d.is_self_receive)));
    let r = JsonValue::Obj(fields);
    proof {
        reveal_strlit("user_id");
        assert("user_id"@.len() == 7);
        assert("user_id"@[0] == 'u');
        reveal_strlit("is_self_send");
        assert("is_self_send"@.len() == 12);
        assert("is_self_send"@[0] == 'i');
        reveal_strlit("is_self_receive");
        assert("is_self_receive"@.len() == 15);
        assert("is_self_receive"@[0] == 'i');
        let fs = r->Obj_0;
        lemma_jv_model_fields(fs@);
        lemma_get_at(fs@, "user_id"@, 0);
        lemma_get_at(fs@, "is_self_send"@, 1);
        lemma_get_at(fs@, "is_self_receive"@, 2);
        assert(jv_model_fields(fs@) =~= enc_kind_data(EventKindM::FriendNudge(*d))->Obj_0);
        assert(dec_ev_friend_nudge(r) == Ok::<FriendNudgeData, DecodeError>(*d));
    }
    r
}

/// Encodes the `FriendFileUploadData` payload; `dec_ev_friend_file_upload` inverts it.
#[verifier::rlimit(60)]
fn x_enc_ev_friend_file_upload(d: &FriendFileUploadData) -> (r: JsonValue)
    ensures
        jv_model(r) == enc_kind_data(EventKindM::FriendFileUpload(*d)),
        dec_ev_friend_file_upload(r) == Ok::<FriendFileUploadData, DecodeError>(*d),
{
    let mut fields: Vec<(String, JsonValue)> = Vec::new();
    fields.push((String::from_str("user_id"), JsonValue::Int(d.user_id)));
    fields.push((String::from_str("file_id"), JsonValue::Str(d.file_id.clone())));
    fields.push((String::from_str("file_name"), JsonValue::Str(d.file_name.clone())));
    fields.push((String::from_str("file_size"), JsonValue::Int(d.file_size)));
    fields.push((String::from_str("is_self"), JsonValue::Bool(d.is_self)));
    let r = JsonValue::Obj(fields);
    proof {
        reveal_strlit("user_id");
        assert("user_id"@.len() == 7);
        assert("user_id"@[0] == 'u');
        reveal_strlit("file_id");
        assert("file_id"@.len() == 7);
        assert("file_id"@[0] == 'f');
        reveal_strlit("file_name");
        assert("file_name"@.len() == 9);
        assert("file_name"@[0] == 'f');
        assert("file_name"@[5] == 'n');
        reveal_strlit("file_size");
        assert("file_size"@.len() == 9);
        assert("file_size"@[0] == 'f');
        assert("file_size"@[5] == 's');
        reveal_strlit("is_self");
        assert("is_self"@.len() == 7);
        assert("is_self"@[0] == 'i');
        let fs = r->Obj_0;
        lemma_jv_model_fields(fs@);
        lemma_get_at(fs@, "user_id"@, 0);
        lemma_get_at(fs@, "file_id"@, 1);
        lemma_get_at(fs@, "file_name"@, 2);
        lemma_get_at(fs@, "file_size"@, 3);
        lemma_get_at(fs@, "is_self"@, 4);
        assert(jv_model_fields(fs@) =~= enc_kind_data(EventKindM::FriendFileUpload(*d))->Obj_0);
        assert(dec_ev_friend_file_upload(r) == Ok::<FriendFileUploadData, DecodeError>(*d));
    }
    r
}

/// Encodes the `GroupAdminChangeData` payload; `dec_ev_group_admin_change` inverts it.
#[verifier::rlimit(60)]
fn x_enc_ev_group_admin_change(d: &GroupAdminChangeData) -> (r: JsonValue)
    ensures
        jv_model(r) == enc_kind_data(EventKindM::GroupAdminChange(*d)),
        dec_ev_group_admin_change(r) == Ok::<GroupAdminChangeData, DecodeError>(*d),
{
    let mut fields: Vec<(String, JsonValue)> = Vec::new();
    fields.push((String::from_str("group_id"), JsonValue::Int(d.group_id)));
    fields.push((String::from_str("user_id"), JsonValue::Int(d.user_id)));
    fields.push((String::from_str("is_set"), JsonValue::Bool(d.is_set)));
    let r = JsonValue::Obj(fields);
    proof {
        reveal_strlit("group_id");
        assert("group_id"@.len() == 8);
        assert("group_id"@[0] == 'g');
        reveal_strlit("user_id");
        assert("user_id"@.len() == 7);
        assert("user_id"@[0] == 'u');
        reveal_strlit("is_set");
        assert("is_set"@.len() == 6);
        assert("is_set"@[0] == 'i');
        let fs = r->Obj_0;
        lemma_jv_model_fields(fs@);
        lemma_get_at(fs@, "group_id"@, 0);
        lemma_get_at(fs@, "user_id"@, 1);
        lemma_get_at(fs@, "is_set"@, 2);
        assert(jv_model_fields(fs@) =~= enc_kind_data(EventKindM::GroupAdminChange(*d))->Obj_0);
        assert(dec_ev_group_admin_change(r) == Ok::<GroupAdminChangeData, DecodeError>(*d));
    }
    r
}

/// Encodes the `GroupEssenceMessageChangeData` payload; `dec_ev_group_essence_message_change` inverts it.
#[verifier::rlimit(60)]
fn x_enc_ev_group_essence_message_change(d: &GroupEssenceMessageChangeData) -> (r: JsonValue)
    ensures
        jv_model(r) == enc_kind_data(EventKindM::GroupEssenceMessageChange(*d)),
        dec_ev_group_essence_message_change(r) == Ok::<GroupEssenceMessageChangeData, DecodeError>(*d),
{
    let mut fields: Vec<(String, JsonValue)> = Vec::new();
    fields.push((String::from_str("group_id"), JsonValue::Int(d.group_id)));
    fields.push((String::from_str("message_seq"), JsonValue::Int(d.message_seq)));
    fields.push((String::from_str("is_set"), JsonValue::Bool(d.is_set)));
    let r = JsonValue::Obj(fields);
    proof {
        reveal_strlit("group_id");
        assert("group_id"@.len() == 8);
        assert("group_id"@[0] == 'g');
        reveal_strlit("message_seq");
        assert("message_seq"@.len() == 11);
        assert("message_seq"@[0] == 'm');
        reveal_strlit("is_set");
        assert("is_set"@.len() == 6);
        assert("is_set"@[0] == 'i');
        let fs = r->Obj_0;
        lemma_jv_model_fields(fs@);
        lemma_get_at(fs@, "group_id"@, 0);
        lemma_get_at(fs@, "message_seq"@, 1);
        lemma_get_at(fs@, "is_set"@, 2);
        assert(jv_model_fields(fs@) =~= enc_kind_data(EventKindM::GroupEssenceMessageChange(*d))->Obj_0);
        assert(dec_ev_group_essence_message_change(r) == Ok::<GroupEssenceMessageChangeData, DecodeError>(*d));
    }
    r
}

/// Encodes the `GroupMemberIncreaseData` payload; `dec_ev_group_member_increase` inverts it.
#[verifier::rlimit(60)]
fn x_enc_ev_group_member_increase(d: &GroupMemberIncreaseData) -> (r: JsonValue)
    ensures
        jv_model(r) == enc_kind_data(EventKindM::GroupMemberIncrease(*d)),
        dec_ev_group_member_increase(r) == Ok::<GroupMemberIncreaseData, DecodeError>(*d),
{
    let mut fields: Vec<(String, JsonValue)> = Vec::new();
    fields.push((String::from_str("group_id"), JsonValue::Int(d.group_id)));
    fields.push((String::from_str("user_id"), JsonValue::Int(d.user_id)));
    if let Some(x) = d.operator_id {
        fields.push((String::from_str("operator_id"), JsonValue::Int(x)));
    }
    if let Some(x) = d.invitor_id {
        fields.push((String::from_str("invitor_id"), JsonValue::Int(x)));
    }
    let r = JsonValue::Obj(fields);
    proof {
        reveal_strlit("group_id");
        assert("group_id"@.len() == 8);
        assert("group_id"@[0] == 'g');
        reveal_strlit("user_id");
        assert("user_id"@.len() == 7);
        assert("user_id"@[0] == 'u');
        reveal_strlit("operator_id");
        assert("operator_id"@.len() == 11);
        assert("operator_id"@[0] == 'o');
        reveal_strlit("invitor_id");
        assert("invitor_id"@.len() == 10);
        assert("invitor_id"@[0] == 'i');
        let fs = r->Obj_0;
        lemma_jv_model_fields(fs@);
        if d.operator_id is Some {
            if d.invitor_id is Some {
                lemma_get_at(fs@, "group_id"@, 0);
                lemma_get_at(fs@, "user_id"@, 1);
                lemma_get_at(fs@, "operator_id"@, 2);
                lemma_get_at(fs@, "invitor_id"@, 3);
                assert(jv_model_fields(fs@) =~= enc_kind_data(EventKindM::GroupMemberIncrease(*d))->Obj_0);
                assert(dec_ev_group_member_increase(r) == Ok::<GroupMemberIncreaseData, DecodeError>(*d));
            } else {
                lemma_get_at(fs@, "group_id"@, 0);
                lemma_get_at(fs@, "user_id"@, 1);
                lemma_get_at(fs@, "operator_id"@, 2);
                lemma_get_none(fs@, "invitor_id"@);
                assert(jv_model_fields(fs@) =~= enc_kind_data(EventKindM::GroupMemberIncrease(*d))->Obj_0);
                assert(dec_ev_group_member_increase(r) == Ok::<GroupMemberIncreaseData, DecodeError>(*d));
            }
        } else {
            if d.invitor_id is Some {
                lemma_get_at(fs@, "group_id"@, 0);
                lemma_get_at(fs@, "user_id"@, 1);
                lemma_get_none(fs@, "operator_id"@);
                lemma_get_at(fs@, "invitor_id"@, 2);
                assert(jv_model_fields(fs@) =~= enc_kind_data(EventKindM::GroupMemberIncrease(*d))->Obj_0);
                assert(dec_ev_group_member_increase(r) == Ok::<GroupMemberIncreaseData, DecodeError>(*d));
            } else {
                lemma_get_at(fs@, "group_id"@, 0);
                lemma_get_at(fs@, "user_id"@, 1);
                lemma_get_none(fs@, "operator_id"@);
                lemma_get_none(fs@, "invitor_id"@);
                assert(jv_model_fields(fs@) =~= enc_kind_data(EventKindM::GroupMemberIncrease(*d))->Obj_0);
                assert(dec_ev_group_member_increase(r) == Ok::<GroupMemberIncreaseData, DecodeError>(*d));
            }
        }
    }
    r
}

/// Encodes the `GroupMemberDecreaseData` payload; `dec_ev_group_member_decrease` inverts it.
#[verifier::rlimit(60)]
fn x_enc_ev_group_member_decrease(d: &GroupMemberDecreaseData) -> (r: JsonValue)
    ensures
        jv_model(r) == enc_kind_data(EventKindM::GroupMemberDecrease(*d)),
        dec_ev_group_member_decrease(r) == Ok::<GroupMemberDecreaseData, DecodeError>(*d),
{
    let mut fields: Vec<(String, JsonValue)> = Vec::new();
    fields.push((String::from_str("group_id"), JsonValue::Int(d.group_id)));
    fields.push((String::from_str("user_id"), JsonValue::Int(d.user_id)));
    if let Some(x) = d.operator_id {
        fields.push((String::from_str("operator_id"), JsonValue::Int(x)));
    }
    let r = JsonValue::Obj(fields);
    proof {
        reveal_strlit("group_id");
        assert("group_id"@.len() == 8);
        assert("group_id"@[0] == 'g');
        reveal_strlit("user_id");
        assert("user_id"@.len() == 7);
        assert("user_id"@[0] == 'u');
        reveal_strlit("operator_id");
        assert("operator_id"@.len() == 11);
        assert("operator_id"@[0] == 'o');
        let fs = r->Obj_0;
        lemma_jv_model_fields(fs@);
        if d.operator_id is Some {
            lemma_get_at(fs@, "group_id"@, 0);
            lemma_get_at(fs@, "user_id"@, 1);
            lemma_get_at(fs@, "operator_id"@, 2);
            assert(jv_model_fields(fs@) =~= enc_kind_data(EventKindM::GroupMemberDecrease(*d))->Obj_0);
            assert(dec_ev_group_member_decrease(r) == Ok::<GroupMemberDecreaseData, DecodeError>(*d));
        } else {
            lemma_get_at(fs@, "group_id"@, 0);
            lemma_get_at(fs@, "user_id"@, 1);
            lemma_get_none(fs@, "operator_id"@);
            assert(jv_model_fields(fs@) =~= enc_kind_data(EventKindM::GroupMemberDecrease(*d))->Obj_0);
            assert(dec_ev_group_member_decrease(r) == Ok::<GroupMemberDecreaseData, DecodeError>(*d));
        }
    }
    r
}

/// Encodes the `GroupNameChangeData` payload; `dec_ev_group_name_change` inverts it.
#[verifier::rlimit(60)]
fn x_enc_ev_group_name_change(d: &GroupNameChangeData) -> (r: JsonValue)
    ensures
        jv_model(r) == enc_kind_data(EventKindM::GroupNameChange(*d)),
        dec_ev_group_name_change(r) == Ok::<GroupNameChangeData, DecodeError>(*d),
{
    let mut fields: Vec<(String, JsonValue)> = Vec::new();
    fields.push((String::from_str("group_id"), JsonValue::Int(d.group_id)));
    fields.push((String::from_str("name"), JsonValue::Str(d.name.clone())));
    fields.push((String::from_str("operator_id"), JsonValue::Int(d.operator_id)));
    let r = JsonValue::Obj(fields);
    proof {
        reveal_strlit("group_id");
        assert("group_id"@.len() == 8);
        assert("group_id"@[0] == 'g');
        reveal_strlit("name");
        assert("name"@.len() == 4);
        assert("name"@[0] == 'n');
        reveal_strlit("operator_id");
        assert("operator_id"@.len() == 11);
        assert("operator_id"@[0] == 'o');
        let fs = r->Obj_0;
        lemma_jv_model_fields(fs@);
        lemma_get_at(fs@, "group_id"@, 0);
        lemma_get_at(fs@, "name"@, 1);
        lemma_get_at(fs@, "operator_id"@, 2);
        assert(jv_model_fields(fs@) =~= enc_kind_data(EventKindM::GroupNameChange(*d))->Obj_0);
        assert(dec_ev_group_name_change(r) == Ok::<GroupNameChangeData, DecodeError>(*d));
    }
    r
}

/// Encodes the `GroupMessageReactionData` payload; `dec_ev_group_message_reaction` inverts it.
#[verifier::rlimit(60)]
fn x_enc_ev_group_message_reaction(d: &GroupMessageReactionData) -> (r: JsonValue)
    ensures
        jv_model(r) == enc_kind_data(EventKindM::GroupMessageReaction(*d)),
        dec_ev_group_message_reaction(r) == Ok::<GroupMessageReactionData, DecodeError>(*d),
{
    let mut fields: Vec<(String, JsonValue)> = Vec::new();
    fields.push((String::from_str("group_id"), JsonValue::Int(d.group_id)));
    fields.push((String::from_str("user_id"), JsonValue::Int(d.user_id)));
    fields.push((String::from_str("message_seq"), JsonValue::Int(d.message_seq)));
    fields.push((String::from_str("face_id"), JsonValue::Str(d.face_id.clone())));
    if let Some(x) = d.is_add {
        fields.push((String::from_str("is_add"), JsonValue::Bool(x)));
    }
    let r = JsonValue::Obj(fields);
    proof {
        reveal_strlit("group_id");
        assert("group_id"@.len() == 8);
        assert("group_id"@[0] == 'g');
        reveal_strlit("user_id");
        assert("user_id"@.len() == 7);
        assert("user_id"@[0] == 'u');
        reveal_strlit("message_seq");
        assert("message_seq"@.len() == 11);
        assert("message_seq"@[0] == 'm');
        reveal_strlit("face_id");
        assert("face_id"@.len() == 7);
        assert("face_id"@[0] == 'f');
        reveal_strlit("is_add");
        assert("is_add"@.len() == 6);
        assert("is_add"@[0] == 'i');
        let fs = r->Obj_0;
        lemma_jv_model_fields(fs@);
        if d.is_add is Some {
            lemma_get_at(fs@, "group_id"@, 0);
            lemma_get_at(fs@, "user_id"@, 1);
            lemma_get_at(fs@, "message_seq"@, 2);
            lemma_get_at(fs@, "face_id"@, 3);
            lemma_get_at(fs@, "is_add"@, 4);
            assert(jv_model_fields(fs@) =~= enc_kind_data(EventKindM::GroupMessageReaction(*d))->Obj_0);
            assert(dec_ev_group_message_reaction(r) == Ok::<GroupMessageReactionData, DecodeError>(*d));
        } else {
            lemma_get_at(fs@, "group_id"@, 0);
            lemma_get_at(fs@, "user_id"@, 1);
            lemma_get_at(fs@, "message_seq"@, 2);
            lemma_get_at(fs@, "face_id"@, 3);
            lemma_get_none(fs@, "is_add"@);
            assert(jv_model_fields(fs@) =~= enc_kind_data(EventKindM::GroupMessageReaction(*d))->Obj_0);
            assert(dec_ev_group_message_reaction(r) == Ok::<GroupMessageReactionData, DecodeError>(*d));
        }
    }
    r
}

/// Encodes the `GroupMuteData` payload; `dec_ev_group_mute` inverts it.
#[verifier::rlimit(60)]
fn x_enc_ev_group_mute(d: &GroupMuteData) -> (r: JsonValue)
    ensures
        jv_model(r) == enc_kind_data(EventKindM::GroupMute(*d)),
        dec_ev_group_mute(r) == Ok::<GroupMuteData, DecodeError>(*d),
{
    let mut fields: Vec<(String, JsonValue)> = Vec::new();
    fields.push((String::from_str("group_id"), JsonValue::Int(d.group_id)));
    fields.push((String::from_str("user_id"), JsonValue::Int(d.user_id)));
    fields.push((String::from_str("duration"), JsonValue::Int(d.duration as i64)));
    let r = JsonValue::Obj(fields);
    proof {
        reveal_strlit("group_id");
        assert("group_id"@.len() == 8);
        assert("group_id"@[0] == 'g');
        reveal_strlit("user_id");
        assert("user_id"@.len() == 7);
        assert("user_id"@[0] == 'u');
        reveal_strlit("duration");
        assert("duration"@.len() == 8);
        assert("duration"@[0] == 'd');
        let fs = r->Obj_0;
        lemma_jv_model_fields(fs@);
        lemma_get_at(fs@, "group_id"@, 0);
        lemma_get_at(fs@, "user_id"@, 1);
        lemma_get_at(fs@, "duration"@, 2);
        assert(jv_model_fields(fs@) =~= enc_kind_data(EventKindM::GroupMute(*d))->Obj_0);
        assert(dec_ev_group_mute(r) == Ok::<GroupMuteData, DecodeError>(*d));
    }
    r
}

/// Encodes the `GroupWholeMuteData` payload; `dec_ev_group_whole_mute` inverts it.
#[verifier::rlimit(60)]
fn x_enc_ev_group_whole_mute(d: &GroupWholeMuteData) -> (r: JsonValue)
    ensures
        jv_model(r) == enc_kind_data(EventKindM::GroupWholeMute(*d)),
        dec_ev_group_whole_mute(r) == Ok::<GroupWholeMuteData, DecodeError>(*d),
{
    let mut fields: Vec<(String, JsonValue)> = Vec::new();
    fields.push((String::from_str("group_id"), JsonValue::Int(d.group_id)));
    fields.push((String::from_str("operator_id"), JsonValue::Int(d.operator_id)));
    fields.push((String::from_str("is_mute"), JsonValue::Bool(d.is_mute)));
    let r = JsonValue::Obj(fields);
    proof {
        reveal_strlit("group_id");
        assert("group_id"@.len() == 8);
        assert("group_id"@[0] == 'g');
        reveal_strlit("operator_id");
        assert("operator_id"@.len() == 11);
        assert("operator_id"@[0] == 'o');
        reveal_strlit("is_mute");
        assert("is_mute"@.len() == 7);
        assert("is_mute"@[0] == 'i');
        let fs = r->Obj_0;
        lemma_jv_model_fields(fs@);
        lemma_get_at(fs@, "group_id"@, 0);
        lemma_get_at(fs@, "operator_id"@, 1);
        lemma_get_at(fs@, "is_mute"@, 2);
        assert(jv_model_fields(fs@) =~= enc_kind_data(EventKindM::GroupWholeMute(*d))->Obj_0);
        assert(dec_ev_group_whole_mute(r) == Ok::<GroupWholeMuteData, DecodeError>(*d));
    }
    r
}

/// Encodes the `GroupNudgeData` payload; `dec_ev_group_nudge` inverts it.
#[verifier::rlimit(60)]
fn x_enc_ev_group_nudge(d: &GroupNudgeData) -> (r: JsonValue)
    ensures
        jv_model(r) == enc_kind_data(EventKindM::GroupNudge(*d)),
        dec_ev_group_nudge(r) == Ok::<GroupNudgeData, DecodeError>(*d),
{
    let mut fields: Vec<(String, JsonValue)> = Vec::new();
    fields.push((String::from_str("group_id"), JsonValue::Int(d.group_id)));
    fields.push((String::from_str("sender_id"), JsonValue::Int(d.sender_id)));
    fields.push((String::from_str("receiver_id"), JsonValue::Int(d.receiver_id)));
    let r = JsonValue::Obj(fields);
    proof {
        reveal_strlit("group_id");
        assert("group_id"@.len() == 8);
        assert("group_id"@[0] == 'g');
        reveal_strlit("sender_id");
        assert("sender_id"@.len() == 9);
        assert("sender_id"@[0] == 's');
        reveal_strlit("receiver_id");
        assert("receiver_id"@.len() == 11);
        assert("receiver_id"@[0] == 'r');
        let fs = r->Obj_0;
        lemma_jv_model_fields(fs@);
        lemma_get_at(fs@, "group_id"@, 0);
        lemma_get_at(fs@, "sender_id"@, 1);
        lemma_get_at(fs@, "receiver_id"@, 2);
        assert(jv_model_fields(fs@) =~= enc_kind_data(EventKindM::GroupNudge(*d))->Obj_0);
        assert(dec_ev_group_nudge(r) == Ok::<GroupNudgeData, DecodeError>(*d));
    }
    r
}

/// Encodes the `GroupFileUploadData` payload; `dec_ev_group_file_upload` inverts it.
#[verifier::rlimit(60)]
fn x_enc_ev_group_file_upload(d: &GroupFileUploadData) -> (r: JsonValue)
    ensures
        jv_model(r) == enc_kind_data(EventKindM::GroupFileUpload(*d)),
        dec_ev_group_file_upload(r) == Ok::<GroupFileUploadData, DecodeError>(*d),
{
    let mut fields: Vec<(String, JsonValue)> = Vec::new();
    fields.push((String::from_str("group_id"), JsonValue::Int(d.group_id)));
    fields.push((String::from_str("user_id"), JsonValue::Int(d.user_id)));
    fields.push((String::from_str("file_id"), JsonValue::Str(d.file_id.clone())));
    fields.push((String::from_str("file_name"), JsonValue::Str(d.file_name.clone())));
    fields.push((String::from_str("file_size"), JsonValue::Int(d.file_size)));
    let r = JsonValue::Obj(fields);
    proof {
        reveal_strlit("group_id");
        assert("group_id"@.len() == 8);
        assert("group_id"@[0] == 'g');
        reveal_strlit("user_id");
        assert("user_id"@.len() == 7);
        assert("user_id"@[0] == 'u');
        reveal_strlit("file_id");
        assert("file_id"@.len() == 7);
        assert("file_id"@[0] == 'f');
        reveal_strlit("file_name");
        assert("file_name"@.len() == 9);
        assert("file_name"@[0] == 'f');
        assert("file_name"@[5] == 'n');
        reveal_strlit("file_size");
        assert("file_size"@.len() == 9);
        assert("file_size"@[0] == 'f');
        assert("file_size"@[5] == 's');
        let fs = r->Obj_0;
        lemma_jv_model_fields(fs@);
        lemma_get_at(fs@, "group_id"@, 0);
        lemma_get_at(fs@, "user_id"@, 1);
        lemma_get_at(fs@, "file_id"@, 2);
        lemma_get_at(fs@, "file_name"@, 3);
        lemma_get_at(fs@, "file_size"@, 4);
        assert(jv_model_fields(fs@) =~= enc_kind_data(EventKindM::GroupFileUpload(*d))->Obj_0);
        assert(dec_ev_group_file_upload(r) == Ok::<GroupFileUploadData, DecodeError>(*d));
    }
    r
}

/// Encodes a `Text` segment; `dec_segment` inverts it.
#[verifier::rlimit(80)]
fn x_enc_seg_text(text: &String) -> (r: JsonValue)
    ensures
        jv_model(r) == enc_segment((IncomingSegment::Text { text: *text })),
        dec_segment(r) == Ok::<IncomingSegment, DecodeError>((IncomingSegment::Text { text: *text })),
{
    let mut fields: Vec<(String, JsonValue)> = Vec::new();
    fields.push((String::from_str("text"), JsonValue::Str(text.clone())));
    let data = JsonValue::Obj(fields);
    let mut outer: Vec<(String, JsonValue)> = Vec::new();
    outer.push((String::from_str("type"), JsonValue::Str(String::from_str("text"))));
    outer.push((String::from_str("data"), data));
    let r = JsonValue::Obj(outer);
    proof {
        reveal_strlit("type");
        assert("type"@.len() == 4);
        assert("type"@[0] == 't');
        reveal_strlit("data");
        assert("data"@.len() == 4);
        assert("data"@[0] == 'd');
        reveal_strlit("text");
        assert("text"@.len() == 4);
        assert("text"@[0] == 't');
        let fs = data->Obj_0;
        let os = r->Obj_0;
        lemma_jv_model_fields(fs@);
        lemma_jv_model_fields(os@);
        lemma_get_at(os@, "type"@, 0);
        lemma_get_at(os@, "data"@, 1);
        lemma_get_at(fs@, "text"@, 0);
        assert(jv_model_fields(fs@) =~= enc_segment((IncomingSegment::Text { text: *text }))->Obj_0[1].1->Obj_0);
        assert(jv_model_fields(os@) =~= enc_segment((IncomingSegment::Text { text: *text }))->Obj_0);
        assert(jv_model(r) == enc_segment((IncomingSegment::Text { text: *text })));
        assert(dec_segment(r) == Ok::<IncomingSegment, DecodeError>((IncomingSegment::Text { text: *text })));
    }
    r
}

/// Encodes a `Mention` segment; `dec_segment` inverts it.
#[verifier::rlimit(80)]
fn x_enc_seg_mention(user_id: i64) -> (r: JsonValue)
    ensures
        jv_model(r) == enc_segment((IncomingSegment::Mention { user_id })),
        dec_segment(r) == Ok::<IncomingSegment, DecodeError>((IncomingSegment::Mention { user_id })),
{
    let mut fields: Vec<(String, JsonValue)> = Vec::new();
    fields.push((String::from_str("user_id"), JsonValue::Int(user_id)));
    let data = JsonValue::Obj(fields);
    let mut outer: Vec<(String, JsonValue)> = Vec::new();
    outer.push((String::from_str("type"), JsonValue::Str(String::from_str("mention"))));
    outer.push((String::from_str("data"), data));
    let r = JsonValue::Obj(outer);
    proof {
        reveal_strlit("type");
        assert("type"@.len() == 4);
        assert("type"@[0] == 't');
        reveal_strlit("data");
        assert("data"@.len() == 4);
        assert("data"@[0] == 'd');
        reveal_strlit("text");
        assert("text"@.len() == 4);
        assert("text"@[0] == 't');
        reveal_strlit("mention");
        assert("mention"@.len() == 7);
        assert("mention"@[0] == 'm');
        reveal_strlit("user_id");
        assert("user_id"@.len() == 7);
        assert("user_id"@[0] == 'u');
        let fs = data->Obj_0;
        let os = r->Obj_0;
        lemma_jv_model_fields(fs@);
        lemma_jv_model_fields(os@);
        lemma_get_at(os@, "type"@, 0);
        lemma_get_at(os@, "data"@, 1);
        lemma_get_at(fs@, "user_id"@, 0);
        assert(jv_model_fields(fs@) =~= enc_segment((IncomingSegment::Mention { user_id }))->Obj_0[1].1->Obj_0);
        assert(jv_model_fields(os@) =~= enc_segment((IncomingSegment::Mention { user_id }))->Obj_0);
        assert(jv_model(r) == enc_segment((IncomingSegment::Mention { user_id })));
        assert(dec_segment(r) == Ok::<IncomingSegment, DecodeError>((IncomingSegment::Mention { user_id })));
    }
    r
}

/// Encodes a `MentionAll` segment; `dec_segment` inverts it.
#[verifier::rlimit(80)]
fn x_enc_seg_mention_all() -> (r: JsonValue)
    ensures
        jv_model(r) == enc_segment((IncomingSegment::MentionAll {  })),
        dec_segment(r) == Ok::<IncomingSegment, DecodeError>((IncomingSegment::MentionAll {  })),
{
    let mut fields: Vec<(String, JsonValue)> = Vec::new();
    let data = JsonValue::Obj(fields);
    let mut outer: Vec<(String, JsonValue)> = Vec::new();
    outer.push((String::from_str("type"), JsonValue::Str(String::from_str("mention_all"))));
    outer.push((String::from_str("data"), data));
    let r = JsonValue::Obj(outer);
    proof {
        reveal_strlit("type");
        assert("type"@.len() == 4);
        assert("type"@[0] == 't');
        reveal_strlit("data");
        assert("data"@.len() == 4);
        assert("data"@[0] == 'd');
        reveal_strlit("text");
        assert("text"@.len() == 4);
        assert("text"@[0] == 't');
        reveal_strlit("mention");
        assert("mention"@.len() == 7);
        assert("mention"@[0] == 'm');
        reveal_strlit("mention_all");
        assert("mention_all"@.len() == 11);
        assert("mention_all"@[0] == 'm');
        assert("mention_all"@[1] == 'e');
        let fs = data->Obj_0;
        let os = r->Obj_0;
        lemma_jv_model_fields(fs@);
        lemma_jv_model_fields(os@);
        lemma_get_at(os@, "type"@, 0);
        lemma_get_at(os@, "data"@, 1);
        assert(jv_model_fields(fs@) =~= enc_segment((IncomingSegment::MentionAll {  }))->Obj_0[1].1->Obj_0);
        assert(jv_model_fields(os@) =~= enc_segment((IncomingSegment::MentionAll {  }))->Obj_0);
        assert(jv_model(r) == enc_segment((IncomingSegment::MentionAll {  })));
        assert(dec_segment(r) == Ok::<IncomingSegment, DecodeError>((IncomingSegment::MentionAll {  })));
    }
    r
}

/// Encodes a `Face` segment; `dec_segment` inverts it.
#[verifier::rlimit(80)]
fn x_enc_seg_face(face_id: &String) -> (r: JsonValue)
    ensures
        jv_model(r) == enc_segment((IncomingSegment::Face { face_id: *face_id })),
        dec_segment(r) == Ok::<IncomingSegment, DecodeError>((IncomingSegment::Face { face_id: *face_id })),
{
    let mut fields: Vec<(String, JsonValue)> = Vec::new();
    fields.push((String::from_str("face_id"), JsonValue::Str(face_id.clone())));
    let data = JsonValue::Obj(fields);
    let mut outer: Vec<(String, JsonValue)> = Vec::new();
    outer.push((String::from_str("type"), JsonValue::Str(String::from_str("face"))));
    outer.push((String::from_str("data"), data));
    let r = JsonValue::Obj(outer);
    proof {
        reveal_strlit("type");
        assert("type"@.len() == 4);
        assert("type"@[0] == 't');
        reveal_strlit("data");
        assert("data"@.len() == 4);
        assert("data"@[0] == 'd');
        reveal_strlit("text");
        assert("text"@.len() == 4);
        assert("text"@[0] == 't');
        reveal_strlit("mention");
        assert("mention"@.len() == 7);
        assert("mention"@[0] == 'm');
        reveal_strlit("mention_all");
        assert("mention_all"@.len() == 11);
        assert("mention_all"@[0] == 'm');
        assert("mention_all"@[1] == 'e');
        reveal_strlit("face");
        assert("face"@.len() == 4);
        assert("face"@[0] == 'f');
        assert("face"@[1] == 'a');
        reveal_strlit("face_id");
        assert("face_id"@.len() == 7);
        assert("face_id"@[0] == 'f');
        let fs = data->Obj_0;
        let os = r->Obj_0;
        lemma_jv_model_fields(fs@);
        lemma_jv_model_fields(os@);
        lemma_get_at(os@, "type"@, 0);
        lemma_get_at(os@, "data"@, 1);
        lemma_get_at(fs@, "face_id"@, 0);
        assert(jv_model_fields(fs@) =~= enc_segment((IncomingSegment::Face { face_id: *face_id }))->Obj_0[1].1->Obj_0);
        assert(jv_model_fields(os@) =~= enc_segment((IncomingSegment::Face { face_id: *face_id }))->Obj_0);
        assert(jv_model(r) == enc_segment((IncomingSegment::Face { face_id: *face_id })));
        assert(dec_segment(r) == Ok::<IncomingSegment, DecodeError>((IncomingSegment::Face { face_id: *face_id })));
    }
    r
}

/// Encodes a `Reply` segment; `dec_segment` inverts it.
#[verifier::rlimit(80)]
fn x_enc_seg_reply(message_seq: i64) -> (r: JsonValue)
    ensures
        jv_model(r) == enc_segment((IncomingSegment::Reply { message_seq })),
        dec_segment(r) == Ok::<IncomingSegment, DecodeError>((IncomingSegment::Reply { message_seq })),
{
    let mut fields: Vec<(String, JsonValue)> = Vec::new();
    fields.push((String::from_str("message_seq"), JsonValue::Int(message_seq)));
    let data = JsonValue::Obj(fields);
    let mut outer: Vec<(String, JsonValue)> = Vec::new();
    outer.push((String::from_str("type"), JsonValue::Str(String::from_str("reply"))));
    outer.push((String::from_str("data"), data));
    let r = JsonValue::Obj(outer);
    proof {
        reveal_strlit("type");
        assert("type"@.len() == 4);
        assert("type"@[0] == 't');
        reveal_strlit("data");
        assert("data"@.len() == 4);
        assert("data"@[0] == 'd');
        reveal_strlit("text");
        assert("text"@.len() == 4);
        assert("text"@[0] == 't');
        reveal_strlit("mention");
        assert("mention"@.len() == 7);
        assert("mention"@[0] == 'm');
        reveal_strlit("mention_all");
        assert("mention_all"@.len() == 11);
        assert("mention_all"@[0] == 'm');
        assert("mention_all"@[1] == 'e');
        reveal_strlit("face");
        assert("face"@.len() == 4);
        assert("face"@[0] == 'f');
        assert("face"@[1] == 'a');
        reveal_strlit("reply");
        assert("reply"@.len() == 5);
        assert("reply"@[0] == 'r');
        reveal_strlit("message_seq");
        assert("message_seq"@.len() == 11);
        assert("message_seq"@[0] == 'm');
        let fs = data->Obj_0;
        let os = r->Obj_0;
        lemma_jv_model_fields(fs@);
        lemma_jv_model_fields(os@);
        lemma_get_at(os@, "type"@, 0);
        lemma_get_at(os@, "data"@, 1);
        lemma_get_at(fs@, "message_seq"@, 0);
        assert(jv_model_fields(fs@) =~= enc_segment((IncomingSegment::Reply { message_seq }))->Obj_0[1].1->Obj_0);
        assert(jv_model_fields(os@) =~= enc_segment((IncomingSegment::Reply { message_seq }))->Obj_0);
        assert(jv_model(r) == enc_segment((IncomingSegment::Reply { message_seq })));
        assert(dec_segment(r) == Ok::<IncomingSegment, DecodeError>((IncomingSegment::Reply { message_seq })));
    }
    r
}

/// Encodes a `Image` segment; `dec_segment` inverts it.
#[verifier::rlimit(80)]
fn x_enc_seg_image(resource_id: &String, temp_url: &String, width: i32, height: i32, summary: &String, sub_type: &String) -> (r: JsonValue)
    ensures
        jv_model(r) == enc_segment((IncomingSegment::Image { resource_id: *resource_id, temp_url: *temp_url, width, height, summary: *summary, sub_type: *sub_type })),
        dec_segment(r) == Ok::<IncomingSegment, DecodeError>((IncomingSegment::Image { resource_id: *resource_id, temp_url: *temp_url, width, height, summary: *summary, sub_type: *sub_type })),
{
    let mut fields: Vec<(String, JsonValue)> = Vec::new();
    fields.push((String::from_str("resource_id"), JsonValue::Str(resource_id.clone())));
    fields.push((String::from_str("temp_url"), JsonValue::Str(temp_url.clone())));
    fields.push((String::from_str("width"), JsonValue::Int(width as i64)));
    fields.push((String::from_str("height"), JsonValue::Int(height as i64)));
    fields.push((String::from_str("summary"), JsonValue::Str(summary.clone())));
    fields.push((String::from_str("sub_type"), JsonValue::Str(sub_type.clone())));
    let data = JsonValue::Obj(fields);
    let mut outer: Vec<(String, JsonValue)> = Vec::new();
    outer.push((String::from_str("type"), JsonValue::Str(String::from_str("image"))));
    outer.push((String::from_str("data"), data));
    let r = JsonValue::Obj(outer);
    proof {
        reveal_strlit("type");
        assert("type"@.len() == 4);
        assert("type"@[0] == 't');
        reveal_strlit("data");
        assert("data"@.len() == 4);
        assert("data"@[0] == 'd');
        reveal_strlit("text");
        assert("text"@.len() == 4);
        assert("text"@[0] == 't');
        reveal_strlit("mention");
        assert("mention"@.len() == 7);
        assert("mention"@[0] == 'm');
        reveal_strlit("mention_all");
        assert("mention_all"@.len() == 11);
        assert("mention_all"@[0] == 'm');
        assert("mention_all"@[1] == 'e');
        reveal_strlit("face");
        assert("face"@.len() == 4);
        assert("face"@[0] == 'f');
        assert("face"@[1] == 'a');
        reveal_strlit("reply");
        assert("reply"@.len() == 5);
        assert("reply"@[0] == 'r');
        reveal_strlit("image");
        assert("image"@.len() == 5);
        assert("image"@[0] == 'i');
        reveal_strlit("resource_id");
        assert("resource_id"@.len() == 11);
        assert("resource_id"@[0] == 'r');
        reveal_strlit("temp_url");
        assert("temp_url"@.len() == 8);
        assert("temp_url"@[0] == 't');
        reveal_strlit("width");
        assert("width"@.len() == 5);
        assert("width"@[0] == 'w');
        reveal_strlit("height");
        assert("height"@.len() == 6);
        assert("height"@[0] == 'h');
        reveal_strlit("summary");
        assert("summary"@.len() == 7);
        assert("summary"@[0] == 's');
        reveal_strlit("sub_type");
        assert("sub_type"@.len() == 8);
        assert("sub_type"@[0] == 's');
        let fs = data->Obj_0;
        let os = r->Obj_0;
        lemma_jv_model_fields(fs@);
        lemma_jv_model_fields(os@);
        lemma_get_at(os@, "type"@, 0);
        lemma_get_at(os@, "data"@, 1);
        lemma_get_at(fs@, "resource_id"@, 0);
        lemma_get_at(fs@, "temp_url"@, 1);
        lemma_get_at(fs@, "width"@, 2);
        lemma_get_at(fs@, "height"@, 3);
        lemma_get_at(fs@, "summary"@, 4);
        lemma_get_at(fs@, "sub_type"@, 5);
        assert(jv_model_fields(fs@) =~= enc_segment((IncomingSegment::Image { resource_id: *resource_id, temp_url: *temp_url, width, height, summary: *summary, sub_type: *sub_type }))->Obj_0[1].1->Obj_0);
        assert(jv_model_fields(os@) =~= enc_segment((IncomingSegment::Image { resource_id: *resource_id, temp_url: *temp_url, width, height, summary: *summary, sub_type: *sub_type }))->Obj_0);
        assert(jv_model(r) == enc_segment((IncomingSegment::Image { resource_id: *resource_id, temp_url: *temp_url, width, height, summary: *summary, sub_type: *sub_type })));
        assert(dec_segment(r) == Ok::<IncomingSegment, DecodeError>((IncomingSegment::Image { resource_id: *resource_id, temp_url: *temp_url, width, height, summary: *summary, sub_type: *sub_type })));
    }
    r
}

/// Encodes a `Record` segment; `dec_segment` inverts it.
#[verifier::rlimit(80)]
fn x_enc_seg_record(resource_id: &String, temp_url: &String, duration: i32) -> (r: JsonValue)
    ensures
        jv_model(r) == enc_segment((IncomingSegment::Record { resource_id: *resource_id, temp_url: *temp_url, duration })),
        dec_segment(r) == Ok::<IncomingSegment, DecodeError>((IncomingSegment::Record { resource_id: *resource_id, temp_url: *temp_url, duration })),
{
    let mut fields: Vec<(String, JsonValue)> = Vec::new();
    fields.push((String::from_str("resource_id"), JsonValue::Str(resource_id.clone())));
    fields.push((String::from_str("temp_url"), JsonValue::Str(temp_url.clone())));
    fields.push((String::from_str("duration"), JsonValue::Int(duration as i64)));
    let data = JsonValue::Obj(fields);
    let mut outer: Vec<(String, JsonValue)> = Vec::new();
    outer.push((String::from_str("type"), JsonValue::Str(String::from_str("record"))));
    outer.push((String::from_str("data"), data));
    let r = JsonValue::Obj(outer);
    proof {
        reveal_strlit("type");
        assert("type"@.len() == 4);
        assert("type"@[0] == 't');
        reveal_strlit("data");
        assert("data"@.len() == 4);
        assert("data"@[0] == 'd');
        reveal_strlit("text");
        assert("text"@.len() == 4);
        assert("text"@[0] == 't');
        reveal_strlit("mention");
        assert("mention"@.len() == 7);
        assert("mention"@[0] == 'm');
        reveal_strlit("mention_all");
        assert("mention_all"@.len() == 11);
        assert("mention_all"@[0] == 'm');
        assert("mention_all"@[1] == 'e');
        reveal_strlit("face");
        assert("face"@.len() == 4);
        assert("face"@[0] == 'f');
        assert("face"@[1] == 'a');
        reveal_strlit("reply");
        assert("reply"@.len() == 5);
        assert("reply"@[0] == 'r');
        reveal_strlit("image");
        assert("image"@.len() == 5);
        assert("image"@[0] == 'i');
        reveal_strlit("record");
        assert("record"@.len() == 6);
        assert("record"@[0] == 'r');
        reveal_strlit("resource_id");
        assert("resource_id"@.len() == 11);
        assert("resource_id"@[0] == 'r');
        reveal_strlit("temp_url");
        assert("temp_url"@.len() == 8);
        assert("temp_url"@[0] == 't');
        reveal_strlit("duration");
        assert("duration"@.len() == 8);
        assert("duration"@[0] == 'd');
        let fs = data->Obj_0;
        let os = r->Obj_0;
        lemma_jv_model_fields(fs@);
        lemma_jv_model_fields(os@);
        lemma_get_at(os@, "type"@, 0);
        lemma_get_at(os@, "data"@, 1);
        lemma_get_at(fs@, "resource_id"@, 0);
        lemma_get_at(fs@, "temp_url"@, 1);
        lemma_get_at(fs@, "duration"@, 2);
        assert(jv_model_fields(fs@) =~= enc_segment((IncomingSegment::Record { resource_id: *resource_id, temp_url: *temp_url, duration }))->Obj_0[1].1->Obj_0);
        assert(jv_model_fields(os@) =~= enc_segment((IncomingSegment::Record { resource_id: *resource_id, temp_url: *temp_url, duration }))->Obj_0);
        assert(jv_model(r) == enc_segment((IncomingSegment::Record { resource_id: *resource_id, temp_url: *temp_url, duration })));
        assert(dec_segment(r) == Ok::<IncomingSegment, DecodeError>((IncomingSegment::Record { resource_id: *resource_id, temp_url: *temp_url, duration })));
    }
    r
}

/// Encodes a `Video` segment; `dec_segment` inverts it.
#[verifier::rlimit(80)]
fn x_enc_seg_video(resource_id: &String, temp_url: &String, width: i32, height: i32, duration: i32) -> (r: JsonValue)
    ensures
        jv_model(r) == enc_segment((IncomingSegment::Video { resource_id: *resource_id, temp_url: *temp_url, width, height, duration })),
        dec_segment(r) == Ok::<IncomingSegment, DecodeError>((IncomingSegment::Video { resource_id: *resource_id, temp_url: *temp_url, width, height, duration })),
{
    let mut fields: Vec<(String, JsonValue)> = Vec::new();
    fields.push((String::from_str("resource_id"), JsonValue::Str(resource_id.clone())));
    fields.push((String::from_str("temp_url"), JsonValue::Str(temp_url.clone())));
    fields.push((String::from_str("width"), JsonValue::Int(width as i64)));
    fields.push((String::from_str("height"), JsonValue::Int(height as i64)));
    fields.push((String::from_str("duration"), JsonValue::Int(duration as i64)));
    let data = JsonValue::Obj(fields);
    let mut outer: Vec<(String, JsonValue)> = Vec::new();
    outer.push((String::from_str("type"), JsonValue::Str(String::from_str("video"))));
    outer.push((String::from_str("data"), data));
    let r = JsonValue::Obj(outer);
    proof {
        reveal_strlit("type");
        assert("type"@.len() == 4);
        assert("type"@[0] == 't');
        reveal_strlit("data");
        assert("data"@.len() == 4);
        assert("data"@[0] == 'd');
        reveal_strlit("text");
        assert("text"@.len() == 4);
        assert("text"@[0] == 't');
        reveal_strlit("mention");
        assert("mention"@.len() == 7);
        assert("mention"@[0] == 'm');
        reveal_strlit("mention_all");
        assert("mention_all"@.len() == 11);
        assert("mention_all"@[0] == 'm');
        assert("mention_all"@[1] == 'e');
        reveal_strlit("face");
        assert("face"@.len() == 4);
        assert("face"@[0] == 'f');
        assert("face"@[1] == 'a');
        reveal_strlit("reply");
        assert("reply"@.len() == 5);
        assert("reply"@[0] == 'r');
        reveal_strlit("image");
        assert("image"@.len() == 5);
        assert("image"@[0] == 'i');
        reveal_strlit("record");
        assert("record"@.len() == 6);
        assert("record"@[0] == 'r');
        reveal_strlit("video");
        assert("video"@.len() == 5);
        assert("video"@[0] == 'v');
        reveal_strlit("resource_id");
        assert("resource_id"@.len() == 11);
        assert("resource_id"@[0] == 'r');
        reveal_strlit("temp_url");
        assert("temp_url"@.len() == 8);
        assert("temp_url"@[0] == 't');
        reveal_strlit("width");
        assert("width"@.len() == 5);
        assert("width"@[0] == 'w');
        reveal_strlit("height");
        assert("height"@.len() == 6);
        assert("height"@[0] == 'h');
        reveal_strlit("duration");
        assert("duration"@.len() == 8);
        assert("duration"@[0] == 'd');
        let fs = data->Obj_0;
        let os = r->Obj_0;
        lemma_jv_model_fields(fs@);
        lemma_jv_model_fields(os@);
        lemma_get_at(os@, "type"@, 0);
        lemma_get_at(os@, "data"@, 1);
        lemma_get_at(fs@, "resource_id"@, 0);
        lemma_get_at(fs@, "temp_url"@, 1);
        lemma_get_at(fs@, "width"@, 2);
        lemma_get_at(fs@, "height"@, 3);
        lemma_get_at(fs@, "duration"@, 4);
        assert(jv_model_fields(fs@) =~= enc_segment((IncomingSegment::Video { resource_id: *resource_id, temp_url: *temp_url, width, height, duration }))->Obj_0[1].1->Obj_0);
        assert(jv_model_fields(os@) =~= enc_segment((IncomingSegment::Video { resource_id: *resource_id, temp_url: *temp_url, width, height, duration }))->Obj_0);
        assert(jv_model(r) == enc_segment((IncomingSegment::Video { resource_id: *resource_id, temp_url: *temp_url, width, height, duration })));
        assert(dec_segment(r) == Ok::<IncomingSegment, DecodeError>((IncomingSegment::Video { resource_id: *resource_id, temp_url: *temp_url, width, height, duration })));
    }
    r
}

/// Encodes a `File` segment; `dec_segment` inverts it.
#[verifier::rlimit(80)]
fn x_enc_seg_file(file_id: &String, file_name: &String, file_size: i64, file_hash: &Option<String>) -> (r: JsonValue)
    ensures
        jv_model(r) == enc_segment((IncomingSegment::File { file_id: *file_id, file_name: *file_name, file_size, file_hash: *file_hash })),
        dec_segment(r) == Ok::<IncomingSegment, DecodeError>((IncomingSegment::File { file_id: *file_id, file_name: *file_name, file_size, file_hash: *file_hash })),
{
    let mut fields: Vec<(String, JsonValue)> = Vec::new();
    fields.push((String::from_str("file_id"), JsonValue::Str(file_id.clone())));
    fields.push((String::from_str("file_name"), JsonValue::Str(file_name.clone())));
    fields.push((String::from_str("file_size"), JsonValue::Int(file_size)));
    if let Some(x) = file_hash {
        fields.push((String::from_str("file_hash"), JsonValue::Str(x.clone())));
    }
    let data = JsonValue::Obj(fields);
    let mut outer: Vec<(String, JsonValue)> = Vec::new();
    outer.push((String::from_str("type"), JsonValue::Str(String::from_str("file"))));
    outer.push((String::from_str("data"), data));
    let r = JsonValue::Obj(outer);
    proof {
        reveal_strlit("type");
        assert("type"@.len() == 4);
        assert("type"@[0] == 't');
        reveal_strlit("data");
        assert("data"@.len() == 4);
        assert("data"@[0] == 'd');
        reveal_strlit("text");
        assert("text"@.len() == 4);
        assert("text"@[0] == 't');
        reveal_strlit("mention");
        assert("mention"@.len() == 7);
        assert("mention"@[0] == 'm');
        reveal_strlit("mention_all");
        assert("mention_all"@.len() == 11);
        assert("mention_all"@[0] == 'm');
        assert("mention_all"@[1] == 'e');
        reveal_strlit("face");
        assert("face"@.len() == 4);
        assert("face"@[0] == 'f');
        assert("face"@[1] == 'a');
        reveal_strlit("reply");
        assert("reply"@.len() == 5);
        assert("reply"@[0] == 'r');
        reveal_strlit("image");
        assert("image"@.len() == 5);
        assert("image"@[0] == 'i');
        reveal_strlit("record");
        assert("record"@.len() == 6);
        assert("record"@[0] == 'r');
        reveal_strlit("video");
        assert("video"@.len() == 5);
        assert("video"@[0] == 'v');
        reveal_strlit("file");
        assert("file"@.len() == 4);
        assert("file"@[0] == 'f');
        assert("file"@[1] == 'i');
        reveal_strlit("file_id");
        assert("file_id"@.len() == 7);
        assert("file_id"@[0] == 'f');
        reveal_strlit("file_name");
        assert("file_name"@.len() == 9);
        assert("file_name"@[0] == 'f');
        assert("file_name"@[5] == 'n');
        reveal_strlit("file_size");
        assert("file_size"@.len() == 9);
        assert("file_size"@[0] == 'f');
        assert("file_size"@[5] == 's');
        reveal_strlit("file_hash");
        assert("file_hash"@.len() == 9);
        assert("file_hash"@[0] == 'f');
        assert("file_hash"@[5] == 'h');
        let fs = data->Obj_0;
        let os = r->Obj_0;
        lemma_jv_model_fields(fs@);
        lemma_jv_model_fields(os@);
        lemma_get_at(os@, "type"@, 0);
        lemma_get_at(os@, "data"@, 1);
        if file_hash is Some {
            lemma_get_at(fs@, "file_id"@, 0);
            lemma_get_at(fs@, "file_name"@, 1);
            lemma_get_at(fs@, "file_size"@, 2);
            lemma_get_at(fs@, "file_hash"@, 3);
            assert(jv_model_fields(fs@) =~= enc_segment((IncomingSegment::File { file_id: *file_id, file_name: *file_name, file_size, file_hash: *file_hash }))->Obj_0[1].1->Obj_0);
            assert(jv_model_fields(os@) =~= enc_segment((IncomingSegment::File { file_id: *file_id, file_name: *file_name, file_size, file_hash: *file_hash }))->Obj_0);
            assert(jv_model(r) == enc_segment((IncomingSegment::File { file_id: *file_id, file_name: *file_name, file_size, file_hash: *file_hash })));
            assert(dec_segment(r) == Ok::<IncomingSegment, DecodeError>((IncomingSegment::File { file_id: *file_id, file_name: *file_name, file_size, file_hash: *file_hash })));
        } else {
            lemma_get_at(fs@, "file_id"@, 0);
            lemma_get_at(fs@, "file_name"@, 1);
            lemma_get_at(fs@, "file_size"@, 2);
            lemma_get_none(fs@, "file_hash"@);
            assert(jv_model_fields(fs@) =~= enc_segment((IncomingSegment::File { file_id: *file_id, file_name: *file_name, file_size, file_hash: *file_hash }))->Obj_0[1].1->Obj_0);
            assert(jv_model_fields(os@) =~= enc_segment((IncomingSegment::File { file_id: *file_id, file_name: *file_name, file_size, file_hash: *file_hash }))->Obj_0);
            assert(jv_model(r) == enc_segment((IncomingSegment::File { file_id: *file_id, file_name: *file_name, file_size, file_hash: *file_hash })));
            assert(dec_segment(r) == Ok::<IncomingSegment, DecodeError>((IncomingSegment::File { file_id: *file_id, file_name: *file_name, file_size, file_hash: *file_hash })));
        }
    }
    r
}

/// Encodes a `Forward` segment; `dec_segment` inverts it.
#[verifier::rlimit(80)]
fn x_enc_seg_forward(forward_id: &String) -> (r: JsonValue)
    ensures
        jv_model(r) == enc_segment((IncomingSegment::Forward { forward_id: *forward_id })),
        dec_segment(r) == Ok::<IncomingSegment, DecodeError>((IncomingSegment::Forward { forward_id: *forward_id })),
{
    let mut fields: Vec<(String, JsonValue)> = Vec::new();
    fields.push((String::from_str("forward_id"), JsonValue::Str(forward_id.clone())));
    let data = JsonValue::Obj(fields);
    let mut outer: Vec<(String, JsonValue)> = Vec::new();
    outer.push((String::from_str("type"), JsonValue::Str(String::from_str("forward"))));
    outer.push((String::from_str("data"), data));
    let r = JsonValue::Obj(outer);
    proof {
        reveal_strlit("type");
        assert("type"@.len() == 4);
        assert("type"@[0] == 't');
        reveal_strlit("data");
        assert("data"@.len() == 4);
        assert("data"@[0] == 'd');
        reveal_strlit("text");
        assert("text"@.len() == 4);
        assert("text"@[0] == 't');
        reveal_strlit("mention");
        assert("mention"@.len() == 7);
        assert("mention"@[0] == 'm');
        reveal_strlit("mention_all");
        assert("mention_all"@.len() == 11);
        assert("mention_all"@[0] == 'm');
        assert("mention_all"@[1] == 'e');
        reveal_strlit("face");
        assert("face"@.len() == 4);
        assert("face"@[0] == 'f');
        assert("face"@[1] == 'a');
        reveal_strlit("reply");
        assert("reply"@.len() == 5);
        assert("reply"@[0] == 'r');
        reveal_strlit("image");
        assert("image"@.len() == 5);
        assert("image"@[0] == 'i');
        reveal_strlit("record");
        assert("record"@.len() == 6);
        assert("record"@[0] == 'r');
        reveal_strlit("video");
        assert("video"@.len() == 5);
        assert("video"@[0] == 'v');
        reveal_strlit("file");
        assert("file"@.len() == 4);
        assert("file"@[0] == 'f');
        assert("file"@[1] == 'i');
        reveal_strlit("forward");
        assert("forward"@.len() == 7);
        assert("forward"@[0] == 'f');
        reveal_strlit("forward_id");
        assert("forward_id"@.len() == 10);
        assert("forward_id"@[0] == 'f');
        let fs = data->Obj_0;
        let os = r->Obj_0;
        lemma_jv_model_fields(fs@);
        lemma_jv_model_fields(os@);
        lemma_get_at(os@, "type"@, 0);
        lemma_get_at(os@, "data"@, 1);
        lemma_get_at(fs@, "forward_id"@, 0);
        assert(jv_model_fields(fs@) =~= enc_segment((IncomingSegment::Forward { forward_id: *forward_id }))->Obj_0[1].1->Obj_0);
        assert(jv_model_fields(os@) =~= enc_segment((IncomingSegment::Forward { forward_id: *forward_id }))->Obj_0);
        assert(jv_model(r) == enc_segment((IncomingSegment::Forward { forward_id: *forward_id })));
        assert(dec_segment(r) == Ok::<IncomingSegment, DecodeError>((IncomingSegment::Forward { forward_id: *forward_id })));
    }
    r
}

/// Encodes a `MarketFace` segment; `dec_segment` inverts it.
#[verifier::rlimit(80)]
fn x_enc_seg_market_face(url: &String) -> (r: JsonValue)
    ensures
        jv_model(r) == enc_segment((IncomingSegment::MarketFace { url: *url })),
        dec_segment(r) == Ok::<IncomingSegment, DecodeError>((IncomingSegment::MarketFace { url: *url })),
{
    let mut fields: Vec<(String, JsonValue)> = Vec::new();
    fields.push((String::from_str("url"), JsonValue::Str(url.clone())));
    let data = JsonValue::Obj(fields);
    let mut outer: Vec<(String, JsonValue)> = Vec::new();
    outer.push((String::from_str("type"), JsonValue::Str(String::from_str("market_face"))));
    outer.push((String::from_str("data"), data));
    let r = JsonValue::Obj(outer);
    proof {
        reveal_strlit("type");
        assert("type"@.len() == 4);
        assert("type"@[0] == 't');
        reveal_strlit("data");
        assert("data"@.len() == 4);
        assert("data"@[0] == 'd');
        reveal_strlit("text");
        assert("text"@.len() == 4);
        assert("text"@[0] == 't');
        reveal_strlit("mention");
        assert("mention"@.len() == 7);
        assert("mention"@[0] == 'm');
        reveal_strlit("mention_all");
        assert("mention_all"@.len() == 11);
        assert("mention_all"@[0] == 'm');
        assert("mention_all"@[1] == 'e');
        reveal_strlit("face");
        assert("face"@.len() == 4);
        assert("face"@[0] == 'f');
        assert("face"@[1] == 'a');
        reveal_strlit("reply");
        assert("reply"@.len() == 5);
        assert("reply"@[0] == 'r');
        reveal_strlit("image");
        assert("image"@.len() == 5);
        assert("image"@[0] == 'i');
        reveal_strlit("record");
        assert("record"@.len() == 6);
        assert("record"@[0] == 'r');
        reveal_strlit("video");
        assert("video"@.len() == 5);
        assert("video"@[0] == 'v');
        reveal_strlit("file");
        assert("file"@.len() == 4);
        assert("file"@[0] == 'f');
        assert("file"@[1] == 'i');
        reveal_strlit("forward");
        assert("forward"@.len() == 7);
        assert("forward"@[0] == 'f');
        reveal_strlit("market_face");
        assert("market_face"@.len() == 11);
        assert("market_face"@[0] == 'm');
        assert("market_face"@[1] == 'a');
        reveal_strlit("url");
        assert("url"@.len() == 3);
        assert("url"@[0] == 'u');
        let fs = data->Obj_0;
        let os = r->Obj_0;
        lemma_jv_model_fields(fs@);
        lemma_jv_model_fields(os@);
        lemma_get_at(os@, "type"@, 0);
        lemma_get_at(os@, "data"@, 1);
        lemma_get_at(fs@, "url"@, 0);
        assert(jv_model_fields(fs@) =~= enc_segment((IncomingSegment::MarketFace { url: *url }))->Obj_0[1].1->Obj_0);
        assert(jv_model_fields(os@) =~= enc_segment((IncomingSegment::MarketFace { url: *url }))->Obj_0);
        assert(jv_model(r) == enc_segment((IncomingSegment::MarketFace { url: *url })));
        assert(dec_segment(r) == Ok::<IncomingSegment, DecodeError>((IncomingSegment::MarketFace { url: *url })));
    }
    r
}

/// Encodes a `LightApp` segment; `dec_segment` inverts it.
#[verifier::rlimit(80)]
fn x_enc_seg_light_app(app_name: &String, json_payload: &String) -> (r: JsonValue)
    ensures
        jv_model(r) == enc_segment((IncomingSegment::LightApp { app_name: *app_name, json_payload: *json_payload })),
        dec_segment(r) == Ok::<IncomingSegment, DecodeError>((IncomingSegment::LightApp { app_name: *app_name, json_payload: *json_payload })),
{
    let mut fields: Vec<(String, JsonValue)> = Vec::new();
    fields.push((String::from_str("app_name"), JsonValue::Str(app_name.clone())));
    fields.push((String::from_str("json_payload"), JsonValue::Str(json_payload.clone())));
    let data = JsonValue::Obj(fields);
    let mut outer: Vec<(String, JsonValue)> = Vec::new();
    outer.push((String::from_str("type"), JsonValue::Str(String::from_str("light_app"))));
    outer.push((String::from_str("data"), data));
    let r = JsonValue::Obj(outer);
    proof {
        reveal_strlit("type");
        assert("type"@.len() == 4);
        assert("type"@[0] == 't');
        reveal_strlit("data");
        assert("data"@.len() == 4);
        assert("data"@[0] == 'd');
        reveal_strlit("text");
        assert("text"@.len() == 4);
        assert("text"@[0] == 't');
        reveal_strlit("mention");
        assert("mention"@.len() == 7);
        assert("mention"@[0] == 'm');
        reveal_strlit("mention_all");
        assert("mention_all"@.len() == 11);
        assert("mention_all"@[0] == 'm');
        assert("mention_all"@[1] == 'e');
        reveal_strlit("face");
        assert("face"@.len() == 4);
        assert("face"@[0] == 'f');
        assert("face"@[1] == 'a');
        reveal_strlit("reply");
        assert("reply"@.len() == 5);
        assert("reply"@[0] == 'r');
        reveal_strlit("image");
        assert("image"@.len() == 5);
        assert("image"@[0] == 'i');
        reveal_strlit("record");
        assert("record"@.len() == 6);
        assert("record"@[0] == 'r');
        reveal_strlit("video");
        assert("video"@.len() == 5);
        assert("video"@[0] == 'v');
        reveal_strlit("file");
        assert("file"@.len() == 4);
        assert("file"@[0] == 'f');
        assert("file"@[1] == 'i');
        reveal_strlit("forward");
        assert("forward"@.len() == 7);
        assert("forward"@[0] == 'f');
        reveal_strlit("market_face");
        assert("market_face"@.len() == 11);
        assert("market_face"@[0] == 'm');
        assert("market_face"@[1] == 'a');
        reveal_strlit("light_app");
        assert("light_app"@.len() == 9);
        assert("light_app"@[0] == 'l');
        reveal_strlit("app_name");
        assert("app_name"@.len() == 8);
        assert("app_name"@[0] == 'a');
        reveal_strlit("json_payload");
        assert("json_payload"@.len() == 12);
        assert("json_payload"@[0] == 'j');
        let fs = data->Obj_0;
        let os = r->Obj_0;
        lemma_jv_model_fields(fs@);
        lemma_jv_model_fields(os@);
        lemma_get_at(os@, "type"@, 0);
        lemma_get_at(os@, "data"@, 1);
        lemma_get_at(fs@, "app_name"@, 0);
        lemma_get_at(fs@, "json_payload"@, 1);
        assert(jv_model_fields(fs@) =~= enc_segment((IncomingSegment::LightApp { app_name: *app_name, json_payload: *json_payload }))->Obj_0[1].1->Obj_0);
        assert(jv_model_fields(os@) =~= enc_segment((IncomingSegment::LightApp { app_name: *app_name, json_payload: *json_payload }))->Obj_0);
        assert(jv_model(r) == enc_segment((IncomingSegment::LightApp { app_name: *app_name, json_payload: *json_payload })));
        assert(dec_segment(r) == Ok::<IncomingSegment, DecodeError>((IncomingSegment::LightApp { app_name: *app_name, json_payload: *json_payload })));
    }
    r
}

/// Encodes a `XML` segment; `dec_segment` inverts it.
#[verifier::rlimit(80)]
fn x_enc_seg_xml(service_id: i32, xml_payload: &String) -> (r: JsonValue)
    ensures
        jv_model(r) == enc_segment((IncomingSegment::XML { service_id, xml_payload: *xml_payload })),
        dec_segment(r) == Ok::<IncomingSegment, DecodeError>((IncomingSegment::XML { service_id, xml_payload: *xml_payload })),
{
    let mut fields: Vec<(String, JsonValue)> = Vec::new();
    fields.push((String::from_str("service_id"), JsonValue::Int(service_id as i64)));
    fields.push((String::from_str("xml_payload"), JsonValue::Str(xml_payload.clone())));
    let data = JsonValue::Obj(fields);
    let mut outer: Vec<(String, JsonValue)> = Vec::new();
    outer.push((String::from_str("type"), JsonValue::Str(String::from_str("xml"))));
    outer.push((String::from_str("data"), data));
    let r = JsonValue::Obj(outer);
    proof {
        reveal_strlit("type");
        assert("type"@.len() == 4);
        assert("type"@[0] == 't');
        reveal_strlit("data");
        assert("data"@.len() == 4);
        assert("data"@[0] == 'd');
        reveal_strlit("text");
        assert("text"@.len() == 4);
        assert("text"@[0] == 't');
        reveal_strlit("mention");
        assert("mention"@.len() == 7);
        assert("mention"@[0] == 'm');
        reveal_strlit("mention_all");
        assert("mention_all"@.len() == 11);
        assert("mention_all"@[0] == 'm');
        assert("mention_all"@[1] == 'e');
        reveal_strlit("face");
        assert("face"@.len() == 4);
        assert("face"@[0] == 'f');
        assert("face"@[1] == 'a');
        reveal_strlit("reply");
        assert("reply"@.len() == 5);
        assert("reply"@[0] == 'r');
        reveal_strlit("image");
        assert("image"@.len() == 5);
        assert("image"@[0] == 'i');
        reveal_strlit("record");
        assert("record"@.len() == 6);
        assert("record"@[0] == 'r');
        reveal_strlit("video");
        assert("video"@.len() == 5);
        assert("video"@[0] == 'v');
        reveal_strlit("file");
        assert("file"@.len() == 4);
        assert("file"@[0] == 'f');
        assert("file"@[1] == 'i');
        reveal_strlit("forward");
        assert("forward"@.len() == 7);
        assert("forward"@[0] == 'f');
        reveal_strlit("market_face");
        assert("market_face"@.len() == 11);
        assert("market_face"@[0] == 'm');
        assert("market_face"@[1] == 'a');
        reveal_strlit("light_app");
        assert("light_app"@.len() == 9);
        assert("light_app"@[0] == 'l');
        reveal_strlit("xml");
        assert("xml"@.len() == 3);
        assert("xml"@[0] == 'x');
        reveal_strlit("service_id");
        assert("service_id"@.len() == 10);
        assert("service_id"@[0] == 's');
        reveal_strlit("xml_payload");
        assert("xml_payload"@.len() == 11);
        assert("xml_payload"@[0] == 'x');
        let fs = data->Obj_0;
        let os = r->Obj_0;
        lemma_jv_model_fields(fs@);
        lemma_jv_model_fields(os@);
        lemma_get_at(os@, "type"@, 0);
        lemma_get_at(os@, "data"@, 1);
        lemma_get_at(fs@, "service_id"@, 0);
        lemma_get_at(fs@, "xml_payload"@, 1);
        assert(jv_model_fields(fs@) =~= enc_segment((IncomingSegment::XML { service_id, xml_payload: *xml_payload }))->Obj_0[1].1->Obj_0);
        assert(jv_model_fields(os@) =~= enc_segment((IncomingSegment::XML { service_id, xml_payload: *xml_payload }))->Obj_0);
        assert(jv_model(r) == enc_segment((IncomingSegment::XML { service_id, xml_payload: *xml_payload })));
        assert(dec_segment(r) == Ok::<IncomingSegment, DecodeError>((IncomingSegment::XML { service_id, xml_payload: *xml_payload })));
    }
    r
}

/// Encodes one segment; `dec_segment` inverts it.
fn encode_segment(s: &IncomingSegment) -> (r: JsonValue)
    ensures
        jv_model(r) == enc_segment(*s),
        dec_segment(r) == Ok::<IncomingSegment, DecodeError>(*s),
{
    match s {
        IncomingSegment::Text { text } => x_enc_seg_text(text),
        IncomingSegment::Mention { user_id } => x_enc_seg_mention(*user_id),
        IncomingSegment::MentionAll {  } => x_enc_seg_mention_all(),
        IncomingSegment::Face { face_id } => x_enc_seg_face(face_id),
        IncomingSegment::Reply { message_seq } => x_enc_seg_reply(*message_seq),
        IncomingSegment::Image { resource_id, temp_url, width, height, summary, sub_type } => x_enc_seg_image(resource_id, temp_url, *width, *height, summary, sub_type),
        IncomingSegment::Record { resource_id, temp_url, duration } => x_enc_seg_record(resource_id, temp_url, *duration),
        IncomingSegment::Video { resource_id, temp_url, width, height, duration } => x_enc_seg_video(resource_id, temp_url, *width, *height, *duration),
        IncomingSegment::File { file_id, file_name, file_size, file_hash } => x_enc_seg_file(file_id, file_name, *file_size, file_hash),
        IncomingSegment::Forward { forward_id } => x_enc_seg_forward(forward_id),
        IncomingSegment::MarketFace { url } => x_enc_seg_market_face(url),
        IncomingSegment::LightApp { app_name, json_payload } => x_enc_seg_light_app(app_name, json_payload),
        IncomingSegment::XML { service_id, xml_payload } => x_enc_seg_xml(*service_id, xml_payload),
    }
}


/// Encodes a segment sequence, in order; `dec_segments` inverts it.
#[verifier::loop_isolation(false)]
fn encode_segments(ss: &Vec<IncomingSegment>) -> (r: Vec<JsonValue>)
    ensures
        jv_model_seq(r@) == enc_segments(ss@),
        dec_segments(r@) == Ok::<Seq<IncomingSegment>, DecodeError>(ss@),
{
    let mut out: Vec<JsonValue> = Vec::new();
    let n = ss.len();
    let mut i: usize = 0;
    proof {
        assert(ss@.take(0) =~= Seq::<IncomingSegment>::empty());
        assert(jv_model_seq(out@) =~= Seq::<JsonModel>::empty());
        assert(dec_segments(out@) == Ok::<Seq<IncomingSegment>, DecodeError>(ss@.take(0)));
    }
    while i < n
        invariant
            i <= n,
            n == ss@.len(),
            jv_model_seq(out@) == enc_segments(ss@.take(i as int)),
            dec_segments(out@) == Ok::<Seq<IncomingSegment>, DecodeError>(ss@.take(i as int)),
        decreases n - i,
    {
        let ghost out_before = out@;
        let sv = encode_segment(&ss[i]);
        out.push(sv);
        proof {
            assert(out@ =~= out_before.push(sv));
            assert(out@.drop_last() =~= out_before);
            assert(ss@.take(i + 1).drop_last() =~= ss@.take(i as int));
            assert(ss@.take(i + 1).last() == ss@[i as int]);
            assert(jv_model_seq(out@) =~= jv_model_seq(out_before).push(jv_model(sv))) by {
                lemma_jv_model_seq(out_before);
                lemma_jv_model_seq(out@);
            }
            assert(ss@.take(i + 1) =~= ss@.take(i as int).push(ss@[i as int]));
            assert(jv_model_seq(out@) =~= enc_segments(ss@.take(i + 1)));
            assert(dec_segments(out@) == Ok::<Seq<IncomingSegment>, DecodeError>(ss@.take(i + 1)));
        }
        i += 1;
    }
    proof {
        assert(ss@.take(n as int) =~= ss@);
    }
    out
}

/// Appends the shared members of a received message's payload object.
fn push_msg_base(m: &IncomingMessage, fields: &mut Vec<(String, JsonValue)>)
    requires
        old(fields)@.len() == 0,
    ensures
        jv_model_fields(final(fields)@) == enc_msg_base(msg_m(*m)),
        final(fields)@.len() == 6,
        final(fields)@[0].0@ == "peer_id"@ && final(fields)@[0].1 == JsonValue::Int(m.peer_id),
        final(fields)@[1].0@ == "message_seq"@ && final(fields)@[1].1 == JsonValue::Int(
            m.message_seq,
        ),
        final(fields)@[2].0@ == "sender_id"@ && final(fields)@[2].1 == JsonValue::Int(m.sender_id),
        final(fields)@[3].0@ == "time"@ && final(fields)@[3].1 == JsonValue::Int(m.time),
        final(fields)@[4].0@ == "segments"@ && (final(fields)@[4].1 matches JsonValue::Arr(items)
            && dec_segments(items@) == Ok::<Seq<IncomingSegment>, DecodeError>(m.segments@)),
        final(fields)@[5].0@ == "message_scene"@ && (final(fields)@[5].1 matches JsonValue::Str(s)
            && s@ == scene_name(m.message_scene)),
{
    fields.push((String::from_str("peer_id"), JsonValue::Int(m.peer_id)));
    fields.push((String::from_str("message_seq"), JsonValue::Int(m.message_seq)));
    fields.push((String::from_str("sender_id"), JsonValue::Int(m.sender_id)));
    fields.push((String::from_str("time"), JsonValue::Int(m.time)));
    let segs = encode_segments(&m.segments);
    fields.push((String::from_str("segments"), JsonValue::Arr(segs)));
    fields.push((String::from_str("message_scene"), JsonValue::Str(x_scene_name(m.message_scene))));
    proof {
        lemma_jv_model_fields(fields@);
        assert(jv_model_fields(fields@) =~= enc_msg_base(msg_m(*m)));
    }
}

/// The facts about the shared member keys that the message proofs need.
proof fn lemma_msg_keys()
    ensures
        "peer_id"@.len() == 7,
        "message_seq"@.len() == 11,
        "sender_id"@.len() == 9,
        "time"@.len() == 4,
        "segments"@.len() == 8,
        "message_scene"@.len() == 13,
        "friend"@.len() == 6,
        "group"@.len() == 5,
        "temp"@.len() == 4,
        "group_member"@.len() == 12,
        "time"@ != "temp"@,
{
    reveal_strlit("peer_id");
    reveal_strlit("message_seq");
    reveal_strlit("sender_id");
    reveal_strlit("time");
    reveal_strlit("segments");
    reveal_strlit("message_scene");
    reveal_strlit("friend");
    reveal_strlit("group");
    reveal_strlit("temp");
    reveal_strlit("group_member");
    assert("time"@[1] == 'i');
    assert("temp"@[1] == 'e');
}

/// Encodes a direct message's payload; the spec decoder inverts it.
#[verifier::rlimit(100)]
#[verifier::spinoff_prover]
fn encode_msg_friend(f: &FriendMessage) -> (r: JsonValue)
    requires
        f.message.message_scene == MessageScene::Friend,
    ensures
        jv_model(r) == enc_message((MessageEventM::Friend(FriendMessageM {
            message: msg_m(f.message),
            friend: f.friend,
        }))),
        dec_message(r) == Ok::<MessageEventM, DecodeError>((MessageEventM::Friend(FriendMessageM {
            message: msg_m(f.message),
            friend: f.friend,
        }))),
{
    let mut fields: Vec<(String, JsonValue)> = Vec::new();
    push_msg_base(&f.message, &mut fields);
    let ghost base_fields = fields@;
    let fv = encode_friend(&f.friend);
    fields.push((String::from_str("friend"), fv));
    let r = JsonValue::Obj(fields);
    proof {
        lemma_msg_keys();
        let fs = r->Obj_0;
        assert(fs@.drop_last() =~= base_fields);
        assert(jv_model_fields(fs@) =~= enc_msg_base(msg_m(f.message)) + seq![
            ("friend"@, jv_model(fv)),
        ]);
        assert(jv_model_fields(fs@) =~= enc_message((MessageEventM::Friend(FriendMessageM { message: msg_m(f.message), friend: f.friend })))->Obj_0);
        lemma_get_at(fs@, "peer_id"@, 0);
        lemma_get_at(fs@, "message_seq"@, 1);
        lemma_get_at(fs@, "sender_id"@, 2);
        lemma_get_at(fs@, "time"@, 3);
        lemma_get_at(fs@, "segments"@, 4);
        lemma_get_at(fs@, "message_scene"@, 5);
        lemma_get_at(fs@, "friend"@, 6);
        reveal_strlit("friend");
        reveal_strlit("group");
        reveal_strlit("temp");
        assert(scene_of(scene_name(f.message.message_scene)) == Some(
            f.message.message_scene,
        ));
        assert(dec_msg_base(r) == Ok::<IncomingMessageM, DecodeError>(msg_m(f.message)));
        assert(dec_message(r) == Ok::<MessageEventM, DecodeError>((MessageEventM::Friend(FriendMessageM { message: msg_m(f.message), friend: f.friend }))));
    }
    r
}

/// Encodes a group message's payload; the spec decoder inverts it.
#[verifier::rlimit(100)]
#[verifier::spinoff_prover]
fn encode_msg_group(g: &GroupMessage) -> (r: JsonValue)
    requires
        g.message.message_scene == MessageScene::Group,
    ensures
        jv_model(r) == enc_message((MessageEventM::Group(GroupMessageM {
            message: msg_m(g.message),
            group: g.group,
            group_member: g.group_member,
        }))),
        dec_message(r) == Ok::<MessageEventM, DecodeError>((MessageEventM::Group(GroupMessageM {
            message: msg_m(g.message),
            group: g.group,
            group_member: g.group_member,
        }))),
{
    let mut fields: Vec<(String, JsonValue)> = Vec::new();
    push_msg_base(&g.message, &mut fields);
    let ghost base_fields = fields@;
    let gv = encode_group(&g.group);
    fields.push((String::from_str("group"), gv));
    let ghost mid_fields = fields@;
    let mv = encode_member(&g.group_member);
    fields.push((String::from_str("group_member"), mv));
    let r = JsonValue::Obj(fields);
    proof {
        lemma_msg_keys();
        let fs = r->Obj_0;
        assert(mid_fields.drop_last() =~= base_fields);
        assert(jv_model_fields(mid_fields) =~= enc_msg_base(msg_m(g.message)) + seq![
            ("group"@, jv_model(gv)),
        ]);
        assert(fs@.drop_last() =~= mid_fields);
        assert(jv_model_fields(fs@) =~= enc_msg_base(msg_m(g.message)) + seq![
            ("group"@, jv_model(gv)),
            ("group_member"@, jv_model(mv)),
        ]);
        assert(jv_model_fields(fs@) =~= enc_message((MessageEventM::Group(GroupMessageM { message: msg_m(g.message), group: g.group, group_member: g.group_member })))->Obj_0);
        lemma_get_at(fs@, "peer_id"@, 0);
        lemma_get_at(fs@, "message_seq"@, 1);
        lemma_get_at(fs@, "sender_id"@, 2);
        lemma_get_at(fs@, "time"@, 3);
        lemma_get_at(fs@, "segments"@, 4);
        lemma_get_at(fs@, "message_scene"@, 5);
        lemma_get_at(fs@, "group"@, 6);
        lemma_get_at(fs@, "group_member"@, 7);
        reveal_strlit("friend");
        reveal_strlit("group");
        reveal_strlit("temp");
        assert(scene_of(scene_name(g.message.message_scene)) == Some(
            g.message.message_scene,
        ));
        assert(dec_msg_base(r) == Ok::<IncomingMessageM, DecodeError>(msg_m(g.message)));
        assert(dec_message(r) == Ok::<MessageEventM, DecodeError>((MessageEventM::Group(GroupMessageM { message: msg_m(g.message), group: g.group, group_member: g.group_member }))));
    }
    r
}

/// Encodes a transient-session message's payload; the spec decoder
/// inverts it.
#[verifier::rlimit(100)]
#[verifier::spinoff_prover]
fn encode_msg_temp(t: &TempMessage) -> (r: JsonValue)
    requires
        t.message.message_scene == MessageScene::Temp,
    ensures
        jv_model(r) == enc_message((MessageEventM::Temp(TempMessageM {
            message: msg_m(t.message),
            group: t.group,
        }))),
        dec_message(r) == Ok::<MessageEventM, DecodeError>((MessageEventM::Temp(TempMessageM {
            message: msg_m(t.message),
            group: t.group,
        }))),
{
    let mut fields: Vec<(String, JsonValue)> = Vec::new();
    push_msg_base(&t.message, &mut fields);
    let ghost base_fields = fields@;
    if let Some(gr) = &t.group {
        let gv = encode_group(gr);
        fields.push((String::from_str("group"), gv));
        let r = JsonValue::Obj(fields);
        proof {
            lemma_msg_keys();
            let fs = r->Obj_0;
            assert(fs@.drop_last() =~= base_fields);
            assert(jv_model_fields(fs@) =~= enc_msg_base(msg_m(t.message)) + seq![
                ("group"@, jv_model(gv)),
            ]);
            assert(jv_model_fields(fs@) =~= enc_message((MessageEventM::Temp(TempMessageM { message: msg_m(t.message), group: t.group })))->Obj_0);
            lemma_get_at(fs@, "peer_id"@, 0);
            lemma_get_at(fs@, "message_seq"@, 1);
            lemma_get_at(fs@, "sender_id"@, 2);
            lemma_get_at(fs@, "time"@, 3);
            lemma_get_at(fs@, "segments"@, 4);
            lemma_get_at(fs@, "message_scene"@, 5);
            lemma_get_at(fs@, "group"@, 6);
            reveal_strlit("friend");
            reveal_strlit("group");
            reveal_strlit("temp");
            assert(scene_of(scene_name(t.message.message_scene)) == Some(
                t.message.message_scene,
            ));
            assert(dec_msg_base(r) == Ok::<IncomingMessageM, DecodeError>(
                msg_m(t.message),
            ));
            assert(dec_message(r) == Ok::<MessageEventM, DecodeError>(
                (MessageEventM::Temp(TempMessageM { message: msg_m(t.message), group: t.group })),
            ));
        }
        r
    } else {
        let r = JsonValue::Obj(fields);
        proof {
            lemma_msg_keys();
            let fs = r->Obj_0;
            assert(fs@ =~= base_fields);
            assert(jv_model_fields(fs@) =~= enc_msg_base(msg_m(t.message)) + Seq::<
                (Seq<char>, JsonModel),
            >::empty());
            assert(jv_model_fields(fs@) =~= enc_message((MessageEventM::Temp(TempMessageM { message: msg_m(t.message), group: t.group })))->Obj_0);
            lemma_get_at(fs@, "peer_id"@, 0);
            lemma_get_at(fs@, "message_seq"@, 1);
            lemma_get_at(fs@, "sender_id"@, 2);
            lemma_get_at(fs@, "time"@, 3);
            lemma_get_at(fs@, "segments"@, 4);
            lemma_get_at(fs@, "message_scene"@, 5);
            lemma_get_none(fs@, "group"@);
            reveal_strlit("friend");
            reveal_strlit("group");
            reveal_strlit("temp");
            assert(scene_of(scene_name(t.message.message_scene)) == Some(
                t.message.message_scene,
            ));
            assert(dec_msg_base(r) == Ok::<IncomingMessageM, DecodeError>(
                msg_m(t.message),
            ));
            assert(dec_message(r) == Ok::<MessageEventM, DecodeError>(
                (MessageEventM::Temp(TempMessageM { message: msg_m(t.message), group: t.group })),
            ));
        }
        r
    }
}

/// Encodes a received message into its payload object; the spec decoder
/// inverts it.  The message must be coherent: its scene field names its
/// shape.
fn encode_message(me: &MessageEvent) -> (r: JsonValue)
    requires
        wf_message_event(message_event_m(*me)),
    ensures
        jv_model(r) == enc_message(message_event_m(*me)),
        dec_message(r) == Ok::<MessageEventM, DecodeError>(message_event_m(*me)),
{
    match me {
        MessageEvent::Friend(f) => encode_msg_friend(f),
        MessageEvent::Group(g) => encode_msg_group(g),
        MessageEvent::Temp(t) => encode_msg_temp(t),
    }
}

/// The facts about the outer tags that the dispatch proofs need.
proof fn lemma_tag_facts()
    ensures
        "bot_offline"@.len() == 11,
        "message_receive"@.len() == 15,
        "message_recall"@.len() == 14,
        "friend_request"@.len() == 14,
        "group_join_request"@.len() == 18,
        "group_invited_join_request"@.len() == 26,
        "group_invitation_request"@.len() == 24,
        "friend_nudge"@.len() == 12,
        "friend_file_upload"@.len() == 18,
        "group_admin_change"@.len() == 18,
        "group_essence_message_change"@.len() == 28,
        "group_member_increase"@.len() == 21,
        "group_member_decrease"@.len() == 21,
        "group_name_change"@.len() == 17,
        "group_message_reaction"@.len() == 22,
        "group_mute"@.len() == 10,
        "group_whole_mute"@.len() == 16,
        "group_nudge"@.len() == 11,
        "group_file_upload"@.len() == 17,
        "bot_offline"@ != "message_receive"@,
        "bot_offline"@ != "message_recall"@,
        "bot_offline"@ != "friend_request"@,
        "bot_offline"@ != "group_join_request"@,
        "bot_offline"@ != "group_invited_join_request"@,
        "bot_offline"@ != "group_invitation_request"@,
        "bot_offline"@ != "friend_nudge"@,
        "bot_offline"@ != "friend_file_upload"@,
        "bot_offline"@ != "group_admin_change"@,
        "bot_offline"@ != "group_essence_message_change"@,
        "bot_offline"@ != "group_member_increase"@,
        "bot_offline"@ != "group_member_decrease"@,
        "bot_offline"@ != "group_name_change"@,
        "bot_offline"@ != "group_message_reaction"@,
        "bot_offline"@ != "group_mute"@,
        "bot_offline"@ != "group_whole_mute"@,
        "bot_offline"@ != "group_nudge"@,
        "bot_offline"@ != "group_file_upload"@,
        "message_receive"@ != "message_recall"@,
        "message_receive"@ != "friend_request"@,
        "message_receive"@ != "group_join_request"@,
        "message_receive"@ != "group_invited_join_request"@,
        "message_receive"@ != "group_invitation_request"@,
        "message_receive"@ != "friend_nudge"@,
        "message_receive"@ != "friend_file_upload"@,
        "message_receive"@ != "group_admin_change"@,
        "message_receive"@ != "group_essence_message_change"@,
        "message_receive"@ != "group_member_increase"@,
        "message_receive"@ != "group_member_decrease"@,
        "message_receive"@ != "group_name_change"@,
        "message_receive"@ != "group_message_reaction"@,
        "message_receive"@ != "group_mute"@,
        "message_receive"@ != "group_whole_mute"@,
        "message_receive"@ != "group_nudge"@,
        "message_receive"@ != "group_file_upload"@,
        "message_recall"@ != "friend_request"@,
        "message_recall"@ != "group_join_request"@,
        "message_recall"@ != "group_invited_join_request"@,
        "message_recall"@ != "group_invitation_request"@,
        "message_recall"@ != "friend_nudge"@,
        "message_recall"@ != "friend_file_upload"@,
        "message_recall"@ != "group_admin_change"@,
        "message_recall"@ != "group_essence_message_change"@,
        "message_recall"@ != "group_member_increase"@,
        "message_recall"@ != "group_member_decrease"@,
        "message_recall"@ != "group_name_change"@,
        "message_recall"@ != "group_message_reaction"@,
        "message_recall"@ != "group_mute"@,
        "message_recall"@ != "group_whole_mute"@,
        "message_recall"@ != "group_nudge"@,
        "message_recall"@ != "group_file_upload"@,
        "friend_request"@ != "group_join_request"@,
        "friend_request"@ != "group_invited_join_request"@,
        "friend_request"@ != "group_invitation_request"@,
        "friend_request"@ != "friend_nudge"@,
        "friend_request"@ != "friend_file_upload"@,
        "friend_request"@ != "group_admin_change"@,
        "friend_request"@ != "group_essence_message_change"@,
        "friend_request"@ != "group_member_increase"@,
        "friend_request"@ != "group_member_decrease"@,
        "friend_request"@ != "group_name_change"@,
        "friend_request"@ != "group_message_reaction"@,
        "friend_request"@ != "group_mute"@,
        "friend_request"@ != "group_whole_mute"@,
        "friend_request"@ != "group_nudge"@,
        "friend_request"@ != "group_file_upload"@,
        "group_join_request"@ != "group_invited_join_request"@,
        "group_join_request"@ != "group_invitation_request"@,
        "group_join_request"@ != "friend_nudge"@,
        "group_join_request"@ != "friend_file_upload"@,
        "group_join_request"@ != "group_admin_change"@,
        "group_join_request"@ != "group_essence_message_change"@,
        "group_join_request"@ != "group_member_increase"@,
        "group_join_request"@ != "group_member_decrease"@,
        "group_join_request"@ != "group_name_change"@,
        "group_join_request"@ != "group_message_reaction"@,
        "group_join_request"@ != "group_mute"@,
        "group_join_request"@ != "group_whole_mute"@,
        "group_join_request"@ != "group_nudge"@,
        "group_join_request"@ != "group_file_upload"@,
        "group_invited_join_request"@ != "group_invitation_request"@,
        "group_invited_join_request"@ != "friend_nudge"@,
        "group_invited_join_request"@ != "friend_file_upload"@,
        "group_invited_join_request"@ != "group_admin_change"@,
        "group_invited_join_request"@ != "group_essence_message_change"@,
        "group_invited_join_request"@ != "group_member_increase"@,
        "group_invited_join_request"@ != "group_member_decrease"@,
        "group_invited_join_request"@ != "group_name_change"@,
        "group_invited_join_request"@ != "group_message_reaction"@,
        "group_invited_join_request"@ != "group_mute"@,
        "group_invited_join_request"@ != "group_whole_mute"@,
        "group_invited_join_request"@ != "group_nudge"@,
        "group_invited_join_request"@ != "group_file_upload"@,
        "group_invitation_request"@ != "friend_nudge"@,
        "group_invitation_request"@ != "friend_file_upload"@,
        "group_invitation_request"@ != "group_admin_change"@,
        "group_invitation_request"@ != "group_essence_message_change"@,
        "group_invitation_request"@ != "group_member_increase"@,
        "group_invitation_request"@ != "group_member_decrease"@,
        "group_invitation_request"@ != "group_name_change"@,
        "group_invitation_request"@ != "group_message_reaction"@,
        "group_invitation_request"@ != "group_mute"@,
        "group_invitation_request"@ != "group_whole_mute"@,
        "group_invitation_request"@ != "group_nudge"@,
        "group_invitation_request"@ != "group_file_upload"@,
        "friend_nudge"@ != "friend_file_upload"@,
        "friend_nudge"@ != "group_admin_change"@,
        "friend_nudge"@ != "group_essence_message_change"@,
        "friend_nudge"@ != "group_member_increase"@,
        "friend_nudge"@ != "group_member_decrease"@,
        "friend_nudge"@ != "group_name_change"@,
        "friend_nudge"@ != "group_message_reaction"@,
        "friend_nudge"@ != "group_mute"@,
        "friend_nudge"@ != "group_whole_mute"@,
        "friend_nudge"@ != "group_nudge"@,
        "friend_nudge"@ != "group_file_upload"@,
        "friend_file_upload"@ != "group_admin_change"@,
        "friend_file_upload"@ != "group_essence_message_change"@,
        "friend_file_upload"@ != "group_member_increase"@,
        "friend_file_upload"@ != "group_member_decrease"@,
        "friend_file_upload"@ != "group_name_change"@,
        "friend_file_upload"@ != "group_message_reaction"@,
        "friend_file_upload"@ != "group_mute"@,
        "friend_file_upload"@ != "group_whole_mute"@,
        "friend_file_upload"@ != "group_nudge"@,
        "friend_file_upload"@ != "group_file_upload"@,
        "group_admin_change"@ != "group_essence_message_change"@,
        "group_admin_change"@ != "group_member_increase"@,
        "group_admin_change"@ != "group_member_decrease"@,
        "group_admin_change"@ != "group_name_change"@,
        "group_admin_change"@ != "group_message_reaction"@,
        "group_admin_change"@ != "group_mute"@,
        "group_admin_change"@ != "group_whole_mute"@,
        "group_admin_change"@ != "group_nudge"@,
        "group_admin_change"@ != "group_file_upload"@,
        "group_essence_message_change"@ != "group_member_increase"@,
        "group_essence_message_change"@ != "group_member_decrease"@,
        "group_essence_message_change"@ != "group_name_change"@,
        "group_essence_message_change"@ != "group_message_reaction"@,
        "group_essence_message_change"@ != "group_mute"@,
        "group_essence_message_change"@ != "group_whole_mute"@,
        "group_essence_message_change"@ != "group_nudge"@,
        "group_essence_message_change"@ != "group_file_upload"@,
        "group_member_increase"@ != "group_member_decrease"@,
        "group_member_increase"@ != "group_name_change"@,
        "group_member_increase"@ != "group_message_reaction"@,
        "group_member_increase"@ != "group_mute"@,
        "group_member_increase"@ != "group_whole_mute"@,
        "group_member_increase"@ != "group_nudge"@,
        "group_member_increase"@ != "group_file_upload"@,
        "group_member_decrease"@ != "group_name_change"@,
        "group_member_decrease"@ != "group_message_reaction"@,
        "group_member_decrease"@ != "group_mute"@,
        "group_member_decrease"@ != "group_whole_mute"@,
        "group_member_decrease"@ != "group_nudge"@,
        "group_member_decrease"@ != "group_file_upload"@,
        "group_name_change"@ != "group_message_reaction"@,
        "group_name_change"@ != "group_mute"@,
        "group_name_change"@ != "group_whole_mute"@,
        "group_name_change"@ != "group_nudge"@,
        "group_name_change"@ != "group_file_upload"@,
        "group_message_reaction"@ != "group_mute"@,
        "group_message_reaction"@ != "group_whole_mute"@,
        "group_message_reaction"@ != "group_nudge"@,
        "group_message_reaction"@ != "group_file_upload"@,
        "group_mute"@ != "group_whole_mute"@,
        "group_mute"@ != "group_nudge"@,
        "group_mute"@ != "group_file_upload"@,
        "group_whole_mute"@ != "group_nudge"@,
        "group_whole_mute"@ != "group_file_upload"@,
        "group_nudge"@ != "group_file_upload"@,
{
    reveal_strlit("bot_offline");
    assert("bot_offline"@.len() == 11);
    assert("bot_offline"@[0] == 'b');
    reveal_strlit("message_receive");
    assert("message_receive"@.len() == 15);
    assert("message_receive"@[0] == 'm');
    reveal_strlit("message_recall");
    assert("message_recall"@.len() == 14);
    assert("message_recall"@[0] == 'm');
    reveal_strlit("friend_request");
    assert("friend_request"@.len() == 14);
    assert("friend_request"@[0] == 'f');
    reveal_strlit("group_join_request");
    assert("group_join_request"@.len() == 18);
    assert("group_join_request"@[0] == 'g');
    assert("group_join_request"@[6] == 'j');
    reveal_strlit("group_invited_join_request");
    assert("group_invited_join_request"@.len() == 26);
    assert("group_invited_join_request"@[0] == 'g');
    reveal_strlit("group_invitation_request");
    assert("group_invitation_request"@.len() == 24);
    assert("group_invitation_request"@[0] == 'g');
    reveal_strlit("friend_nudge");
    assert("friend_nudge"@.len() == 12);
    assert("friend_nudge"@[0] == 'f');
    reveal_strlit("friend_file_upload");
    assert("friend_file_upload"@.len() == 18);
    assert("friend_file_upload"@[0] == 'f');
    reveal_strlit("group_admin_change");
    assert("group_admin_change"@.len() == 18);
    assert("group_admin_change"@[0] == 'g');
    assert("group_admin_change"@[6] == 'a');
    reveal_strlit("group_essence_message_change");
    assert("group_essence_message_change"@.len() == 28);
    assert("group_essence_message_change"@[0] == 'g');
    reveal_strlit("group_member_increase");
    assert("group_member_increase"@.len() == 21);
    assert("group_member_increase"@[0] == 'g');
    assert("group_member_increase"@[13] == 'i');
    reveal_strlit("group_member_decrease");
    assert("group_member_decrease"@.len() == 21);
    assert("group_member_decrease"@[0] == 'g');
    assert("group_member_decrease"@[13] == 'd');
    reveal_strlit("group_name_change");
    assert("group_name_change"@.len() == 17);
    assert("group_name_change"@[0] == 'g');
    assert("group_name_change"@[6] == 'n');
    reveal_strlit("group_message_reaction");
    assert("group_message_reaction"@.len() == 22);
    assert("group_message_reaction"@[0] == 'g');
    reveal_strlit("group_mute");
    assert("group_mute"@.len() == 10);
    assert("group_mute"@[0] == 'g');
    reveal_strlit("group_whole_mute");
    assert("group_whole_mute"@.len() == 16);
    assert("group_whole_mute"@[0] == 'g');
    reveal_strlit("group_nudge");
    assert("group_nudge"@.len() == 11);
    assert("group_nudge"@[0] == 'g');
    reveal_strlit("group_file_upload");
    assert("group_file_upload"@.len() == 17);
    assert("group_file_upload"@[0] == 'g');
    assert("group_file_upload"@[6] == 'f');
}

/// The outer tag of an event kind, computed.
fn x_kind_tag(k: &EventKind) -> (r: String)
    ensures
        r@ == kind_tag(kind_m(*k)),
{
    match k {
        EventKind::BotOffline(_) => String::from_str("bot_offline"),
        EventKind::MessageRecall(_) => String::from_str("message_recall"),
        EventKind::FriendRequest(_) => String::from_str("friend_request"),
        EventKind::GroupJoinRequest(_) => String::from_str("group_join_request"),
        EventKind::GroupInvitedJoinRequest(_) => String::from_str("group_invited_join_request"),
        EventKind::GroupInvitationRequest(_) => String::from_str("group_invitation_request"),
        EventKind::FriendNudge(_) => String::from_str("friend_nudge"),
        EventKind::FriendFileUpload(_) => String::from_str("friend_file_upload"),
        EventKind::GroupAdminChange(_) => String::from_str("group_admin_change"),
        EventKind::GroupEssenceMessageChange(_) => String::from_str("group_essence_message_change"),
        EventKind::GroupMemberIncrease(_) => String::from_str("group_member_increase"),
        EventKind::GroupMemberDecrease(_) => String::from_str("group_member_decrease"),
        EventKind::GroupNameChange(_) => String::from_str("group_name_change"),
        EventKind::GroupMessageReaction(_) => String::from_str("group_message_reaction"),
        EventKind::GroupMute(_) => String::from_str("group_mute"),
        EventKind::GroupWholeMute(_) => String::from_str("group_whole_mute"),
        EventKind::GroupNudge(_) => String::from_str("group_nudge"),
        EventKind::GroupFileUpload(_) => String::from_str("group_file_upload"),
        EventKind::MessageReceive(_) => String::from_str("message_receive"),
    }
}

/// Encodes an event kind's payload object; given the kind's own tag, the
/// spec decoder inverts it.
#[verifier::rlimit(100)]
#[verifier::spinoff_prover]
fn encode_kind_data(k: &EventKind) -> (r: JsonValue)
    requires
        wf_event_kind(kind_m(*k)),
    ensures
        jv_model(r) == enc_kind_data(kind_m(*k)),
        dec_kind(kind_tag(kind_m(*k)), r) == Ok::<EventKindM, DecodeError>(kind_m(*k)),
{
    proof {
        lemma_tag_facts();
    }
    match k {
        EventKind::BotOffline(d) => {
            let r = x_enc_ev_bot_offline(d);
            proof {
                lemma_dk_bot_offline("bot_offline"@, r);
            }
            r
        },
        EventKind::MessageRecall(d) => {
            let r = x_enc_ev_recall(d);
            proof {
                lemma_dk_recall("message_recall"@, r);
            }
            r
        },
        EventKind::FriendRequest(d) => {
            let r = x_enc_ev_friend_request(d);
            proof {
                lemma_dk_friend_request("friend_request"@, r);
            }
            r
        },
        EventKind::GroupJoinRequest(d) => {
            let r = x_enc_ev_group_join_request(d);
            proof {
                lemma_dk_group_join_request("group_join_request"@, r);
            }
            r
        },
        EventKind::GroupInvitedJoinRequest(d) => {
            let r = x_enc_ev_group_invited_join_request(d);
            proof {
                lemma_dk_group_invited_join_request("group_invited_join_request"@, r);
            }
            r
        },
        EventKind::GroupInvitationRequest(d) => {
            let r = x_enc_ev_group_invitation_request(d);
            proof {
                lemma_dk_group_invitation_request("group_invitation_request"@, r);
            }
            r
        },
        EventKind::FriendNudge(d) => {
            let r = x_enc_ev_friend_nudge(d);
            proof {
                lemma_dk_friend_nudge("friend_nudge"@, r);
            }
            r
        },
        EventKind::FriendFileUpload(d) => {
            let r = x_enc_ev_friend_file_upload(d);
            proof {
                lemma_dk_friend_file_upload("friend_file_upload"@, r);
            }
            r
        },
        EventKind::GroupAdminChange(d) => {
            let r = x_enc_ev_group_admin_change(d);
            proof {
                lemma_dk_group_admin_change("group_admin_change"@, r);
            }
            r
        },
        EventKind::GroupEssenceMessageChange(d) => {
            let r = x_enc_ev_group_essence_message_change(d);
            proof {
                lemma_dk_group_essence_message_change("group_essence_message_change"@, r);
            }
            r
        },
        EventKind::GroupMemberIncrease(d) => {
            let r = x_enc_ev_group_member_increase(d);
            proof {
                lemma_dk_group_member_increase("group_member_increase"@, r);
            }
            r
        },
        EventKind::GroupMemberDecrease(d) => {
            let r = x_enc_ev_group_member_decrease(d);
            proof {
                lemma_dk_group_member_decrease("group_member_decrease"@, r);
            }
            r
        },
        EventKind::GroupNameChange(d) => {
            let r = x_enc_ev_group_name_change(d);
            proof {
                lemma_dk_group_name_change("group_name_change"@, r);
            }
            r
        },
        EventKind::GroupMessageReaction(d) => {
            let r = x_enc_ev_group_message_reaction(d);
            proof {
                lemma_dk_group_message_reaction("group_message_reaction"@, r);
            }
            r
        },
        EventKind::GroupMute(d) => {
            let r = x_enc_ev_group_mute(d);
            proof {
                lemma_dk_group_mute("group_mute"@, r);
            }
            r
        },
        EventKind::GroupWholeMute(d) => {
            let r = x_enc_ev_group_whole_mute(d);
            proof {
                lemma_dk_group_whole_mute("group_whole_mute"@, r);
            }
            r
        },
        EventKind::GroupNudge(d) => {
            let r = x_enc_ev_group_nudge(d);
            proof {
                lemma_dk_group_nudge("group_nudge"@, r);
            }
            r
        },
        EventKind::GroupFileUpload(d) => {
            let r = x_enc_ev_group_file_upload(d);
            proof {
                lemma_dk_group_file_upload("group_file_upload"@, r);
            }
            r
        },
        EventKind::MessageReceive(me) => {
            let r = encode_message(me);
            proof {
                lemma_dk_message_receive("message_receive"@, r);
            }
            r
        },
    }
}

/// Encodes a whole event into its wire frame document.
///
/// This carries the codec's round-trip law: for every coherent event, the
/// produced tree's model is exactly `enc_event` of the event's image, and
/// the spec decoder maps the tree back to that same image.
#[verifier::rlimit(60)]
pub fn encode_event(e: &Event) -> (r: JsonValue)
    requires
        wf_event(event_m(*e)),
    ensures
        jv_model(r) == enc_event(event_m(*e)),
        dec_event(r) == Ok::<EventM, DecodeError>(event_m(*e)),
{
    let tag = x_kind_tag(&e.kind);
    let data = encode_kind_data(&e.kind);
    let mut fields: Vec<(String, JsonValue)> = Vec::new();
    fields.push((String::from_str("time"), JsonValue::Int(e.time)));
    fields.push((String::from_str("self_id"), JsonValue::Int(e.self_id)));
    fields.push((String::from_str("event_type"), JsonValue::Str(tag)));
    fields.push((String::from_str("data"), data));
    let r = JsonValue::Obj(fields);
    proof {
        reveal_strlit("time");
        assert("time"@.len() == 4);
        assert("time"@[0] == 't');
        reveal_strlit("self_id");
        assert("self_id"@.len() == 7);
        reveal_strlit("event_type");
        assert("event_type"@.len() == 10);
        reveal_strlit("data");
        assert("data"@.len() == 4);
        assert("data"@[0] == 'd');
        let fs = r->Obj_0;
        lemma_jv_model_fields(fs@);
        assert(jv_model_fields(fs@) =~= enc_event(event_m(*e))->Obj_0);
        lemma_get_at(fs@, "time"@, 0);
        lemma_get_at(fs@, "self_id"@, 1);
        lemma_get_at(fs@, "event_type"@, 2);
        lemma_get_at(fs@, "data"@, 3);
        assert(dec_event(r) == Ok::<EventM, DecodeError>(event_m(*e)));
    }
    r
}

/// Encodes a whole event to its wire frame text: exactly the rendering of
/// its encoded document.
pub fn encode_event_text(e: &Event) -> (r: String)
    requires
        wf_event(event_m(*e)),
    ensures
        r@ == crate::json_print::spec_print(enc_event(event_m(*e))),
{
    let v = encode_event(e);
    v.to_text()
}

} // verus!
