//! The event codec, exercised over the wire text.

use milky::error::DecodeError;
use milky::event_codec::{decode_event_text, encode_event, encode_event_text};
use milky::json::JsonValue;
use milky::types::common::MessageScene;
use milky::types::common::Sex;
use milky::types::event::{
    BotOfflineData, Event, EventKind, FriendFileUploadData, FriendNudgeData, FriendRequestData,
    GroupAdminChangeData, GroupEssenceMessageChangeData, GroupFileUploadData,
    GroupInvitationRequestData, GroupInvitedJoinRequestData, GroupJoinRequestData,
    GroupMemberDecreaseData, GroupMemberIncreaseData, GroupMessageReactionData, GroupMuteData,
    GroupNameChangeData, GroupNudgeData, GroupWholeMuteData, MessageEvent, MessageRecallData,
};
use milky::types::friend::Friend;
use milky::types::group::{Group, GroupMember, GroupRole};
use milky::types::message::in_coming::{
    FriendMessage, GroupMessage, IncomingMessage, IncomingSegment, TempMessage,
};

fn sample_friend() -> Friend {
    Friend {
        user_id: 9,
        nickname: "ada".to_string(),
        sex: Sex::Female,
        qid: None,
        remark: "r".to_string(),
        category: None,
    }
}

fn sample_group() -> Group {
    Group {
        group_id: 7,
        group_name: "g".to_string(),
        member_count: 2,
        max_member_count: 200,
    }
}

fn sample_member() -> GroupMember {
    GroupMember {
        user_id: 5,
        nickname: "bob".to_string(),
        sex: Sex::Male,
        group_id: 7,
        card: "c".to_string(),
        title: "t".to_string(),
        level: 3,
        role: GroupRole::Admin,
        join_time: 100,
        last_sent_time: 200,
        shut_up_end_time: None,
    }
}

fn field<'a>(v: &'a JsonValue, key: &str) -> &'a JsonValue {
    v.get(key).expect(key)
}

fn as_i64(v: &JsonValue) -> i64 {
    match v {
        JsonValue::Int(i) => *i,
        _ => panic!("not an integer"),
    }
}

fn as_str(v: &JsonValue) -> &str {
    match v {
        JsonValue::Str(s) => s.as_str(),
        _ => panic!("not a string"),
    }
}

#[test]
fn test_serialize_message_receive_event() {
    let event = Event {
        self_id: 1234567890,
        time: 1630483200,
        kind: EventKind::MessageReceive(MessageEvent::Friend(FriendMessage {
            message: IncomingMessage {
                peer_id: 987654321,
                message_seq: 12345,
                sender_id: 987654321,
                time: 1630483200,
                segments: vec![],
                message_scene: MessageScene::Friend,
            },
            friend: sample_friend(),
        })),
    };
    let v = encode_event(&event);
    assert_eq!(as_i64(field(&v, "time")), 1630483200);
    assert_eq!(as_i64(field(&v, "self_id")), 1234567890);
    assert_eq!(as_str(field(&v, "event_type")), "message_receive");
    let data = field(&v, "data");
    assert_eq!(as_i64(field(data, "peer_id")), 987654321);
    assert_eq!(as_i64(field(data, "message_seq")), 12345);
    assert_eq!(as_i64(field(data, "sender_id")), 987654321);
    assert_eq!(as_i64(field(data, "time")), 1630483200);
    match field(data, "segments") {
        JsonValue::Arr(items) => assert_eq!(items.len(), 0),
        _ => panic!("segments is not an array"),
    }
    assert_eq!(as_str(field(data, "message_scene")), "friend");
}

#[test]
fn test_serialize_mention_all() {
    let e = Event {
        time: 1,
        self_id: 2,
        kind: EventKind::MessageReceive(MessageEvent::Friend(FriendMessage {
            message: IncomingMessage {
                peer_id: 3,
                message_seq: 4,
                sender_id: 5,
                time: 6,
                segments: vec![IncomingSegment::MentionAll {}],
                message_scene: MessageScene::Friend,
            },
            friend: sample_friend(),
        })),
    };
    let v = encode_event(&e);
    let data = field(&v, "data");
    let segs = match field(data, "segments") {
        JsonValue::Arr(items) => items,
        _ => panic!("segments is not an array"),
    };
    assert_eq!(segs[0].to_text(), "{\"type\":\"mention_all\",\"data\":{}}");
}

fn round_trip(e: &Event) {
    let t1 = encode_event_text(e);
    let e2 = decode_event_text(&t1).expect("decode failed");
    let t2 = encode_event_text(&e2);
    assert_eq!(t1, t2);
}

#[test]
fn round_trip_every_kind() {
    let kinds = vec![
        EventKind::BotOffline(BotOfflineData { reason: "kicked".to_string() }),
        EventKind::MessageRecall(MessageRecallData {
            message_scene: MessageScene::Group,
            peer_id: 1,
            message_seq: 2,
            sender_id: 3,
            operator_id: 4,
        }),
        EventKind::FriendRequest(FriendRequestData {
            request_id: "r1".to_string(),
            operator_id: 1,
            comment: Some("hi".to_string()),
            via: None,
        }),
        EventKind::GroupJoinRequest(GroupJoinRequestData {
            request_id: "r2".to_string(),
            operator_id: 1,
            group_id: 2,
            comment: None,
        }),
        EventKind::GroupInvitedJoinRequest(GroupInvitedJoinRequestData {
            request_id: "r3".to_string(),
            operator_id: 1,
            group_id: 2,
            invitee_id: 3,
        }),
        EventKind::GroupInvitationRequest(GroupInvitationRequestData {
            request_id: "r4".to_string(),
            operator_id: 1,
            group_id: 2,
        }),
        EventKind::FriendNudge(FriendNudgeData {
            user_id: 1,
            is_self_send: false,
            is_self_receive: true,
        }),
        EventKind::FriendFileUpload(FriendFileUploadData {
            user_id: 1,
            file_id: "f".to_string(),
            file_name: "n".to_string(),
            file_size: 10,
            is_self: false,
        }),
        EventKind::GroupAdminChange(GroupAdminChangeData {
            group_id: 1,
            user_id: 2,
            is_set: true,
        }),
        EventKind::GroupEssenceMessageChange(GroupEssenceMessageChangeData {
            group_id: 1,
            message_seq: 2,
            is_set: false,
        }),
        EventKind::GroupMemberIncrease(GroupMemberIncreaseData {
            group_id: 1,
            user_id: 2,
            operator_id: Some(3),
            invitor_id: None,
        }),
        EventKind::GroupMemberDecrease(GroupMemberDecreaseData {
            group_id: 1,
            user_id: 2,
            operator_id: None,
        }),
        EventKind::GroupNameChange(GroupNameChangeData {
            group_id: 1,
            name: "new".to_string(),
            operator_id: 2,
        }),
        EventKind::GroupMessageReaction(GroupMessageReactionData {
            group_id: 1,
            user_id: 2,
            message_seq: 3,
            face_id: "66".to_string(),
            is_add: Some(true),
        }),
        EventKind::GroupMute(GroupMuteData { group_id: 1, user_id: 2, duration: 60 }),
        EventKind::GroupWholeMute(GroupWholeMuteData {
            group_id: 1,
            operator_id: 2,
            is_mute: true,
        }),
        EventKind::GroupNudge(GroupNudgeData { group_id: 1, sender_id: 2, receiver_id: 3 }),
        EventKind::GroupFileUpload(GroupFileUploadData {
            group_id: 1,
            user_id: 2,
            file_id: "f".to_string(),
            file_name: "n".to_string(),
            file_size: 9,
        }),
    ];
    for kind in kinds {
        round_trip(&Event { time: 11, self_id: 22, kind });
    }
}

#[test]
fn round_trip_message_shapes() {
    let base = |scene: MessageScene| IncomingMessage {
        peer_id: 1,
        message_seq: 2,
        sender_id: 3,
        time: 4,
        segments: vec![
            IncomingSegment::Text { text: "hi \"there\"\n".to_string() },
            IncomingSegment::Mention { user_id: 5 },
            IncomingSegment::Face { face_id: "1".to_string() },
            IncomingSegment::Reply { message_seq: 9 },
            IncomingSegment::Image {
                resource_id: "rid".to_string(),
                temp_url: "http://x/y".to_string(),
                width: 10,
                height: 20,
                summary: "[img]".to_string(),
                sub_type: "normal".to_string(),
            },
            IncomingSegment::Record {
                resource_id: "a".to_string(),
                temp_url: "u".to_string(),
                duration: 3,
            },
            IncomingSegment::Video {
                resource_id: "v".to_string(),
                temp_url: "u".to_string(),
                width: 1,
                height: 2,
                duration: 3,
            },
            IncomingSegment::File {
                file_id: "f".to_string(),
                file_name: "n".to_string(),
                file_size: 1,
                file_hash: Some("h".to_string()),
            },
            IncomingSegment::Forward { forward_id: "fw".to_string() },
            IncomingSegment::MarketFace { url: "mu".to_string() },
            IncomingSegment::LightApp {
                app_name: "ap".to_string(),
                json_payload: "{}".to_string(),
            },
            IncomingSegment::XML { service_id: 1, xml_payload: "<a/>".to_string() },
        ],
        message_scene: scene,
    };
    round_trip(&Event {
        time: 1,
        self_id: 2,
        kind: EventKind::MessageReceive(MessageEvent::Friend(FriendMessage {
            message: base(MessageScene::Friend),
            friend: sample_friend(),
        })),
    });
    round_trip(&Event {
        time: 1,
        self_id: 2,
        kind: EventKind::MessageReceive(MessageEvent::Group(GroupMessage {
            message: base(MessageScene::Group),
            group: sample_group(),
            group_member: sample_member(),
        })),
    });
    round_trip(&Event {
        time: 1,
        self_id: 2,
        kind: EventKind::MessageReceive(MessageEvent::Temp(TempMessage {
            message: base(MessageScene::Temp),
            group: Some(sample_group()),
        })),
    });
}

#[test]
fn unknown_event_type_is_rejected() {
    let r = decode_event_text(
        "{\"time\":1,\"self_id\":1,\"event_type\":\"totally_new\",\"data\":{}}",
    );
    assert_eq!(r.unwrap_err(), DecodeError::UnknownEventType);
}

#[test]
fn unknown_segment_type_is_rejected() {
    let r = decode_event_text(
        "{\"time\":1,\"self_id\":1,\"event_type\":\"message_receive\",\"data\":{\"peer_id\":1,\"message_seq\":1,\"sender_id\":1,\"time\":1,\"segments\":[{\"type\":\"hologram\",\"data\":{}}],\"message_scene\":\"friend\"}}",
    );
    assert_eq!(r.unwrap_err(), DecodeError::UnknownSegmentType);
}

#[test]
fn group_scene_missing_profiles_is_rejected() {
    let r = decode_event_text(
        "{\"time\":1,\"self_id\":1,\"event_type\":\"message_receive\",\"data\":{\"peer_id\":1,\"message_seq\":1,\"sender_id\":1,\"time\":1,\"segments\":[],\"message_scene\":\"group\"}}",
    );
    assert_eq!(r.unwrap_err(), DecodeError::MissingField);
}

#[test]
fn unknown_scene_is_rejected() {
    let r = decode_event_text(
        "{\"time\":1,\"self_id\":1,\"event_type\":\"message_receive\",\"data\":{\"peer_id\":1,\"message_seq\":1,\"sender_id\":1,\"time\":1,\"segments\":[],\"message_scene\":\"broadcast\"}}",
    );
    assert_eq!(r.unwrap_err(), DecodeError::UnknownScene);
}

#[test]
fn missing_outer_field_is_rejected() {
    let r = decode_event_text("{\"time\":1,\"event_type\":\"group_nudge\",\"data\":{}}");
    assert_eq!(r.unwrap_err(), DecodeError::MissingField);
}

#[test]
fn malformed_text_is_rejected() {
    assert_eq!(decode_event_text("{oops").unwrap_err(), DecodeError::Syntax);
    assert_eq!(decode_event_text("").unwrap_err(), DecodeError::Syntax);
}

#[test]
fn decodes_the_two_sample_frames_in_order() {
    let frames = vec![
        "{\"time\":1,\"self_id\":1,\"event_type\":\"group_nudge\",\"data\":{\"group_id\":1,\"sender_id\":2,\"receiver_id\":3}}",
        "{\"time\":2,\"self_id\":1,\"event_type\":\"bot_offline\",\"data\":{\"reason\":\"kicked\"}}",
    ];
    let mut out = Vec::new();
    for f in frames {
        out.push(decode_event_text(f).expect("frame must decode"));
    }
    assert_eq!(out.len(), 2);
    assert_eq!(out[0].time, 1);
    assert_eq!(out[0].self_id, 1);
    match &out[0].kind {
        EventKind::GroupNudge(d) => {
            assert_eq!(d.group_id, 1);
            assert_eq!(d.sender_id, 2);
            assert_eq!(d.receiver_id, 3);
        }
        _ => panic!("first frame is not a group nudge"),
    }
    assert_eq!(out[1].time, 2);
    match &out[1].kind {
        EventKind::BotOffline(d) => assert_eq!(d.reason, "kicked"),
        _ => panic!("second frame is not an offline notice"),
    }
}
