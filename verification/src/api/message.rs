//! Records of the message operations.

use vstd::prelude::*;

use crate::types::common::MessageScene;
use crate::types::message::in_coming::{IncomingForwardMessage, IncomingMessage};
use crate::types::message::out_going::OutgoingSegment;

verus! {

pub struct SendPrivateMessageParams {
    pub user_id: i64,
    pub message: Vec<OutgoingSegment>,
}

pub struct SendPrivateMessageResponse {
    pub message_seq: i64,
    pub time: i64,
}

pub struct SendGroupMessageParams {
    pub group_id: i64,
    pub message: Vec<OutgoingSegment>,
}

pub struct SendGroupMessageResponse {
    pub message_seq: i64,
    pub time: i64,
}

pub struct GetMessageParams {
    pub message_scene: MessageScene,
    pub peer_id: i64,
    pub message_seq: i64,
}

pub struct GetMessageResponse {
    pub message: IncomingMessage,
}

pub struct GetHistoryMessageParams {
    pub message_scene: MessageScene,
    pub peer_id: i64,
    pub start_message_seq: Option<i64>,
    /// At most this many messages; the server caps the page size.
    pub limit: i32,
}

impl GetHistoryMessageParams {
    /// A history request; a missing limit defaults to twenty.
    pub fn new(
        message_scene: MessageScene,
        peer_id: i64,
        start_message_seq: Option<i64>,
        limit: Option<i32>,
    ) -> (r: Self)
        ensures
            r.message_scene == message_scene,
            r.peer_id == peer_id,
            r.start_message_seq == start_message_seq,
            r.limit == (match limit {
                Some(l) => l,
                None => 20i32,
            }),
    {
        let limit = match limit {
            Some(l) => l,
            None => 20,
        };
        Self { message_scene, peer_id, start_message_seq, limit }
    }
}

pub struct GetHistoryMessageResponse {
    pub messages: Vec<IncomingMessage>,
    pub next_message_seq: Option<i64>,
}

pub struct GetResourceTempUrlParams {
    pub resource_id: String,
}

pub struct GetResourceTempUrlResponse {
    pub url: String,
}

pub struct GetForwardedMessagesParams {
    pub forward_id: String,
}

pub struct GetForwardedMessagesResponse {
    pub messages: Vec<IncomingForwardMessage>,
}

pub struct RecallPrivateMessageParams {
    pub user_id: i64,
    pub message_seq: i64,
}

pub struct RecallGroupMessageParams {
    pub group_id: i64,
    pub message_seq: i64,
}

pub struct MarkMessageAsReadParams {
    pub message_scene: MessageScene,
    pub peer_id: i64,
    pub message_seq: i64,
}

} // verus!
