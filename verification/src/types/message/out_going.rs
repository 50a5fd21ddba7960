//! Messages as sent, and their segments.

use vstd::prelude::*;

verus! {

/// One message inside a combined forward to be sent.
#[derive(Debug)]
pub struct OutgoingForwardMessage {
    /// The account shown as the sender.
    pub user_id: i64,
    /// The name shown for the sender.
    pub sender_name: String,
    /// The message's content.
    pub segments: Vec<OutgoingSegment>,
}

/// One unit of message content to be sent.
#[derive(Debug)]
pub enum OutgoingSegment {
    /// Plain text.
    Text(TextData),
    /// A mention of one member.
    Mention(MentionData),
    /// A mention of everyone.
    MentionAll(MentionAllData),
    /// A built-in face.
    Face(FaceData),
    /// A reference to an earlier message.
    Reply(ReplyData),
    /// A picture.
    Image(ImageData),
    /// A voice recording.
    Record(RecordData),
    /// A video.
    Video(VideoData),
    /// An already-built combined forward.
    Forward(ForwardData),
}

/// Text to send.
#[derive(Clone, Debug)]
pub struct TextData {
    pub text: String,
}

/// A mention to send.
#[derive(Clone, Debug)]
pub struct MentionData {
    pub user_id: i64,
}

/// A mention of everyone; carries nothing.
#[derive(Clone, Debug)]
pub struct MentionAllData;

/// A face to send.
#[derive(Clone, Debug)]
pub struct FaceData {
    pub face_id: String,
}

/// A reply reference to send.
#[derive(Clone, Debug)]
pub struct ReplyData {
    pub message_seq: i64,
}

/// A picture to send, by `file://`, `http(s)://` or `base64://` address.
#[derive(Clone, Debug)]
pub struct ImageData {
    pub uri: String,
    pub summary: Option<String>,
    pub sub_type: String,
}

/// A voice recording to send.
#[derive(Clone, Debug)]
pub struct RecordData {
    pub uri: String,
}

/// A video to send.
#[derive(Clone, Debug)]
pub struct VideoData {
    pub uri: String,
    pub thumb_uri: Option<String>,
}

/// The content of a combined forward to send.
#[derive(Debug)]
pub struct ForwardData {
    pub messages: Vec<OutgoingForwardMessage>,
}

} // verus!
