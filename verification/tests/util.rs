//! Small helpers on messages.

use milky::types::message::get_plain_text_from_segments;
use milky::types::message::in_coming::IncomingSegment;

#[test]
fn concatenates_text_segments_only() {
    let segs = vec![
        IncomingSegment::Text { text: "hello ".to_string() },
        IncomingSegment::Mention { user_id: 1 },
        IncomingSegment::Text { text: "world".to_string() },
        IncomingSegment::Face { face_id: "2".to_string() },
    ];
    assert_eq!(get_plain_text_from_segments(&segs), "hello world");
}

#[test]
fn no_text_segments_yield_the_empty_string() {
    let segs = vec![IncomingSegment::MentionAll {}];
    assert_eq!(get_plain_text_from_segments(&segs), "");
    assert_eq!(get_plain_text_from_segments(&vec![]), "");
}
