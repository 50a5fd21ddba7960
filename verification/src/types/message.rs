//! Messages as received and as sent.

pub mod in_coming;
pub mod out_going;

use vstd::prelude::*;

use crate::types::message::in_coming::IncomingSegment;

verus! {

/// The concatenated text content of a segment sequence: the `text` of each
/// text segment, in order, and nothing else.
pub open spec fn plain_text_of(segments: Seq<IncomingSegment>) -> Seq<char>
    decreases segments,
{
    if segments.len() == 0 {
        Seq::empty()
    } else {
        plain_text_of(segments.drop_last()) + match segments.last() {
            IncomingSegment::Text { text } => text@,
            _ => Seq::empty(),
        }
    }
}

/// Extracts all text content from a message's segments, concatenated in
/// order; non-text segments contribute nothing.
#[verifier::loop_isolation(false)]
pub fn get_plain_text_from_segments(segments: &Vec<IncomingSegment>) -> (r: String)
    ensures
        r@ == plain_text_of(segments@),
{
    let mut combined_text = String::new();
    let n = segments.len();
    let mut i: usize = 0;
    while i < n
        invariant
            n == segments@.len(),
            i <= n,
            combined_text@ == plain_text_of(segments@.take(i as int)),
        decreases n - i,
    {
        if let IncomingSegment::Text { text } = &segments[i] {
            combined_text.append(text.as_str());
        }
        proof {
            assert(segments@.take(i + 1).drop_last() =~= segments@.take(i as int));
            assert(segments@.take(i + 1).last() == segments@[i as int]);
            assert(combined_text@ =~= plain_text_of(segments@.take(i + 1)));
        }
        i += 1;
    }
    proof {
        assert(segments@.take(n as int) =~= segments@);
    }
    combined_text
}

} // verus!
