//! Picking a position-fix sentence out of what the receiver sends.
//!
//! The scan looks at one chunk at a time and keeps nothing between chunks: of a
//! sentence that is split over two reads, only the part in the chunk that holds
//! the marker is reported.

use crate::scan::{find, first_index_of, lemma_first_index_is_first_occurrence, occurs_at};
use crate::text::{chars_before, lemma_first_index_in_text, lemma_text_between_boundaries};
use vstd::prelude::*;
use vstd::string::*;
use vstd::utf8::*;

verus! {

/// The start of a fix sentence.
pub const FIX_MARKER: &'static str = "$GNGGA";

/// The carriage return that ends a sentence.
pub const SENTENCE_END: &'static str = "\r";

/// A fix sentence as it stood in a chunk.
#[derive(Clone, Debug, PartialEq, Eq)]
pub struct FixRecord {
    /// The sentence from its marker up to, and without, the carriage return.
    pub raw: String,
}

/// Where the first fix sentence of `text` begins, if it holds one: at the
/// first place where the marker stands.
pub open spec fn sentence_start(text: Seq<char>) -> Option<int> {
    first_index_of(text, FIX_MARKER@, 0)
}

/// Where the sentence that begins at `start` ends: at the first carriage return
/// from `start` on, or with the text.
pub open spec fn sentence_end(text: Seq<char>, start: int) -> int {
    match first_index_of(text, SENTENCE_END@, start) {
        Some(end) => end,
        None => text.len() as int,
    }
}

/// The fix sentence that `text` reports: none unless the text holds the marker.
pub open spec fn fix_in_text(text: Seq<char>) -> Option<Seq<char>> {
    match sentence_start(text) {
        Some(start) => Some(text.subrange(start, sentence_end(text, start))),
        None => None,
    }
}

/// The fix sentence that `chunk` reports: none unless the chunk is UTF-8 text,
/// else that of its text.
pub open spec fn fix_of(chunk: Seq<u8>) -> Option<Seq<char>> {
    if valid_utf8(chunk) {
        fix_in_text(decode_utf8(chunk))
    } else {
        None
    }
}

/// A text in which the marker stands nowhere reports no fix.
pub proof fn lemma_no_marker_no_fix(text: Seq<char>)
    requires
        forall|i: int| !occurs_at(text, FIX_MARKER@, i),
    ensures
        fix_in_text(text) is None,
{
}

/// Bytes that are no text report no fix.
pub proof fn lemma_no_text_no_fix(chunk: Seq<u8>)
    requires
        !valid_utf8(chunk),
    ensures
        fix_of(chunk) is None,
{
}

/// The sentence that a text reports is cut from it in one piece. It begins
/// where the marker first stands and with the marker; it holds no carriage
/// return; and it ends before a carriage return or with the text.
pub proof fn lemma_fix_is_cut_from_the_text(text: Seq<char>)
    requires
        fix_in_text(text) is Some,
    ensures
        ({
            let start = sentence_start(text)->0;
            let end = sentence_end(text, start);
            let fix = fix_in_text(text)->0;
            &&& 0 <= start && start + 6 <= end <= text.len()
            &&& fix == text.subrange(start, end)
            &&& fix.subrange(0, 6) == FIX_MARKER@
            &&& forall|j: int| 0 <= j < start ==> !occurs_at(text, FIX_MARKER@, j)
            &&& forall|k: int| 0 <= k < fix.len() ==> fix[k] != '\r'
            &&& end < text.len() ==> text[end] == '\r'
        }),
{
    reveal_strlit("$GNGGA");
    reveal_strlit("\r");
    let start = sentence_start(text)->0;
    let end = sentence_end(text, start);
    let fix = text.subrange(start, end);
    lemma_first_index_is_first_occurrence(text, FIX_MARKER@, 0);
    let marker = text.subrange(start, start + 6);
    assert forall|k: int| 0 <= k < 6 implies text[start + k] == #[trigger] FIX_MARKER@[k] by {
        assert(marker[k] == text[start + k]);
    }
    if first_index_of(text, SENTENCE_END@, start) is Some {
        lemma_first_index_is_first_occurrence(text, SENTENCE_END@, start);
        assert(text.subrange(end, end + 1)[0] == text[end]);
        if end < start + 6 {
            assert(text[end] == FIX_MARKER@[end - start]);
        }
    }
    assert(fix.subrange(0, 6) =~= FIX_MARKER@);
    assert forall|k: int| 0 <= k < fix.len() implies fix[k] != '\r' by {
        if fix[k] == '\r' {
            assert(text.subrange(start + k, start + k + 1) =~= SENTENCE_END@);
            assert(occurs_at(text, SENTENCE_END@, start + k));
        }
    }
}

/// `std::str::from_utf8`: reads `bytes` as text. It succeeds on UTF-8 and on
/// nothing else, and the text it returns is made of the very same bytes.
#[verifier::external_body]
fn text_in(bytes: &[u8]) -> (r: Option<&str>)
    ensures
        r is Some <==> valid_utf8(bytes@),
        r matches Some(text) ==> text.spec_bytes() == bytes@,
{
    std::str::from_utf8(bytes).ok()
}

/// Looks for a fix sentence in one chunk of receiver output.
pub fn extract_fix(chunk: &[u8]) -> (r: Option<FixRecord>)
    ensures
        match r {
            Some(record) => fix_of(chunk@) == Some(record.raw@),
            None => fix_of(chunk@) is None,
        },
{
    broadcast use
        is_char_boundary_iff_not_is_continuation_byte,
        is_char_boundary_start_end_of_seq,
        encode_utf8_valid_utf8,
        encode_utf8_decode_utf8,
    ;

    let text = match text_in(chunk) {
        Some(text) => text,
        None => {
            return None;
        },
    };
    proof {
        reveal_strlit("$GNGGA");
        reveal_strlit("\r");
        assert(chunk@.subrange(0, 0) =~= Seq::<u8>::empty());
        assert(chars_before(chunk@, 0) == 0);
        lemma_first_index_in_text(chunk@, FIX_MARKER@, 0);
    }
    let start = match find(chunk, FIX_MARKER.as_bytes(), 0) {
        Some(start) => start,
        None => {
            return None;
        },
    };
    proof {
        lemma_first_index_in_text(chunk@, SENTENCE_END@, start as int);
    }
    let end = match find(chunk, SENTENCE_END.as_bytes(), start) {
        Some(end) => end,
        None => chunk.len(),
    };
    proof {
        assert(chunk@.subrange(0, chunk@.len() as int) =~= chunk@);
        lemma_text_between_boundaries(chunk@, start as int, end as int);
    }
    let (_, tail) = text.split_at(start);
    proof {
        let rest = tail.spec_bytes();
        if end < chunk.len() {
            assert(is_char_boundary(chunk@, end as int));
            assert(!is_continuation_byte(chunk@[end as int]));
            assert(rest[end - start] == chunk@[end as int]);
            assert(!is_continuation_byte(rest[end - start]));
            assert(is_char_boundary(rest, end - start));
        } else {
            assert(is_char_boundary(rest, rest.len() as int));
        }
    }
    let (sentence, _) = tail.split_at(end - start);
    assert(sentence.spec_bytes() == chunk@.subrange(start as int, end as int));
    Some(FixRecord { raw: sentence.to_owned() })
}

} // verus!
