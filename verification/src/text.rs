//! UTF-8 text and its bytes: how offsets in the one relate to offsets in the
//! other, and why an ASCII pattern is found in the text exactly where it is
//! found in the bytes.

use crate::scan::{
    first_index_of, first_occurrence, lemma_first_index_is_first_occurrence,
    lemma_first_occurrence_is_first_index, lemma_no_occurrence_no_first_index, occurs_at,
};
use vstd::prelude::*;
use vstd::utf8::*;

verus! {

/// The number of characters that the first `i` bytes of a text hold.
pub open spec fn chars_before(bytes: Seq<u8>, i: int) -> int {
    decode_utf8(bytes.subrange(0, i)).len() as int
}

/// The number of bytes that the first `c` characters of a text take.
pub open spec fn bytes_before(text: Seq<char>, c: int) -> int {
    encode_utf8(text.subrange(0, c)).len() as int
}

/// Behind a byte below 0x80 of a UTF-8 text a character begins or the text ends.
pub proof fn lemma_boundary_behind_ascii(bytes: Seq<u8>, i: int)
    requires
        valid_utf8(bytes),
        0 <= i < bytes.len(),
        bytes[i] < 0x80,
    ensures
        is_char_boundary(bytes, i + 1),
    decreases bytes.len(),
{
    reveal_with_fuel(is_char_boundary, 2);
    if i >= length_of_first_scalar(bytes) {
        lemma_boundary_behind_ascii(pop_first_scalar(bytes), i - length_of_first_scalar(bytes));
    } else {
        // `i` lies in the first character; a byte below 0x80 is a character of
        // its own, so `i` is 0 and the first character is one byte long.
        broadcast use is_char_boundary_iff_not_is_continuation_byte;

        assert(is_char_boundary(bytes, i));
        is_char_boundary_start_end_of_seq(pop_first_scalar(bytes));
    }
}

/// The bytes of two texts joined are the bytes of the one, then those of the
/// other.
pub proof fn lemma_encode_joined(a: Seq<char>, b: Seq<char>)
    ensures
        encode_utf8(a + b) == encode_utf8(a) + encode_utf8(b),
    decreases a.len(),
{
    if a.len() == 0 {
        assert(a + b =~= b);
        assert(encode_utf8(a) + encode_utf8(b) =~= encode_utf8(b));
    } else {
        lemma_encode_joined(a.drop_first(), b);
        assert((a + b).drop_first() =~= a.drop_first() + b);
        assert((a + b)[0] == a[0]);
        assert(encode_utf8(a + b) =~= encode_utf8(a) + encode_utf8(b));
    }
}

/// Every character takes at least one byte.
pub proof fn lemma_encode_is_no_shorter(text: Seq<char>)
    ensures
        encode_utf8(text).len() >= text.len(),
    decreases text.len(),
{
    if text.len() > 0 {
        lemma_encode_is_no_shorter(text.drop_first());
    }
}

/// More characters take more bytes.
pub proof fn lemma_bytes_before_grows(text: Seq<char>, c1: int, c2: int)
    requires
        0 <= c1 < c2 <= text.len(),
    ensures
        bytes_before(text, c1) < bytes_before(text, c2),
{
    let head = text.subrange(0, c1);
    let more = text.subrange(c1, c2);
    assert(text.subrange(0, c2) =~= head + more);
    lemma_encode_joined(head, more);
    lemma_encode_is_no_shorter(more);
}

/// At a character boundary, the characters before it take exactly the bytes
/// before it, and what lies before the boundary is text of its own.
pub proof fn lemma_boundary_offsets(bytes: Seq<u8>, i: int)
    requires
        valid_utf8(bytes),
        is_char_boundary(bytes, i),
    ensures
        0 <= i <= bytes.len(),
        0 <= chars_before(bytes, i) <= decode_utf8(bytes).len(),
        bytes_before(decode_utf8(bytes), chars_before(bytes, i)) == i,
        decode_utf8(bytes).subrange(0, chars_before(bytes, i)) == decode_utf8(
            bytes.subrange(0, i),
        ),
{
    reveal_with_fuel(is_char_boundary, 1);
    lemma_boundary_in_range(bytes, i);
    valid_utf8_split(bytes, i);
    decode_utf8_split(bytes, i);
    let head = bytes.subrange(0, i);
    decode_utf8_encode_utf8(head);
    assert(decode_utf8(bytes).subrange(0, chars_before(bytes, i)) =~= decode_utf8(head));
}

/// A character boundary lies within the text or at its end.
pub proof fn lemma_boundary_in_range(bytes: Seq<u8>, i: int)
    requires
        valid_utf8(bytes),
        is_char_boundary(bytes, i),
    ensures
        0 <= i <= bytes.len(),
    decreases bytes.len(),
{
    reveal_with_fuel(is_char_boundary, 2);
    if i != 0 && bytes.len() > 0 {
        lemma_boundary_in_range(pop_first_scalar(bytes), i - length_of_first_scalar(bytes));
    }
}

/// The text between two character boundaries is the text of the bytes between
/// them.
pub proof fn lemma_text_between_boundaries(bytes: Seq<u8>, i: int, j: int)
    requires
        valid_utf8(bytes),
        is_char_boundary(bytes, i),
        is_char_boundary(bytes, j),
        i <= j,
    ensures
        valid_utf8(bytes.subrange(i, j)),
        chars_before(bytes, i) <= chars_before(bytes, j),
        decode_utf8(bytes.subrange(i, j)) == decode_utf8(bytes).subrange(
            chars_before(bytes, i),
            chars_before(bytes, j),
        ),
{
    broadcast use is_char_boundary_iff_not_is_continuation_byte, is_char_boundary_start_end_of_seq;

    lemma_boundary_in_range(bytes, i);
    lemma_boundary_in_range(bytes, j);
    lemma_boundary_offsets(bytes, j);
    let head = bytes.subrange(0, j);
    valid_utf8_split(bytes, j);
    if i < j {
        assert(head[i] == bytes[i]);
        assert(!is_continuation_byte(bytes[i]));
        assert(is_char_boundary(head, i));
    } else {
        assert(is_char_boundary(head, head.len() as int));
    }
    valid_utf8_split(head, i);
    decode_utf8_split(head, i);
    assert(head.subrange(0, i) =~= bytes.subrange(0, i));
    assert(head.subrange(i, head.len() as int) =~= bytes.subrange(i, j));
    let before = decode_utf8(bytes.subrange(0, i));
    let between = decode_utf8(bytes.subrange(i, j));
    let upto = decode_utf8(bytes).subrange(0, chars_before(bytes, j));
    assert(upto == before + between);
    assert(upto.subrange(before.len() as int, upto.len() as int) =~= between);
    assert(upto.subrange(before.len() as int, upto.len() as int) =~= decode_utf8(bytes).subrange(
        chars_before(bytes, i),
        chars_before(bytes, j),
    ));
}

/// An ASCII pattern takes one byte for each character, each below 0x80.
pub proof fn lemma_ascii_pattern_bytes(needle: Seq<char>)
    requires
        is_ascii_chars(needle),
    ensures
        encode_utf8(needle).len() == needle.len(),
        forall|k: int| 0 <= k < needle.len() ==> #[trigger] encode_utf8(needle)[k] < 0x80,
{
    is_ascii_chars_encode_utf8(needle);
    assert forall|k: int| 0 <= k < needle.len() implies #[trigger] encode_utf8(needle)[k]
        < 0x80 by {
        assert(needle[k] as u8 == encode_utf8(needle)[k]);
        assert('\0' <= needle[k] <= '\u{7f}');
    }
}

/// Where the bytes of an ASCII pattern lie in the bytes of a text, characters
/// begin before and behind them, and the pattern lies in the text there.
pub proof fn lemma_found_in_bytes_is_in_text(bytes: Seq<u8>, needle: Seq<char>, i: int)
    requires
        valid_utf8(bytes),
        is_ascii_chars(needle),
        needle.len() > 0,
        occurs_at(bytes, encode_utf8(needle), i),
    ensures
        is_char_boundary(bytes, i),
        is_char_boundary(bytes, i + needle.len()),
        occurs_at(decode_utf8(bytes), needle, chars_before(bytes, i)),
{
    broadcast use is_char_boundary_iff_not_is_continuation_byte;

    let pattern = encode_utf8(needle);
    let n = needle.len() as int;
    lemma_ascii_pattern_bytes(needle);
    let window = bytes.subrange(i, i + n);
    assert(window[0] == bytes[i]);
    assert(window[n - 1] == bytes[i + n - 1]);
    assert(pattern[0] < 0x80 && pattern[n - 1] < 0x80);
    assert(!is_continuation_byte(bytes[i]));
    assert(is_char_boundary(bytes, i));
    lemma_boundary_behind_ascii(bytes, i + n - 1);
    lemma_text_between_boundaries(bytes, i, i + n);
    lemma_boundary_offsets(bytes, i + n);
    encode_utf8_decode_utf8(needle);
    assert(decode_utf8(window) == needle);
}

/// Where an ASCII pattern lies in a text, its bytes lie in the text's bytes,
/// behind the bytes of the characters before it.
pub proof fn lemma_found_in_text_is_in_bytes(bytes: Seq<u8>, needle: Seq<char>, c: int)
    requires
        valid_utf8(bytes),
        occurs_at(decode_utf8(bytes), needle, c),
    ensures
        occurs_at(bytes, encode_utf8(needle), bytes_before(decode_utf8(bytes), c)),
{
    let text = decode_utf8(bytes);
    let n = needle.len() as int;
    let head = text.subrange(0, c);
    let rest = text.subrange(c + n, text.len() as int);
    assert(text =~= head + needle + rest);
    decode_utf8_encode_utf8(bytes);
    lemma_encode_joined(head + needle, rest);
    lemma_encode_joined(head, needle);
    let j = encode_utf8(head).len() as int;
    assert(bytes =~= encode_utf8(head) + encode_utf8(needle) + encode_utf8(rest));
    assert(bytes.subrange(j, j + encode_utf8(needle).len()) =~= encode_utf8(needle));
}

/// An ASCII pattern is found first in a text where its bytes are found first
/// in the text's bytes, and is found in neither if not in both. The search
/// may begin at any character boundary.
pub proof fn lemma_first_index_in_text(bytes: Seq<u8>, needle: Seq<char>, from: int)
    requires
        valid_utf8(bytes),
        is_ascii_chars(needle),
        needle.len() > 0,
        is_char_boundary(bytes, from),
    ensures
        match first_index_of(bytes, encode_utf8(needle), from) {
            Some(i) => {
                &&& is_char_boundary(bytes, i)
                &&& from <= i
                &&& first_index_of(decode_utf8(bytes), needle, chars_before(bytes, from)) == Some(
                    chars_before(bytes, i),
                )
            },
            None => first_index_of(decode_utf8(bytes), needle, chars_before(bytes, from))
                is None,
        },
{
    let text = decode_utf8(bytes);
    let pattern = encode_utf8(needle);
    let start = chars_before(bytes, from);
    lemma_boundary_offsets(bytes, from);
    match first_index_of(bytes, pattern, from) {
        Some(i) => {
            lemma_first_index_is_first_occurrence(bytes, pattern, from);
            lemma_found_in_bytes_is_in_text(bytes, needle, i);
            lemma_boundary_offsets(bytes, i);
            let at = chars_before(bytes, i);
            if at < start {
                lemma_bytes_before_grows(text, at, start);
            }
            assert forall|c: int| start <= c < at implies !occurs_at(text, needle, c) by {
                if occurs_at(text, needle, c) {
                    lemma_found_in_text_is_in_bytes(bytes, needle, c);
                    lemma_bytes_before_grows(text, c, at);
                    if start < c {
                        lemma_bytes_before_grows(text, start, c);
                    }
                    assert(!occurs_at(bytes, pattern, bytes_before(text, c)));
                }
            }
            assert(first_occurrence(text, needle, start, at));
            lemma_first_occurrence_is_first_index(text, needle, start, at);
        },
        None => {
            assert forall|c: int| start <= c implies !occurs_at(text, needle, c) by {
                if occurs_at(text, needle, c) {
                    lemma_found_in_text_is_in_bytes(bytes, needle, c);
                    if start < c {
                        lemma_bytes_before_grows(text, start, c);
                    }
                    assert(occurs_at(bytes, pattern, bytes_before(text, c)));
                }
            }
            lemma_no_occurrence_no_first_index(text, needle, start);
        },
    }
}

} // verus!
