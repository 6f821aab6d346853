//! The serial link to the receiver: how it is named and set up.

use crate::text::{
    bytes_before, chars_before, lemma_boundary_behind_ascii, lemma_boundary_offsets,
    lemma_bytes_before_grows, lemma_found_in_bytes_is_in_text, lemma_found_in_text_is_in_bytes,
    lemma_text_between_boundaries,
};
use vstd::prelude::*;
use vstd::string::*;
use vstd::utf8::*;

verus! {

/// The speed of the link, in bits per second. It is not configurable.
pub const BAUD_RATE: u32 = 115200;

/// The most that is taken from the receiver in one read, in bytes.
pub const READ_CHUNK: usize = 10240;

/// The character that separates the parts of a device path.
pub const PATH_SEPARATOR: char = '/';

/// How the serial link is opened.
#[derive(Clone, Debug, PartialEq, Eq)]
pub struct SerialSettings {
    /// The device, as the platform names it.
    pub device: String,
    /// The speed in bits per second.
    pub baud: u32,
}

impl SerialSettings {
    /// The settings for `device`, at the fixed speed.
    pub fn new(device: &str) -> (r: SerialSettings)
        ensures
            r.device@ == device@,
            r.baud == BAUD_RATE,
    {
        SerialSettings { device: String::from_str(device), baud: BAUD_RATE }
    }
}

/// The full name of the device `port` on a platform whose device names begin
/// with `prefix`.
pub fn device_path(prefix: &str, port: &str) -> (r: String)
    ensures
        r@ == prefix@ + port@,
{
    let mut path = String::from_str(prefix);
    path.append(port);
    path
}

/// Where the last part of a path begins: behind its last separator, or at 0
/// where it has none.
pub open spec fn last_part_start<T>(path: Seq<T>, separator: T) -> int
    decreases path.len(),
{
    if path.len() == 0 {
        0
    } else if path.last() == separator {
        path.len() as int
    } else {
        last_part_start(path.drop_last(), separator)
    }
}

/// The last part of a path: what follows its last separator, or all of it.
pub open spec fn last_part<T>(path: Seq<T>, separator: T) -> Seq<T> {
    path.subrange(last_part_start(path, separator), path.len() as int)
}

/// The short name of the port at `path`: the path's last part.
pub open spec fn short_name_of(path: Seq<char>) -> Seq<char> {
    last_part(path, PATH_SEPARATOR)
}

/// The last part begins inside the path, has no separator in it, and a
/// separator stands before it unless it begins the path.
pub proof fn lemma_last_part_start<T>(path: Seq<T>, separator: T)
    ensures
        0 <= last_part_start(path, separator) <= path.len(),
        forall|i: int| last_part_start(path, separator) <= i < path.len() ==> path[i] != separator,
        last_part_start(path, separator) > 0 ==> path[last_part_start(path, separator) - 1]
            == separator,
    decreases path.len(),
{
    if path.len() > 0 && path.last() != separator {
        let front = path.drop_last();
        lemma_last_part_start(front, separator);
        assert forall|i: int| last_part_start(path, separator) <= i < path.len() implies path[i]
            != separator by {
            if i < front.len() {
                assert(front[i] == path[i]);
            }
        }
    }
}

/// An offset with the three properties of `lemma_last_part_start` is where the
/// last part begins.
pub proof fn lemma_last_part_start_unique<T>(path: Seq<T>, separator: T, k: int)
    requires
        0 <= k <= path.len(),
        forall|i: int| k <= i < path.len() ==> path[i] != separator,
        k > 0 ==> path[k - 1] == separator,
    ensures
        last_part_start(path, separator) == k,
    decreases path.len(),
{
    if path.len() > 0 && path.last() != separator {
        let front = path.drop_last();
        assert forall|i: int| k <= i < front.len() implies front[i] != separator by {
            assert(front[i] == path[i]);
        }
        lemma_last_part_start_unique(front, separator, k);
    }
}

/// The name of a port without the directories before it.
pub fn port_short_name(path: &str) -> (r: String)
    ensures
        r@ == short_name_of(path@),
{
    broadcast use
        is_char_boundary_start_end_of_seq,
        encode_utf8_valid_utf8,
        encode_utf8_decode_utf8,
    ;

    let bytes = path.as_bytes();
    let mut k: usize = bytes.len();
    while k > 0 && bytes[k - 1] != 0x2f
        invariant
            k <= bytes.len(),
            forall|i: int| k <= i < bytes.len() ==> bytes@[i] != 0x2f,
        decreases k,
    {
        k -= 1;
    }
    proof {
        lemma_cut_behind_last_separator(bytes@, k as int);
    }
    let (_, name) = path.split_at(k);
    name.to_owned()
}

/// Cutting the bytes of a text behind their last `/` byte cuts the text behind
/// its last `/`.
proof fn lemma_cut_behind_last_separator(bytes: Seq<u8>, k: int)
    requires
        valid_utf8(bytes),
        0 <= k <= bytes.len(),
        forall|i: int| k <= i < bytes.len() ==> bytes[i] != 0x2f,
        k > 0 ==> bytes[k - 1] == 0x2f,
    ensures
        is_char_boundary(bytes, k),
        decode_utf8(bytes.subrange(k, bytes.len() as int)) == short_name_of(decode_utf8(bytes)),
{
    broadcast use is_char_boundary_start_end_of_seq;

    let text = decode_utf8(bytes);
    let len = bytes.len() as int;
    let needle = seq![PATH_SEPARATOR];
    let pattern = encode_utf8(needle);
    is_ascii_chars_encode_utf8(needle);
    assert(pattern =~= seq![0x2fu8]) by {
        assert(needle[0] as u8 == pattern[0]);
    }
    if k > 0 {
        lemma_boundary_behind_ascii(bytes, k - 1);
    }
    lemma_boundary_offsets(bytes, k);
    assert(bytes.subrange(0, len) =~= bytes);
    lemma_text_between_boundaries(bytes, k, len);
    let at = chars_before(bytes, k);
    assert forall|c: int| at <= c < text.len() implies text[c] != PATH_SEPARATOR by {
        if text[c] == PATH_SEPARATOR {
            assert(text.subrange(c, c + 1) =~= needle);
            lemma_found_in_text_is_in_bytes(bytes, needle, c);
            if at < c {
                lemma_bytes_before_grows(text, at, c);
            }
            let j = bytes_before(text, c);
            assert(bytes.subrange(j, j + 1)[0] == bytes[j]);
        }
    }
    if k > 0 {
        assert(bytes.subrange(k - 1, k) =~= pattern);
        lemma_found_in_bytes_is_in_text(bytes, needle, k - 1);
        lemma_text_between_boundaries(bytes, k - 1, k);
        let before = chars_before(bytes, k - 1);
        encode_utf8_decode_utf8(needle);
        assert(decode_utf8(pattern) == needle);
        assert(text.subrange(before, at).len() == 1);
        assert(text.subrange(before, before + 1)[0] == text[before]);
    } else {
        assert(bytes.subrange(0, 0) =~= Seq::<u8>::empty());
    }
    lemma_last_part_start_unique(text, PATH_SEPARATOR, at);
}

} // verus!
