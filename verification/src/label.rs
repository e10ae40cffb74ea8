//! Fitting a station's name into a cell.

use vstd::prelude::*;
use vstd::slice::slice_subrange;
use vstd::utf8::{decode_utf8, encode_utf8, is_ascii_chars, is_char_boundary, valid_utf8};
use crate::grid::CELL_SIZE;

verus! {

/// The text that lenient decoding makes of bytes that are not valid UTF-8:
/// each invalid sequence gives way to the replacement character U+FFFD.
pub uninterp spec fn lossy_utf8(bytes: Seq<u8>) -> Seq<char>;

/// `String::from_utf8_lossy`, with the result copied into a `String` of its
/// own. Valid UTF-8 is decoded as it stands; of other bytes the result is
/// the text that the function makes of them, which is only given a name.
#[verifier::external_body]
fn decode_lossy(bytes: &[u8]) -> (text: String)
    ensures
        valid_utf8(bytes@) ==> text@ == decode_utf8(bytes@),
        !valid_utf8(bytes@) ==> text@ == lossy_utf8(bytes@),
{
    String::from_utf8_lossy(bytes).into_owned()
}

/// The label for a name: the name itself where its UTF-8 encoding takes no
/// more than `CELL_SIZE` bytes, else the first `CELL_SIZE` bytes of the
/// encoding, decoded leniently.
pub open spec fn truncated(name: Seq<char>) -> Seq<char> {
    let bytes = encode_utf8(name);
    let head = bytes.subrange(0, CELL_SIZE as int);
    if bytes.len() <= CELL_SIZE {
        name
    } else if valid_utf8(head) {
        decode_utf8(head)
    } else {
        lossy_utf8(head)
    }
}

/// Cuts `name` down to the width of a cell.
pub fn truncate_label(name: String) -> (label: String)
    ensures
        label@ == truncated(name@),
{
    let bytes = name.as_str().as_bytes();
    if bytes.len() > CELL_SIZE {
        decode_lossy(slice_subrange(bytes, 0, CELL_SIZE))
    } else {
        name
    }
}

/// A name of ASCII characters is cut to its first `CELL_SIZE` characters.
pub proof fn lemma_truncated_ascii(name: Seq<char>)
    requires
        is_ascii_chars(name),
    ensures
        truncated(name) == if name.len() <= CELL_SIZE {
            name
        } else {
            name.take(CELL_SIZE as int)
        },
{
    broadcast use vstd::utf8::group_utf8_lib;

    if name.len() > CELL_SIZE {
        let head = name.take(CELL_SIZE as int);
        assert(is_ascii_chars(head));
        assert(encode_utf8(head) =~= encode_utf8(name).subrange(0, CELL_SIZE as int));
    }
}

/// Where the cut falls between two characters of the name, the label is the
/// part of the name before the cut.
pub proof fn lemma_truncated_at_boundary(name: Seq<char>)
    requires
        encode_utf8(name).len() > CELL_SIZE,
        is_char_boundary(encode_utf8(name), CELL_SIZE as int),
    ensures
        truncated(name).len() <= name.len(),
        truncated(name) == name.take(truncated(name).len() as int),
        encode_utf8(truncated(name)) == encode_utf8(name).subrange(0, CELL_SIZE as int),
{
    broadcast use vstd::utf8::group_utf8_lib;

    let bytes = encode_utf8(name);
    let head = bytes.subrange(0, CELL_SIZE as int);
    let tail = bytes.subrange(CELL_SIZE as int, bytes.len() as int);
    assert(valid_utf8(bytes));
    assert(valid_utf8(head));
    assert(decode_utf8(bytes) == name);
    assert(decode_utf8(bytes) =~= decode_utf8(head) + decode_utf8(tail));
    assert(name.take(decode_utf8(head).len() as int) =~= decode_utf8(head));
}

} // verus!
