//! Cutting text down to a byte budget without splitting a character.
//!
//! Text is a sequence of characters; its size is the length of its UTF-8
//! encoding. Truncation keeps the longest prefix of the encoding that ends on
//! a character boundary and is no longer than the budget.

use vstd::prelude::*;
use vstd::string::StringSliceAdditionalSpecFns;
use vstd::utf8::*;

verus! {

/// The largest character boundary of `bytes` that is at most `limit`, or 0
/// where `limit` is not positive.
pub open spec fn boundary_floor(bytes: Seq<u8>, limit: int) -> int
    decreases limit,
{
    if limit <= 0 {
        0
    } else if is_char_boundary(bytes, limit) {
        limit
    } else {
        boundary_floor(bytes, limit - 1)
    }
}

/// Number of bytes that truncation to `capacity` bytes keeps of `text`.
pub open spec fn truncated_len(text: Seq<char>, capacity: int) -> int {
    boundary_floor(encode_utf8(text), capacity)
}

/// `text` cut down to at most `capacity` bytes of UTF-8, on a character
/// boundary.
pub open spec fn truncated(text: Seq<char>, capacity: int) -> Seq<char> {
    decode_utf8(encode_utf8(text).subrange(0, truncated_len(text, capacity)))
}

/// `boundary_floor` is a character boundary within the limit and within the
/// bytes, and no boundary lies between it and the limit.
pub proof fn lemma_boundary_floor(bytes: Seq<u8>, limit: int)
    requires
        valid_utf8(bytes),
    ensures
        0 <= boundary_floor(bytes, limit) <= bytes.len(),
        limit >= 0 ==> boundary_floor(bytes, limit) <= limit,
        is_char_boundary(bytes, boundary_floor(bytes, limit)),
        forall|j: int|
            boundary_floor(bytes, limit) < j <= limit ==> !is_char_boundary(bytes, j),
    decreases limit,
{
    if limit > 0 && !is_char_boundary(bytes, limit) {
        lemma_boundary_floor(bytes, limit - 1);
    }
}

/// A limit at or beyond the end of the bytes keeps all of them.
pub proof fn lemma_boundary_floor_past_end(bytes: Seq<u8>, limit: int)
    requires
        valid_utf8(bytes),
        bytes.len() <= limit,
    ensures
        boundary_floor(bytes, limit) == bytes.len(),
    decreases limit - bytes.len(),
{
    is_char_boundary_start_end_of_seq(bytes);
    if limit > bytes.len() {
        lemma_boundary_floor_past_end(bytes, limit - 1);
    }
}

/// The encoding of a concatenation is the concatenation of the encodings.
pub proof fn lemma_encode_concat(left: Seq<char>, right: Seq<char>)
    ensures
        encode_utf8(left + right) == encode_utf8(left) + encode_utf8(right),
    decreases left.len(),
{
    if left.len() == 0 {
        assert(left + right =~= right);
        assert(encode_utf8(left) + encode_utf8(right) =~= encode_utf8(right));
    } else {
        assert((left + right).drop_first() =~= left.drop_first() + right);
        lemma_encode_concat(left.drop_first(), right);
        assert(encode_utf8(left + right) =~= encode_utf8(left) + encode_utf8(right));
    }
}

/// Every character has an encoding of one to four bytes.
pub proof fn lemma_encode_scalar_len(c: char)
    ensures
        1 <= encode_scalar(c as u32).len() <= 4,
{
}

/// The encoding of a prefix of `text` ends on a character boundary of the
/// encoding of `text`.
pub proof fn lemma_prefix_ends_on_boundary(text: Seq<char>, count: int)
    requires
        0 <= count <= text.len(),
    ensures
        is_char_boundary(encode_utf8(text), encode_utf8(text.subrange(0, count)).len() as int),
        encode_utf8(text.subrange(0, count)) == encode_utf8(text).subrange(
            0,
            encode_utf8(text.subrange(0, count)).len() as int,
        ),
    decreases count,
{
    let bytes = encode_utf8(text);
    let head = text.subrange(0, count);
    let tail = text.subrange(count, text.len() as int);
    assert(text =~= head + tail);
    lemma_encode_concat(head, tail);
    assert(encode_utf8(head) =~= bytes.subrange(0, encode_utf8(head).len() as int));
    encode_utf8_valid_utf8(text);
    if count > 0 {
        let rest = text.drop_first();
        encode_utf8_first_scalar(text);
        assert(pop_first_scalar(bytes) =~= encode_utf8(rest));
        lemma_prefix_ends_on_boundary(rest, count - 1);
        assert(head.drop_first() =~= rest.subrange(0, count - 1));
        assert(encode_utf8(head).len() == encode_scalar(text[0] as u32).len() + encode_utf8(
            rest.subrange(0, count - 1),
        ).len());
        lemma_encode_scalar_len(text[0]);
    }
}

/// What truncation keeps fits the capacity: its encoding has exactly
/// `truncated_len` bytes, is valid UTF-8 and is the start of the encoding of
/// `text`.
pub proof fn lemma_truncated_fits(text: Seq<char>, capacity: int)
    ensures
        encode_utf8(truncated(text, capacity)) == encode_utf8(text).subrange(
            0,
            truncated_len(text, capacity),
        ),
        encode_utf8(truncated(text, capacity)).len() == truncated_len(text, capacity),
        0 <= truncated_len(text, capacity) <= encode_utf8(text).len(),
        capacity >= 0 ==> truncated_len(text, capacity) <= capacity,
        valid_utf8(encode_utf8(truncated(text, capacity))),
{
    let bytes = encode_utf8(text);
    encode_utf8_valid_utf8(text);
    lemma_boundary_floor(bytes, capacity);
    let kept = bytes.subrange(0, truncated_len(text, capacity));
    valid_utf8_split(bytes, truncated_len(text, capacity));
    decode_utf8_encode_utf8(kept);
}

/// Text that fits the capacity is kept whole.
pub proof fn lemma_truncated_identity(text: Seq<char>, capacity: int)
    requires
        encode_utf8(text).len() <= capacity,
    ensures
        truncated(text, capacity) == text,
{
    let bytes = encode_utf8(text);
    encode_utf8_valid_utf8(text);
    lemma_boundary_floor_past_end(bytes, capacity);
    assert(bytes.subrange(0, bytes.len() as int) =~= bytes);
    encode_utf8_decode_utf8(text);
}

/// What truncation keeps is a prefix of `text`.
pub proof fn lemma_truncated_is_prefix(text: Seq<char>, capacity: int)
    ensures
        truncated(text, capacity).len() <= text.len(),
        truncated(text, capacity) == text.subrange(0, truncated(text, capacity).len() as int),
{
    let bytes = encode_utf8(text);
    let cut = truncated_len(text, capacity);
    encode_utf8_valid_utf8(text);
    lemma_boundary_floor(bytes, capacity);
    decode_utf8_split(bytes, cut);
    encode_utf8_decode_utf8(text);
    let kept = decode_utf8(bytes.subrange(0, cut));
    let dropped = decode_utf8(bytes.subrange(cut, bytes.len() as int));
    assert(text =~= kept + dropped);
    assert(kept =~= text.subrange(0, kept.len() as int));
}

/// Truncation keeps as many characters as fit: every longer prefix of `text`
/// needs more than `capacity` bytes.
pub proof fn lemma_truncated_is_longest(text: Seq<char>, capacity: int, count: int)
    requires
        capacity >= 0,
        truncated(text, capacity).len() < count <= text.len(),
    ensures
        encode_utf8(text.subrange(0, count)).len() > capacity,
{
    let bytes = encode_utf8(text);
    let cut = truncated_len(text, capacity);
    let kept = truncated(text, capacity);
    encode_utf8_valid_utf8(text);
    lemma_boundary_floor(bytes, capacity);
    lemma_truncated_fits(text, capacity);
    lemma_truncated_is_prefix(text, capacity);
    let longer = text.subrange(0, count);
    let extra = text.subrange(kept.len() as int, count);
    assert(longer =~= kept + extra);
    lemma_encode_concat(kept, extra);
    assert(extra =~= seq![extra[0]] + extra.drop_first());
    lemma_encode_concat(seq![extra[0]], extra.drop_first());
    assert(seq![extra[0]].drop_first() =~= Seq::<char>::empty());
    assert(encode_utf8(seq![extra[0]]) =~= encode_scalar(extra[0] as u32)) by {
        reveal_with_fuel(encode_utf8, 2);
    }
    lemma_encode_scalar_len(extra[0]);
    lemma_prefix_ends_on_boundary(text, count);
}

/// Truncating twice is truncating once.
pub proof fn lemma_truncated_idempotent(text: Seq<char>, capacity: int)
    requires
        capacity >= 0,
    ensures
        truncated(truncated(text, capacity), capacity) == truncated(text, capacity),
{
    lemma_truncated_fits(text, capacity);
    lemma_truncated_identity(truncated(text, capacity), capacity);
}

/// Of plain ASCII text, truncation keeps the first `capacity` characters.
pub proof fn lemma_truncated_ascii(text: Seq<char>, capacity: int)
    requires
        is_ascii_chars(text),
        capacity >= 0,
    ensures
        truncated(text, capacity) == text.subrange(
            0,
            if text.len() <= capacity {
                text.len() as int
            } else {
                capacity
            },
        ),
{
    let bytes = encode_utf8(text);
    let count = if text.len() <= capacity {
        text.len() as int
    } else {
        capacity
    };
    let head = text.subrange(0, count);
    encode_utf8_valid_utf8(text);
    is_ascii_chars_encode_utf8(text);
    is_ascii_chars_encode_utf8(head);
    lemma_prefix_ends_on_boundary(text, count);
    lemma_boundary_floor(bytes, count);
    if text.len() <= capacity {
        lemma_boundary_floor_past_end(bytes, capacity);
    }
    encode_utf8_decode_utf8(head);
}

/// Returns the longest prefix of `text` that ends on a character boundary and
/// has at most `limit` bytes: all of `text` where it has no more than that.
pub fn truncate_to_boundary<'a>(text: &'a str, limit: usize) -> (head: &'a str)
    ensures
        head@ == truncated(text@, limit as int),
        head.spec_bytes() == text.spec_bytes().subrange(0, truncated_len(text@, limit as int)),
        head.spec_bytes().len() <= limit,
        text.spec_bytes().len() <= limit ==> head@ == text@,
{
    let ghost bytes = text.spec_bytes();
    let length = text.as_bytes().len();
    let mut end: usize = if length < limit {
        length
    } else {
        limit
    };
    proof {
        encode_utf8_valid_utf8(text@);
        if length < limit {
            lemma_boundary_floor_past_end(bytes, limit as int);
            lemma_boundary_floor_past_end(bytes, length as int);
        }
    }
    while !text.is_char_boundary(end)
        invariant
            bytes == text.spec_bytes(),
            valid_utf8(bytes),
            boundary_floor(bytes, end as int) == boundary_floor(bytes, limit as int),
        decreases end,
    {
        end = end - 1;
    }
    let (head, _) = text.split_at(end);
    proof {
        encode_utf8_decode_utf8(head@);
        lemma_boundary_floor(bytes, limit as int);
        if bytes.len() <= limit {
            lemma_truncated_identity(text@, limit as int);
        }
    }
    head
}

} // verus!
