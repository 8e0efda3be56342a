//! Decoding and trimming of file contents.

use vstd::prelude::*;
use vstd::std_specs::iter::IteratorSpec;
use vstd::utf8::{decode_utf8, valid_utf8};

verus! {

/// The characters with the Unicode property `White_Space`.
pub open spec fn is_whitespace(c: char) -> bool {
    let code = c as u32;
    ||| 0x09 <= code <= 0x0D
    ||| code == 0x20
    ||| code == 0x85
    ||| code == 0xA0
    ||| code == 0x1680
    ||| 0x2000 <= code <= 0x200A
    ||| code == 0x2028
    ||| code == 0x2029
    ||| code == 0x202F
    ||| code == 0x205F
    ||| code == 0x3000
}

/// The text without its leading whitespace.
pub open spec fn trim_start(text: Seq<char>) -> Seq<char>
    decreases text.len(),
{
    if text.len() > 0 && is_whitespace(text.first()) {
        trim_start(text.drop_first())
    } else {
        text
    }
}

/// The text without its trailing whitespace.
pub open spec fn trim_end(text: Seq<char>) -> Seq<char>
    decreases text.len(),
{
    if text.len() > 0 && is_whitespace(text.last()) {
        trim_end(text.drop_last())
    } else {
        text
    }
}

/// The text without its leading and trailing whitespace.
pub open spec fn trimmed(text: Seq<char>) -> Seq<char> {
    trim_end(trim_start(text))
}

/// `String::from_utf8`: the bytes as text, where they are valid UTF-8, and
/// nothing where they are not. The contract states both over vstd's
/// definition of UTF-8.
#[verifier::external_body]
pub(crate) fn decode(bytes: Vec<u8>) -> (text: Option<String>)
    ensures
        text is Some <==> valid_utf8(bytes@),
        text matches Some(decoded) ==> decoded@ == decode_utf8(bytes@),
{
    String::from_utf8(bytes).ok()
}

/// Whether the character is whitespace.
pub fn char_is_whitespace(c: char) -> (white: bool)
    ensures
        white == is_whitespace(c),
{
    let code: u32 = c as u32;
    (0x09 <= code && code <= 0x0D) || code == 0x20 || code == 0x85 || code == 0xA0 || code
        == 0x1680 || (0x2000 <= code && code <= 0x200A) || code == 0x2028 || code == 0x2029
        || code == 0x202F || code == 0x205F || code == 0x3000
}

/// Leading whitespace is all that `trim_start` removes: where the first
/// `count` characters are whitespace and the next one, if any, is not, what is
/// left starts at `count`.
pub proof fn lemma_trim_start(text: Seq<char>, count: int)
    requires
        0 <= count <= text.len(),
        forall|i: int| 0 <= i < count ==> is_whitespace(#[trigger] text[i]),
        count < text.len() ==> !is_whitespace(text[count]),
    ensures
        trim_start(text) == text.skip(count),
    decreases count,
{
    if count == 0 {
        assert(text.skip(0) =~= text);
    } else {
        let rest = text.drop_first();
        assert forall|i: int| 0 <= i < count - 1 implies is_whitespace(#[trigger] rest[i]) by {
            assert(rest[i] == text[i + 1]);
        }
        lemma_trim_start(rest, count - 1);
        assert(rest.skip(count - 1) =~= text.skip(count));
    }
}

/// Trailing whitespace is all that `trim_end` removes: where every character
/// from `end` on is whitespace and the one before `end`, if any, is not, what
/// is left ends at `end`.
pub proof fn lemma_trim_end(text: Seq<char>, end: int)
    requires
        0 <= end <= text.len(),
        forall|i: int| end <= i < text.len() ==> is_whitespace(#[trigger] text[i]),
        0 < end ==> !is_whitespace(text[end - 1]),
    ensures
        trim_end(text) == text.take(end),
    decreases text.len() - end,
{
    if end == text.len() {
        assert(text.take(end) =~= text);
    } else {
        let rest = text.drop_last();
        lemma_trim_end(rest, end);
        assert(rest.take(end) =~= text.take(end));
    }
}

/// What `trim_start` leaves is the text from its first character that is no
/// whitespace on. The result is the number of characters removed.
pub proof fn lemma_trim_start_skips(text: Seq<char>) -> (count: int)
    ensures
        0 <= count <= text.len(),
        trim_start(text) == text.skip(count),
        forall|i: int| 0 <= i < count ==> is_whitespace(#[trigger] text[i]),
        count < text.len() ==> !is_whitespace(text[count]),
    decreases text.len(),
{
    if text.len() > 0 && is_whitespace(text.first()) {
        let rest = text.drop_first();
        let count = lemma_trim_start_skips(rest);
        assert(rest.skip(count) =~= text.skip(count + 1));
        assert forall|i: int| 0 <= i < count + 1 implies is_whitespace(#[trigger] text[i]) by {
            if i > 0 {
                assert(text[i] == rest[i - 1]);
            }
        }
        if count + 1 < text.len() {
            assert(text[count + 1] == rest[count]);
        }
        count + 1
    } else {
        assert(text.skip(0) =~= text);
        0
    }
}

/// What `trim_end` leaves is the text up to its last character that is no
/// whitespace. The result is the number of characters left.
pub proof fn lemma_trim_end_takes(text: Seq<char>) -> (end: int)
    ensures
        0 <= end <= text.len(),
        trim_end(text) == text.take(end),
        forall|i: int| end <= i < text.len() ==> is_whitespace(#[trigger] text[i]),
        0 < end ==> !is_whitespace(text[end - 1]),
    decreases text.len(),
{
    if text.len() > 0 && is_whitespace(text.last()) {
        let rest = text.drop_last();
        let end = lemma_trim_end_takes(rest);
        assert(rest.take(end) =~= text.take(end));
        assert forall|i: int| end <= i < text.len() implies is_whitespace(#[trigger] text[i]) by {
            if i < rest.len() {
                assert(text[i] == rest[i]);
            }
        }
        end
    } else {
        assert(text.take(text.len() as int) =~= text);
        text.len() as int
    }
}

/// Trimming cuts whitespace off both ends and nothing else: what is left is
/// one stretch of the text, all that is cut off is whitespace, and what is
/// left neither starts nor ends with whitespace.
pub proof fn lemma_trimmed_is_the_core(text: Seq<char>) -> (bounds: (int, int))
    ensures
        0 <= bounds.0 <= bounds.1 <= text.len(),
        trimmed(text) == text.subrange(bounds.0, bounds.1),
        forall|i: int| 0 <= i < bounds.0 ==> is_whitespace(#[trigger] text[i]),
        forall|i: int| bounds.1 <= i < text.len() ==> is_whitespace(#[trigger] text[i]),
        bounds.0 < bounds.1 ==> !is_whitespace(text[bounds.0]) && !is_whitespace(
            text[bounds.1 - 1],
        ),
{
    let start = lemma_trim_start_skips(text);
    let rest = text.skip(start);
    let kept = lemma_trim_end_takes(rest);
    assert(rest.take(kept) =~= text.subrange(start, start + kept));
    assert forall|i: int| start + kept <= i < text.len() implies is_whitespace(
        #[trigger] text[i],
    ) by {
        assert(text[i] == rest[i - start]);
    }
    if kept > 0 {
        assert(rest[kept - 1] == text[start + kept - 1]);
    }
    (start, start + kept)
}

/// The text without its leading and trailing whitespace. The result borrows
/// from `text`; nothing is copied.
pub fn trim(text: &str) -> (out: &str)
    ensures
        out@ == trimmed(text@),
{
    broadcast use vstd::string::group_string_axioms;

    let total: usize = text.unicode_len();
    let mut chars = text.chars();
    let mut index: usize = 0;
    let mut start: usize = 0;
    let mut end: usize = 0;
    let mut seen: bool = false;
    while index < total
        invariant
            total == text@.len(),
            index <= total,
            chars.remaining() == text@.skip(index as int),
            forall|i: int| 0 <= i < index && !seen ==> is_whitespace(#[trigger] text@[i]),
            seen ==> start < end <= index,
            seen ==> !is_whitespace(text@[start as int]),
            seen ==> !is_whitespace(text@[end - 1]),
            seen ==> forall|i: int| 0 <= i < start ==> is_whitespace(#[trigger] text@[i]),
            seen ==> forall|i: int| end <= i < index ==> is_whitespace(#[trigger] text@[i]),
        decreases total - index,
    {
        let next = chars.next();
        match next {
            Some(c) => {
                assert(c == text@[index as int]);
                if !char_is_whitespace(c) {
                    if !seen {
                        start = index;
                        seen = true;
                    }
                    end = index + 1;
                }
            },
            None => {},
        }
        index = index + 1;
    }
    if seen {
        proof {
            lemma_trim_start(text@, start as int);
            let rest = text@.skip(start as int);
            assert forall|i: int| end - start <= i < rest.len() implies is_whitespace(
                #[trigger] rest[i],
            ) by {
                assert(rest[i] == text@[i + start]);
            }
            assert(rest[end - start - 1] == text@[end - 1]);
            lemma_trim_end(rest, end - start);
            assert(rest.take(end - start) =~= text@.subrange(start as int, end as int));
        }
        text.substring_char(start, end)
    } else {
        proof {
            lemma_trim_start(text@, total as int);
            assert(text@.skip(total as int) =~= Seq::<char>::empty());
            assert(text@.subrange(0, 0) =~= Seq::<char>::empty());
        }
        text.substring_char(0, 0)
    }
}

} // verus!
