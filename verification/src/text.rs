//! The std text operations that the records of this crate compare and clean
//! up their text with: equality of string slices and `str::trim`.
use vstd::prelude::*;

verus! {

/// Compares two string slices with std's `==` on `str`: two slices are equal
/// exactly when they hold the same characters in the same order.
#[verifier::external_body]
pub(crate) fn same_text(left: &str, right: &str) -> (same: bool)
    ensures
        same == (left@ == right@),
{
    left == right
}

/// Whether a character has the Unicode White_Space property, the set that
/// `char::is_whitespace` and `str::trim` go by: U+0009 to U+000D, U+0020,
/// U+0085, U+00A0, U+1680, U+2000 to U+200A, U+2028, U+2029, U+202F, U+205F
/// and U+3000.
pub open spec fn is_white_space(c: char) -> bool {
    let code = c as u32;
    ||| 0x9 <= code <= 0xd
    ||| code == 0x20
    ||| code == 0x85
    ||| code == 0xa0
    ||| code == 0x1680
    ||| 0x2000 <= code <= 0x200a
    ||| code == 0x2028
    ||| code == 0x2029
    ||| code == 0x202f
    ||| code == 0x205f
    ||| code == 0x3000
}

/// The text with its leading White_Space characters removed.
pub open spec fn trimmed_start(text: Seq<char>) -> Seq<char>
    decreases text.len(),
{
    if text.len() > 0 && is_white_space(text[0]) {
        trimmed_start(text.drop_first())
    } else {
        text
    }
}

/// The text with its trailing White_Space characters removed.
pub open spec fn trimmed_end(text: Seq<char>) -> Seq<char>
    decreases text.len(),
{
    if text.len() > 0 && is_white_space(text.last()) {
        trimmed_end(text.drop_last())
    } else {
        text
    }
}

/// The text with its leading and trailing White_Space characters removed.
pub open spec fn trimmed_text(text: Seq<char>) -> Seq<char> {
    trimmed_end(trimmed_start(text))
}

/// Whether `piece` is one contiguous run of the characters of `whole`.
pub open spec fn is_piece_of(piece: Seq<char>, whole: Seq<char>) -> bool {
    exists|start: int, end: int|
        0 <= start <= end <= whole.len() && piece == #[trigger] whole.subrange(start, end)
}

/// Calls std's `str::trim`, which returns the slice with leading and trailing
/// White_Space removed.
#[verifier::external_body]
pub(crate) fn trim_text(text: &str) -> (trimmed: &str)
    ensures
        trimmed@ == trimmed_text(text@),
{
    text.trim()
}

proof fn lemma_trimmed_start(text: Seq<char>)
    ensures
        exists|start: int|
            0 <= start <= text.len() && trimmed_start(text) == #[trigger] text.subrange(start, text.len() as int)
                && forall|i: int| 0 <= i < start ==> is_white_space(#[trigger] text[i]),
        trimmed_start(text).len() > 0 ==> !is_white_space(trimmed_start(text)[0]),
    decreases text.len(),
{
    if text.len() > 0 && is_white_space(text[0]) {
        let rest = text.drop_first();
        lemma_trimmed_start(rest);
        let start = choose|start: int|
            0 <= start <= rest.len() && trimmed_start(rest) == #[trigger] rest.subrange(start, rest.len() as int)
                && forall|i: int| 0 <= i < start ==> is_white_space(#[trigger] rest[i]);
        assert(rest.subrange(start, rest.len() as int) =~= text.subrange(start + 1, text.len() as int));
        assert forall|i: int| 0 <= i < start + 1 implies is_white_space(#[trigger] text[i]) by {
            if i > 0 {
                assert(text[i] == rest[i - 1]);
            }
        }
    } else {
        assert(text.subrange(0, text.len() as int) =~= text);
    }
}

proof fn lemma_trimmed_end(text: Seq<char>)
    ensures
        exists|end: int|
            0 <= end <= text.len() && trimmed_end(text) == #[trigger] text.subrange(0, end)
                && forall|i: int| end <= i < text.len() ==> is_white_space(#[trigger] text[i]),
        trimmed_end(text).len() > 0 ==> !is_white_space(trimmed_end(text).last()),
    decreases text.len(),
{
    if text.len() > 0 && is_white_space(text.last()) {
        let rest = text.drop_last();
        lemma_trimmed_end(rest);
        let end = choose|end: int|
            0 <= end <= rest.len() && trimmed_end(rest) == #[trigger] rest.subrange(0, end)
                && forall|i: int| end <= i < rest.len() ==> is_white_space(#[trigger] rest[i]);
        assert(rest.subrange(0, end) =~= text.subrange(0, end));
        assert forall|i: int| end <= i < text.len() implies is_white_space(#[trigger] text[i]) by {
            if i < rest.len() {
                assert(text[i] == rest[i]);
            }
        }
    } else {
        assert(text.subrange(0, text.len() as int) =~= text);
    }
}

/// Trimming keeps one contiguous run of the text, drops only White_Space
/// around it, and keeps every character that is not White_Space: a text
/// holding any such character trims to a non-empty text that neither starts
/// nor ends with White_Space.
pub proof fn lemma_trim_keeps_the_content(text: Seq<char>)
    ensures
        is_piece_of(trimmed_text(text), text),
        (exists|i: int| 0 <= i < text.len() && !is_white_space(#[trigger] text[i])) ==> trimmed_text(
            text,
        ).len() > 0,
        trimmed_text(text).len() > 0 ==> !is_white_space(trimmed_text(text)[0]) && !is_white_space(
            trimmed_text(text).last(),
        ),
        (forall|i: int| 0 <= i < text.len() ==> is_white_space(#[trigger] text[i])) ==> trimmed_text(
            text,
        ).len() == 0,
{
    lemma_trimmed_start(text);
    let front = trimmed_start(text);
    lemma_trimmed_end(front);
    let start = choose|start: int|
        0 <= start <= text.len() && trimmed_start(text) == #[trigger] text.subrange(start, text.len() as int)
            && forall|i: int| 0 <= i < start ==> is_white_space(#[trigger] text[i]);
    let end = choose|end: int|
        0 <= end <= front.len() && trimmed_end(front) == #[trigger] front.subrange(0, end)
            && forall|i: int| end <= i < front.len() ==> is_white_space(#[trigger] front[i]);
    assert(trimmed_text(text) =~= text.subrange(start, start + end));
    assert(is_piece_of(trimmed_text(text), text));
    if exists|i: int| 0 <= i < text.len() && !is_white_space(#[trigger] text[i]) {
        let i = choose|i: int| 0 <= i < text.len() && !is_white_space(#[trigger] text[i]);
        assert(i >= start);
        assert(front[i - start] == text[i]);
        assert(i - start < end);
        assert(trimmed_text(text)[i - start] == text[i]);
    }
    if forall|i: int| 0 <= i < text.len() ==> is_white_space(#[trigger] text[i]) {
        if trimmed_text(text).len() > 0 {
            assert(trimmed_text(text)[0] == text[start]);
        }
    }
    if trimmed_text(text).len() > 0 {
        assert(trimmed_text(text)[0] == front[0]);
        assert(trimmed_text(text).last() == trimmed_end(front).last());
    }
}

/// Trimming removes exactly the White_Space run at each end and nothing else:
/// the result is the piece of the text from its first character that is not
/// White_Space to its last one (empty when there is none).
pub proof fn lemma_trim_is_the_content_between_white_space(text: Seq<char>)
    ensures
        exists|start: int, end: int|
            0 <= start <= end <= text.len() && trimmed_text(text) == #[trigger] text.subrange(start, end)
                && (forall|i: int| 0 <= i < start ==> is_white_space(#[trigger] text[i]))
                && (forall|i: int| end <= i < text.len() ==> is_white_space(#[trigger] text[i]))
                && (start < end ==> !is_white_space(text[start]) && !is_white_space(text[end - 1])),
{
    lemma_trimmed_start(text);
    let front = trimmed_start(text);
    lemma_trimmed_end(front);
    let start = choose|start: int|
        0 <= start <= text.len() && trimmed_start(text) == #[trigger] text.subrange(start, text.len() as int)
            && forall|i: int| 0 <= i < start ==> is_white_space(#[trigger] text[i]);
    let end = choose|end: int|
        0 <= end <= front.len() && trimmed_end(front) == #[trigger] front.subrange(0, end)
            && forall|i: int| end <= i < front.len() ==> is_white_space(#[trigger] front[i]);
    assert(trimmed_text(text) =~= text.subrange(start, start + end));
    assert forall|i: int| start + end <= i < text.len() implies is_white_space(#[trigger] text[i]) by {
        assert(front[i - start] == text[i]);
    }
    if end > 0 {
        assert(trimmed_text(text)[0] == text[start]);
        assert(trimmed_text(text).last() == text[start + end - 1]);
    }
    assert(0 <= start <= start + end <= text.len() && trimmed_text(text) == text.subrange(start, start + end));
}

} // verus!
