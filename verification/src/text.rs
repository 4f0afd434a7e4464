//! Text normalisation shared by the value objects: what counts as white space,
//! and what remains of a text once the white space at both ends is removed.

use vstd::prelude::*;
use vstd::std_specs::iter::IteratorSpec;
use vstd::string::StrSliceExecFns;

verus! {

/// Whether `c` is white space: the code points U+0009 to U+000D, U+0020, U+0085,
/// U+00A0, U+1680, U+2000 to U+200A, U+2028, U+2029, U+202F, U+205F and U+3000.
pub open spec fn is_whitespace(c: char) -> bool {
    let n = c as u32;
    ||| 0x09 <= n <= 0x0D
    ||| n == 0x20
    ||| n == 0x85
    ||| n == 0xA0
    ||| n == 0x1680
    ||| 0x2000 <= n <= 0x200A
    ||| n == 0x2028
    ||| n == 0x2029
    ||| n == 0x202F
    ||| n == 0x205F
    ||| n == 0x3000
}

/// `text` without the white space it starts with.
pub open spec fn trim_start(text: Seq<char>) -> Seq<char>
    decreases text.len(),
{
    if text.len() > 0 && is_whitespace(text[0]) {
        trim_start(text.skip(1))
    } else {
        text
    }
}

/// `text` without the white space it ends with.
pub open spec fn trim_end(text: Seq<char>) -> Seq<char>
    decreases text.len(),
{
    if text.len() > 0 && is_whitespace(text.last()) {
        trim_end(text.drop_last())
    } else {
        text
    }
}

/// `text` without the white space at either end.
pub open spec fn trim(text: Seq<char>) -> Seq<char> {
    trim_end(trim_start(text))
}

/// A text is normalised when it is not empty and neither starts nor ends with
/// white space.
pub open spec fn is_normalized(text: Seq<char>) -> bool {
    &&& text.len() > 0
    &&& !is_whitespace(text[0])
    &&& !is_whitespace(text.last())
}

/// Whether `c` is white space.
pub fn is_whitespace_char(c: char) -> (result: bool)
    ensures
        result == is_whitespace(c),
{
    let n: u32 = c as u32;
    (0x09 <= n && n <= 0x0D) || n == 0x20 || n == 0x85 || n == 0xA0 || n == 0x1680 || (0x2000 <= n
        && n <= 0x200A) || n == 0x2028 || n == 0x2029 || n == 0x202F || n == 0x205F || n == 0x3000
}

/// Leading white space is exactly what `trim_start` removes: if the first `start`
/// characters are white space and the next one is not, the rest is the result.
pub proof fn lemma_trim_start_skips(text: Seq<char>, start: int)
    requires
        0 <= start <= text.len(),
        forall|k: int| 0 <= k < start ==> is_whitespace(#[trigger] text[k]),
        start < text.len() ==> !is_whitespace(text[start]),
    ensures
        trim_start(text) == text.skip(start),
    decreases start,
{
    if start == 0 {
        assert(text.skip(0) =~= text);
    } else {
        let rest = text.skip(1);
        assert forall|k: int| 0 <= k < start - 1 implies is_whitespace(#[trigger] rest[k]) by {
            assert(rest[k] == text[k + 1]);
        }
        lemma_trim_start_skips(rest, start - 1);
        assert(rest.skip(start - 1) =~= text.skip(start));
    }
}

/// Trailing white space is exactly what `trim_end` removes: if everything from
/// `end` on is white space and the character before it is not, the first `end`
/// characters are the result.
pub proof fn lemma_trim_end_takes(text: Seq<char>, end: int)
    requires
        0 <= end <= text.len(),
        forall|k: int| end <= k < text.len() ==> is_whitespace(#[trigger] text[k]),
        end > 0 ==> !is_whitespace(text[end - 1]),
    ensures
        trim_end(text) == text.take(end),
    decreases text.len() - end,
{
    if end == text.len() {
        assert(text.take(end) =~= text);
    } else {
        let rest = text.drop_last();
        assert forall|k: int| end <= k < rest.len() implies is_whitespace(#[trigger] rest[k]) by {
            assert(rest[k] == text[k]);
        }
        lemma_trim_end_takes(rest, end);
        assert(rest.take(end) =~= text.take(end));
    }
}

/// What `trim` leaves is empty or normalised, and trimming it again changes
/// nothing.
pub proof fn lemma_trim_normalizes(text: Seq<char>)
    ensures
        trim(text).len() == 0 || is_normalized(trim(text)),
        trim(trim(text)) == trim(text),
        trim(text).len() <= text.len(),
{
    lemma_trim_start_shape(text);
    let front = trim_start(text);
    lemma_trim_end_shape(front);
    let both = trim_end(front);
    if both.len() > 0 {
        assert(both[0] == front[0]);
        lemma_trim_start_skips(both, 0);
        lemma_trim_end_takes(both, both.len() as int);
    } else {
        assert(trim_start(both) == both);
    }
}

/// `trim_start` returns a suffix that does not start with white space.
proof fn lemma_trim_start_shape(text: Seq<char>)
    ensures
        trim_start(text).len() <= text.len(),
        trim_start(text) == text.skip(text.len() - trim_start(text).len()),
        trim_start(text).len() > 0 ==> !is_whitespace(trim_start(text)[0]),
    decreases text.len(),
{
    if text.len() > 0 && is_whitespace(text[0]) {
        lemma_trim_start_shape(text.skip(1));
        let rest = text.skip(1);
        assert(rest.skip(rest.len() - trim_start(rest).len()) =~= text.skip(
            text.len() - trim_start(text).len(),
        ));
    } else {
        assert(text.skip(0) =~= text);
    }
}

/// `trim_end` returns a prefix that does not end with white space.
proof fn lemma_trim_end_shape(text: Seq<char>)
    ensures
        trim_end(text).len() <= text.len(),
        trim_end(text) == text.take(trim_end(text).len() as int),
        trim_end(text).len() > 0 ==> !is_whitespace(trim_end(text).last()),
    decreases text.len(),
{
    if text.len() > 0 && is_whitespace(text.last()) {
        lemma_trim_end_shape(text.drop_last());
        let rest = text.drop_last();
        assert(rest.take(trim_end(rest).len() as int) =~= text.take(trim_end(text).len() as int));
    } else {
        assert(text.take(text.len() as int) =~= text);
    }
}

/// The part of `text` between the white space at its two ends.
pub fn trimmed(text: &str) -> (result: &str)
    ensures
        result@ == trim(text@),
{
    let len: usize = text.unicode_len();
    let mut start: usize = 0;
    let mut end: usize = 0;
    let mut at: usize = 0;
    let mut found: bool = false;
    for c in iter: text.chars()
        invariant
            iter.seq() == text@,
            len == text@.len(),
            at == iter.index(),
            found ==> start < end <= at,
            !found ==> start == 0 && end == 0,
            found ==> !is_whitespace(text@[start as int]) && !is_whitespace(text@[end - 1]),
            forall|k: int|
                0 <= k < (if found { start } else { at }) ==> is_whitespace(#[trigger] text@[k]),
            forall|k: int|
                (if found { end } else { 0 }) <= k < at ==> is_whitespace(#[trigger] text@[k]),
    {
        if !is_whitespace_char(c) {
            if !found {
                start = at;
                found = true;
            }
            end = at + 1;
        }
        at = at + 1;
    }
    proof {
        if found {
            lemma_trim_start_skips(text@, start as int);
            let front = text@.skip(start as int);
            assert forall|k: int| end - start <= k < front.len() implies is_whitespace(
                #[trigger] front[k],
            ) by {
                assert(front[k] == text@[k + start]);
            }
            assert(front[end - start - 1] == text@[end - 1]);
            lemma_trim_end_takes(front, end - start);
            assert(front.take(end - start) =~= text@.subrange(start as int, end as int));
        } else {
            lemma_trim_start_skips(text@, len as int);
            assert(text@.skip(len as int) =~= Seq::<char>::empty());
            assert(text@.subrange(0, 0) =~= Seq::<char>::empty());
        }
    }
    text.substring_char(start, end)
}

/// The code of a character with the capital letters `A` to `Z` taken as their
/// small ones.
pub open spec fn fold_case(c: char) -> int {
    let n = c as u32;
    if 0x41 <= n <= 0x5A {
        n + 0x20
    } else {
        n as int
    }
}

/// Whether two names are the same but for the case of the letters `a` to `z`.
pub open spec fn same_name(one: Seq<char>, other: Seq<char>) -> bool {
    &&& one.len() == other.len()
    &&& forall|k: int| 0 <= k < one.len() ==> fold_case(#[trigger] one[k]) == fold_case(other[k])
}

/// The code of `c` with a capital letter taken as its small one.
fn folded(c: char) -> (result: u32)
    ensures
        result == fold_case(c),
{
    let n: u32 = c as u32;
    if 0x41 <= n && n <= 0x5A {
        n + 0x20
    } else {
        n
    }
}

/// Whether two names are the same but for the case of the letters `a` to `z`.
pub fn is_same_name(one: &str, other: &str) -> (result: bool)
    ensures
        result == same_name(one@, other@),
{
    let mut mine = one.chars();
    let mut theirs = other.chars();
    let ghost mut at: int = 0;
    proof {
        assert(one@.skip(0) =~= one@);
        assert(other@.skip(0) =~= other@);
    }
    loop
        invariant
            0 <= at <= one@.len(),
            at <= other@.len(),
            mine.obeys_prophetic_iter_laws(),
            theirs.obeys_prophetic_iter_laws(),
            mine.remaining() == one@.skip(at),
            theirs.remaining() == other@.skip(at),
            forall|k: int| 0 <= k < at ==> fold_case(#[trigger] one@[k]) == fold_case(other@[k]),
        decreases one@.len() - at,
    {
        match (mine.next(), theirs.next()) {
            (None, None) => {
                return true;
            },
            (Some(c), Some(d)) => {
                assert(c == one@[at]);
                assert(d == other@[at]);
                if folded(c) != folded(d) {
                    return false;
                }
                proof {
                    assert(one@.skip(at).drop_first() =~= one@.skip(at + 1));
                    assert(other@.skip(at).drop_first() =~= other@.skip(at + 1));
                    at = at + 1;
                }
            },
            _ => {
                return false;
            },
        }
    }
}

} // verus!
