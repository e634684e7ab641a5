//! White space at the ends of a text, and what is left of the text without it.

use vstd::prelude::*;

verus! {

/// Whether `c` has the Unicode property White_Space, which is what `str::trim`
/// takes for white space.
pub uninterp spec fn white_space(c: char) -> bool;

/// `text` without the white space that it starts with.
pub open spec fn trim_start(text: Seq<char>) -> Seq<char>
    decreases text.len(),
{
    if text.len() > 0 && white_space(text.first()) {
        trim_start(text.drop_first())
    } else {
        text
    }
}

/// `text` without the white space that it ends with.
pub open spec fn trim_end(text: Seq<char>) -> Seq<char>
    decreases text.len(),
{
    if text.len() > 0 && white_space(text.last()) {
        trim_end(text.drop_last())
    } else {
        text
    }
}

/// `text` without the white space at either end; white space inside it stays.
pub open spec fn trimmed(text: Seq<char>) -> Seq<char> {
    trim_end(trim_start(text))
}

/// Whether `text` from `start` up to `end` is `text` without the white space at
/// either end: white space alone lies outside that part, and the part, unless it
/// is empty, starts and ends with something else.
pub open spec fn trims_to(text: Seq<char>, start: int, end: int) -> bool {
    &&& 0 <= start <= end <= text.len()
    &&& forall|i: int| 0 <= i < start ==> white_space(#[trigger] text[i])
    &&& forall|i: int| end <= i < text.len() ==> white_space(#[trigger] text[i])
    &&& start < end ==> !white_space(text[start]) && !white_space(text[end - 1])
}

/// The part of `text` from `start` up to `end` is `trimmed(text)` wherever both
/// ends are drawn as `trims_to` asks.
pub proof fn lemma_trims_to_trimmed(text: Seq<char>, start: int, end: int)
    requires
        trims_to(text, start, end),
    ensures
        text.subrange(start, end) == trimmed(text),
{
    let len = text.len() as int;
    if start == end {
        lemma_trim_start(text, len);
        assert(text.subrange(len, len) =~= text.subrange(start, end));
    } else {
        lemma_trim_start(text, start);
        let rest = text.subrange(start, len);
        lemma_trim_end(rest, end - start);
        assert(rest.subrange(0, end - start) =~= text.subrange(start, end));
    }
}

/// Where white space alone lies before `start`, and none at `start`, `trim_start`
/// drops exactly what lies before `start`.
proof fn lemma_trim_start(text: Seq<char>, start: int)
    requires
        0 <= start <= text.len(),
        forall|i: int| 0 <= i < start ==> white_space(#[trigger] text[i]),
        start < text.len() ==> !white_space(text[start]),
    ensures
        trim_start(text) == text.subrange(start, text.len() as int),
    decreases start,
{
    if start == 0 {
        assert(text.subrange(0, text.len() as int) =~= text);
    } else {
        let rest = text.drop_first();
        assert forall|i: int| 0 <= i < start - 1 implies white_space(#[trigger] rest[i]) by {
            assert(rest[i] == text[i + 1]);
        }
        lemma_trim_start(rest, start - 1);
        assert(rest.subrange(start - 1, rest.len() as int) =~= text.subrange(
            start,
            text.len() as int,
        ));
    }
}

/// Where white space alone lies from `end` on, and none just before `end`,
/// `trim_end` drops exactly what lies from `end` on.
proof fn lemma_trim_end(text: Seq<char>, end: int)
    requires
        0 <= end <= text.len(),
        forall|i: int| end <= i < text.len() ==> white_space(#[trigger] text[i]),
        0 < end ==> !white_space(text[end - 1]),
    ensures
        trim_end(text) == text.subrange(0, end),
    decreases text.len() - end,
{
    if end == text.len() {
        assert(text.subrange(0, end) =~= text);
    } else {
        let rest = text.drop_last();
        lemma_trim_end(rest, end);
        assert(rest.subrange(0, end) =~= text.subrange(0, end));
    }
}

/// `str::trim` of std. Trusted: the slice returned is a part of the input; outside
/// that part the input holds white space alone; and the part, unless it is empty,
/// starts and ends with a character that is no white space. White space is
/// whatever has the property White_Space, for which `white_space` stands.
#[verifier::external_body]
fn str_trim(text: &str) -> (inner: &str)
    ensures
        (exists|start: int|
            0 <= start <= text@.len() - inner@.len()
                && inner@ == #[trigger] text@.subrange(start, start + inner@.len())
                && (forall|i: int|
                    0 <= i < start || start + inner@.len() <= i < text@.len() ==> white_space(
                        #[trigger] text@[i],
                    ))
                && (inner@.len() > 0 ==> !white_space(inner@.first()) && !white_space(
                    inner@.last(),
                ))),
{
    text.trim()
}

/// The part of `text` between the white space at its ends.
pub fn trim(text: &str) -> (inner: &str)
    ensures
        inner@ == trimmed(text@),
{
    let inner = str_trim(text);
    proof {
        let start = choose|start: int|
            0 <= start <= text@.len() - inner@.len()
                && inner@ == #[trigger] text@.subrange(start, start + inner@.len())
                && (forall|i: int|
                    0 <= i < start || start + inner@.len() <= i < text@.len() ==> white_space(
                        #[trigger] text@[i],
                    ));
        lemma_trims_to_trimmed(text@, start, start + inner@.len());
    }
    inner
}

} // verus!
