//! Unicode white space, and what it means for a text to be blank.

use vstd::prelude::*;

verus! {

/// The characters with the Unicode property `White_Space`.
pub open spec fn is_white_space(c: char) -> bool {
    let u = c as u32;
    ||| 0x09 <= u <= 0x0D
    ||| u == 0x20
    ||| u == 0x85
    ||| u == 0xA0
    ||| u == 0x1680
    ||| 0x2000 <= u <= 0x200A
    ||| u == 0x2028
    ||| u == 0x2029
    ||| u == 0x202F
    ||| u == 0x205F
    ||| u == 0x3000
}

/// Every character of `s` is white space; the empty text is blank.
pub open spec fn is_blank(s: Seq<char>) -> bool {
    forall|i: int| 0 <= i < s.len() ==> is_white_space(#[trigger] s[i])
}

/// `s` from `start` up to `end` is `s` without its leading and trailing white
/// space: all before `start` and all from `end` on is white space, and what
/// lies between, if anything, begins and ends with another character.
pub open spec fn trims_at(s: Seq<char>, start: int, end: int) -> bool {
    &&& 0 <= start <= end <= s.len()
    &&& forall|i: int| 0 <= i < start ==> is_white_space(#[trigger] s[i])
    &&& forall|i: int| end <= i < s.len() ==> is_white_space(#[trigger] s[i])
    &&& start < end ==> !is_white_space(s[start]) && !is_white_space(s[end - 1])
}

/// `t` is `s` without its leading and trailing white space.
pub open spec fn is_trimmed(t: Seq<char>, s: Seq<char>) -> bool {
    exists|start: int, end: int| #[trigger] trims_at(s, start, end) && t == s.subrange(start, end)
}

/// Nothing is left of a text after trimming exactly when the text is blank.
pub proof fn lemma_trimmed_empty_iff_blank(t: Seq<char>, s: Seq<char>)
    requires
        is_trimmed(t, s),
    ensures
        t.len() == 0 <==> is_blank(s),
{
    let (start, end) = choose|start: int, end: int| #[trigger]
        trims_at(s, start, end) && t == s.subrange(start, end);
    assert(t.len() == end - start);
    if start < end {
        assert(!is_white_space(s[start]));
    }
}

/// Calls `str::trim`, which std documents as returning the slice of `s`
/// with leading and trailing white space removed, white space being the
/// characters with the Unicode property `White_Space`. Nothing of this is
/// proved here.
#[verifier::external_body]
fn trim(s: &str) -> (t: &str)
    ensures
        is_trimmed(t@, s@),
{
    s.trim()
}

/// Tells whether `s` is blank: empty, or white space throughout.
pub fn is_blank_text(s: &str) -> (r: bool)
    ensures
        r == is_blank(s@),
{
    let t = trim(s);
    proof {
        lemma_trimmed_empty_iff_blank(t@, s@);
    }
    t.is_empty()
}

} // verus!
