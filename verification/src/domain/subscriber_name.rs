//! The display name of a subscriber.

use crate::domain::characters::{contains_forbidden, has_forbidden, is_forbidden};
use crate::domain::whitespace::{is_blank, is_blank_text};
use unicode_segmentation::UnicodeSegmentation;
use vstd::prelude::*;
use vstd::string::StringExecFns;

verus! {

/// The largest number of grapheme clusters that a name may have.
pub const MAX_NAME_GRAPHEMES: usize = 256;

/// The number of extended grapheme clusters of `s`, as Unicode Standard
/// Annex #29 draws their boundaries. It stands for what
/// `unicode_segmentation` counts and has no definition here.
pub uninterp spec fn grapheme_count(s: Seq<char>) -> nat;

/// The rule on a name: not blank, at most `MAX_NAME_GRAPHEMES` grapheme
/// clusters, and no forbidden character.
pub open spec fn is_valid_name(s: Seq<char>) -> bool {
    &&& !is_blank(s)
    &&& grapheme_count(s) <= MAX_NAME_GRAPHEMES
    &&& !has_forbidden(s)
}

/// The message that a rejected name is reported with.
pub open spec fn name_rejection(s: Seq<char>) -> Seq<char> {
    s + " is not a valid subscriber name"@
}

/// What parsing `s` as a name gives: the text itself, untrimmed, where it is
/// valid, and the rejection that carries it where it is not.
pub open spec fn parsed_name(s: Seq<char>) -> Result<Seq<char>, Seq<char>> {
    if is_valid_name(s) {
        Ok(s)
    } else {
        Err(name_rejection(s))
    }
}

/// A name that has passed `SubscriberName::parse`.
pub struct SubscriberName(String);

impl View for SubscriberName {
    type V = Seq<char>;

    closed spec fn view(&self) -> Seq<char> {
        self.0@
    }
}

/// Calls `UnicodeSegmentation::graphemes` with `is_extended` set and counts
/// what the iterator yields. Trusted: the count is the number of extended
/// grapheme clusters of `s`, and, each cluster being a non-empty slice of
/// `s`, it is no more than the number of characters.
#[verifier::external_body]
fn count_graphemes(s: &str) -> (n: usize)
    ensures
        n == grapheme_count(s@),
        n <= s@.len(),
{
    s.graphemes(true).count()
}

/// Decides on a name from its text and the number of its grapheme clusters.
pub fn name_is_acceptable(s: &str, graphemes: usize) -> (ok: bool)
    ensures
        ok == (!is_blank(s@) && graphemes <= MAX_NAME_GRAPHEMES && !has_forbidden(s@)),
{
    let is_empty_or_whitespace = is_blank_text(s);
    let is_too_long = graphemes > MAX_NAME_GRAPHEMES;
    let contains_forbidden_characters = contains_forbidden(s);
    !(is_empty_or_whitespace || is_too_long || contains_forbidden_characters)
}

impl SubscriberName {
    #[verifier::type_invariant]
    spec fn valid(self) -> bool {
        is_valid_name(self.0@)
    }

    /// Accepts `string` as a name if it meets the rule on names, and keeps it
    /// as it was given; otherwise returns the rejection that carries it. A
    /// text has no more grapheme clusters than characters, so one of at most
    /// `MAX_NAME_GRAPHEMES` characters is never too long.
    pub fn parse(string: String) -> (r: Result<SubscriberName, String>)
        ensures
            match r {
                Ok(name) => parsed_name(string@) == Ok::<Seq<char>, Seq<char>>(name@),
                Err(message) => parsed_name(string@) == Err::<Seq<char>, Seq<char>>(message@),
            },
            string@.len() <= MAX_NAME_GRAPHEMES && !is_blank(string@) && !has_forbidden(string@)
                ==> r is Ok,
    {
        let graphemes = count_graphemes(string.as_str());
        if name_is_acceptable(string.as_str(), graphemes) {
            Ok(SubscriberName(string))
        } else {
            Err(string.concat(" is not a valid subscriber name"))
        }
    }
}

impl AsRef<str> for SubscriberName {
    fn as_ref(&self) -> (text: &str)
        ensures
            text@ == self@,
            is_valid_name(text@),
    {
        proof {
            use_type_invariant(self);
        }
        self.0.as_str()
    }
}

/// A name that is empty or white space throughout is rejected.
pub proof fn lemma_blank_name_rejected(s: Seq<char>)
    requires
        is_blank(s),
    ensures
        parsed_name(s) == Err::<Seq<char>, Seq<char>>(name_rejection(s)),
{
}

/// A name of more than `MAX_NAME_GRAPHEMES` grapheme clusters is rejected.
pub proof fn lemma_long_name_rejected(s: Seq<char>)
    requires
        grapheme_count(s) > MAX_NAME_GRAPHEMES,
    ensures
        parsed_name(s) == Err::<Seq<char>, Seq<char>>(name_rejection(s)),
{
}

/// A name of at most `MAX_NAME_GRAPHEMES` grapheme clusters that is not blank
/// and holds no forbidden character is accepted as it stands.
pub proof fn lemma_bounded_name_accepted(s: Seq<char>)
    requires
        grapheme_count(s) <= MAX_NAME_GRAPHEMES,
        !is_blank(s),
        !has_forbidden(s),
    ensures
        parsed_name(s) == Ok::<Seq<char>, Seq<char>>(s),
{
}

/// A name with a forbidden character at any place is rejected, whatever
/// else it holds.
pub proof fn lemma_forbidden_name_rejected(s: Seq<char>, at: int)
    requires
        0 <= at < s.len(),
        is_forbidden(s[at]),
    ensures
        parsed_name(s) == Err::<Seq<char>, Seq<char>>(name_rejection(s)),
{
}

/// Parsing the same valid text twice gives two names with the same text,
/// that of the input; and parsing a name's text again changes nothing.
pub proof fn lemma_parse_name_repeatable(s: Seq<char>, first: Seq<char>, second: Seq<char>)
    requires
        parsed_name(s) == Ok::<Seq<char>, Seq<char>>(first),
        parsed_name(s) == Ok::<Seq<char>, Seq<char>>(second),
    ensures
        first == second,
        first == s,
        parsed_name(first) == parsed_name(s),
{
}

} // verus!
