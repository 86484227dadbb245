//! The email address of a subscriber.

use validator::ValidateEmail;
use vstd::prelude::*;
use vstd::string::StringExecFns;

verus! {

/// The verdict of the `validator` crate on `s` as an email address, by the
/// address grammar of the HTML standard. It stands for what
/// `ValidateEmail::validate_email` returns and has no definition here.
pub uninterp spec fn validator_accepts(s: Seq<char>) -> bool;

/// `s` has an `@` with text on both sides of it: a local part and a domain.
pub open spec fn has_address_shape(s: Seq<char>) -> bool {
    exists|at: int| 0 < at < s.len() - 1 && #[trigger] s[at] == '@'
}

/// The rule on an email address: it has a local part and a domain around an
/// `@`, and the address grammar accepts it.
pub open spec fn is_valid_email(s: Seq<char>) -> bool {
    has_address_shape(s) && validator_accepts(s)
}

/// The message that a rejected address is reported with.
pub open spec fn email_rejection(s: Seq<char>) -> Seq<char> {
    s + " is not a valid subscriber email"@
}

/// What parsing `s` as an email address gives: the text itself where it is
/// valid, and the rejection that carries it where it is not.
pub open spec fn parsed_email(s: Seq<char>) -> Result<Seq<char>, Seq<char>> {
    if is_valid_email(s) {
        Ok(s)
    } else {
        Err(email_rejection(s))
    }
}

/// An email address that has passed `SubscriberEmail::parse`.
#[derive(Debug)]
pub struct SubscriberEmail(String);

impl View for SubscriberEmail {
    type V = Seq<char>;

    closed spec fn view(&self) -> Seq<char> {
        self.0@
    }
}

/// Calls `ValidateEmail::validate_email` on a `String`. Trusted: the result
/// is the crate's verdict on the text, and the crate accepts no text without
/// an `@`, none whose part before the last `@` is empty, and none whose part
/// after it is empty.
#[verifier::external_body]
fn validate_email(s: &String) -> (ok: bool)
    ensures
        ok == validator_accepts(s@),
        ok ==> has_address_shape(s@),
{
    s.validate_email()
}

impl SubscriberEmail {
    #[verifier::type_invariant]
    spec fn valid(self) -> bool {
        is_valid_email(self.0@)
    }

    /// Accepts `string` as an email address if it meets the rule on
    /// addresses; otherwise returns the rejection that carries it.
    pub fn parse(string: String) -> (r: Result<SubscriberEmail, String>)
        ensures
            match r {
                Ok(email) => parsed_email(string@) == Ok::<Seq<char>, Seq<char>>(email@),
                Err(message) => parsed_email(string@) == Err::<Seq<char>, Seq<char>>(message@),
            },
    {
        let well_formed = validate_email(&string);
        SubscriberEmail::from_checked(string, well_formed)
    }

    /// Builds the address, or its rejection, from a text and the verdict
    /// already reached on it.
    pub fn from_checked(string: String, well_formed: bool) -> (r: Result<SubscriberEmail, String>)
        requires
            well_formed == is_valid_email(string@),
        ensures
            well_formed ==> r is Ok && r->Ok_0@ == string@,
            !well_formed ==> r is Err && r->Err_0@ == email_rejection(string@),
    {
        if well_formed {
            Ok(SubscriberEmail(string))
        } else {
            Err(string.concat(" is not a valid subscriber email"))
        }
    }
}

impl AsRef<str> for SubscriberEmail {
    fn as_ref(&self) -> (text: &str)
        ensures
            text@ == self@,
            is_valid_email(text@),
    {
        proof {
            use_type_invariant(self);
        }
        self.0.as_str()
    }
}

/// A text without a local part and a domain around an `@` is rejected.
pub proof fn lemma_shapeless_email_rejected(s: Seq<char>)
    requires
        !has_address_shape(s),
    ensures
        parsed_email(s) == Err::<Seq<char>, Seq<char>>(email_rejection(s)),
{
}

/// A text without any `@` is rejected; so is the empty text.
pub proof fn lemma_email_without_at_rejected(s: Seq<char>)
    requires
        forall|i: int| 0 <= i < s.len() ==> s[i] != '@',
    ensures
        parsed_email(s) == Err::<Seq<char>, Seq<char>>(email_rejection(s)),
{
}

/// Parsing the same valid text twice gives two addresses with the same
/// text, that of the input; and parsing an address's text again changes
/// nothing.
pub proof fn lemma_parse_email_repeatable(s: Seq<char>, first: Seq<char>, second: Seq<char>)
    requires
        parsed_email(s) == Ok::<Seq<char>, Seq<char>>(first),
        parsed_email(s) == Ok::<Seq<char>, Seq<char>>(second),
    ensures
        first == second,
        first == s,
        parsed_email(first) == parsed_email(s),
{
}

} // verus!
