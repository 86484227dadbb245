//! A subscription request: from the submitted form to the subscriber.

use crate::domain::subscriber_email::{email_rejection, is_valid_email};
use crate::domain::subscriber_name::{is_valid_name, name_rejection};
use crate::domain::{NewSubscriber, SubscriberEmail, SubscriberName};
use sqlx::types::chrono::Utc;
use uuid::Uuid;
use vstd::prelude::*;

verus! {

/// The error of the storage client. Nothing inside it is read here.
#[verifier::external_type_specification]
#[verifier::external_body]
pub struct ExStorageError(sqlx::Error);

/// The two text fields of a submitted form, as they were decoded.
pub struct FormData {
    pub email: String,
    pub name: String,
}

/// What converting a form with these two texts gives: the accepted texts
/// `(email, name)`, or the rejection of the first field that fails. The
/// name is looked at before the email address.
pub open spec fn converted(email: Seq<char>, name: Seq<char>) -> Result<
    (Seq<char>, Seq<char>),
    Seq<char>,
> {
    if !is_valid_name(name) {
        Err(name_rejection(name))
    } else if !is_valid_email(email) {
        Err(email_rejection(email))
    } else {
        Ok((email, name))
    }
}

/// The conversion is stated on `try_from` itself, over the texts: its
/// rejection is a new `String`, of which only the text is fixed.
impl vstd::std_specs::convert::TryFromSpecImpl<FormData> for NewSubscriber {
    open spec fn obeys_try_from_spec() -> bool {
        false
    }

    open spec fn try_from_spec(v: FormData) -> Result<Self, String> {
        arbitrary()
    }
}

impl TryFrom<FormData> for NewSubscriber {
    type Error = String;

    /// Parses the name, then the email address. The subscriber is made only
    /// if both are accepted; otherwise the first rejection is returned.
    fn try_from(value: FormData) -> (r: Result<NewSubscriber, String>)
        ensures
            match r {
                Ok(subscriber) => converted(value.email@, value.name@) == Ok::<
                    (Seq<char>, Seq<char>),
                    Seq<char>,
                >((subscriber.email@, subscriber.name@)),
                Err(message) => converted(value.email@, value.name@) == Err::<
                    (Seq<char>, Seq<char>),
                    Seq<char>,
                >(message@),
            },
    {
        let name = match SubscriberName::parse(value.name) {
            Ok(name) => name,
            Err(message) => { return Err(message); },
        };
        let email = match SubscriberEmail::parse(value.email) {
            Ok(email) => email,
            Err(message) => { return Err(message); },
        };
        Ok(NewSubscriber { email, name })
    }
}

/// The bits of an identifier that say which kind it is: the version and the
/// variant.
pub const UUID_KIND_MASK: u128 = 0x0000_0000_0000_F000_C000_0000_0000_0000;

/// What those bits hold in a random identifier: version 4, and the variant
/// of RFC 9562.
pub const UUID_V4_KIND: u128 = 0x0000_0000_0000_4000_8000_0000_0000_0000;

/// `id` is a version 4 UUID, read as one big-endian number.
pub open spec fn is_uuid_v4(id: u128) -> bool {
    id & UUID_KIND_MASK == UUID_V4_KIND
}

/// A row of the table of subscriptions.
pub struct SubscriptionRecord {
    /// The row's identifier, a UUID as one big-endian number.
    pub id: u128,
    pub email: String,
    pub name: String,
    /// When the row was made: microseconds since the Unix epoch, UTC.
    pub subscribed_at: i64,
}

/// Calls `Uuid::new_v4` and hands the identifier out as a number
/// (`Uuid::as_u128`). Trusted: whatever the random bits, the crate sets the
/// version to 4 and the variant to that of RFC 9562.
#[verifier::external_body]
fn fresh_id() -> (id: u128)
    ensures
        is_uuid_v4(id),
{
    Uuid::new_v4().as_u128()
}

/// Calls `Utc::now` and hands the time out in microseconds since the Unix
/// epoch (`DateTime::timestamp_micros`). Nothing is claimed of the clock.
#[verifier::external_body]
fn now_micros() -> (micros: i64) {
    Utc::now().timestamp_micros()
}

impl SubscriptionRecord {
    /// The row for `subscriber` under the given identifier and time.
    pub fn assemble(id: u128, subscriber: &NewSubscriber, subscribed_at: i64) -> (record:
        SubscriptionRecord)
        ensures
            record.id == id,
            record.email@ == subscriber.email@,
            record.name@ == subscriber.name@,
            record.subscribed_at == subscribed_at,
            is_valid_email(record.email@),
            is_valid_name(record.name@),
    {
        SubscriptionRecord {
            id,
            email: subscriber.email.as_ref().to_owned(),
            name: subscriber.name.as_ref().to_owned(),
            subscribed_at,
        }
    }

    /// The row to insert for `subscriber`: its two texts under an
    /// identifier drawn at random for this row and the current time.
    pub fn new(subscriber: &NewSubscriber) -> (record: SubscriptionRecord)
        ensures
            is_uuid_v4(record.id),
            record.email@ == subscriber.email@,
            record.name@ == subscriber.name@,
            is_valid_email(record.email@),
            is_valid_name(record.name@),
    {
        let id = fresh_id();
        let subscribed_at = now_micros();
        SubscriptionRecord::assemble(id, subscriber, subscribed_at)
    }
}

/// How a request ends.
#[derive(Clone, Copy, Debug, PartialEq, Eq, Structural)]
pub enum Outcome {
    /// The subscriber was stored.
    Accepted,
    /// The form was rejected; nothing was stored.
    BadRequest,
    /// The form was accepted, but storing failed.
    ServerError,
}

/// What is to happen next with a request.
pub enum Step {
    /// Store this subscriber, then report how it went.
    Persist(NewSubscriber),
    /// The request is over.
    Done(Outcome),
}

impl Outcome {
    /// The HTTP status that reports the outcome.
    pub open spec fn status_of(self) -> u16 {
        match self {
            Outcome::Accepted => 200,
            Outcome::BadRequest => 400,
            Outcome::ServerError => 500,
        }
    }

    /// The HTTP status that reports the outcome.
    pub fn status(&self) -> (code: u16)
        ensures
            code == self.status_of(),
    {
        match self {
            Outcome::Accepted => 200,
            Outcome::BadRequest => 400,
            Outcome::ServerError => 500,
        }
    }
}

/// The first step on a request: the form is converted, and either the
/// subscriber is handed out to be stored or the request ends as a bad
/// request. Nothing is handed out to be stored for a form that is rejected.
pub fn on_received(form: FormData) -> (step: Step)
    ensures
        match step {
            Step::Persist(subscriber) => converted(form.email@, form.name@) == Ok::<
                (Seq<char>, Seq<char>),
                Seq<char>,
            >((subscriber.email@, subscriber.name@)),
            Step::Done(outcome) => {
                &&& converted(form.email@, form.name@) is Err
                &&& outcome == Outcome::BadRequest
            },
        },
{
    match NewSubscriber::try_from(form) {
        Ok(new_subscriber) => Step::Persist(new_subscriber),
        Err(_) => Step::Done(Outcome::BadRequest),
    }
}

/// The last step on a request: the outcome, from how the insert went.
pub fn on_persisted(stored: Result<(), sqlx::Error>) -> (outcome: Outcome)
    ensures
        outcome == (if stored is Ok {
            Outcome::Accepted
        } else {
            Outcome::ServerError
        }),
{
    match stored {
        Ok(_) => Outcome::Accepted,
        Err(_) => Outcome::ServerError,
    }
}

/// A form is converted exactly when both of its fields are valid, and then
/// to its own two texts.
pub proof fn lemma_converted_iff_both_valid(email: Seq<char>, name: Seq<char>)
    ensures
        converted(email, name) is Ok <==> is_valid_name(name) && is_valid_email(email),
        converted(email, name) is Ok ==> converted(email, name) == Ok::<
            (Seq<char>, Seq<char>),
            Seq<char>,
        >((email, name)),
{
}

/// A form with an invalid email address is rejected, whatever its name: the
/// request ends as a bad request and nothing is stored.
pub proof fn lemma_invalid_email_not_converted(email: Seq<char>, name: Seq<char>)
    requires
        !is_valid_email(email),
    ensures
        converted(email, name) is Err,
{
}

/// Where the name is invalid, the rejection is that of the name, whatever
/// the email address.
pub proof fn lemma_name_rejected_first(email: Seq<char>, name: Seq<char>)
    requires
        !is_valid_name(name),
    ensures
        converted(email, name) == Err::<(Seq<char>, Seq<char>), Seq<char>>(name_rejection(name)),
{
}

} // verus!
