use zero2prod::domain::NewSubscriber;
use zero2prod::routes::subscriptions::{
    on_persisted, on_received, FormData, Outcome, Step, SubscriptionRecord, UUID_KIND_MASK,
    UUID_V4_KIND,
};

fn form(name: &str, email: &str) -> FormData {
    FormData { email: email.to_string(), name: name.to_string() }
}

fn subscriber(name: &str, email: &str) -> NewSubscriber {
    match NewSubscriber::try_from(form(name, email)) {
        Ok(subscriber) => subscriber,
        Err(message) => panic!("{}", message),
    }
}

#[test]
fn a_valid_form_is_converted() {
    let subscriber = subscriber("rae boone", "rae_boone@gmail.com");
    assert_eq!(subscriber.name.as_ref(), "rae boone");
    assert_eq!(subscriber.email.as_ref(), "rae_boone@gmail.com");
}

#[test]
fn a_form_with_an_invalid_name_is_rejected() {
    let r = NewSubscriber::try_from(form("rae (boone)", "rae_boone@gmail.com"));
    assert_eq!(r.err().unwrap(), "rae (boone) is not a valid subscriber name");
}

#[test]
fn a_form_with_an_invalid_email_is_rejected() {
    let r = NewSubscriber::try_from(form("rae boone", "not-an-email"));
    assert_eq!(r.err().unwrap(), "not-an-email is not a valid subscriber email");
}

#[test]
fn the_name_is_rejected_before_the_email() {
    let r = NewSubscriber::try_from(form("", "not-an-email"));
    assert_eq!(r.err().unwrap(), " is not a valid subscriber name");
}

#[test]
fn a_form_converts_through_try_into() {
    let r: Result<NewSubscriber, String> = form("rae boone", "rae_boone@gmail.com").try_into();
    assert!(r.is_ok());
}

#[test]
fn a_record_holds_the_subscriber_under_the_given_id_and_time() {
    let subscriber = subscriber("rae boone", "rae_boone@gmail.com");
    let record = SubscriptionRecord::assemble(7, &subscriber, 1_700_000_000_000_000);
    assert_eq!(record.id, 7);
    assert_eq!(record.email, "rae_boone@gmail.com");
    assert_eq!(record.name, "rae boone");
    assert_eq!(record.subscribed_at, 1_700_000_000_000_000);
}

#[test]
fn a_new_record_has_a_version_4_id() {
    let subscriber = subscriber("rae boone", "rae_boone@gmail.com");
    let record = SubscriptionRecord::new(&subscriber);
    assert_eq!(record.id & UUID_KIND_MASK, UUID_V4_KIND);
    assert_eq!(record.email, "rae_boone@gmail.com");
    assert_eq!(record.name, "rae boone");
    let id = uuid::Uuid::from_u128(record.id);
    assert_eq!(id.get_version_num(), 4);
}

#[test]
fn a_new_record_is_stamped_with_the_current_time() {
    let subscriber = subscriber("rae boone", "rae_boone@gmail.com");
    let before = sqlx::types::chrono::Utc::now().timestamp_micros();
    let record = SubscriptionRecord::new(&subscriber);
    let after = sqlx::types::chrono::Utc::now().timestamp_micros();
    assert!(before <= record.subscribed_at && record.subscribed_at <= after);
}

#[test]
fn two_records_of_one_subscriber_have_two_ids() {
    let subscriber = subscriber("rae boone", "rae_boone@gmail.com");
    let first = SubscriptionRecord::new(&subscriber);
    let second = SubscriptionRecord::new(&subscriber);
    assert_ne!(first.id, second.id);
    assert_eq!(first.email, second.email);
    assert_eq!(first.name, second.name);
}

#[test]
fn a_valid_form_is_stored_and_answered_with_200() {
    let subscriber = match on_received(form("rae boone", "rae_boone@gmail.com")) {
        Step::Persist(subscriber) => subscriber,
        Step::Done(outcome) => panic!("ended early as {:?}", outcome),
    };
    let record = SubscriptionRecord::new(&subscriber);
    assert_eq!(record.email, "rae_boone@gmail.com");
    assert_eq!(record.name, "rae boone");
    let outcome = on_persisted(Ok(()));
    assert_eq!(outcome, Outcome::Accepted);
    assert_eq!(outcome.status(), 200);
}

#[test]
fn an_invalid_email_is_answered_with_400_and_nothing_is_stored() {
    match on_received(form("rae boone", "not-an-email")) {
        Step::Persist(_) => panic!("a rejected form was handed on"),
        Step::Done(outcome) => {
            assert_eq!(outcome, Outcome::BadRequest);
            assert_eq!(outcome.status(), 400);
        }
    }
}

#[test]
fn an_invalid_name_is_answered_with_400() {
    assert!(matches!(
        on_received(form("   ", "rae_boone@gmail.com")),
        Step::Done(Outcome::BadRequest)
    ));
}

#[test]
fn a_failed_insert_is_answered_with_500() {
    let outcome = on_persisted(Err(sqlx::Error::RowNotFound));
    assert_eq!(outcome, Outcome::ServerError);
    assert_eq!(outcome.status(), 500);
    assert_eq!(on_persisted(Err(sqlx::Error::PoolTimedOut)), Outcome::ServerError);
}

#[test]
fn the_three_statuses() {
    assert_eq!(Outcome::Accepted.status(), 200);
    assert_eq!(Outcome::BadRequest.status(), 400);
    assert_eq!(Outcome::ServerError.status(), 500);
}
