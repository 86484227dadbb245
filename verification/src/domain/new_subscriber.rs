//! A subscriber whose name and email address have both been accepted.

use crate::domain::subscriber_email::SubscriberEmail;
use crate::domain::subscriber_name::SubscriberName;
use vstd::prelude::*;

verus! {

/// A subscriber ready to be stored. Both fields are values that only their
/// own `parse` can make, so the whole is valid by construction.
pub struct NewSubscriber {
    pub email: SubscriberEmail,
    pub name: SubscriberName,
}

} // verus!
