//! The value types of a subscription and the rules on their text.

pub mod characters;
pub mod new_subscriber;
pub mod subscriber_email;
pub mod subscriber_name;
pub mod whitespace;

pub use new_subscriber::NewSubscriber;
pub use subscriber_email::SubscriberEmail;
pub use subscriber_name::SubscriberName;
