//! What the service does with a request, apart from the transport.

pub mod subscriptions;
