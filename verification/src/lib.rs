//! A fluent builder for push-notification requests.
//!
//! The builder accumulates the fields of one notification request,
//! validating and normalizing each input as it is set, so that the finished
//! [`Message`](message::Message) can be handed to a transport layer without
//! further checks.

pub mod builder;
pub mod message;
pub mod text;

pub use builder::MessageBuilder;
pub use message::Message;
pub use message::PushoverSound;
