//! The value model and the WAMP message kinds.

pub mod abort;
pub mod authenticate;
pub mod call;
pub mod cancel;
pub mod challenge;
pub mod convert;
pub mod error;
pub mod event;
pub mod fields;
pub mod goodbye;
pub mod hello;
pub mod interrupt;
pub mod invocation;
pub mod message;
pub mod publish;
pub mod published;
pub mod register;
pub mod registered;
pub mod render;
pub mod result;
pub mod subscribe;
pub mod subscribed;
pub mod types;
pub mod unregister;
pub mod unregistered;
pub mod unsubscribe;
pub mod unsubscribed;
pub mod validator;
pub mod wamp_message;
pub mod welcome;
pub mod yield_;
