//! The authentication methods with which a client can join.

pub mod anonymous;
pub mod authenticator;
pub mod cryptosign;
pub mod primitives;
pub mod ticket;
pub mod wampcra;
