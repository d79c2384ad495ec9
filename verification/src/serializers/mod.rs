//! From bytes to messages and back.

pub mod cbor;
pub mod helpers;
pub mod msgpack;
pub mod serializer;
