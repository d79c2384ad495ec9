//! The interface between the protocol engine and a wire encoding.

use crate::messages::types::Error;
use crate::messages::wamp_message::WampMessage;
use vstd::prelude::*;

verus! {

/// A wire encoding of messages. An encoding is supplied from outside the
/// library, so nothing is promised of what its methods return: the session
/// and the joiner are verified for every outcome.
pub trait Serializer {
    /// The bytes that stand for `message`.
    fn serialize(&self, message: &WampMessage) -> (r: Result<Vec<u8>, Error>);

    /// The message that `payload` stands for.
    fn deserialize(&self, payload: Vec<u8>) -> (r: Result<WampMessage, Error>);

    /// Whether the encoding keeps the variant of every value.
    fn is_static(&self) -> (r: bool);
}

} // verus!
