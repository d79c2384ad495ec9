//! The MessagePack encoding of messages.

use crate::messages::types::{outcome, Error, Value};
use crate::messages::wamp_message::WampMessage;
use crate::serializers::helpers::{
    decoder_outcome, decoding_outcome, encoder_outcome, encoding_outcome, finish_deserialize,
    finish_serialize,
};
use crate::session::bytes_outcome;
use vstd::prelude::*;

verus! {

/// The MessagePack codec of a session. The octets themselves are made and read by
/// the MessagePack encoder outside the library; what the library makes of the
/// encoder's outcome is stated here.
#[derive(Debug, Clone)]
pub struct MsgPackSerializer {}

impl MsgPackSerializer {
    /// What `serialize` gives for `message` where the encoder made
    /// `encoded` of its value list, `None` where it failed.
    pub fn serialize(&self, message: &WampMessage, encoded: Option<Vec<u8>>) -> (r: Result<
        Vec<u8>,
        Error,
    >)
        ensures
            bytes_outcome(r) == encoding_outcome(
                message@,
                encoder_outcome(encoded),
            ),
    {
        finish_serialize(message, encoded)
    }

    /// What `deserialize` gives for a payload of which the decoder made
    /// `decoded`: a value list, or the text of its failure.
    pub fn deserialize(&self, decoded: Result<Vec<Value>, String>) -> (r: Result<
        WampMessage,
        Error,
    >)
        ensures
            outcome(r) == decoding_outcome(decoder_outcome(decoded)),
    {
        finish_deserialize(decoded)
    }

    /// The encoding does not keep the variant of every number.
    pub fn is_static(&self) -> (r: bool)
        ensures
            !r,
    {
        false
    }
}

} // verus!
