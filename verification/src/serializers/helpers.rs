//! The dispatcher: from a decoded value list to a message, by the tag in
//! the first slot.

use crate::messages::abort::{Abort, MESSAGE_TYPE_ABORT};
use crate::messages::authenticate::{Authenticate, MESSAGE_TYPE_AUTHENTICATE};
use crate::messages::call::{Call, MESSAGE_TYPE_CALL};
use crate::messages::cancel::{Cancel, MESSAGE_TYPE_CANCEL};
use crate::messages::challenge::{Challenge, MESSAGE_TYPE_CHALLENGE};
use crate::messages::error::{Error as ErrorMessage, MESSAGE_TYPE_ERROR};
use crate::messages::event::{Event, MESSAGE_TYPE_EVENT};
use crate::messages::goodbye::{Goodbye, MESSAGE_TYPE_GOODBYE};
use crate::messages::hello::{Hello, MESSAGE_TYPE_HELLO};
use crate::messages::interrupt::{Interrupt, MESSAGE_TYPE_INTERRUPT};
use crate::messages::invocation::{Invocation, MESSAGE_TYPE_INVOCATION};
use crate::messages::publish::{Publish, MESSAGE_TYPE_PUBLISH};
use crate::messages::published::{Published, MESSAGE_TYPE_PUBLISHED};
use crate::messages::register::{Register, MESSAGE_TYPE_REGISTER};
use crate::messages::registered::{Registered, MESSAGE_TYPE_REGISTERED};
use crate::messages::result::{Result_, MESSAGE_TYPE_RESULT};
use crate::messages::subscribe::{Subscribe, MESSAGE_TYPE_SUBSCRIBE};
use crate::messages::subscribed::{Subscribed, MESSAGE_TYPE_SUBSCRIBED};
use crate::messages::unregister::{Unregister, MESSAGE_TYPE_UNREGISTER};
use crate::messages::unregistered::{Unregistered, MESSAGE_TYPE_UNREGISTERED};
use crate::messages::unsubscribe::{Unsubscribe, MESSAGE_TYPE_UNSUBSCRIBE};
use crate::messages::unsubscribed::{Unsubscribed, MESSAGE_TYPE_UNSUBSCRIBED};
use crate::messages::welcome::{Welcome, MESSAGE_TYPE_WELCOME};
use crate::messages::yield_::{Yield, MESSAGE_TYPE_YIELD};
use crate::messages::message::Message;
use crate::messages::render::rendered;
use crate::messages::types::{list_view, outcome, Error, Value, ValueView};
use crate::session::bytes_outcome;
use crate::text::{decimal, push_decimal};
use crate::messages::wamp_message::{WampMessage, WampMessageView};
use vstd::prelude::*;

verus! {

/// The text of the error for a first slot that names no message kind;
/// `rendered` is the text of what the slot holds.
pub open spec fn unknown_type(rendered: Seq<char>) -> Seq<char> {
    "received invalid wamp message of type "@ + rendered
}

/// The error for a first slot that names no message kind, where
/// `rendered` is the text of what the slot holds.
pub fn unknown_type_error(rendered: &str) -> (e: Error)
    ensures
        e.message@ == unknown_type(rendered@),
{
    let mut message = String::from_str("received invalid wamp message of type ");
    message.append(rendered);
    Error::new(message)
}

/// What dispatching a value list comes to: the message that the parser of
/// the kind named in the first slot gives, or the text of the error.
pub open spec fn dispatch(data: Seq<ValueView>) -> Result<WampMessageView, Seq<char>> {
    if data.len() == 0 {
        Err("received empty wamp message array"@)
    } else if data[0] == ValueView::Int(1) {
        match Hello::decode(data) {
            Ok(m) => Ok(WampMessageView::Hello(m)),
            Err(text) => Err(text),
        }
    } else if data[0] == ValueView::Int(2) {
        match Welcome::decode(data) {
            Ok(m) => Ok(WampMessageView::Welcome(m)),
            Err(text) => Err(text),
        }
    } else if data[0] == ValueView::Int(3) {
        match Abort::decode(data) {
            Ok(m) => Ok(WampMessageView::Abort(m)),
            Err(text) => Err(text),
        }
    } else if data[0] == ValueView::Int(4) {
        match Challenge::decode(data) {
            Ok(m) => Ok(WampMessageView::Challenge(m)),
            Err(text) => Err(text),
        }
    } else if data[0] == ValueView::Int(5) {
        match Authenticate::decode(data) {
            Ok(m) => Ok(WampMessageView::Authenticate(m)),
            Err(text) => Err(text),
        }
    } else if data[0] == ValueView::Int(6) {
        match Goodbye::decode(data) {
            Ok(m) => Ok(WampMessageView::Goodbye(m)),
            Err(text) => Err(text),
        }
    } else if data[0] == ValueView::Int(8) {
        match ErrorMessage::decode(data) {
            Ok(m) => Ok(WampMessageView::Error(m)),
            Err(text) => Err(text),
        }
    } else if data[0] == ValueView::Int(16) {
        match Publish::decode(data) {
            Ok(m) => Ok(WampMessageView::Publish(m)),
            Err(text) => Err(text),
        }
    } else if data[0] == ValueView::Int(17) {
        match Published::decode(data) {
            Ok(m) => Ok(WampMessageView::Published(m)),
            Err(text) => Err(text),
        }
    } else if data[0] == ValueView::Int(32) {
        match Subscribe::decode(data) {
            Ok(m) => Ok(WampMessageView::Subscribe(m)),
            Err(text) => Err(text),
        }
    } else if data[0] == ValueView::Int(33) {
        match Subscribed::decode(data) {
            Ok(m) => Ok(WampMessageView::Subscribed(m)),
            Err(text) => Err(text),
        }
    } else if data[0] == ValueView::Int(34) {
        match Unsubscribe::decode(data) {
            Ok(m) => Ok(WampMessageView::Unsubscribe(m)),
            Err(text) => Err(text),
        }
    } else if data[0] == ValueView::Int(35) {
        match Unsubscribed::decode(data) {
            Ok(m) => Ok(WampMessageView::Unsubscribed(m)),
            Err(text) => Err(text),
        }
    } else if data[0] == ValueView::Int(36) {
        match Event::decode(data) {
            Ok(m) => Ok(WampMessageView::Event(m)),
            Err(text) => Err(text),
        }
    } else if data[0] == ValueView::Int(48) {
        match Call::decode(data) {
            Ok(m) => Ok(WampMessageView::Call(m)),
            Err(text) => Err(text),
        }
    } else if data[0] == ValueView::Int(49) {
        match Cancel::decode(data) {
            Ok(m) => Ok(WampMessageView::Cancel(m)),
            Err(text) => Err(text),
        }
    } else if data[0] == ValueView::Int(50) {
        match Result_::decode(data) {
            Ok(m) => Ok(WampMessageView::Result(m)),
            Err(text) => Err(text),
        }
    } else if data[0] == ValueView::Int(64) {
        match Register::decode(data) {
            Ok(m) => Ok(WampMessageView::Register(m)),
            Err(text) => Err(text),
        }
    } else if data[0] == ValueView::Int(65) {
        match Registered::decode(data) {
            Ok(m) => Ok(WampMessageView::Registered(m)),
            Err(text) => Err(text),
        }
    } else if data[0] == ValueView::Int(66) {
        match Unregister::decode(data) {
            Ok(m) => Ok(WampMessageView::Unregister(m)),
            Err(text) => Err(text),
        }
    } else if data[0] == ValueView::Int(67) {
        match Unregistered::decode(data) {
            Ok(m) => Ok(WampMessageView::Unregistered(m)),
            Err(text) => Err(text),
        }
    } else if data[0] == ValueView::Int(68) {
        match Invocation::decode(data) {
            Ok(m) => Ok(WampMessageView::Invocation(m)),
            Err(text) => Err(text),
        }
    } else if data[0] == ValueView::Int(69) {
        match Interrupt::decode(data) {
            Ok(m) => Ok(WampMessageView::Interrupt(m)),
            Err(text) => Err(text),
        }
    } else if data[0] == ValueView::Int(70) {
        match Yield::decode(data) {
            Ok(m) => Ok(WampMessageView::Yield(m)),
            Err(text) => Err(text),
        }
    } else {
        Err(unknown_type(rendered(data[0])))
    }
}

/// Dispatching the marshalled form of a valid message gives the message
/// back.
pub proof fn lemma_dispatch_round_trip(m: WampMessageView)
    requires
        m.valid(),
    ensures
        dispatch(m.wire()) == Ok::<WampMessageView, Seq<char>>(m),
{
    m.tag_first();
    match m {
        WampMessageView::Hello(k) => Hello::round_trip(k),
        WampMessageView::Welcome(k) => Welcome::round_trip(k),
        WampMessageView::Abort(k) => Abort::round_trip(k),
        WampMessageView::Challenge(k) => Challenge::round_trip(k),
        WampMessageView::Authenticate(k) => Authenticate::round_trip(k),
        WampMessageView::Goodbye(k) => Goodbye::round_trip(k),
        WampMessageView::Error(k) => ErrorMessage::round_trip(k),
        WampMessageView::Publish(k) => Publish::round_trip(k),
        WampMessageView::Published(k) => Published::round_trip(k),
        WampMessageView::Subscribe(k) => Subscribe::round_trip(k),
        WampMessageView::Subscribed(k) => Subscribed::round_trip(k),
        WampMessageView::Unsubscribe(k) => Unsubscribe::round_trip(k),
        WampMessageView::Unsubscribed(k) => Unsubscribed::round_trip(k),
        WampMessageView::Event(k) => Event::round_trip(k),
        WampMessageView::Call(k) => Call::round_trip(k),
        WampMessageView::Cancel(k) => Cancel::round_trip(k),
        WampMessageView::Result(k) => Result_::round_trip(k),
        WampMessageView::Register(k) => Register::round_trip(k),
        WampMessageView::Registered(k) => Registered::round_trip(k),
        WampMessageView::Unregister(k) => Unregister::round_trip(k),
        WampMessageView::Unregistered(k) => Unregistered::round_trip(k),
        WampMessageView::Invocation(k) => Invocation::round_trip(k),
        WampMessageView::Interrupt(k) => Interrupt::round_trip(k),
        WampMessageView::Yield(k) => Yield::round_trip(k),
    }
}

/// Reads a message from a decoded value list.
pub fn to_message(wamp_msg: Vec<Value>) -> (r: Result<WampMessage, Error>)
    ensures
        outcome(r) == dispatch(list_view(wamp_msg@)),
{
    if wamp_msg.len() == 0 {
        return Err(Error::text("received empty wamp message array"));
    }
    let tag = match &wamp_msg[0] {
        Value::Int(tag) => *tag,
        other => {
            return Err(unknown_type_error(other.render().as_str()));
        },
    };
    if tag == MESSAGE_TYPE_HELLO {
        match Hello::parse(wamp_msg) {
            Ok(m) => Ok(WampMessage::Hello(m)),
            Err(e) => Err(e),
        }
    } else if tag == MESSAGE_TYPE_WELCOME {
        match Welcome::parse(wamp_msg) {
            Ok(m) => Ok(WampMessage::Welcome(m)),
            Err(e) => Err(e),
        }
    } else if tag == MESSAGE_TYPE_ABORT {
        match Abort::parse(wamp_msg) {
            Ok(m) => Ok(WampMessage::Abort(m)),
            Err(e) => Err(e),
        }
    } else if tag == MESSAGE_TYPE_CHALLENGE {
        match Challenge::parse(wamp_msg) {
            Ok(m) => Ok(WampMessage::Challenge(m)),
            Err(e) => Err(e),
        }
    } else if tag == MESSAGE_TYPE_AUTHENTICATE {
        match Authenticate::parse(wamp_msg) {
            Ok(m) => Ok(WampMessage::Authenticate(m)),
            Err(e) => Err(e),
        }
    } else if tag == MESSAGE_TYPE_GOODBYE {
        match Goodbye::parse(wamp_msg) {
            Ok(m) => Ok(WampMessage::Goodbye(m)),
            Err(e) => Err(e),
        }
    } else if tag == MESSAGE_TYPE_ERROR {
        match ErrorMessage::parse(wamp_msg) {
            Ok(m) => Ok(WampMessage::Error(m)),
            Err(e) => Err(e),
        }
    } else if tag == MESSAGE_TYPE_PUBLISH {
        match Publish::parse(wamp_msg) {
            Ok(m) => Ok(WampMessage::Publish(m)),
            Err(e) => Err(e),
        }
    } else if tag == MESSAGE_TYPE_PUBLISHED {
        match Published::parse(wamp_msg) {
            Ok(m) => Ok(WampMessage::Published(m)),
            Err(e) => Err(e),
        }
    } else if tag == MESSAGE_TYPE_SUBSCRIBE {
        match Subscribe::parse(wamp_msg) {
            Ok(m) => Ok(WampMessage::Subscribe(m)),
            Err(e) => Err(e),
        }
    } else if tag == MESSAGE_TYPE_SUBSCRIBED {
        match Subscribed::parse(wamp_msg) {
            Ok(m) => Ok(WampMessage::Subscribed(m)),
            Err(e) => Err(e),
        }
    } else if tag == MESSAGE_TYPE_UNSUBSCRIBE {
        match Unsubscribe::parse(wamp_msg) {
            Ok(m) => Ok(WampMessage::Unsubscribe(m)),
            Err(e) => Err(e),
        }
    } else if tag == MESSAGE_TYPE_UNSUBSCRIBED {
        match Unsubscribed::parse(wamp_msg) {
            Ok(m) => Ok(WampMessage::Unsubscribed(m)),
            Err(e) => Err(e),
        }
    } else if tag == MESSAGE_TYPE_EVENT {
        match Event::parse(wamp_msg) {
            Ok(m) => Ok(WampMessage::Event(m)),
            Err(e) => Err(e),
        }
    } else if tag == MESSAGE_TYPE_CALL {
        match Call::parse(wamp_msg) {
            Ok(m) => Ok(WampMessage::Call(m)),
            Err(e) => Err(e),
        }
    } else if tag == MESSAGE_TYPE_CANCEL {
        match Cancel::parse(wamp_msg) {
            Ok(m) => Ok(WampMessage::Cancel(m)),
            Err(e) => Err(e),
        }
    } else if tag == MESSAGE_TYPE_RESULT {
        match Result_::parse(wamp_msg) {
            Ok(m) => Ok(WampMessage::Result(m)),
            Err(e) => Err(e),
        }
    } else if tag == MESSAGE_TYPE_REGISTER {
        match Register::parse(wamp_msg) {
            Ok(m) => Ok(WampMessage::Register(m)),
            Err(e) => Err(e),
        }
    } else if tag == MESSAGE_TYPE_REGISTERED {
        match Registered::parse(wamp_msg) {
            Ok(m) => Ok(WampMessage::Registered(m)),
            Err(e) => Err(e),
        }
    } else if tag == MESSAGE_TYPE_UNREGISTER {
        match Unregister::parse(wamp_msg) {
            Ok(m) => Ok(WampMessage::Unregister(m)),
            Err(e) => Err(e),
        }
    } else if tag == MESSAGE_TYPE_UNREGISTERED {
        match Unregistered::parse(wamp_msg) {
            Ok(m) => Ok(WampMessage::Unregistered(m)),
            Err(e) => Err(e),
        }
    } else if tag == MESSAGE_TYPE_INVOCATION {
        match Invocation::parse(wamp_msg) {
            Ok(m) => Ok(WampMessage::Invocation(m)),
            Err(e) => Err(e),
        }
    } else if tag == MESSAGE_TYPE_INTERRUPT {
        match Interrupt::parse(wamp_msg) {
            Ok(m) => Ok(WampMessage::Interrupt(m)),
            Err(e) => Err(e),
        }
    } else if tag == MESSAGE_TYPE_YIELD {
        match Yield::parse(wamp_msg) {
            Ok(m) => Ok(WampMessage::Yield(m)),
            Err(e) => Err(e),
        }
    } else {
        Err(unknown_type_error(wamp_msg[0].render().as_str()))
    }
}

/// What encoding a message comes to, given what the encoder made of its
/// value list: the bytes, or the error that names the tag of the message.
pub open spec fn encoding_outcome(m: WampMessageView, encoded: Option<Seq<u8>>) -> Result<
    Seq<u8>,
    Seq<char>,
> {
    match encoded {
        Some(bytes) => Ok(bytes),
        None => Err("failed to serialize message Int("@ + decimal(m.tag() as int) + ")"@),
    }
}

/// What decoding a payload comes to, given what the decoder made of it: a
/// value list is dispatched; the text of a failure is carried in the error.
pub open spec fn decoding_outcome(decoded: Result<Seq<ValueView>, Seq<char>>) -> Result<
    WampMessageView,
    Seq<char>,
> {
    match decoded {
        Ok(data) => dispatch(data),
        Err(text) => Err("failed to deserialize message "@ + text),
    }
}

/// The model of what a decoder gave: the value list, or the text of its
/// failure.
pub open spec fn decoder_outcome(decoded: Result<Vec<Value>, String>) -> Result<
    Seq<ValueView>,
    Seq<char>,
> {
    match decoded {
        Ok(data) => Ok(list_view(data@)),
        Err(text) => Err(text@),
    }
}

/// The model of what an encoder gave: the bytes, if any.
pub open spec fn encoder_outcome(encoded: Option<Vec<u8>>) -> Option<Seq<u8>> {
    match encoded {
        Some(bytes) => Some(bytes@),
        None => None,
    }
}

/// A codec whose decoder gives back the value list that was encoded gives
/// back every valid message.
pub proof fn lemma_codec_round_trip(m: WampMessageView)
    requires
        m.valid(),
    ensures
        decoding_outcome(Ok(m.wire())) == Ok::<WampMessageView, Seq<char>>(m),
{
    lemma_dispatch_round_trip(m);
}

/// Finishes the encoding of `message`: `encoded` is what the encoder made
/// of the value list of the message, `None` where it failed.
pub fn finish_serialize(message: &WampMessage, encoded: Option<Vec<u8>>) -> (r: Result<
    Vec<u8>,
    Error,
>)
    ensures
        bytes_outcome(r) == encoding_outcome(message@, encoder_outcome(encoded)),
{
    match encoded {
        Some(bytes) => Ok(bytes),
        None => {
            let mut text = String::from_str("failed to serialize message Int(");
            push_decimal(&mut text, message.tag());
            text.append(")");
            Err(Error::new(text))
        },
    }
}

/// Finishes the decoding of a payload: `decoded` is what the decoder made
/// of it, a value list or the text of its failure.
pub fn finish_deserialize(decoded: Result<Vec<Value>, String>) -> (r: Result<WampMessage, Error>)
    ensures
        outcome(r) == decoding_outcome(decoder_outcome(decoded)),
{
    match decoded {
        Ok(raw) => to_message(raw),
        Err(text) => Err(Error::joined("failed to deserialize message ", text.as_str())),
    }
}

} // verus!
