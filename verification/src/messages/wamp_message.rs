//! The closed sum of the message kinds: what a dispatcher hands out and a
//! session takes in.

use crate::messages::abort::{Abort, AbortView, MESSAGE_NAME_ABORT};
use crate::messages::authenticate::{Authenticate, AuthenticateView, MESSAGE_NAME_AUTHENTICATE};
use crate::messages::call::{Call, CallView, MESSAGE_NAME_CALL};
use crate::messages::cancel::{Cancel, CancelView, MESSAGE_NAME_CANCEL};
use crate::messages::challenge::{Challenge, ChallengeView, MESSAGE_NAME_CHALLENGE};
use crate::messages::error::{Error, ErrorView, MESSAGE_NAME_ERROR};
use crate::messages::event::{Event, EventView, MESSAGE_NAME_EVENT};
use crate::messages::goodbye::{Goodbye, GoodbyeView, MESSAGE_NAME_GOODBYE};
use crate::messages::hello::{Hello, HelloView, MESSAGE_NAME_HELLO};
use crate::messages::interrupt::{Interrupt, InterruptView, MESSAGE_NAME_INTERRUPT};
use crate::messages::invocation::{Invocation, InvocationView, MESSAGE_NAME_INVOCATION};
use crate::messages::publish::{Publish, PublishView, MESSAGE_NAME_PUBLISH};
use crate::messages::published::{Published, PublishedView, MESSAGE_NAME_PUBLISHED};
use crate::messages::register::{Register, RegisterView, MESSAGE_NAME_REGISTER};
use crate::messages::registered::{Registered, RegisteredView, MESSAGE_NAME_REGISTERED};
use crate::messages::result::{Result_, ResultView, MESSAGE_NAME_RESULT};
use crate::messages::subscribe::{Subscribe, SubscribeView, MESSAGE_NAME_SUBSCRIBE};
use crate::messages::subscribed::{Subscribed, SubscribedView, MESSAGE_NAME_SUBSCRIBED};
use crate::messages::unregister::{Unregister, UnregisterView, MESSAGE_NAME_UNREGISTER};
use crate::messages::unregistered::{Unregistered, UnregisteredView, MESSAGE_NAME_UNREGISTERED};
use crate::messages::unsubscribe::{Unsubscribe, UnsubscribeView, MESSAGE_NAME_UNSUBSCRIBE};
use crate::messages::unsubscribed::{Unsubscribed, UnsubscribedView, MESSAGE_NAME_UNSUBSCRIBED};
use crate::messages::welcome::{Welcome, WelcomeView, MESSAGE_NAME_WELCOME};
use crate::messages::yield_::{Yield, YieldView, MESSAGE_NAME_YIELD};
use crate::messages::message::Message;
use crate::messages::types::{list_view, Value, ValueView};
use vstd::prelude::*;

verus! {

/// A message of any kind.
#[derive(Debug, PartialEq)]
pub enum WampMessage {
    Hello(Hello),
    Welcome(Welcome),
    Abort(Abort),
    Challenge(Challenge),
    Authenticate(Authenticate),
    Goodbye(Goodbye),
    Error(Error),
    Publish(Publish),
    Published(Published),
    Subscribe(Subscribe),
    Subscribed(Subscribed),
    Unsubscribe(Unsubscribe),
    Unsubscribed(Unsubscribed),
    Event(Event),
    Call(Call),
    Cancel(Cancel),
    Result(Result_),
    Register(Register),
    Registered(Registered),
    Unregister(Unregister),
    Unregistered(Unregistered),
    Invocation(Invocation),
    Interrupt(Interrupt),
    Yield(Yield),
}

/// The model of a [`WampMessage`].
pub enum WampMessageView {
    Hello(HelloView),
    Welcome(WelcomeView),
    Abort(AbortView),
    Challenge(ChallengeView),
    Authenticate(AuthenticateView),
    Goodbye(GoodbyeView),
    Error(ErrorView),
    Publish(PublishView),
    Published(PublishedView),
    Subscribe(SubscribeView),
    Subscribed(SubscribedView),
    Unsubscribe(UnsubscribeView),
    Unsubscribed(UnsubscribedView),
    Event(EventView),
    Call(CallView),
    Cancel(CancelView),
    Result(ResultView),
    Register(RegisterView),
    Registered(RegisteredView),
    Unregister(UnregisterView),
    Unregistered(UnregisteredView),
    Invocation(InvocationView),
    Interrupt(InterruptView),
    Yield(YieldView),
}

impl View for WampMessage {
    type V = WampMessageView;

    open spec fn view(&self) -> WampMessageView {
        match self {
            WampMessage::Hello(m) => WampMessageView::Hello(m@),
            WampMessage::Welcome(m) => WampMessageView::Welcome(m@),
            WampMessage::Abort(m) => WampMessageView::Abort(m@),
            WampMessage::Challenge(m) => WampMessageView::Challenge(m@),
            WampMessage::Authenticate(m) => WampMessageView::Authenticate(m@),
            WampMessage::Goodbye(m) => WampMessageView::Goodbye(m@),
            WampMessage::Error(m) => WampMessageView::Error(m@),
            WampMessage::Publish(m) => WampMessageView::Publish(m@),
            WampMessage::Published(m) => WampMessageView::Published(m@),
            WampMessage::Subscribe(m) => WampMessageView::Subscribe(m@),
            WampMessage::Subscribed(m) => WampMessageView::Subscribed(m@),
            WampMessage::Unsubscribe(m) => WampMessageView::Unsubscribe(m@),
            WampMessage::Unsubscribed(m) => WampMessageView::Unsubscribed(m@),
            WampMessage::Event(m) => WampMessageView::Event(m@),
            WampMessage::Call(m) => WampMessageView::Call(m@),
            WampMessage::Cancel(m) => WampMessageView::Cancel(m@),
            WampMessage::Result(m) => WampMessageView::Result(m@),
            WampMessage::Register(m) => WampMessageView::Register(m@),
            WampMessage::Registered(m) => WampMessageView::Registered(m@),
            WampMessage::Unregister(m) => WampMessageView::Unregister(m@),
            WampMessage::Unregistered(m) => WampMessageView::Unregistered(m@),
            WampMessage::Invocation(m) => WampMessageView::Invocation(m@),
            WampMessage::Interrupt(m) => WampMessageView::Interrupt(m@),
            WampMessage::Yield(m) => WampMessageView::Yield(m@),
        }
    }
}

impl WampMessageView {
    /// The integer that identifies the kind of the message.
    pub open spec fn tag(self) -> i64 {
        match self {
            WampMessageView::Hello(_) => 1,
            WampMessageView::Welcome(_) => 2,
            WampMessageView::Abort(_) => 3,
            WampMessageView::Challenge(_) => 4,
            WampMessageView::Authenticate(_) => 5,
            WampMessageView::Goodbye(_) => 6,
            WampMessageView::Error(_) => 8,
            WampMessageView::Publish(_) => 16,
            WampMessageView::Published(_) => 17,
            WampMessageView::Subscribe(_) => 32,
            WampMessageView::Subscribed(_) => 33,
            WampMessageView::Unsubscribe(_) => 34,
            WampMessageView::Unsubscribed(_) => 35,
            WampMessageView::Event(_) => 36,
            WampMessageView::Call(_) => 48,
            WampMessageView::Cancel(_) => 49,
            WampMessageView::Result(_) => 50,
            WampMessageView::Register(_) => 64,
            WampMessageView::Registered(_) => 65,
            WampMessageView::Unregister(_) => 66,
            WampMessageView::Unregistered(_) => 67,
            WampMessageView::Invocation(_) => 68,
            WampMessageView::Interrupt(_) => 69,
            WampMessageView::Yield(_) => 70,
        }
    }

    /// The name of the kind of the message.
    pub open spec fn name(self) -> Seq<char> {
        match self {
            WampMessageView::Hello(_) => "HELLO"@,
            WampMessageView::Welcome(_) => "WELCOME"@,
            WampMessageView::Abort(_) => "ABORT"@,
            WampMessageView::Challenge(_) => "CHALLENGE"@,
            WampMessageView::Authenticate(_) => "AUTHENTICATE"@,
            WampMessageView::Goodbye(_) => "GOODBYE"@,
            WampMessageView::Error(_) => "ERROR"@,
            WampMessageView::Publish(_) => "PUBLISH"@,
            WampMessageView::Published(_) => "PUBLISHED"@,
            WampMessageView::Subscribe(_) => "SUBSCRIBE"@,
            WampMessageView::Subscribed(_) => "SUBSCRIBED"@,
            WampMessageView::Unsubscribe(_) => "UNSUBSCRIBE"@,
            WampMessageView::Unsubscribed(_) => "UNSUBSCRIBED"@,
            WampMessageView::Event(_) => "EVENT"@,
            WampMessageView::Call(_) => "CALL"@,
            WampMessageView::Cancel(_) => "CANCEL"@,
            WampMessageView::Result(_) => "RESULT"@,
            WampMessageView::Register(_) => "REGISTER"@,
            WampMessageView::Registered(_) => "REGISTERED"@,
            WampMessageView::Unregister(_) => "UNREGISTER"@,
            WampMessageView::Unregistered(_) => "UNREGISTERED"@,
            WampMessageView::Invocation(_) => "INVOCATION"@,
            WampMessageView::Interrupt(_) => "INTERRUPT"@,
            WampMessageView::Yield(_) => "YIELD"@,
        }
    }

    /// The value list that stands for the message.
    pub open spec fn wire(self) -> Seq<ValueView> {
        match self {
            WampMessageView::Hello(m) => Hello::wire(m),
            WampMessageView::Welcome(m) => Welcome::wire(m),
            WampMessageView::Abort(m) => Abort::wire(m),
            WampMessageView::Challenge(m) => Challenge::wire(m),
            WampMessageView::Authenticate(m) => Authenticate::wire(m),
            WampMessageView::Goodbye(m) => Goodbye::wire(m),
            WampMessageView::Error(m) => Error::wire(m),
            WampMessageView::Publish(m) => Publish::wire(m),
            WampMessageView::Published(m) => Published::wire(m),
            WampMessageView::Subscribe(m) => Subscribe::wire(m),
            WampMessageView::Subscribed(m) => Subscribed::wire(m),
            WampMessageView::Unsubscribe(m) => Unsubscribe::wire(m),
            WampMessageView::Unsubscribed(m) => Unsubscribed::wire(m),
            WampMessageView::Event(m) => Event::wire(m),
            WampMessageView::Call(m) => Call::wire(m),
            WampMessageView::Cancel(m) => Cancel::wire(m),
            WampMessageView::Result(m) => Result_::wire(m),
            WampMessageView::Register(m) => Register::wire(m),
            WampMessageView::Registered(m) => Registered::wire(m),
            WampMessageView::Unregister(m) => Unregister::wire(m),
            WampMessageView::Unregistered(m) => Unregistered::wire(m),
            WampMessageView::Invocation(m) => Invocation::wire(m),
            WampMessageView::Interrupt(m) => Interrupt::wire(m),
            WampMessageView::Yield(m) => Yield::wire(m),
        }
    }

    /// Whether the message is one that parsing can give.
    pub open spec fn valid(self) -> bool {
        match self {
            WampMessageView::Hello(m) => Hello::valid(m),
            WampMessageView::Welcome(m) => Welcome::valid(m),
            WampMessageView::Abort(m) => Abort::valid(m),
            WampMessageView::Challenge(m) => Challenge::valid(m),
            WampMessageView::Authenticate(m) => Authenticate::valid(m),
            WampMessageView::Goodbye(m) => Goodbye::valid(m),
            WampMessageView::Error(m) => Error::valid(m),
            WampMessageView::Publish(m) => Publish::valid(m),
            WampMessageView::Published(m) => Published::valid(m),
            WampMessageView::Subscribe(m) => Subscribe::valid(m),
            WampMessageView::Subscribed(m) => Subscribed::valid(m),
            WampMessageView::Unsubscribe(m) => Unsubscribe::valid(m),
            WampMessageView::Unsubscribed(m) => Unsubscribed::valid(m),
            WampMessageView::Event(m) => Event::valid(m),
            WampMessageView::Call(m) => Call::valid(m),
            WampMessageView::Cancel(m) => Cancel::valid(m),
            WampMessageView::Result(m) => Result_::valid(m),
            WampMessageView::Register(m) => Register::valid(m),
            WampMessageView::Registered(m) => Registered::valid(m),
            WampMessageView::Unregister(m) => Unregister::valid(m),
            WampMessageView::Unregistered(m) => Unregistered::valid(m),
            WampMessageView::Invocation(m) => Invocation::valid(m),
            WampMessageView::Interrupt(m) => Interrupt::valid(m),
            WampMessageView::Yield(m) => Yield::valid(m),
        }
    }

    /// A marshalled message of any kind begins with its tag.
    pub proof fn tag_first(self)
        ensures
            self.wire().len() > 0,
            self.wire()[0] == ValueView::Int(self.tag()),
    {
        match self {
            WampMessageView::Hello(m) => Hello::tag_first(m),
            WampMessageView::Welcome(m) => Welcome::tag_first(m),
            WampMessageView::Abort(m) => Abort::tag_first(m),
            WampMessageView::Challenge(m) => Challenge::tag_first(m),
            WampMessageView::Authenticate(m) => Authenticate::tag_first(m),
            WampMessageView::Goodbye(m) => Goodbye::tag_first(m),
            WampMessageView::Error(m) => Error::tag_first(m),
            WampMessageView::Publish(m) => Publish::tag_first(m),
            WampMessageView::Published(m) => Published::tag_first(m),
            WampMessageView::Subscribe(m) => Subscribe::tag_first(m),
            WampMessageView::Subscribed(m) => Subscribed::tag_first(m),
            WampMessageView::Unsubscribe(m) => Unsubscribe::tag_first(m),
            WampMessageView::Unsubscribed(m) => Unsubscribed::tag_first(m),
            WampMessageView::Event(m) => Event::tag_first(m),
            WampMessageView::Call(m) => Call::tag_first(m),
            WampMessageView::Cancel(m) => Cancel::tag_first(m),
            WampMessageView::Result(m) => Result_::tag_first(m),
            WampMessageView::Register(m) => Register::tag_first(m),
            WampMessageView::Registered(m) => Registered::tag_first(m),
            WampMessageView::Unregister(m) => Unregister::tag_first(m),
            WampMessageView::Unregistered(m) => Unregistered::tag_first(m),
            WampMessageView::Invocation(m) => Invocation::tag_first(m),
            WampMessageView::Interrupt(m) => Interrupt::tag_first(m),
            WampMessageView::Yield(m) => Yield::tag_first(m),
        }
    }
}

impl WampMessage {
    /// The tag of the message, as a value.
    pub fn message_type(&self) -> (r: Value)
        ensures
            r@ == ValueView::Int(self@.tag()),
    {
        match self {
            WampMessage::Hello(m) => m.message_type(),
            WampMessage::Welcome(m) => m.message_type(),
            WampMessage::Abort(m) => m.message_type(),
            WampMessage::Challenge(m) => m.message_type(),
            WampMessage::Authenticate(m) => m.message_type(),
            WampMessage::Goodbye(m) => m.message_type(),
            WampMessage::Error(m) => m.message_type(),
            WampMessage::Publish(m) => m.message_type(),
            WampMessage::Published(m) => m.message_type(),
            WampMessage::Subscribe(m) => m.message_type(),
            WampMessage::Subscribed(m) => m.message_type(),
            WampMessage::Unsubscribe(m) => m.message_type(),
            WampMessage::Unsubscribed(m) => m.message_type(),
            WampMessage::Event(m) => m.message_type(),
            WampMessage::Call(m) => m.message_type(),
            WampMessage::Cancel(m) => m.message_type(),
            WampMessage::Result(m) => m.message_type(),
            WampMessage::Register(m) => m.message_type(),
            WampMessage::Registered(m) => m.message_type(),
            WampMessage::Unregister(m) => m.message_type(),
            WampMessage::Unregistered(m) => m.message_type(),
            WampMessage::Invocation(m) => m.message_type(),
            WampMessage::Interrupt(m) => m.message_type(),
            WampMessage::Yield(m) => m.message_type(),
        }
    }

    /// The tag of the message.
    pub fn tag(&self) -> (r: i64)
        ensures
            r == self@.tag(),
    {
        match self {
            WampMessage::Hello(_) => 1,
            WampMessage::Welcome(_) => 2,
            WampMessage::Abort(_) => 3,
            WampMessage::Challenge(_) => 4,
            WampMessage::Authenticate(_) => 5,
            WampMessage::Goodbye(_) => 6,
            WampMessage::Error(_) => 8,
            WampMessage::Publish(_) => 16,
            WampMessage::Published(_) => 17,
            WampMessage::Subscribe(_) => 32,
            WampMessage::Subscribed(_) => 33,
            WampMessage::Unsubscribe(_) => 34,
            WampMessage::Unsubscribed(_) => 35,
            WampMessage::Event(_) => 36,
            WampMessage::Call(_) => 48,
            WampMessage::Cancel(_) => 49,
            WampMessage::Result(_) => 50,
            WampMessage::Register(_) => 64,
            WampMessage::Registered(_) => 65,
            WampMessage::Unregister(_) => 66,
            WampMessage::Unregistered(_) => 67,
            WampMessage::Invocation(_) => 68,
            WampMessage::Interrupt(_) => 69,
            WampMessage::Yield(_) => 70,
        }
    }

    /// The name of the kind of the message.
    pub fn name(&self) -> (r: &'static str)
        ensures
            r@ == self@.name(),
    {
        match self {
            WampMessage::Hello(_) => MESSAGE_NAME_HELLO,
            WampMessage::Welcome(_) => MESSAGE_NAME_WELCOME,
            WampMessage::Abort(_) => MESSAGE_NAME_ABORT,
            WampMessage::Challenge(_) => MESSAGE_NAME_CHALLENGE,
            WampMessage::Authenticate(_) => MESSAGE_NAME_AUTHENTICATE,
            WampMessage::Goodbye(_) => MESSAGE_NAME_GOODBYE,
            WampMessage::Error(_) => MESSAGE_NAME_ERROR,
            WampMessage::Publish(_) => MESSAGE_NAME_PUBLISH,
            WampMessage::Published(_) => MESSAGE_NAME_PUBLISHED,
            WampMessage::Subscribe(_) => MESSAGE_NAME_SUBSCRIBE,
            WampMessage::Subscribed(_) => MESSAGE_NAME_SUBSCRIBED,
            WampMessage::Unsubscribe(_) => MESSAGE_NAME_UNSUBSCRIBE,
            WampMessage::Unsubscribed(_) => MESSAGE_NAME_UNSUBSCRIBED,
            WampMessage::Event(_) => MESSAGE_NAME_EVENT,
            WampMessage::Call(_) => MESSAGE_NAME_CALL,
            WampMessage::Cancel(_) => MESSAGE_NAME_CANCEL,
            WampMessage::Result(_) => MESSAGE_NAME_RESULT,
            WampMessage::Register(_) => MESSAGE_NAME_REGISTER,
            WampMessage::Registered(_) => MESSAGE_NAME_REGISTERED,
            WampMessage::Unregister(_) => MESSAGE_NAME_UNREGISTER,
            WampMessage::Unregistered(_) => MESSAGE_NAME_UNREGISTERED,
            WampMessage::Invocation(_) => MESSAGE_NAME_INVOCATION,
            WampMessage::Interrupt(_) => MESSAGE_NAME_INTERRUPT,
            WampMessage::Yield(_) => MESSAGE_NAME_YIELD,
        }
    }

    /// The value list that stands for the message.
    pub fn marshal(&self) -> (r: Vec<Value>)
        ensures
            list_view(r@) == self@.wire(),
    {
        match self {
            WampMessage::Hello(m) => m.marshal(),
            WampMessage::Welcome(m) => m.marshal(),
            WampMessage::Abort(m) => m.marshal(),
            WampMessage::Challenge(m) => m.marshal(),
            WampMessage::Authenticate(m) => m.marshal(),
            WampMessage::Goodbye(m) => m.marshal(),
            WampMessage::Error(m) => m.marshal(),
            WampMessage::Publish(m) => m.marshal(),
            WampMessage::Published(m) => m.marshal(),
            WampMessage::Subscribe(m) => m.marshal(),
            WampMessage::Subscribed(m) => m.marshal(),
            WampMessage::Unsubscribe(m) => m.marshal(),
            WampMessage::Unsubscribed(m) => m.marshal(),
            WampMessage::Event(m) => m.marshal(),
            WampMessage::Call(m) => m.marshal(),
            WampMessage::Cancel(m) => m.marshal(),
            WampMessage::Result(m) => m.marshal(),
            WampMessage::Register(m) => m.marshal(),
            WampMessage::Registered(m) => m.marshal(),
            WampMessage::Unregister(m) => m.marshal(),
            WampMessage::Unregistered(m) => m.marshal(),
            WampMessage::Invocation(m) => m.marshal(),
            WampMessage::Interrupt(m) => m.marshal(),
            WampMessage::Yield(m) => m.marshal(),
        }
    }
}

} // verus!
