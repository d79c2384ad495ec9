//! Request bookkeeping of an established session: which requests are in
//! flight, which registrations and subscriptions are held, and whether an
//! incoming message answers anything that was asked.

use crate::messages::call::CallView;
use crate::messages::error::ErrorView;
use crate::messages::invocation::InvocationView;
use crate::messages::registered::RegisteredView;
use crate::messages::result::ResultView;
use crate::messages::unsubscribe::UnsubscribeView;
use crate::messages::types::{lookup, outcome, shown, Error, Value, ValueView};
use crate::messages::wamp_message::{WampMessage, WampMessageView};
use crate::serializers::serializer::Serializer;
use crate::text::decimal;
use std::collections::{HashMap, HashSet};
use vstd::prelude::*;

verus! {

pub struct Session<S: Serializer> {
    serializer: S,
    call_requests: HashSet<i64>,
    register_requests: HashSet<i64>,
    registrations: HashSet<i64>,
    invocation_requests: HashSet<i64>,
    unregister_requests: HashMap<i64, i64>,
    publish_requests: HashSet<i64>,
    subscribe_requests: HashSet<i64>,
    subscriptions: HashSet<i64>,
    unsubscribe_requests: HashMap<i64, i64>,
}

/// The model of a [`Session`]: its correlation sets and maps.
pub struct SessionView {
    /// The ids of the calls that await a result.
    pub call_requests: Set<i64>,
    /// The ids of the registrations asked for.
    pub register_requests: Set<i64>,
    /// The ids of the registrations held.
    pub registrations: Set<i64>,
    /// The ids of the invocations that await our answer.
    pub invocation_requests: Set<i64>,
    /// From the id of a request to unregister to the registration it names.
    pub unregister_requests: Map<i64, i64>,
    /// The ids of the publications that await an acknowledgement.
    pub publish_requests: Set<i64>,
    /// The ids of the subscriptions asked for.
    pub subscribe_requests: Set<i64>,
    /// The ids of the subscriptions held.
    pub subscriptions: Set<i64>,
    /// From the id of a request to unsubscribe to the subscription it names.
    pub unsubscribe_requests: Map<i64, i64>,
}

/// The session in which nothing is in flight and nothing is held.
pub open spec fn fresh() -> SessionView {
    SessionView {
        call_requests: Set::empty(),
        register_requests: Set::empty(),
        registrations: Set::empty(),
        invocation_requests: Set::empty(),
        unregister_requests: Map::empty(),
        publish_requests: Set::empty(),
        subscribe_requests: Set::empty(),
        subscriptions: Set::empty(),
        unsubscribe_requests: Map::empty(),
    }
}

/// Whether a PUBLISH with these options asks for an acknowledgement.
pub open spec fn acknowledged(options: Seq<(Seq<char>, ValueView)>) -> bool {
    lookup(options, "acknowledge"@) == Some(ValueView::Bool(true))
}

/// What sending `m` comes to once the serializer has given `encoded`: the
/// session afterwards, and the bytes to hand to the transport or the text
/// of the error. Nothing is recorded where the serializer failed or the
/// message may not be sent.
pub open spec fn sent(
    s: SessionView,
    m: WampMessageView,
    encoded: Result<Seq<u8>, Seq<char>>,
) -> (SessionView, Result<Seq<u8>, Seq<char>>) {
    match encoded {
        Err(text) => (s, Err("failed to serialize "@ + shown(text))),
        Ok(bytes) => match m {
            WampMessageView::Call(call) => (
                SessionView { call_requests: s.call_requests.insert(call.request_id), ..s },
                Ok(bytes),
            ),
            WampMessageView::Yield(y) => (
                SessionView {
                    invocation_requests: s.invocation_requests.remove(y.request_id),
                    ..s
                },
                Ok(bytes),
            ),
            WampMessageView::Register(register) => (
                SessionView {
                    register_requests: s.register_requests.insert(register.request_id),
                    ..s
                },
                Ok(bytes),
            ),
            WampMessageView::Unregister(unregister) => (
                SessionView {
                    unregister_requests: s.unregister_requests.insert(
                        unregister.request_id,
                        unregister.registration_id,
                    ),
                    ..s
                },
                Ok(bytes),
            ),
            WampMessageView::Publish(publish) => if acknowledged(publish.options) {
                (
                    SessionView {
                        publish_requests: s.publish_requests.insert(publish.request_id),
                        ..s
                    },
                    Ok(bytes),
                )
            } else {
                (s, Ok(bytes))
            },
            WampMessageView::Subscribe(subscribe) => (
                SessionView {
                    subscribe_requests: s.subscribe_requests.insert(subscribe.request_id),
                    ..s
                },
                Ok(bytes),
            ),
            WampMessageView::Unsubscribe(unsubscribe) => if s.subscriptions.contains(
                unsubscribe.subscription_id,
            ) {
                (
                    SessionView {
                        unsubscribe_requests: s.unsubscribe_requests.insert(
                            unsubscribe.request_id,
                            unsubscribe.subscription_id,
                        ),
                        ..s
                    },
                    Ok(bytes),
                )
            } else {
                (
                    s,
                    Err(
                        "unsubscribe request for non existent subscription "@ + decimal(
                            unsubscribe.subscription_id as int,
                        ),
                    ),
                )
            },
            WampMessageView::Error(error) => if error.message_type != 68 {
                (s, Err("error message can only be sent for message_type=INVOCATION"@))
            } else {
                (
                    SessionView {
                        invocation_requests: s.invocation_requests.remove(error.request_id),
                        ..s
                    },
                    Ok(bytes),
                )
            },
            WampMessageView::Goodbye(_) => (s, Ok(bytes)),
            _ => (s, Err("send not supported for message of type "@ + m.name())),
        },
    }
}

/// What an incoming ERROR comes to: it must name a kind of request that
/// this side sends and an id of that kind that is in flight; the request
/// is then closed.
pub open spec fn received_error(s: SessionView, error: ErrorView) -> (
    SessionView,
    Result<(), Seq<char>>,
) {
    let id = error.request_id;
    if error.message_type == 48 {
        if s.call_requests.contains(id) {
            (SessionView { call_requests: s.call_requests.remove(id), ..s }, Ok(()))
        } else {
            (s, Err("received ERROR for invalid call request"@))
        }
    } else if error.message_type == 64 {
        if s.register_requests.contains(id) {
            (SessionView { register_requests: s.register_requests.remove(id), ..s }, Ok(()))
        } else {
            (s, Err("received ERROR for invalid register request"@))
        }
    } else if error.message_type == 66 {
        if s.unregister_requests.contains_key(id) {
            (SessionView { unregister_requests: s.unregister_requests.remove(id), ..s }, Ok(()))
        } else {
            (s, Err("received ERROR for invalid unregister request"@))
        }
    } else if error.message_type == 32 {
        if s.subscribe_requests.contains(id) {
            (SessionView { subscribe_requests: s.subscribe_requests.remove(id), ..s }, Ok(()))
        } else {
            (s, Err("received ERROR for invalid subscribe request"@))
        }
    } else if error.message_type == 34 {
        if s.unsubscribe_requests.contains_key(id) {
            (
                SessionView { unsubscribe_requests: s.unsubscribe_requests.remove(id), ..s },
                Ok(()),
            )
        } else {
            (s, Err("received ERROR for invalid unsubscribe request"@))
        }
    } else if error.message_type == 16 {
        if s.publish_requests.contains(id) {
            (SessionView { publish_requests: s.publish_requests.remove(id), ..s }, Ok(()))
        } else {
            (s, Err("received ERROR for invalid publish request"@))
        }
    } else {
        (s, Err("unknown error message type Int(8)"@))
    }
}

/// What an incoming message comes to: the session afterwards, and
/// whether the message was in order or the text of the error.
///
/// A request to unregister or to unsubscribe is closed by its
/// acknowledgement even where the registration or subscription it names is
/// not held; a request to subscribe stays open when it is acknowledged.
pub open spec fn received(s: SessionView, m: WampMessageView) -> (
    SessionView,
    Result<(), Seq<char>>,
) {
    match m {
        WampMessageView::Result(result) => if s.call_requests.contains(result.request_id) {
            (SessionView { call_requests: s.call_requests.remove(result.request_id), ..s }, Ok(()))
        } else {
            (
                s,
                Err(
                    "received RESULT for invalid request_id "@ + decimal(
                        result.request_id as int,
                    ),
                ),
            )
        },
        WampMessageView::Registered(registered) => if s.register_requests.contains(
            registered.request_id,
        ) {
            (
                SessionView {
                    register_requests: s.register_requests.remove(registered.request_id),
                    registrations: s.registrations.insert(registered.registration_id),
                    ..s
                },
                Ok(()),
            )
        } else {
            (
                s,
                Err(
                    "received REGISTERED for invalid request_id "@ + decimal(
                        registered.request_id as int,
                    ),
                ),
            )
        },
        WampMessageView::Unregistered(unregistered) => if s.unregister_requests.contains_key(
            unregistered.request_id,
        ) {
            let registration = s.unregister_requests[unregistered.request_id];
            let closed = SessionView {
                unregister_requests: s.unregister_requests.remove(unregistered.request_id),
                ..s
            };
            if s.registrations.contains(registration) {
                (
                    SessionView { registrations: s.registrations.remove(registration), ..closed },
                    Ok(()),
                )
            } else {
                (
                    closed,
                    Err(
                        "received UNREGISTERED for invalid registration_id "@ + decimal(
                            registration as int,
                        ),
                    ),
                )
            }
        } else {
            (
                s,
                Err(
                    "received UNREGISTERED for invalid request_id "@ + decimal(
                        unregistered.request_id as int,
                    ),
                ),
            )
        },
        WampMessageView::Invocation(invocation) => if s.registrations.contains(
            invocation.registration_id,
        ) {
            (
                SessionView {
                    invocation_requests: s.invocation_requests.insert(invocation.request_id),
                    ..s
                },
                Ok(()),
            )
        } else {
            (
                s,
                Err(
                    "received INVOCATION for invalid request_id "@ + decimal(
                        invocation.request_id as int,
                    ),
                ),
            )
        },
        WampMessageView::Published(published) => if s.publish_requests.contains(
            published.request_id,
        ) {
            (
                SessionView {
                    publish_requests: s.publish_requests.remove(published.request_id),
                    ..s
                },
                Ok(()),
            )
        } else {
            (
                s,
                Err(
                    "received PUBLISHED for invalid request_id "@ + decimal(
                        published.request_id as int,
                    ),
                ),
            )
        },
        WampMessageView::Subscribed(subscribed) => if s.subscribe_requests.contains(
            subscribed.request_id,
        ) {
            (
                SessionView {
                    subscriptions: s.subscriptions.insert(subscribed.subscription_id),
                    ..s
                },
                Ok(()),
            )
        } else {
            (
                s,
                Err(
                    "received SUBSCRIBED for invalid request_id "@ + decimal(
                        subscribed.request_id as int,
                    ),
                ),
            )
        },
        WampMessageView::Unsubscribed(unsubscribed) => if s.unsubscribe_requests.contains_key(
            unsubscribed.request_id,
        ) {
            let subscription = s.unsubscribe_requests[unsubscribed.request_id];
            let closed = SessionView {
                unsubscribe_requests: s.unsubscribe_requests.remove(unsubscribed.request_id),
                ..s
            };
            if s.subscriptions.contains(subscription) {
                (
                    SessionView { subscriptions: s.subscriptions.remove(subscription), ..closed },
                    Ok(()),
                )
            } else {
                (
                    closed,
                    Err(
                        "received UNSUBSCRIBED for invalid subscription_id "@ + decimal(
                            subscription as int,
                        ),
                    ),
                )
            }
        } else {
            (
                s,
                Err(
                    "received UNSUBSCRIBED for invalid request_id "@ + decimal(
                        unsubscribed.request_id as int,
                    ),
                ),
            )
        },
        WampMessageView::Event(event) => if s.subscriptions.contains(event.subscription_id) {
            (s, Ok(()))
        } else {
            (
                s,
                Err(
                    "received EVENT for invalid subscription_id "@ + decimal(
                        event.subscription_id as int,
                    ),
                ),
            )
        },
        WampMessageView::Error(error) => received_error(s, error),
        WampMessageView::Goodbye(_) => (s, Ok(())),
        _ => (
            s,
            Err("received unexpected message type Int("@ + decimal(m.tag() as int) + ")"@),
        ),
    }
}

/// The session after a run of incoming messages, whether each was in
/// order or not.
pub open spec fn received_all(s: SessionView, incoming: Seq<WampMessageView>) -> SessionView
    decreases incoming.len(),
{
    if incoming.len() == 0 {
        s
    } else {
        received(received_all(s, incoming.drop_last()), incoming.last()).0
    }
}

/// A RESULT is in order exactly where a call with its id is in flight, and
/// no call with that id is in flight afterwards.
pub proof fn result_closes_call(s: SessionView, result: ResultView)
    ensures
        received(s, WampMessageView::Result(result)).1 is Ok <==> s.call_requests.contains(
            result.request_id,
        ),
        !received(s, WampMessageView::Result(result)).0.call_requests.contains(result.request_id),
{
}

/// No incoming message opens a call: an id that is not in flight is not in
/// flight after a message was received.
pub proof fn receiving_opens_no_call(s: SessionView, m: WampMessageView, id: i64)
    requires
        !s.call_requests.contains(id),
    ensures
        !received(s, m).0.call_requests.contains(id),
{
}

/// After a CALL was sent, the first RESULT with its id is in order; after
/// that one, and whatever else is received in between, every further RESULT
/// with the same id is an error.
pub proof fn call_answered_once(
    s: SessionView,
    call: CallView,
    bytes: Seq<u8>,
    first: ResultView,
    between: Seq<WampMessageView>,
    again: ResultView,
)
    requires
        first.request_id == call.request_id,
        again.request_id == call.request_id,
    ensures
        sent(s, WampMessageView::Call(call), Ok(bytes)).1 == Ok::<Seq<u8>, Seq<char>>(bytes),
        received(
            sent(s, WampMessageView::Call(call), Ok(bytes)).0,
            WampMessageView::Result(first),
        ).1 is Ok,
        received(
            received_all(
                received(
                    sent(s, WampMessageView::Call(call), Ok(bytes)).0,
                    WampMessageView::Result(first),
                ).0,
                between,
            ),
            WampMessageView::Result(again),
        ).1 is Err,
    decreases between.len(),
{
    let asked = sent(s, WampMessageView::Call(call), Ok(bytes)).0;
    let answered = received(asked, WampMessageView::Result(first)).0;
    if between.len() > 0 {
        call_answered_once(s, call, bytes, first, between.drop_last(), again);
        receiving_opens_no_call(
            received_all(answered, between.drop_last()),
            between.last(),
            call.request_id,
        );
    }
}

/// With bytes from the serializer, an UNSUBSCRIBE is sent exactly where the
/// subscription it names is held.
pub proof fn unsubscribe_needs_subscription(s: SessionView, u: UnsubscribeView, bytes: Seq<u8>)
    ensures
        sent(s, WampMessageView::Unsubscribe(u), Ok(bytes)).1 is Ok <==> s.subscriptions.contains(
            u.subscription_id,
        ),
{
}

/// Sending leaves the subscriptions as they are.
pub proof fn sending_keeps_subscriptions(
    s: SessionView,
    m: WampMessageView,
    encoded: Result<Seq<u8>, Seq<char>>,
)
    ensures
        sent(s, m, encoded).0.subscriptions == s.subscriptions,
{
}

/// A subscription comes to be held only by a SUBSCRIBED that is in order
/// and names it.
pub proof fn subscription_gained_by_subscribed(s: SessionView, m: WampMessageView, id: i64)
    requires
        !s.subscriptions.contains(id),
        received(s, m).0.subscriptions.contains(id),
    ensures
        m matches WampMessageView::Subscribed(subscribed) && subscribed.subscription_id == id,
        received(s, m).1 is Ok,
{
}

/// A subscription ceases to be held only by an UNSUBSCRIBED that is in
/// order and answers a request that named it.
pub proof fn subscription_lost_by_unsubscribed(s: SessionView, m: WampMessageView, id: i64)
    requires
        s.subscriptions.contains(id),
        !received(s, m).0.subscriptions.contains(id),
    ensures
        m matches WampMessageView::Unsubscribed(unsubscribed)
            && s.unsubscribe_requests.contains_key(unsubscribed.request_id)
            && s.unsubscribe_requests[unsubscribed.request_id] == id,
        received(s, m).1 is Ok,
{
}

/// A REGISTERED that is in order makes the registration it names held.
pub proof fn registered_is_held(s: SessionView, registered: RegisteredView)
    requires
        received(s, WampMessageView::Registered(registered)).1 is Ok,
    ensures
        received(s, WampMessageView::Registered(registered)).0.registrations.contains(
            registered.registration_id,
        ),
{
}

/// A registration ceases to be held only by an UNREGISTERED that is in
/// order and answers a request that named it.
pub proof fn registration_lost_by_unregistered(s: SessionView, m: WampMessageView, id: i64)
    requires
        s.registrations.contains(id),
        !received(s, m).0.registrations.contains(id),
    ensures
        m matches WampMessageView::Unregistered(unregistered)
            && s.unregister_requests.contains_key(unregistered.request_id)
            && s.unregister_requests[unregistered.request_id] == id,
        received(s, m).1 is Ok,
{
}

/// Sending leaves the registrations as they are.
pub proof fn sending_keeps_registrations(
    s: SessionView,
    m: WampMessageView,
    encoded: Result<Seq<u8>, Seq<char>>,
)
    ensures
        sent(s, m, encoded).0.registrations == s.registrations,
{
}

/// An INVOCATION that is in order awaits our answer.
pub proof fn invocation_is_pending(s: SessionView, invocation: InvocationView)
    requires
        received(s, WampMessageView::Invocation(invocation)).1 is Ok,
    ensures
        received(s, WampMessageView::Invocation(invocation)).0.invocation_requests.contains(
            invocation.request_id,
        ),
{
}

/// An invocation that awaits our answer does so after any incoming
/// message.
pub proof fn receiving_keeps_invocations(s: SessionView, m: WampMessageView, id: i64)
    requires
        s.invocation_requests.contains(id),
    ensures
        received(s, m).0.invocation_requests.contains(id),
{
}

/// An invocation ceases to await our answer only when a YIELD with its id,
/// or an ERROR for INVOCATION with its id, is sent.
pub proof fn invocation_closed_by_answer(
    s: SessionView,
    m: WampMessageView,
    encoded: Result<Seq<u8>, Seq<char>>,
    id: i64,
)
    requires
        s.invocation_requests.contains(id),
        !sent(s, m, encoded).0.invocation_requests.contains(id),
    ensures
        sent(s, m, encoded).1 is Ok,
        match m {
            WampMessageView::Yield(y) => y.request_id == id,
            WampMessageView::Error(error) => error.message_type == 68 && error.request_id == id,
            _ => false,
        },
{
}

/// Two sessions whose sets and maps hold the same are the same.
pub proof fn lemma_same_session(a: SessionView, b: SessionView)
    requires
        a.call_requests =~= b.call_requests,
        a.register_requests =~= b.register_requests,
        a.registrations =~= b.registrations,
        a.invocation_requests =~= b.invocation_requests,
        a.unregister_requests =~= b.unregister_requests,
        a.publish_requests =~= b.publish_requests,
        a.subscribe_requests =~= b.subscribe_requests,
        a.subscriptions =~= b.subscriptions,
        a.unsubscribe_requests =~= b.unsubscribe_requests,
    ensures
        a == b,
{
}

/// The model of the outcome of sending: the bytes, or the text of the
/// error.
pub open spec fn bytes_outcome(r: Result<Vec<u8>, Error>) -> Result<Seq<u8>, Seq<char>> {
    match r {
        Ok(bytes) => Ok(bytes@),
        Err(e) => Err(e.message@),
    }
}

/// The model of the outcome of receiving: in order, or the text of the
/// error.
pub open spec fn unit_outcome(r: Result<(), Error>) -> Result<(), Seq<char>> {
    match r {
        Ok(_) => Ok(()),
        Err(e) => Err(e.message@),
    }
}

/// What taking in the outcome of decoding comes to: a decoded message is
/// held against the bookkeeping and handed on where it is in order.
pub open spec fn accepted(s: SessionView, decoded: Result<WampMessageView, Seq<char>>) -> (
    SessionView,
    Result<WampMessageView, Seq<char>>,
) {
    match decoded {
        Err(text) => (s, Err("failed to deserialize "@ + shown(text))),
        Ok(m) => match received(s, m).1 {
            Ok(_) => (received(s, m).0, Ok(m)),
            Err(text) => (received(s, m).0, Err("failed to deserialize "@ + shown(text))),
        },
    }
}

impl<S: Serializer> View for Session<S> {
    type V = SessionView;

    closed spec fn view(&self) -> SessionView {
        SessionView {
            call_requests: self.call_requests@,
            register_requests: self.register_requests@,
            registrations: self.registrations@,
            invocation_requests: self.invocation_requests@,
            unregister_requests: self.unregister_requests@,
            publish_requests: self.publish_requests@,
            subscribe_requests: self.subscribe_requests@,
            subscriptions: self.subscriptions@,
            unsubscribe_requests: self.unsubscribe_requests@,
        }
    }
}

impl<S: Serializer> Session<S> {
    /// A session in which nothing is in flight and nothing is held.
    pub fn new(serializer: S) -> (r: Session<S>)
        ensures
            r@ == fresh(),
    {
        Session {
            serializer,
            call_requests: HashSet::new(),
            register_requests: HashSet::new(),
            registrations: HashSet::new(),
            invocation_requests: HashSet::new(),
            unregister_requests: HashMap::new(),
            publish_requests: HashSet::new(),
            subscribe_requests: HashSet::new(),
            subscriptions: HashSet::new(),
            unsubscribe_requests: HashMap::new(),
        }
    }

    /// Whether a call with this id awaits its result.
    pub fn is_call_pending(&self, request_id: i64) -> (r: bool)
        ensures
            r == self@.call_requests.contains(request_id),
    {
        self.call_requests.contains(&request_id)
    }

    /// Whether a request to register with this id awaits its
    /// acknowledgement.
    pub fn is_register_pending(&self, request_id: i64) -> (r: bool)
        ensures
            r == self@.register_requests.contains(request_id),
    {
        self.register_requests.contains(&request_id)
    }

    /// Whether the registration with this id is held.
    pub fn is_registered(&self, registration_id: i64) -> (r: bool)
        ensures
            r == self@.registrations.contains(registration_id),
    {
        self.registrations.contains(&registration_id)
    }

    /// The number of registrations held.
    pub fn registration_count(&self) -> (r: usize)
        ensures
            r == self@.registrations.len(),
    {
        self.registrations.len()
    }

    /// Whether an invocation with this id awaits our answer.
    pub fn is_invocation_pending(&self, request_id: i64) -> (r: bool)
        ensures
            r == self@.invocation_requests.contains(request_id),
    {
        self.invocation_requests.contains(&request_id)
    }

    /// The registration that a request to unregister with this id names,
    /// where one awaits its acknowledgement.
    pub fn unregister_pending(&self, request_id: i64) -> (r: Option<i64>)
        ensures
            match r {
                Some(registration) => self@.unregister_requests.contains_key(request_id)
                    && self@.unregister_requests[request_id] == registration,
                None => !self@.unregister_requests.contains_key(request_id),
            },
    {
        match self.unregister_requests.get(&request_id) {
            Some(registration) => Some(*registration),
            None => None,
        }
    }

    /// Whether a publication with this id awaits its acknowledgement.
    pub fn is_publish_pending(&self, request_id: i64) -> (r: bool)
        ensures
            r == self@.publish_requests.contains(request_id),
    {
        self.publish_requests.contains(&request_id)
    }

    /// Whether a request to subscribe with this id was sent and not
    /// answered by an error.
    pub fn is_subscribe_pending(&self, request_id: i64) -> (r: bool)
        ensures
            r == self@.subscribe_requests.contains(request_id),
    {
        self.subscribe_requests.contains(&request_id)
    }

    /// Whether the subscription with this id is held.
    pub fn is_subscribed(&self, subscription_id: i64) -> (r: bool)
        ensures
            r == self@.subscriptions.contains(subscription_id),
    {
        self.subscriptions.contains(&subscription_id)
    }

    /// The number of subscriptions held.
    pub fn subscription_count(&self) -> (r: usize)
        ensures
            r == self@.subscriptions.len(),
    {
        self.subscriptions.len()
    }

    /// The subscription that a request to unsubscribe with this id names,
    /// where one awaits its acknowledgement.
    pub fn unsubscribe_pending(&self, request_id: i64) -> (r: Option<i64>)
        ensures
            match r {
                Some(subscription) => self@.unsubscribe_requests.contains_key(request_id)
                    && self@.unsubscribe_requests[request_id] == subscription,
                None => !self@.unsubscribe_requests.contains_key(request_id),
            },
    {
        match self.unsubscribe_requests.get(&request_id) {
            Some(subscription) => Some(*subscription),
            None => None,
        }
    }

    /// Encodes `msg` and records what it asks for. The serializer decides
    /// the bytes; whatever it gives, the session and the result are what
    /// [`Session::record_sent`] makes of it.
    pub fn send_message(&mut self, msg: &WampMessage) -> (r: Result<Vec<u8>, Error>)
        ensures
            exists|encoded: Result<Seq<u8>, Seq<char>>|
                (final(self)@, bytes_outcome(r)) == sent(old(self)@, msg@, encoded),
    {
        let encoded = self.serializer.serialize(msg);
        let ghost witness = bytes_outcome(encoded);
        let r = self.record_sent(msg, encoded);
        assert((self@, bytes_outcome(r)) == sent(old(self)@, msg@, witness));
        r
    }

    /// Records what `msg` asks for, given the outcome `encoded` of
    /// encoding it, and hands the bytes on.
    pub fn record_sent(&mut self, msg: &WampMessage, encoded: Result<Vec<u8>, Error>) -> (r:
        Result<Vec<u8>, Error>)
        ensures
            (final(self)@, bytes_outcome(r)) == sent(old(self)@, msg@, bytes_outcome(encoded)),
    {
        let data = match encoded {
            Ok(data) => data,
            Err(e) => {
                return Err(Error::caused("failed to serialize ", &e));
            },
        };
        match msg {
            WampMessage::Call(call) => {
                self.call_requests.insert(call.request_id);
                Ok(data)
            },
            WampMessage::Yield(y) => {
                self.invocation_requests.remove(&y.request_id);
                Ok(data)
            },
            WampMessage::Register(register) => {
                self.register_requests.insert(register.request_id);
                Ok(data)
            },
            WampMessage::Unregister(unregister) => {
                self.unregister_requests.insert(unregister.request_id, unregister.registration_id);
                Ok(data)
            },
            WampMessage::Publish(publish) => {
                match publish.options.get("acknowledge") {
                    Some(Value::Bool(true)) => {
                        self.publish_requests.insert(publish.request_id);
                    },
                    _ => {},
                }
                Ok(data)
            },
            WampMessage::Subscribe(subscribe) => {
                self.subscribe_requests.insert(subscribe.request_id);
                Ok(data)
            },
            WampMessage::Unsubscribe(unsubscribe) => {
                if self.subscriptions.contains(&unsubscribe.subscription_id) {
                    self.unsubscribe_requests.insert(
                        unsubscribe.request_id,
                        unsubscribe.subscription_id,
                    );
                    Ok(data)
                } else {
                    Err(
                        Error::numbered(
                            "unsubscribe request for non existent subscription ",
                            unsubscribe.subscription_id,
                        ),
                    )
                }
            },
            WampMessage::Error(error) => {
                if error.message_type != 68 {
                    Err(Error::text("error message can only be sent for message_type=INVOCATION"))
                } else {
                    self.invocation_requests.remove(&error.request_id);
                    Ok(data)
                }
            },
            WampMessage::Goodbye(_) => Ok(data),
            _ => {
                let mut message = String::from_str("send not supported for message of type ");
                message.append(msg.name());
                Err(Error::new(message))
            },
        }
    }

    /// Decodes `data` and holds the message against the bookkeeping. The
    /// serializer decides the message; whatever it gives, the session and
    /// the result are what [`Session::accept`] makes of it.
    pub fn receive(&mut self, data: Vec<u8>) -> (r: Result<WampMessage, Error>)
        ensures
            exists|decoded: Result<WampMessageView, Seq<char>>|
                (final(self)@, outcome(r)) == accepted(old(self)@, decoded),
    {
        let decoded = self.serializer.deserialize(data);
        let ghost witness = outcome(decoded);
        let r = self.accept(decoded);
        assert((self@, outcome(r)) == accepted(old(self)@, witness));
        r
    }

    /// Holds a decoded message against the bookkeeping and hands it on
    /// where it is in order.
    pub fn accept(&mut self, decoded: Result<WampMessage, Error>) -> (r: Result<
        WampMessage,
        Error,
    >)
        ensures
            (final(self)@, outcome(r)) == accepted(old(self)@, outcome(decoded)),
    {
        match decoded {
            Ok(msg) => match self.receive_message(&msg) {
                Ok(_) => Ok(msg),
                Err(err) => Err(Error::caused("failed to deserialize ", &err)),
            },
            Err(err) => Err(Error::caused("failed to deserialize ", &err)),
        }
    }

    /// Holds an incoming message against the bookkeeping.
    pub fn receive_message(&mut self, msg: &WampMessage) -> (r: Result<(), Error>)
        ensures
            (final(self)@, unit_outcome(r)) == received(old(self)@, msg@),
    {
        let r = match msg {
            WampMessage::Result(result) => {
                if self.call_requests.contains(&result.request_id) {
                    self.call_requests.remove(&result.request_id);
                    Ok(())
                } else {
                    Err(
                        Error::numbered(
                            "received RESULT for invalid request_id ",
                            result.request_id,
                        ),
                    )
                }
            },
            WampMessage::Registered(registered) => {
                if self.register_requests.remove(&registered.request_id) {
                    self.registrations.insert(registered.registration_id);
                    Ok(())
                } else {
                    Err(
                        Error::numbered(
                            "received REGISTERED for invalid request_id ",
                            registered.request_id,
                        ),
                    )
                }
            },
            WampMessage::Unregistered(unregistered) => {
                match self.unregister_requests.remove(&unregistered.request_id) {
                    Some(registration) => {
                        if self.registrations.remove(&registration) {
                            Ok(())
                        } else {
                            Err(
                                Error::numbered(
                                    "received UNREGISTERED for invalid registration_id ",
                                    registration,
                                ),
                            )
                        }
                    },
                    None => Err(
                        Error::numbered(
                            "received UNREGISTERED for invalid request_id ",
                            unregistered.request_id,
                        ),
                    ),
                }
            },
            WampMessage::Invocation(invocation) => {
                if self.registrations.contains(&invocation.registration_id) {
                    self.invocation_requests.insert(invocation.request_id);
                    Ok(())
                } else {
                    Err(
                        Error::numbered(
                            "received INVOCATION for invalid request_id ",
                            invocation.request_id,
                        ),
                    )
                }
            },
            WampMessage::Published(published) => {
                if self.publish_requests.contains(&published.request_id) {
                    self.publish_requests.remove(&published.request_id);
                    Ok(())
                } else {
                    Err(
                        Error::numbered(
                            "received PUBLISHED for invalid request_id ",
                            published.request_id,
                        ),
                    )
                }
            },
            WampMessage::Subscribed(subscribed) => {
                if self.subscribe_requests.contains(&subscribed.request_id) {
                    self.subscriptions.insert(subscribed.subscription_id);
                    Ok(())
                } else {
                    Err(
                        Error::numbered(
                            "received SUBSCRIBED for invalid request_id ",
                            subscribed.request_id,
                        ),
                    )
                }
            },
            WampMessage::Unsubscribed(unsubscribed) => {
                match self.unsubscribe_requests.remove(&unsubscribed.request_id) {
                    Some(subscription) => {
                        if self.subscriptions.remove(&subscription) {
                            Ok(())
                        } else {
                            Err(
                                Error::numbered(
                                    "received UNSUBSCRIBED for invalid subscription_id ",
                                    subscription,
                                ),
                            )
                        }
                    },
                    None => Err(
                        Error::numbered(
                            "received UNSUBSCRIBED for invalid request_id ",
                            unsubscribed.request_id,
                        ),
                    ),
                }
            },
            WampMessage::Event(event) => {
                if self.subscriptions.contains(&event.subscription_id) {
                    Ok(())
                } else {
                    Err(
                        Error::numbered(
                            "received EVENT for invalid subscription_id ",
                            event.subscription_id,
                        ),
                    )
                }
            },
            WampMessage::Error(error) => self.receive_error(error),
            WampMessage::Goodbye(_) => Ok(()),
            _ => {
                let mut message = String::from_str("received unexpected message type Int(");
                crate::text::push_decimal(&mut message, msg.tag());
                message.append(")");
                Err(Error::new(message))
            },
        };
        proof {
            lemma_same_session(self@, received(old(self)@, msg@).0);
        }
        r
    }

    fn receive_error(&mut self, error: &crate::messages::error::Error) -> (r: Result<(), Error>)
        ensures
            (final(self)@, unit_outcome(r)) == received_error(old(self)@, error@),
    {
        let id = error.request_id;
        let r = if error.message_type == 48 {
            if self.call_requests.remove(&id) {
                Ok(())
            } else {
                Err(Error::text("received ERROR for invalid call request"))
            }
        } else if error.message_type == 64 {
            if self.register_requests.remove(&id) {
                Ok(())
            } else {
                Err(Error::text("received ERROR for invalid register request"))
            }
        } else if error.message_type == 66 {
            if self.unregister_requests.remove(&id).is_some() {
                Ok(())
            } else {
                Err(Error::text("received ERROR for invalid unregister request"))
            }
        } else if error.message_type == 32 {
            if self.subscribe_requests.remove(&id) {
                Ok(())
            } else {
                Err(Error::text("received ERROR for invalid subscribe request"))
            }
        } else if error.message_type == 34 {
            if self.unsubscribe_requests.remove(&id).is_some() {
                Ok(())
            } else {
                Err(Error::text("received ERROR for invalid unsubscribe request"))
            }
        } else if error.message_type == 16 {
            if self.publish_requests.remove(&id) {
                Ok(())
            } else {
                Err(Error::text("received ERROR for invalid publish request"))
            }
        } else {
            Err(Error::text("unknown error message type Int(8)"))
        };
        proof {
            lemma_same_session(self@, received_error(old(self)@, error@).0);
        }
        r
    }
}

} // verus!
