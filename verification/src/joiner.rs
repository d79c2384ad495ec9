//! The client side of joining a session: HELLO, an optional CHALLENGE and
//! AUTHENTICATE, then WELCOME.

use crate::authenticators::authenticator::ClientAuthenticator;
use crate::messages::authenticate::Authenticate;
use crate::messages::hello::{texts, Hello, HelloView};
use crate::messages::render::rendered_error;
use crate::messages::types::{
    lemma_position, outcome, Dict, DictView, Error, Value, ValueView,
};
use crate::messages::wamp_message::{WampMessage, WampMessageView};
use crate::serializers::serializer::Serializer;
use crate::session::bytes_outcome;
use crate::text::{decimal, push_decimal};
use crate::types::{SessionDetails, SessionDetailsView};
use vstd::prelude::*;

verus! {

/// How far joining has come.
#[derive(Debug, Clone, Copy, PartialEq, Eq, Structural)]
pub enum JoinState {
    /// Nothing was sent yet.
    Idle,
    /// HELLO was sent.
    HelloSent,
    /// A challenge came and AUTHENTICATE was sent.
    AuthenticateSent,
    /// WELCOME came: the session is set up.
    Joined,
}

/// The announcement of one client role: an empty set of features.
pub open spec fn role() -> ValueView {
    ValueView::Dict(seq![("features"@, ValueView::Dict(Seq::empty()))])
}

/// The roles that a client announces in HELLO: caller, callee, publisher
/// and subscriber, each with no features.
pub open spec fn client_roles() -> DictView {
    seq![("caller"@, role()), ("callee"@, role()), ("publisher"@, role()), ("subscriber"@, role())]
}

/// The names of the four roles differ from one another.
pub proof fn lemma_role_names()
    ensures
        "caller"@ != "callee"@,
        "caller"@ != "publisher"@,
        "caller"@ != "subscriber"@,
        "callee"@ != "publisher"@,
        "callee"@ != "subscriber"@,
        "publisher"@ != "subscriber"@,
{
    reveal_strlit("caller");
    reveal_strlit("callee");
    reveal_strlit("publisher");
    reveal_strlit("subscriber");
    assert("caller"@.len() == 6);
    assert("callee"@.len() == 6);
    assert("publisher"@.len() == 9);
    assert("subscriber"@.len() == 10);
    assert("caller"@[5] == 'r');
    assert("callee"@[5] == 'e');
}

fn role_entry() -> (r: Value)
    ensures
        r@ == role(),
{
    let mut inner = Dict::new();
    inner.insert(String::from_str("features"), Value::Dict(Dict::new()));
    proof {
        lemma_position(Seq::<(Seq<char>, ValueView)>::empty(), "features"@, 0);
    }
    assert(inner@ =~= seq![("features"@, ValueView::Dict(Seq::empty()))]);
    Value::Dict(inner)
}

/// The roles that a client announces in HELLO.
pub fn get_client_roles() -> (r: Dict)
    ensures
        r@ == client_roles(),
{
    proof {
        lemma_role_names();
    }
    let mut map = Dict::new();
    map.insert(String::from_str("caller"), role_entry());
    proof {
        lemma_position(Seq::<(Seq<char>, ValueView)>::empty(), "caller"@, 0);
    }
    assert(map@ =~= client_roles().take(1));
    map.insert(String::from_str("callee"), role_entry());
    proof {
        lemma_position(client_roles().take(1), "callee"@, 1);
    }
    assert(map@ =~= client_roles().take(2));
    map.insert(String::from_str("publisher"), role_entry());
    proof {
        lemma_position(client_roles().take(2), "publisher"@, 2);
    }
    assert(map@ =~= client_roles().take(3));
    map.insert(String::from_str("subscriber"), role_entry());
    proof {
        lemma_position(client_roles().take(3), "subscriber"@, 3);
    }
    assert(map@ =~= client_roles());
    map
}

pub struct Joiner<S: Serializer, A: ClientAuthenticator> {
    state: JoinState,
    realm: String,
    session_details: Option<SessionDetails>,
    serializer: S,
    authenticator: A,
}

/// The model of a [`Joiner`].
pub struct JoinerView {
    pub state: JoinState,
    /// The realm asked for in HELLO.
    pub realm: Seq<char>,
    /// What WELCOME told of the session, once it has come.
    pub session_details: Option<SessionDetailsView>,
}

/// The HELLO of a client that asks for `realm` and authenticates with `a`.
pub open spec fn hello_of<A: ClientAuthenticator>(realm: Seq<char>, a: A) -> HelloView {
    HelloView {
        realm,
        authid: a.id(),
        auth_methods: seq![a.method()],
        auth_extra: a.extra(),
        roles: client_roles(),
    }
}

/// What an incoming message comes to for a joiner that authenticates with
/// `a`: the joiner afterwards, and the message to send in reply, if any, or
/// the text of the error. An error leaves the joiner as it was.
pub open spec fn joined<A: ClientAuthenticator>(s: JoinerView, a: A, m: WampMessageView) -> (
    JoinerView,
    Result<Option<WampMessageView>, Seq<char>>,
) {
    match m {
        WampMessageView::Welcome(welcome) => if s.state != JoinState::HelloSent && s.state
            != JoinState::AuthenticateSent {
            (s, Err("received WELCOME when it was not expected"@))
        } else {
            (
                JoinerView {
                    state: JoinState::Joined,
                    realm: s.realm,
                    session_details: Some(
                        SessionDetailsView {
                            id: welcome.session_id,
                            realm: if welcome.realm.len() == 0 {
                                s.realm
                            } else {
                                welcome.realm
                            },
                            authid: welcome.authid,
                            auth_role: welcome.auth_role,
                            static_serializer: false,
                        },
                    ),
                },
                Ok(None),
            )
        },
        WampMessageView::Challenge(challenge) => if s.state != JoinState::HelloSent {
            (s, Err("received CHALLENGE when it was not expected"@))
        } else {
            match a.answer(challenge) {
                Ok(authenticate) => (
                    JoinerView { state: JoinState::AuthenticateSent, ..s },
                    Ok(Some(WampMessageView::Authenticate(authenticate))),
                ),
                Err(text) => (s, Err("failed to authenticate: "@ + rendered_error(text))),
            }
        },
        WampMessageView::Abort(abort) => (s, Err(abort.reason)),
        _ => (s, Err("received unknown message type Int("@ + decimal(m.tag() as int) + ")"@)),
    }
}

/// What taking in the outcome of decoding comes to.
pub open spec fn taken<A: ClientAuthenticator>(
    s: JoinerView,
    a: A,
    decoded: Result<WampMessageView, Seq<char>>,
) -> (JoinerView, Result<Option<WampMessageView>, Seq<char>>) {
    match decoded {
        Ok(m) => joined(s, a, m),
        Err(text) => (s, Err("failed to deserialize message: "@ + rendered_error(text))),
    }
}

/// What receiving bytes comes to, given the outcome `decoded` of decoding
/// them and the outcome `encoded` of encoding the reply, where there is
/// one: the joiner afterwards, and the bytes to send in reply, if any, or
/// the text of the error.
pub open spec fn relayed<A: ClientAuthenticator>(
    s: JoinerView,
    a: A,
    decoded: Result<WampMessageView, Seq<char>>,
    encoded: Result<Seq<u8>, Seq<char>>,
) -> (JoinerView, Result<Option<Seq<u8>>, Seq<char>>) {
    (
        taken(s, a, decoded).0,
        match taken(s, a, decoded).1 {
            Ok(Some(_)) => match encoded {
                Ok(bytes) => Ok(Some(bytes)),
                Err(text) => Err(text),
            },
            Ok(None) => Ok(None),
            Err(text) => Err(text),
        },
    )
}

/// The model of the outcome of a step of joining.
pub open spec fn reply_outcome(r: Result<Option<WampMessage>, Error>) -> Result<
    Option<WampMessageView>,
    Seq<char>,
> {
    match r {
        Ok(Some(m)) => Ok(Some(m@)),
        Ok(None) => Ok(None),
        Err(e) => Err(e.message@),
    }
}

/// The model of the outcome of receiving bytes.
pub open spec fn relay_outcome(r: Result<Option<Vec<u8>>, Error>) -> Result<
    Option<Seq<u8>>,
    Seq<char>,
> {
    match r {
        Ok(Some(bytes)) => Ok(Some(bytes@)),
        Ok(None) => Ok(None),
        Err(e) => Err(e.message@),
    }
}

impl<S: Serializer, A: ClientAuthenticator> View for Joiner<S, A> {
    type V = JoinerView;

    closed spec fn view(&self) -> JoinerView {
        JoinerView {
            state: self.state,
            realm: self.realm@,
            session_details: match self.session_details {
                Some(details) => Some(details@),
                None => None,
            },
        }
    }
}

impl<S: Serializer, A: ClientAuthenticator> Joiner<S, A> {
    /// The authenticator that the joiner answers challenges with.
    pub closed spec fn authenticator(&self) -> A {
        self.authenticator
    }

    pub fn new(realm: &str, serializer: S, authenticator: A) -> (r: Self)
        ensures
            r@ == (JoinerView {
                state: JoinState::Idle,
                realm: realm@,
                session_details: None,
            }),
            r.authenticator() == authenticator,
    {
        Joiner {
            realm: String::from_str(realm),
            state: JoinState::Idle,
            session_details: None,
            serializer,
            authenticator,
        }
    }

    /// How far joining has come.
    pub fn state(&self) -> (r: JoinState)
        ensures
            r == self@.state,
    {
        self.state
    }

    /// The HELLO that opens the handshake.
    pub fn hello(&self) -> (r: Hello)
        ensures
            r@ == hello_of(self@.realm, self.authenticator()),
    {
        let mut method: Vec<String> = Vec::new();
        method.push(self.authenticator.auth_method());
        assert(texts(method@) =~= seq![self.authenticator.method()]);
        Hello::new(
            self.realm.as_str(),
            self.authenticator.authid().as_str(),
            self.authenticator.auth_extra(),
            get_client_roles(),
            method,
        )
    }

    /// Encodes the HELLO of [`Joiner::hello`] and notes that it was sent.
    /// The result is what the serializer gave.
    pub fn send_hello(&mut self) -> (r: Result<Vec<u8>, Error>)
        ensures
            final(self)@ == (JoinerView { state: JoinState::HelloSent, ..old(self)@ }),
            final(self).authenticator() == old(self).authenticator(),
    {
        let hello = WampMessage::Hello(self.hello());
        let raw_bytes = self.serializer.serialize(&hello);
        self.state = JoinState::HelloSent;
        raw_bytes
    }

    /// Decodes `data`, takes the message in, and encodes the reply where
    /// there is one. The serializer decides what is decoded and encoded;
    /// whatever it gives, the joiner and the result are as `relayed` says.
    pub fn receive(&mut self, data: Vec<u8>) -> (r: Result<Option<Vec<u8>>, Error>)
        ensures
            exists|decoded: Result<WampMessageView, Seq<char>>, encoded: Result<Seq<u8>, Seq<char>>|
                (final(self)@, relay_outcome(r)) == relayed(
                    old(self)@,
                    old(self).authenticator(),
                    decoded,
                    encoded,
                ),
            final(self).authenticator() == old(self).authenticator(),
    {
        let decoded = self.serializer.deserialize(data);
        let ghost decoded_view = outcome(decoded);
        match self.take(decoded) {
            Ok(Some(msg_out)) => {
                let encoded = self.serializer.serialize(&msg_out);
                let ghost encoded_view = bytes_outcome(encoded);
                let r = match encoded {
                    Ok(bytes) => Ok(Some(bytes)),
                    Err(e) => Err(e),
                };
                assert((self@, relay_outcome(r)) == relayed(
                    old(self)@,
                    old(self).authenticator(),
                    decoded_view,
                    encoded_view,
                ));
                r
            },
            Ok(None) => {
                assert((self@, relay_outcome(Ok(None))) == relayed(
                    old(self)@,
                    old(self).authenticator(),
                    decoded_view,
                    Ok(Seq::empty()),
                ));
                Ok(None)
            },
            Err(e) => {
                assert((self@, relay_outcome(Err(e))) == relayed(
                    old(self)@,
                    old(self).authenticator(),
                    decoded_view,
                    Ok(Seq::empty()),
                ));
                Err(e)
            },
        }
    }

    /// Takes in the outcome of decoding: a message goes through
    /// [`Joiner::receive_message`], a failure becomes the error of the
    /// step.
    pub fn take(&mut self, decoded: Result<WampMessage, Error>) -> (r: Result<
        Option<WampMessage>,
        Error,
    >)
        ensures
            (final(self)@, reply_outcome(r)) == taken(
                old(self)@,
                old(self).authenticator(),
                outcome(decoded),
            ),
            final(self).authenticator() == old(self).authenticator(),
    {
        match decoded {
            Ok(msg_in) => self.receive_message(msg_in),
            Err(e) => Err(Error::joined("failed to deserialize message: ", e.render().as_str())),
        }
    }

    /// Takes one step of the handshake on an incoming message.
    pub fn receive_message(&mut self, msg: WampMessage) -> (r: Result<Option<WampMessage>, Error>)
        ensures
            (final(self)@, reply_outcome(r)) == joined(
                old(self)@,
                old(self).authenticator(),
                msg@,
            ),
            final(self).authenticator() == old(self).authenticator(),
    {
        match msg {
            WampMessage::Welcome(welcome) => {
                if self.state != JoinState::HelloSent && self.state
                    != JoinState::AuthenticateSent {
                    Err(Error::text("received WELCOME when it was not expected"))
                } else {
                    let realm = if welcome.realm.as_str().is_empty() {
                        self.realm.clone()
                    } else {
                        welcome.realm
                    };
                    let details = SessionDetails::new(
                        welcome.session_id,
                        realm,
                        welcome.authid,
                        welcome.auth_role,
                        false,
                    );
                    self.session_details = Some(details);
                    self.state = JoinState::Joined;
                    Ok(None)
                }
            },
            WampMessage::Challenge(challenge) => {
                if self.state != JoinState::HelloSent {
                    Err(Error::text("received CHALLENGE when it was not expected"))
                } else {
                    match self.authenticator.authenticate(&challenge) {
                        Ok(authenticate) => {
                            self.state = JoinState::AuthenticateSent;
                            Ok(Some(WampMessage::Authenticate(authenticate)))
                        },
                        Err(e) => Err(
                            Error::joined("failed to authenticate: ", e.render().as_str()),
                        ),
                    }
                }
            },
            WampMessage::Abort(abort) => Err(Error::new(abort.reason)),
            other => {
                let mut message = String::from_str("received unknown message type Int(");
                push_decimal(&mut message, other.tag());
                message.append(")");
                Err(Error::new(message))
            },
        }
    }

    /// What WELCOME told of the session; an error before it has come.
    pub fn session_details(&self) -> (r: Result<Option<&SessionDetails>, Error>)
        ensures
            match r {
                Ok(Some(details)) => self@.session_details == Some(details@),
                Ok(None) => false,
                Err(e) => self@.session_details is None && e.message@
                    == "session is not setup yet"@,
            },
    {
        if self.session_details.is_none() {
            Err(Error::text("session is not setup yet"))
        } else {
            Ok(self.session_details.as_ref())
        }
    }
}

} // verus!
