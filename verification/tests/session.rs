use wampproto::messages::call::Call;
use wampproto::messages::cancel::Cancel;
use wampproto::messages::error::Error as ErrorMessage;
use wampproto::messages::event::Event;
use wampproto::messages::goodbye::Goodbye;
use wampproto::messages::hello::Hello;
use wampproto::messages::invocation::Invocation;
use wampproto::messages::publish::Publish;
use wampproto::messages::published::Published;
use wampproto::messages::register::Register;
use wampproto::messages::registered::Registered;
use wampproto::messages::result::Result_;
use wampproto::messages::subscribe::Subscribe;
use wampproto::messages::subscribed::Subscribed;
use wampproto::messages::types::{Dict, Error, Value};
use wampproto::messages::unregister::Unregister;
use wampproto::messages::unregistered::Unregistered;
use wampproto::messages::unsubscribe::Unsubscribe;
use wampproto::messages::unsubscribed::Unsubscribed;
use wampproto::messages::wamp_message::WampMessage;
use wampproto::messages::yield_::Yield;
use wampproto::serializers::helpers::to_message;
use wampproto::serializers::serializer::Serializer;
use wampproto::session::Session;

/// Encodes a message as the decimal texts of the integers among its first
/// slots, which is enough to tell the messages of these tests apart.
struct Stub {
    fail: bool,
}

impl Serializer for Stub {
    fn serialize(&self, message: &WampMessage) -> Result<Vec<u8>, Error> {
        if self.fail {
            return Err(Error::text("stub refuses"));
        }
        let mut out = Vec::new();
        for v in message.marshal() {
            match v {
                Value::Int(n) => out.push(n as u8),
                _ => break,
            }
        }
        Ok(out)
    }

    fn deserialize(&self, payload: Vec<u8>) -> Result<WampMessage, Error> {
        if self.fail {
            return Err(Error::text("stub refuses"));
        }
        to_message(payload.iter().map(|b| Value::Int(*b as i64)).collect())
    }

    fn is_static(&self) -> bool {
        false
    }
}

fn session() -> Session<Stub> {
    Session::new(Stub { fail: false })
}

fn call(id: i64) -> WampMessage {
    WampMessage::Call(Call {
        request_id: id,
        options: Dict::new(),
        procedure: "p".to_string(),
        args: None,
        kwargs: None,
    })
}

fn result(id: i64) -> WampMessage {
    WampMessage::Result(Result_ { request_id: id, details: Dict::new(), args: None, kwargs: None })
}

fn register(id: i64) -> WampMessage {
    WampMessage::Register(Register { request_id: id, options: Dict::new(), procedure: "p".to_string() })
}

fn registered(id: i64, reg: i64) -> WampMessage {
    WampMessage::Registered(Registered { request_id: id, registration_id: reg })
}

fn unregister(id: i64, reg: i64) -> WampMessage {
    WampMessage::Unregister(Unregister { request_id: id, registration_id: reg })
}

fn unregistered(id: i64) -> WampMessage {
    WampMessage::Unregistered(Unregistered { request_id: id })
}

fn invocation(id: i64, reg: i64) -> WampMessage {
    WampMessage::Invocation(Invocation {
        request_id: id,
        registration_id: reg,
        details: Dict::new(),
        args: None,
        kwargs: None,
    })
}

fn yield_(id: i64) -> WampMessage {
    WampMessage::Yield(Yield { request_id: id, options: Dict::new(), args: None, kwargs: None })
}

fn publish(id: i64, acknowledge: Option<Value>) -> WampMessage {
    let mut options = Dict::new();
    if let Some(v) = acknowledge {
        options.insert("acknowledge".to_string(), v);
    }
    WampMessage::Publish(Publish {
        request_id: id,
        options,
        topic: "t".to_string(),
        args: None,
        kwargs: None,
    })
}

fn published(id: i64) -> WampMessage {
    WampMessage::Published(Published { request_id: id, publication_id: 100 })
}

fn subscribe(id: i64) -> WampMessage {
    WampMessage::Subscribe(Subscribe { request_id: id, options: Dict::new(), topic: "t".to_string() })
}

fn subscribed(id: i64, sub: i64) -> WampMessage {
    WampMessage::Subscribed(Subscribed { request_id: id, subscription_id: sub })
}

fn unsubscribe(id: i64, sub: i64) -> WampMessage {
    WampMessage::Unsubscribe(Unsubscribe { request_id: id, subscription_id: sub })
}

fn unsubscribed(id: i64) -> WampMessage {
    WampMessage::Unsubscribed(Unsubscribed { request_id: id })
}

fn event(sub: i64) -> WampMessage {
    WampMessage::Event(Event {
        subscription_id: sub,
        publication_id: 1,
        details: Dict::new(),
        args: None,
        kwargs: None,
    })
}

fn error(message_type: i64, id: i64) -> WampMessage {
    WampMessage::Error(ErrorMessage {
        message_type,
        request_id: id,
        options: Dict::new(),
        uri: "wamp.error".to_string(),
        args: None,
        kwargs: None,
    })
}

fn goodbye() -> WampMessage {
    WampMessage::Goodbye(Goodbye { details: Dict::new(), reason: "bye".to_string() })
}

fn hello() -> WampMessage {
    WampMessage::Hello(Hello::new("r", "a", Dict::new(), Dict::new(), vec![]))
}

fn failure(r: Result<(), Error>) -> String {
    r.unwrap_err().message
}

#[test]
fn new_session_tracks_nothing() {
    let s = session();
    assert!(!s.is_call_pending(1));
    assert!(!s.is_register_pending(1));
    assert!(!s.is_registered(1));
    assert!(!s.is_invocation_pending(1));
    assert_eq!(s.unregister_pending(1), None);
    assert!(!s.is_publish_pending(1));
    assert!(!s.is_subscribe_pending(1));
    assert!(!s.is_subscribed(1));
    assert_eq!(s.unsubscribe_pending(1), None);
    assert_eq!(s.registration_count(), 0);
    assert_eq!(s.subscription_count(), 0);
}

#[test]
fn registration_is_tracked_from_register_to_unregistered() {
    let mut s = session();
    assert_eq!(s.send_message(&register(1)).unwrap(), vec![64, 1]);
    assert!(s.is_register_pending(1));
    s.receive_message(&registered(1, 7)).unwrap();
    assert!(!s.is_register_pending(1));
    assert!(s.is_registered(7));
    assert_eq!(s.registration_count(), 1);

    s.receive_message(&invocation(9, 7)).unwrap();
    assert!(s.is_invocation_pending(9));
    s.send_message(&yield_(9)).unwrap();
    assert!(!s.is_invocation_pending(9));

    s.send_message(&unregister(2, 7)).unwrap();
    assert_eq!(s.unregister_pending(2), Some(7));
    s.receive_message(&unregistered(2)).unwrap();
    assert_eq!(s.unregister_pending(2), None);
    assert!(!s.is_registered(7));
    assert_eq!(s.registration_count(), 0);
}

#[test]
fn result_without_a_call_is_an_error() {
    let mut s = session();
    assert_eq!(failure(s.receive_message(&result(99))), "received RESULT for invalid request_id 99");
}

#[test]
fn result_answers_a_call_once() {
    let mut s = session();
    s.send_message(&call(5)).unwrap();
    assert!(s.is_call_pending(5));
    s.receive_message(&result(5)).unwrap();
    assert!(!s.is_call_pending(5));
    assert_eq!(failure(s.receive_message(&result(5))), "received RESULT for invalid request_id 5");
    s.receive_message(&goodbye()).unwrap();
    assert_eq!(failure(s.receive_message(&result(5))), "received RESULT for invalid request_id 5");
}

#[test]
fn result_for_another_id_leaves_the_call_open() {
    let mut s = session();
    s.send_message(&call(5)).unwrap();
    assert_eq!(failure(s.receive_message(&result(6))), "received RESULT for invalid request_id 6");
    assert!(s.is_call_pending(5));
    s.receive_message(&result(5)).unwrap();
}

#[test]
fn unsubscribe_is_sent_only_for_a_held_subscription() {
    let mut s = session();
    assert_eq!(
        s.send_message(&unsubscribe(1, 3)).unwrap_err().message,
        "unsubscribe request for non existent subscription 3"
    );
    assert_eq!(s.unsubscribe_pending(1), None);

    s.send_message(&subscribe(2)).unwrap();
    assert!(s.is_subscribe_pending(2));
    s.receive_message(&subscribed(2, 3)).unwrap();
    assert!(s.is_subscribed(3));
    assert_eq!(s.subscription_count(), 1);

    assert_eq!(s.send_message(&unsubscribe(4, 3)).unwrap(), vec![34, 4, 3]);
    assert_eq!(s.unsubscribe_pending(4), Some(3));
    s.receive_message(&unsubscribed(4)).unwrap();
    assert!(!s.is_subscribed(3));
    assert_eq!(s.unsubscribe_pending(4), None);

    assert_eq!(
        s.send_message(&unsubscribe(5, 3)).unwrap_err().message,
        "unsubscribe request for non existent subscription 3"
    );
}

#[test]
fn subscribed_keeps_the_request_open() {
    let mut s = session();
    s.send_message(&subscribe(2)).unwrap();
    s.receive_message(&subscribed(2, 3)).unwrap();
    assert!(s.is_subscribe_pending(2));
    s.receive_message(&subscribed(2, 4)).unwrap();
    assert!(s.is_subscribed(3));
    assert!(s.is_subscribed(4));
}

#[test]
fn subscribed_without_a_request_is_an_error() {
    let mut s = session();
    assert_eq!(
        failure(s.receive_message(&subscribed(2, 3))),
        "received SUBSCRIBED for invalid request_id 2"
    );
    assert!(!s.is_subscribed(3));
}

#[test]
fn unsubscribed_without_a_request_is_an_error() {
    let mut s = session();
    assert_eq!(
        failure(s.receive_message(&unsubscribed(8))),
        "received UNSUBSCRIBED for invalid request_id 8"
    );
}

#[test]
fn unsubscribed_for_a_lost_subscription_closes_the_request() {
    let mut s = session();
    s.send_message(&subscribe(1)).unwrap();
    s.receive_message(&subscribed(1, 3)).unwrap();
    s.send_message(&unsubscribe(4, 3)).unwrap();
    s.send_message(&unsubscribe(5, 3)).unwrap();
    s.receive_message(&unsubscribed(4)).unwrap();
    assert_eq!(
        failure(s.receive_message(&unsubscribed(5))),
        "received UNSUBSCRIBED for invalid subscription_id 3"
    );
    assert_eq!(s.unsubscribe_pending(5), None);
}

#[test]
fn event_needs_a_subscription() {
    let mut s = session();
    assert_eq!(
        failure(s.receive_message(&event(3))),
        "received EVENT for invalid subscription_id 3"
    );
    s.send_message(&subscribe(1)).unwrap();
    s.receive_message(&subscribed(1, 3)).unwrap();
    s.receive_message(&event(3)).unwrap();
    s.receive_message(&event(3)).unwrap();
    assert!(s.is_subscribed(3));
}

#[test]
fn registered_without_a_request_is_an_error() {
    let mut s = session();
    assert_eq!(
        failure(s.receive_message(&registered(1, 7))),
        "received REGISTERED for invalid request_id 1"
    );
    assert!(!s.is_registered(7));
}

#[test]
fn unregistered_without_a_request_is_an_error() {
    let mut s = session();
    assert_eq!(
        failure(s.receive_message(&unregistered(2))),
        "received UNREGISTERED for invalid request_id 2"
    );
}

#[test]
fn unregistered_for_an_unknown_registration_closes_the_request() {
    let mut s = session();
    s.send_message(&unregister(2, 7)).unwrap();
    assert_eq!(
        failure(s.receive_message(&unregistered(2))),
        "received UNREGISTERED for invalid registration_id 7"
    );
    assert_eq!(s.unregister_pending(2), None);
}

#[test]
fn invocation_needs_a_registration() {
    let mut s = session();
    assert_eq!(
        failure(s.receive_message(&invocation(9, 7))),
        "received INVOCATION for invalid request_id 9"
    );
    assert!(!s.is_invocation_pending(9));
}

#[test]
fn error_for_an_invocation_can_be_sent() {
    let mut s = session();
    s.send_message(&register(1)).unwrap();
    s.receive_message(&registered(1, 7)).unwrap();
    s.receive_message(&invocation(9, 7)).unwrap();
    assert_eq!(s.send_message(&error(68, 9)).unwrap(), vec![8, 68, 9]);
    assert!(!s.is_invocation_pending(9));
}

#[test]
fn error_for_anything_but_an_invocation_cannot_be_sent() {
    let mut s = session();
    for message_type in [48, 64, 0, 69] {
        assert_eq!(
            s.send_message(&error(message_type, 9)).unwrap_err().message,
            "error message can only be sent for message_type=INVOCATION"
        );
    }
}

#[test]
fn publish_is_tracked_only_when_acknowledged() {
    let mut s = session();
    s.send_message(&publish(1, None)).unwrap();
    assert!(!s.is_publish_pending(1));
    s.send_message(&publish(2, Some(Value::Bool(false)))).unwrap();
    assert!(!s.is_publish_pending(2));
    s.send_message(&publish(3, Some(Value::Int(1)))).unwrap();
    assert!(!s.is_publish_pending(3));
    s.send_message(&publish(4, Some(Value::Bool(true)))).unwrap();
    assert!(s.is_publish_pending(4));
    s.receive_message(&published(4)).unwrap();
    assert!(!s.is_publish_pending(4));
    assert_eq!(
        failure(s.receive_message(&published(4))),
        "received PUBLISHED for invalid request_id 4"
    );
    assert_eq!(
        failure(s.receive_message(&published(1))),
        "received PUBLISHED for invalid request_id 1"
    );
}

#[test]
fn incoming_error_closes_the_request_it_names() {
    let mut s = session();
    s.send_message(&call(1)).unwrap();
    s.send_message(&register(2)).unwrap();
    s.send_message(&unregister(3, 7)).unwrap();
    s.send_message(&subscribe(4)).unwrap();
    s.receive_message(&subscribed(4, 30)).unwrap();
    s.send_message(&unsubscribe(5, 30)).unwrap();
    s.send_message(&publish(6, Some(Value::Bool(true)))).unwrap();

    s.receive_message(&error(48, 1)).unwrap();
    assert!(!s.is_call_pending(1));
    s.receive_message(&error(64, 2)).unwrap();
    assert!(!s.is_register_pending(2));
    s.receive_message(&error(66, 3)).unwrap();
    assert_eq!(s.unregister_pending(3), None);
    s.receive_message(&error(32, 4)).unwrap();
    assert!(!s.is_subscribe_pending(4));
    s.receive_message(&error(34, 5)).unwrap();
    assert_eq!(s.unsubscribe_pending(5), None);
    assert!(s.is_subscribed(30));
    s.receive_message(&error(16, 6)).unwrap();
    assert!(!s.is_publish_pending(6));
}

#[test]
fn incoming_error_for_an_unknown_request_is_an_error() {
    let mut s = session();
    let cases = [
        (48, "received ERROR for invalid call request"),
        (64, "received ERROR for invalid register request"),
        (66, "received ERROR for invalid unregister request"),
        (32, "received ERROR for invalid subscribe request"),
        (34, "received ERROR for invalid unsubscribe request"),
        (16, "received ERROR for invalid publish request"),
        (68, "unknown error message type Int(8)"),
        (0, "unknown error message type Int(8)"),
    ];
    for (message_type, text) in cases {
        assert_eq!(failure(s.receive_message(&error(message_type, 1))), text);
    }
}

#[test]
fn goodbye_passes_both_ways() {
    let mut s = session();
    assert_eq!(s.send_message(&goodbye()).unwrap(), vec![6]);
    s.receive_message(&goodbye()).unwrap();
}

#[test]
fn other_kinds_cannot_be_sent() {
    let mut s = session();
    assert_eq!(
        s.send_message(&hello()).unwrap_err().message,
        "send not supported for message of type HELLO"
    );
    assert_eq!(
        s.send_message(&result(1)).unwrap_err().message,
        "send not supported for message of type RESULT"
    );
    let cancel = WampMessage::Cancel(Cancel { request_id: 1, options: Dict::new() });
    assert_eq!(
        s.send_message(&cancel).unwrap_err().message,
        "send not supported for message of type CANCEL"
    );
}

#[test]
fn other_kinds_are_not_expected() {
    let mut s = session();
    assert_eq!(failure(s.receive_message(&hello())), "received unexpected message type Int(1)");
    assert_eq!(failure(s.receive_message(&call(1))), "received unexpected message type Int(48)");
    assert_eq!(failure(s.receive_message(&yield_(1))), "received unexpected message type Int(70)");
}

#[test]
fn nothing_is_recorded_when_encoding_fails() {
    let mut s = Session::new(Stub { fail: true });
    assert_eq!(
        s.send_message(&call(1)).unwrap_err().message,
        "failed to serialize MyError: stub refuses"
    );
    assert!(!s.is_call_pending(1));
    assert_eq!(
        s.record_sent(&register(2), Err(Error::text("no"))).unwrap_err().message,
        "failed to serialize MyError: no"
    );
    assert!(!s.is_register_pending(2));
}

#[test]
fn record_sent_hands_the_bytes_on() {
    let mut s = session();
    assert_eq!(s.record_sent(&call(1), Ok(vec![1, 2, 3])).unwrap(), vec![1, 2, 3]);
    assert!(s.is_call_pending(1));
}

#[test]
fn receive_decodes_and_checks() {
    let mut s = session();
    s.send_message(&call(5)).unwrap();
    assert_eq!(
        s.receive(vec![50, 6]).unwrap_err().message,
        "failed to deserialize MyError: unexpected message length for RESULT: must be at least 3, but was 2"
    );
    s.send_message(&unregister(2, 7)).unwrap();
    assert_eq!(
        s.receive(vec![67, 2]).unwrap_err().message,
        "failed to deserialize MyError: received UNREGISTERED for invalid registration_id 7"
    );
    s.send_message(&register(1)).unwrap();
    let got = s.receive(vec![65, 1, 7]).unwrap();
    assert_eq!(got, registered(1, 7));
    assert!(s.is_registered(7));
}

#[test]
fn receive_reports_what_the_decoder_refused() {
    let mut s = Session::new(Stub { fail: true });
    assert_eq!(
        s.receive(vec![65, 1, 7]).unwrap_err().message,
        "failed to deserialize MyError: stub refuses"
    );
}

#[test]
fn accept_takes_the_outcome_of_decoding() {
    let mut s = session();
    assert_eq!(
        s.accept(Err(Error::text("bad bytes"))).unwrap_err().message,
        "failed to deserialize MyError: bad bytes"
    );
    assert_eq!(
        s.accept(Ok(result(1))).unwrap_err().message,
        "failed to deserialize MyError: received RESULT for invalid request_id 1"
    );
    assert_eq!(s.accept(Ok(goodbye())).unwrap(), goodbye());
}
