use serde::de::{MapAccess, SeqAccess, Visitor};
use serde::ser::{SerializeMap, SerializeSeq};
use wampproto::authenticators::anonymous::AnonymousAuthenticator;
use wampproto::joiner::{JoinState, Joiner};
use wampproto::messages::abort::Abort;
use wampproto::messages::call::Call;
use wampproto::messages::error::Error as ErrorMessage;
use wampproto::messages::event::Event;
use wampproto::messages::hello::Hello;
use wampproto::messages::registered::Registered;
use wampproto::messages::result::Result_;
use wampproto::messages::types::{ByteArray, Dict, Error, Value};
use wampproto::messages::unregistered::Unregistered;
use wampproto::messages::wamp_message::WampMessage;
use wampproto::messages::welcome::Welcome;
use wampproto::serializers::cbor::CBORSerializer;
use wampproto::serializers::msgpack::MsgPackSerializer;
use wampproto::serializers::serializer::Serializer;
use wampproto::session::Session;

struct Out<'a>(&'a Value);

impl<'a> serde::Serialize for Out<'a> {
    fn serialize<S: serde::Serializer>(&self, ser: S) -> Result<S::Ok, S::Error> {
        match self.0 {
            Value::Null => ser.serialize_unit(),
            Value::Int(n) => ser.serialize_i64(*n),
            Value::Float(bits) => ser.serialize_f64(f64::from_bits(*bits)),
            Value::Bool(b) => ser.serialize_bool(*b),
            Value::Str(s) => ser.serialize_str(s),
            Value::List(items) => {
                let mut seq = ser.serialize_seq(Some(items.len()))?;
                for item in items {
                    seq.serialize_element(&Out(item))?;
                }
                seq.end()
            }
            Value::Dict(d) => {
                let mut map = ser.serialize_map(Some(d.len()))?;
                for (k, v) in d.entries() {
                    map.serialize_entry(k, &Out(v))?;
                }
                map.end()
            }
            Value::Bytes(b) => ser.serialize_bytes(&b.0),
        }
    }
}

struct In(Value);

struct InVisitor;

impl<'de> Visitor<'de> for InVisitor {
    type Value = In;

    fn expecting(&self, f: &mut std::fmt::Formatter) -> std::fmt::Result {
        f.write_str("a WAMP value")
    }

    fn visit_unit<E>(self) -> Result<In, E> {
        Ok(In(Value::Null))
    }

    fn visit_none<E>(self) -> Result<In, E> {
        Ok(In(Value::Null))
    }

    fn visit_bool<E>(self, v: bool) -> Result<In, E> {
        Ok(In(Value::Bool(v)))
    }

    fn visit_i64<E>(self, v: i64) -> Result<In, E> {
        Ok(In(Value::Int(v)))
    }

    fn visit_u64<E: serde::de::Error>(self, v: u64) -> Result<In, E> {
        match i64::try_from(v) {
            Ok(n) => Ok(In(Value::Int(n))),
            Err(_) => Ok(In(Value::Float((v as f64).to_bits()))),
        }
    }

    fn visit_f64<E>(self, v: f64) -> Result<In, E> {
        Ok(In(Value::Float(v.to_bits())))
    }

    fn visit_str<E>(self, v: &str) -> Result<In, E> {
        Ok(In(Value::Str(v.to_string())))
    }

    fn visit_bytes<E>(self, v: &[u8]) -> Result<In, E> {
        Ok(In(Value::Bytes(ByteArray(v.to_vec()))))
    }

    fn visit_seq<A: SeqAccess<'de>>(self, mut seq: A) -> Result<In, A::Error> {
        let mut items = Vec::new();
        while let Some(In(v)) = seq.next_element()? {
            items.push(v);
        }
        Ok(In(Value::List(items)))
    }

    fn visit_map<A: MapAccess<'de>>(self, mut map: A) -> Result<In, A::Error> {
        let mut d = Dict::new();
        while let Some((k, In(v))) = map.next_entry::<String, In>()? {
            d.insert(k, v);
        }
        Ok(In(Value::Dict(d)))
    }
}

impl<'de> serde::Deserialize<'de> for In {
    fn deserialize<D: serde::Deserializer<'de>>(de: D) -> Result<In, D::Error> {
        de.deserialize_any(InVisitor)
    }
}

fn outs(values: &[Value]) -> Vec<Out<'_>> {
    values.iter().map(Out).collect()
}

fn ins(values: Vec<In>) -> Vec<Value> {
    values.into_iter().map(|v| v.0).collect()
}

struct Cbor;

impl Serializer for Cbor {
    fn serialize(&self, message: &WampMessage) -> Result<Vec<u8>, Error> {
        let values = message.marshal();
        CBORSerializer {}.serialize(message, serde_cbor::to_vec(&outs(&values)).ok())
    }

    fn deserialize(&self, payload: Vec<u8>) -> Result<WampMessage, Error> {
        let decoded = serde_cbor::from_slice::<Vec<In>>(&payload);
        CBORSerializer {}.deserialize(decoded.map(ins).map_err(|e| e.to_string()))
    }

    fn is_static(&self) -> bool {
        CBORSerializer {}.is_static()
    }
}

struct MsgPack;

impl Serializer for MsgPack {
    fn serialize(&self, message: &WampMessage) -> Result<Vec<u8>, Error> {
        let values = message.marshal();
        MsgPackSerializer {}.serialize(message, rmp_serde::to_vec(&outs(&values)).ok())
    }

    fn deserialize(&self, payload: Vec<u8>) -> Result<WampMessage, Error> {
        let decoded = rmp_serde::from_slice::<Vec<In>>(&payload);
        MsgPackSerializer {}.deserialize(decoded.map(ins).map_err(|e| e.to_string()))
    }

    fn is_static(&self) -> bool {
        MsgPackSerializer {}.is_static()
    }
}

fn dict(pairs: Vec<(&str, Value)>) -> Dict {
    let mut d = Dict::new();
    for (k, v) in pairs {
        d.insert(k.to_string(), v);
    }
    d
}

fn s(text: &str) -> Value {
    Value::Str(text.to_string())
}

fn samples() -> Vec<WampMessage> {
    let options = dict(vec![
        ("flag", Value::Bool(true)),
        ("n", Value::Int(-5)),
        ("big", Value::Int(i64::MAX)),
        ("small", Value::Int(i64::MIN)),
        ("ratio", Value::Float(1.5f64.to_bits())),
        ("third", Value::Float((1.0f64 / 3.0).to_bits())),
        ("nothing", Value::Null),
        ("nested", Value::Dict(dict(vec![("list", Value::List(vec![s("a"), Value::Int(0)]))]))),
        ("raw", Value::Bytes(ByteArray(vec![0, 1, 254, 255]))),
    ]);
    let args = vec![Value::Int(1), s("two"), Value::List(vec![])];
    let kwargs = dict(vec![("k", s("v"))]);
    vec![
        WampMessage::Hello(Hello::new(
            "realm1",
            "anon",
            options.clone(),
            wampproto::joiner::get_client_roles(),
            vec!["anonymous".to_string()],
        )),
        WampMessage::Abort(Abort {
            details: options.clone(),
            reason: "wamp.error".to_string(),
            args: Some(args.clone()),
            kwargs: None,
        }),
        WampMessage::Call(Call {
            request_id: 1 << 53,
            options: options.clone(),
            procedure: "com.example.add".to_string(),
            args: Some(args.clone()),
            kwargs: Some(kwargs.clone()),
        }),
        WampMessage::Event(Event {
            subscription_id: 1,
            publication_id: 2,
            details: Dict::new(),
            args: None,
            kwargs: Some(kwargs.clone()),
        }),
        WampMessage::Error(ErrorMessage {
            message_type: 48,
            request_id: 7,
            options: Dict::new(),
            uri: "wamp.error.no_such_procedure".to_string(),
            args: None,
            kwargs: None,
        }),
        WampMessage::Result(Result_ {
            request_id: 7,
            details: options,
            args: Some(vec![]),
            kwargs: Some(Dict::new()),
        }),
        WampMessage::Registered(Registered { request_id: 1, registration_id: 2 }),
        WampMessage::Unregistered(Unregistered { request_id: 300 }),
    ]
}

#[test]
fn cbor_round_trips_messages() {
    for m in samples() {
        let bytes = Cbor.serialize(&m).unwrap();
        assert_eq!(Cbor.deserialize(bytes).unwrap(), m);
    }
}

#[test]
fn msgpack_round_trips_messages() {
    for m in samples() {
        let bytes = MsgPack.serialize(&m).unwrap();
        assert_eq!(MsgPack.deserialize(bytes).unwrap(), m);
    }
}

#[test]
fn cbor_bytes_of_a_small_message() {
    let m = WampMessage::Unregistered(Unregistered { request_id: 5 });
    assert_eq!(Cbor.serialize(&m).unwrap(), vec![0x82, 0x18, 0x43, 0x05]);
    assert_eq!(Cbor.deserialize(vec![0x82, 0x18, 0x43, 0x05]).unwrap(), m);
}

#[test]
fn msgpack_bytes_of_a_small_message() {
    let m = WampMessage::Unregistered(Unregistered { request_id: 5 });
    assert_eq!(MsgPack.serialize(&m).unwrap(), vec![0x92, 0x43, 0x05]);
    assert_eq!(MsgPack.deserialize(vec![0x92, 0x43, 0x05]).unwrap(), m);
}

#[test]
fn an_empty_array_is_no_message() {
    assert_eq!(
        Cbor.deserialize(vec![0x80]).unwrap_err().message,
        "received empty wamp message array"
    );
    assert_eq!(
        MsgPack.deserialize(vec![0x90]).unwrap_err().message,
        "received empty wamp message array"
    );
}

#[test]
fn an_unknown_tag_is_no_message() {
    assert_eq!(
        Cbor.deserialize(vec![0x81, 0x07]).unwrap_err().message,
        "received invalid wamp message of type Int(7)"
    );
    assert_eq!(
        MsgPack.deserialize(vec![0x91, 0x07]).unwrap_err().message,
        "received invalid wamp message of type Int(7)"
    );
}

#[test]
fn bytes_that_are_no_encoding_are_reported() {
    for text in [Cbor.deserialize(vec![0xff]), MsgPack.deserialize(vec![0xc1])] {
        let text = text.unwrap_err().message;
        assert!(text.starts_with("failed to deserialize message "), "{}", text);
        assert!(text.len() > "failed to deserialize message ".len());
    }
}

#[test]
fn anonymous_join_over_cbor() {
    let mut joiner = Joiner::new("realm1", Cbor, AnonymousAuthenticator::new("anon", Dict::new()));
    let hello = joiner.send_hello().unwrap();
    match Cbor.deserialize(hello).unwrap() {
        WampMessage::Hello(h) => {
            assert_eq!(h.realm, "realm1");
            assert_eq!(h.authid, "anon");
            assert_eq!(h.auth_methods, vec!["anonymous".to_string()]);
        }
        other => panic!("{:?}", other),
    }
    let details = dict(vec![("authid", s("anon")), ("authrole", s("anonymous"))]);
    let welcome = serde_cbor::to_vec(&outs(&[Value::Int(2), Value::Int(42), Value::Dict(details)])).unwrap();
    assert_eq!(joiner.receive(welcome).unwrap(), None);
    assert_eq!(joiner.state(), JoinState::Joined);
    let session = joiner.session_details().unwrap().unwrap();
    assert_eq!(session.id, 42);
    assert_eq!(session.realm, "realm1");
    assert_eq!(session.authid, "anon");
    assert_eq!(session.auth_role, "anonymous");
    assert!(!session.static_serializer);
}

#[test]
fn session_over_msgpack() {
    let mut session = Session::new(MsgPack);
    let call = WampMessage::Call(Call {
        request_id: 5,
        options: Dict::new(),
        procedure: "p".to_string(),
        args: None,
        kwargs: None,
    });
    let sent = session.send_message(&call).unwrap();
    assert_eq!(MsgPack.deserialize(sent).unwrap(), call);
    let result = WampMessage::Result(Result_ {
        request_id: 5,
        details: Dict::new(),
        args: Some(vec![Value::Int(3)]),
        kwargs: None,
    });
    let bytes = MsgPack.serialize(&result).unwrap();
    assert_eq!(session.receive(bytes.clone()).unwrap(), result);
    assert_eq!(
        session.receive(bytes).unwrap_err().message,
        "failed to deserialize MyError: received RESULT for invalid request_id 5"
    );
}

#[test]
fn welcome_over_the_wire_keeps_its_details() {
    let details = dict(vec![
        ("realm", s("realm1")),
        ("authid", s("alice")),
        ("authrole", s("user")),
        ("roles", Value::Dict(dict(vec![("broker", Value::Dict(Dict::new()))]))),
    ]);
    let welcome = WampMessage::Welcome(Welcome {
        session_id: 99,
        realm: "realm1".to_string(),
        authid: "alice".to_string(),
        auth_role: "user".to_string(),
        details,
    });
    for bytes in [Cbor.serialize(&welcome).unwrap(), MsgPack.serialize(&welcome).unwrap()] {
        assert!(bytes.len() > 10);
    }
    assert_eq!(Cbor.deserialize(Cbor.serialize(&welcome).unwrap()).unwrap(), welcome);
    assert_eq!(MsgPack.deserialize(MsgPack.serialize(&welcome).unwrap()).unwrap(), welcome);
}
