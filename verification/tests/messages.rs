use std::fmt::Debug;
use wampproto::messages::abort::Abort;
use wampproto::messages::authenticate::Authenticate;
use wampproto::messages::call::Call;
use wampproto::messages::cancel::Cancel;
use wampproto::messages::challenge::Challenge;
use wampproto::messages::error::Error as ErrorMessage;
use wampproto::messages::event::Event;
use wampproto::messages::goodbye::Goodbye;
use wampproto::messages::hello::Hello;
use wampproto::messages::interrupt::Interrupt;
use wampproto::messages::invocation::Invocation;
use wampproto::messages::message::Message;
use wampproto::messages::publish::Publish;
use wampproto::messages::published::Published;
use wampproto::messages::register::Register;
use wampproto::messages::registered::Registered;
use wampproto::messages::result::Result_;
use wampproto::messages::subscribe::Subscribe;
use wampproto::messages::subscribed::Subscribed;
use wampproto::messages::types::{ByteArray, Dict, Value};
use wampproto::messages::unregister::Unregister;
use wampproto::messages::unregistered::Unregistered;
use wampproto::messages::unsubscribe::Unsubscribe;
use wampproto::messages::unsubscribed::Unsubscribed;
use wampproto::messages::validator::ValidationSpec;
use wampproto::messages::welcome::Welcome;
use wampproto::messages::yield_::Yield;

fn dict(pairs: Vec<(&str, Value)>) -> Dict {
    let mut d = Dict::new();
    for (k, v) in pairs {
        d.insert(k.to_string(), v);
    }
    d
}

fn s(text: &str) -> Value {
    Value::Str(text.to_string())
}

fn opts() -> Dict {
    dict(vec![("x", Value::Int(1)), ("y", s("z"))])
}

fn args() -> Vec<Value> {
    vec![Value::Int(1), s("two"), Value::Bytes(ByteArray(vec![3]))]
}

fn kwargs() -> Dict {
    dict(vec![("k", Value::Bool(true))])
}

fn round_trip<M: Message + PartialEq + Debug>(m: M, tag: i64) {
    let wire = m.marshal();
    assert_eq!(wire[0], Value::Int(tag));
    assert_eq!(m.message_type(), Value::Int(tag));
    let parsed = M::parse(wire).unwrap();
    assert_eq!(parsed, m);
}

fn parse_error<M: Message + Debug>(data: Vec<Value>) -> String {
    match M::parse(data) {
        Ok(m) => panic!("parsed {:?}", m),
        Err(e) => e.message,
    }
}

fn tails() -> Vec<(Option<Vec<Value>>, Option<Dict>)> {
    vec![
        (None, None),
        (Some(args()), None),
        (Some(vec![]), None),
        (None, Some(kwargs())),
        (Some(args()), Some(kwargs())),
        (Some(vec![]), Some(Dict::new())),
    ]
}

#[test]
fn validation_gate_reports_short_and_long_lists() {
    let spec = ValidationSpec { min_length: 2, max_length: 3, name: "THING" };
    let one = vec![Value::Null];
    assert_eq!(
        spec.validate_message(&one).unwrap_err().message,
        "unexpected message length for THING: must be at least 2, but was 1"
    );
    let four = vec![Value::Null, Value::Null, Value::Null, Value::Null];
    assert_eq!(
        spec.validate_message(&four).unwrap_err().message,
        "unexpected message length for THING, must be at most 3, but was 4"
    );
    assert!(spec.validate_message(&four[..2]).is_ok());
    assert!(spec.validate_message(&four[..3]).is_ok());
    assert_eq!(
        spec.validate_message(&[]).unwrap_err().message,
        "unexpected message length for THING: must be at least 2, but was 0"
    );
    assert_eq!(spec.err_invalid_message().message, "THING received invalid message format");
}

#[test]
fn validation_specs_of_the_kinds() {
    let all = vec![
        (wampproto::messages::hello::validation_spec(), 3, 3, "HELLO"),
        (wampproto::messages::welcome::validation_spec(), 3, 3, "WELCOME"),
        (wampproto::messages::abort::validation_spec(), 3, 5, "ABORT"),
        (wampproto::messages::challenge::validation_spec(), 3, 3, "CHALLENGE"),
        (wampproto::messages::authenticate::validation_spec(), 3, 3, "AUTHENTICATE"),
        (wampproto::messages::goodbye::validation_spec(), 3, 3, "GOODBYE"),
        (wampproto::messages::error::validation_spec(), 5, 7, "ERROR"),
        (wampproto::messages::publish::validation_spec(), 4, 6, "PUBLISH"),
        (wampproto::messages::published::validation_spec(), 3, 3, "PUBLISHED"),
        (wampproto::messages::subscribe::validation_spec(), 4, 4, "SUBSCRIBE"),
        (wampproto::messages::subscribed::validation_spec(), 3, 3, "SUBSCRIBED"),
        (wampproto::messages::unsubscribe::validation_spec(), 3, 3, "UNSUBSCRIBE"),
        (wampproto::messages::unsubscribed::validation_spec(), 2, 2, "UNSUBSCRIBED"),
        (wampproto::messages::event::validation_spec(), 4, 6, "EVENT"),
        (wampproto::messages::call::validation_spec(), 4, 6, "CALL"),
        (wampproto::messages::cancel::validation_spec(), 3, 3, "CANCEL"),
        (wampproto::messages::result::validation_spec(), 3, 5, "RESULT"),
        (wampproto::messages::register::validation_spec(), 4, 4, "REGISTER"),
        (wampproto::messages::registered::validation_spec(), 3, 3, "REGISTERED"),
        (wampproto::messages::unregister::validation_spec(), 3, 3, "UNREGISTER"),
        (wampproto::messages::unregistered::validation_spec(), 2, 2, "UNREGISTERED"),
        (wampproto::messages::invocation::validation_spec(), 4, 6, "INVOCATION"),
        (wampproto::messages::interrupt::validation_spec(), 3, 3, "INTERRUPT"),
        (wampproto::messages::yield_::validation_spec(), 3, 5, "YIELD"),
    ];
    for (spec, min, max, name) in all {
        assert_eq!(spec.min_length, min, "{}", name);
        assert_eq!(spec.max_length, max, "{}", name);
        assert_eq!(spec.name, name);
    }
}

#[test]
fn tags_of_the_kinds() {
    assert_eq!(wampproto::messages::hello::MESSAGE_TYPE_HELLO, 1);
    assert_eq!(wampproto::messages::welcome::MESSAGE_TYPE_WELCOME, 2);
    assert_eq!(wampproto::messages::abort::MESSAGE_TYPE_ABORT, 3);
    assert_eq!(wampproto::messages::challenge::MESSAGE_TYPE_CHALLENGE, 4);
    assert_eq!(wampproto::messages::authenticate::MESSAGE_TYPE_AUTHENTICATE, 5);
    assert_eq!(wampproto::messages::goodbye::MESSAGE_TYPE_GOODBYE, 6);
    assert_eq!(wampproto::messages::error::MESSAGE_TYPE_ERROR, 8);
    assert_eq!(wampproto::messages::publish::MESSAGE_TYPE_PUBLISH, 16);
    assert_eq!(wampproto::messages::published::MESSAGE_TYPE_PUBLISHED, 17);
    assert_eq!(wampproto::messages::subscribe::MESSAGE_TYPE_SUBSCRIBE, 32);
    assert_eq!(wampproto::messages::subscribed::MESSAGE_TYPE_SUBSCRIBED, 33);
    assert_eq!(wampproto::messages::unsubscribe::MESSAGE_TYPE_UNSUBSCRIBE, 34);
    assert_eq!(wampproto::messages::unsubscribed::MESSAGE_TYPE_UNSUBSCRIBED, 35);
    assert_eq!(wampproto::messages::event::MESSAGE_TYPE_EVENT, 36);
    assert_eq!(wampproto::messages::call::MESSAGE_TYPE_CALL, 48);
    assert_eq!(wampproto::messages::cancel::MESSAGE_TYPE_CANCEL, 49);
    assert_eq!(wampproto::messages::result::MESSAGE_TYPE_RESULT, 50);
    assert_eq!(wampproto::messages::register::MESSAGE_TYPE_REGISTER, 64);
    assert_eq!(wampproto::messages::registered::MESSAGE_TYPE_REGISTERED, 65);
    assert_eq!(wampproto::messages::unregister::MESSAGE_TYPE_UNREGISTER, 66);
    assert_eq!(wampproto::messages::unregistered::MESSAGE_TYPE_UNREGISTERED, 67);
    assert_eq!(wampproto::messages::invocation::MESSAGE_TYPE_INVOCATION, 68);
    assert_eq!(wampproto::messages::interrupt::MESSAGE_TYPE_INTERRUPT, 69);
    assert_eq!(wampproto::messages::yield_::MESSAGE_TYPE_YIELD, 70);
}

#[test]
fn hello_marshals_realm_and_details() {
    let hello = Hello::new(
        "realm1",
        "anon",
        dict(vec![("e", Value::Int(1))]),
        dict(vec![("caller", Value::Dict(Dict::new()))]),
        vec!["anonymous".to_string(), "ticket".to_string()],
    );
    let wire = hello.marshal();
    assert_eq!(wire.len(), 3);
    assert_eq!(wire[0], Value::Int(1));
    assert_eq!(wire[1], s("realm1"));
    let details = match &wire[2] {
        Value::Dict(d) => d,
        other => panic!("{:?}", other),
    };
    assert_eq!(details.len(), 4);
    assert_eq!(details.get("authid"), Some(&s("anon")));
    assert_eq!(
        details.get("authmethods"),
        Some(&Value::List(vec![s("anonymous"), s("ticket")]))
    );
    assert_eq!(details.get("authextra"), Some(&Value::Dict(dict(vec![("e", Value::Int(1))]))));
    assert_eq!(
        details.get("roles"),
        Some(&Value::Dict(dict(vec![("caller", Value::Dict(Dict::new()))])))
    );
}

#[test]
fn hello_round_trips() {
    round_trip(Hello::new("realm1", "anon", Dict::new(), Dict::new(), vec![]), 1);
    round_trip(
        Hello::new(
            "com.example",
            "alice",
            opts(),
            dict(vec![("callee", Value::Dict(dict(vec![("features", Value::Dict(Dict::new()))])))]),
            vec!["wampcra".to_string(), "ticket".to_string(), "".to_string()],
        ),
        1,
    );
}

fn hello_details() -> Vec<(&'static str, Value)> {
    vec![
        ("authid", s("alice")),
        ("authmethods", Value::List(vec![s("ticket")])),
        ("authextra", Value::Dict(Dict::new())),
        ("roles", Value::Dict(Dict::new())),
    ]
}

#[test]
fn hello_parse_passes_over_methods_that_are_no_strings() {
    let mut details = hello_details();
    details[1].1 = Value::List(vec![Value::Int(1), s("ticket"), Value::Null, s("wampcra")]);
    let hello = Hello::parse(vec![Value::Int(1), s("r"), Value::Dict(dict(details))]).unwrap();
    assert_eq!(hello.auth_methods, vec!["ticket".to_string(), "wampcra".to_string()]);
    assert_eq!(hello.realm, "r");
    assert_eq!(hello.authid, "alice");
}

#[test]
fn hello_parse_ignores_other_details() {
    let mut details = hello_details();
    details.insert(0, ("agent", s("x")));
    let hello = Hello::parse(vec![Value::Int(1), s("r"), Value::Dict(dict(details))]).unwrap();
    assert_eq!(hello, Hello::new("r", "alice", Dict::new(), Dict::new(), vec!["ticket".to_string()]));
}

#[test]
fn hello_parse_reports_missing_fields() {
    let labels = ["authid", "authmethods", "authextra", "authroles"];
    for (i, label) in labels.iter().enumerate() {
        let mut details = hello_details();
        details.remove(i);
        let text = parse_error::<Hello>(vec![Value::Int(1), s("r"), Value::Dict(dict(details))]);
        assert_eq!(text, format!("Missing field: '{}'", label));
    }
}

#[test]
fn hello_parse_reports_fields_of_the_wrong_type() {
    let labels = ["authid", "authmethods", "authextra", "authroles"];
    for (i, label) in labels.iter().enumerate() {
        let mut details = hello_details();
        details[i].1 = Value::Int(5);
        let text = parse_error::<Hello>(vec![Value::Int(1), s("r"), Value::Dict(dict(details))]);
        assert_eq!(text, format!("Invalid type for '{}': Int(5)", label));
    }
    let mut details = hello_details();
    details[0].1 = Value::Bool(true);
    let text = parse_error::<Hello>(vec![Value::Int(1), s("r"), Value::Dict(dict(details))]);
    assert_eq!(text, "Invalid type for 'authid': Bool(true)");
}

#[test]
fn hello_parse_reports_the_first_bad_field() {
    let details = vec![("authmethods", Value::Int(1)), ("roles", Value::Int(2))];
    let text = parse_error::<Hello>(vec![Value::Int(1), s("r"), Value::Dict(dict(details))]);
    assert_eq!(text, "Missing field: 'authid'");
}

#[test]
fn hello_parse_rejects_wrong_shapes() {
    let good = Value::Dict(dict(hello_details()));
    assert_eq!(
        parse_error::<Hello>(vec![Value::Int(1), Value::Int(2), good.clone()]),
        "HELLO received invalid message format"
    );
    assert_eq!(
        parse_error::<Hello>(vec![Value::Int(1), s("r"), Value::List(vec![])]),
        "HELLO received invalid message format"
    );
    assert_eq!(
        parse_error::<Hello>(vec![Value::Int(1), s("r")]),
        "unexpected message length for HELLO: must be at least 3, but was 2"
    );
    assert_eq!(
        parse_error::<Hello>(vec![Value::Int(1), s("r"), good, Value::Null]),
        "unexpected message length for HELLO, must be at most 3, but was 4"
    );
}

fn welcome_details() -> Vec<(&'static str, Value)> {
    vec![("realm", s("realm1")), ("authid", s("anon")), ("authrole", s("anonymous"))]
}

#[test]
fn welcome_parse_reads_the_details() {
    let details = dict(welcome_details());
    let welcome =
        Welcome::parse(vec![Value::Int(2), Value::Int(42), Value::Dict(details.clone())]).unwrap();
    assert_eq!(
        welcome,
        Welcome {
            session_id: 42,
            realm: "realm1".to_string(),
            authid: "anon".to_string(),
            auth_role: "anonymous".to_string(),
            details,
        }
    );
    round_trip(welcome, 2);
}

#[test]
fn welcome_parse_takes_a_missing_realm_as_empty() {
    let details = dict(welcome_details()[1..].to_vec());
    let welcome =
        Welcome::parse(vec![Value::Int(2), Value::Int(42), Value::Dict(details)]).unwrap();
    assert_eq!(welcome.realm, "");
    assert_eq!(welcome.authid, "anon");
    assert_eq!(welcome.auth_role, "anonymous");
    round_trip(welcome, 2);
}

#[test]
fn welcome_parse_asks_for_authid_and_authrole() {
    let mut details = welcome_details();
    details.remove(1);
    assert_eq!(
        parse_error::<Welcome>(vec![Value::Int(2), Value::Int(1), Value::Dict(dict(details))]),
        "Missing field: 'authid'"
    );
    let mut details = welcome_details();
    details.remove(2);
    assert_eq!(
        parse_error::<Welcome>(vec![Value::Int(2), Value::Int(1), Value::Dict(dict(details))]),
        "Missing field: 'authrole'"
    );
}

#[test]
fn welcome_parse_reports_fields_of_the_wrong_type() {
    for (i, label) in ["realm", "authid", "authrole"].iter().enumerate() {
        let mut details = welcome_details();
        details[i].1 = Value::List(vec![]);
        assert_eq!(
            parse_error::<Welcome>(vec![Value::Int(2), Value::Int(1), Value::Dict(dict(details))]),
            format!("Invalid type for '{}': List([])", label)
        );
    }
}

#[test]
fn welcome_parse_rejects_wrong_shapes() {
    let good = Value::Dict(dict(welcome_details()));
    assert_eq!(
        parse_error::<Welcome>(vec![Value::Int(2), s("42"), good.clone()]),
        "WELCOME received invalid message format"
    );
    assert_eq!(
        parse_error::<Welcome>(vec![Value::Int(2), Value::Int(1), Value::Null]),
        "WELCOME received invalid message format"
    );
    assert_eq!(
        parse_error::<Welcome>(vec![Value::Int(2)]),
        "unexpected message length for WELCOME: must be at least 3, but was 1"
    );
}

#[test]
fn welcome_marshal_emits_id_and_details() {
    let details = dict(welcome_details());
    let welcome = Welcome {
        session_id: 7,
        realm: "ignored".to_string(),
        authid: "ignored".to_string(),
        auth_role: "ignored".to_string(),
        details: details.clone(),
    };
    assert_eq!(welcome.marshal(), vec![Value::Int(2), Value::Int(7), Value::Dict(details)]);
}

#[test]
fn kinds_without_payload_round_trip() {
    round_trip(Authenticate { signature: "sig".to_string(), extra: opts() }, 5);
    round_trip(Challenge { auth_method: "ticket".to_string(), extra: opts() }, 4);
    round_trip(Goodbye { details: opts(), reason: "wamp.close.normal".to_string() }, 6);
    round_trip(Cancel { request_id: 5, options: opts() }, 49);
    round_trip(Interrupt { request_id: 5, options: Dict::new() }, 69);
    round_trip(Published { request_id: 1, publication_id: 2 }, 17);
    round_trip(Register { request_id: 1, options: opts(), procedure: "p".to_string() }, 64);
    round_trip(Registered { request_id: 1, registration_id: i64::MAX }, 65);
    round_trip(Subscribe { request_id: 1, options: opts(), topic: "t".to_string() }, 32);
    round_trip(Subscribed { request_id: i64::MIN, subscription_id: 0 }, 33);
    round_trip(Unregister { request_id: 1, registration_id: 2 }, 66);
    round_trip(Unregistered { request_id: 9 }, 67);
    round_trip(Unsubscribe { request_id: 1, subscription_id: 2 }, 34);
    round_trip(Unsubscribed { request_id: 9 }, 35);
}

#[test]
fn kinds_with_payload_round_trip_for_every_tail() {
    for (args, kwargs) in tails() {
        round_trip(
            Abort { details: opts(), reason: "r".to_string(), args: args.clone(), kwargs: kwargs.clone() },
            3,
        );
        round_trip(
            Call {
                request_id: 1,
                options: opts(),
                procedure: "p".to_string(),
                args: args.clone(),
                kwargs: kwargs.clone(),
            },
            48,
        );
        round_trip(
            ErrorMessage {
                message_type: 48,
                request_id: 1,
                options: opts(),
                uri: "wamp.error".to_string(),
                args: args.clone(),
                kwargs: kwargs.clone(),
            },
            8,
        );
        round_trip(
            Event {
                subscription_id: 1,
                publication_id: 2,
                details: opts(),
                args: args.clone(),
                kwargs: kwargs.clone(),
            },
            36,
        );
        round_trip(
            Invocation {
                request_id: 1,
                registration_id: 2,
                details: opts(),
                args: args.clone(),
                kwargs: kwargs.clone(),
            },
            68,
        );
        round_trip(
            Publish {
                request_id: 1,
                options: opts(),
                topic: "t".to_string(),
                args: args.clone(),
                kwargs: kwargs.clone(),
            },
            16,
        );
        round_trip(
            Result_ { request_id: 1, details: opts(), args: args.clone(), kwargs: kwargs.clone() },
            50,
        );
        round_trip(
            Yield { request_id: 1, options: opts(), args: args.clone(), kwargs: kwargs.clone() },
            70,
        );
    }
}

#[test]
fn marshal_emits_required_slots_then_the_tail() {
    let y = Yield { request_id: 9, options: opts(), args: None, kwargs: None };
    assert_eq!(y.marshal(), vec![Value::Int(70), Value::Int(9), Value::Dict(opts())]);
    let y = Yield { request_id: 9, options: opts(), args: Some(args()), kwargs: None };
    assert_eq!(
        y.marshal(),
        vec![Value::Int(70), Value::Int(9), Value::Dict(opts()), Value::List(args())]
    );
    let y = Yield { request_id: 9, options: opts(), args: Some(args()), kwargs: Some(kwargs()) };
    assert_eq!(
        y.marshal(),
        vec![
            Value::Int(70),
            Value::Int(9),
            Value::Dict(opts()),
            Value::List(args()),
            Value::Dict(kwargs())
        ]
    );
}

#[test]
fn marshal_puts_null_for_absent_args_before_kwargs() {
    let e = Event {
        subscription_id: 1,
        publication_id: 2,
        details: Dict::new(),
        args: None,
        kwargs: Some(kwargs()),
    };
    assert_eq!(
        e.marshal(),
        vec![
            Value::Int(36),
            Value::Int(1),
            Value::Int(2),
            Value::Dict(Dict::new()),
            Value::Null,
            Value::Dict(kwargs())
        ]
    );
}

#[test]
fn abort_marshals_its_payload() {
    let a = Abort {
        details: Dict::new(),
        reason: "wamp.error.no_such_realm".to_string(),
        args: Some(vec![s("no realm")]),
        kwargs: None,
    };
    assert_eq!(
        a.marshal(),
        vec![
            Value::Int(3),
            Value::Dict(Dict::new()),
            s("wamp.error.no_such_realm"),
            Value::List(vec![s("no realm")])
        ]
    );
}

#[test]
fn parse_reads_null_args_as_absent() {
    let r = Result_::parse(vec![
        Value::Int(50),
        Value::Int(1),
        Value::Dict(Dict::new()),
        Value::Null,
        Value::Dict(kwargs()),
    ])
    .unwrap();
    assert_eq!(r.args, None);
    assert_eq!(r.kwargs, Some(kwargs()));
}

#[test]
fn parse_rejects_illegal_tails() {
    let head = vec![Value::Int(50), Value::Int(1), Value::Dict(Dict::new())];
    let bad_tails: Vec<Vec<Value>> = vec![
        vec![Value::Null],
        vec![Value::Dict(kwargs())],
        vec![Value::Int(1)],
        vec![Value::List(vec![]), Value::List(vec![])],
        vec![Value::List(vec![]), Value::Null],
        vec![Value::Dict(kwargs()), Value::Dict(kwargs())],
        vec![Value::Null, Value::Null],
        vec![s("x"), Value::Dict(kwargs())],
    ];
    for tail in bad_tails {
        let mut data = head.clone();
        data.extend(tail);
        assert_eq!(parse_error::<Result_>(data), "RESULT received invalid message format");
    }
}

#[test]
fn parse_does_not_look_at_the_first_slot() {
    let u = Unregistered::parse(vec![s("whatever"), Value::Int(5)]).unwrap();
    assert_eq!(u, Unregistered { request_id: 5 });
}

#[test]
fn parse_rejects_slots_of_the_wrong_type() {
    assert_eq!(
        parse_error::<Unregistered>(vec![Value::Int(67), s("5")]),
        "UNREGISTERED received invalid message format"
    );
    assert_eq!(
        parse_error::<Registered>(vec![Value::Int(65), Value::Int(1), Value::Float(2)]),
        "REGISTERED received invalid message format"
    );
    assert_eq!(
        parse_error::<Register>(vec![Value::Int(64), Value::Int(1), Value::Dict(opts()), Value::Null]),
        "REGISTER received invalid message format"
    );
    assert_eq!(
        parse_error::<Goodbye>(vec![Value::Int(6), s("reason"), Value::Dict(opts())]),
        "GOODBYE received invalid message format"
    );
    assert_eq!(
        parse_error::<ErrorMessage>(vec![
            Value::Int(8),
            Value::Int(48),
            Value::Int(1),
            Value::Dict(opts()),
            Value::Int(0)
        ]),
        "ERROR received invalid message format"
    );
    assert_eq!(
        parse_error::<Call>(vec![Value::Int(48), Value::Bool(true), Value::Dict(opts()), s("p")]),
        "CALL received invalid message format"
    );
}

#[test]
fn parse_checks_the_length_before_the_slots() {
    assert_eq!(
        parse_error::<Unsubscribed>(vec![s("junk")]),
        "unexpected message length for UNSUBSCRIBED: must be at least 2, but was 1"
    );
    assert_eq!(
        parse_error::<Unsubscribed>(vec![s("junk"), s("junk"), s("junk")]),
        "unexpected message length for UNSUBSCRIBED, must be at most 2, but was 3"
    );
    assert_eq!(
        parse_error::<Publish>(vec![]),
        "unexpected message length for PUBLISH: must be at least 4, but was 0"
    );
    assert_eq!(
        parse_error::<Event>(vec![Value::Null; 7]),
        "unexpected message length for EVENT, must be at most 6, but was 7"
    );
    assert_eq!(
        parse_error::<Abort>(vec![Value::Null; 2]),
        "unexpected message length for ABORT: must be at least 3, but was 2"
    );
    assert_eq!(
        parse_error::<Abort>(vec![Value::Null; 6]),
        "unexpected message length for ABORT, must be at most 5, but was 6"
    );
    assert_eq!(
        parse_error::<Invocation>(vec![Value::Null; 3]),
        "unexpected message length for INVOCATION: must be at least 4, but was 3"
    );
    assert_eq!(
        parse_error::<Yield>(vec![Value::Null; 6]),
        "unexpected message length for YIELD, must be at most 5, but was 6"
    );
}

#[test]
fn every_kind_rejects_lengths_out_of_bounds() {
    fn gate<M: Message + Debug>(min: usize, max: usize, name: &str) {
        for len in 0..(max + 3) {
            let data = vec![Value::Null; len];
            let text = parse_error::<M>(data);
            if len < min {
                assert_eq!(
                    text,
                    format!(
                        "unexpected message length for {}: must be at least {}, but was {}",
                        name, min, len
                    )
                );
            } else if len > max {
                assert_eq!(
                    text,
                    format!(
                        "unexpected message length for {}, must be at most {}, but was {}",
                        name, max, len
                    )
                );
            } else {
                assert_eq!(text, format!("{} received invalid message format", name));
            }
        }
    }
    gate::<Hello>(3, 3, "HELLO");
    gate::<Welcome>(3, 3, "WELCOME");
    gate::<Abort>(3, 5, "ABORT");
    gate::<Challenge>(3, 3, "CHALLENGE");
    gate::<Authenticate>(3, 3, "AUTHENTICATE");
    gate::<Goodbye>(3, 3, "GOODBYE");
    gate::<ErrorMessage>(5, 7, "ERROR");
    gate::<Publish>(4, 6, "PUBLISH");
    gate::<Published>(3, 3, "PUBLISHED");
    gate::<Subscribe>(4, 4, "SUBSCRIBE");
    gate::<Subscribed>(3, 3, "SUBSCRIBED");
    gate::<Unsubscribe>(3, 3, "UNSUBSCRIBE");
    gate::<Unsubscribed>(2, 2, "UNSUBSCRIBED");
    gate::<Event>(4, 6, "EVENT");
    gate::<Call>(4, 6, "CALL");
    gate::<Cancel>(3, 3, "CANCEL");
    gate::<Result_>(3, 5, "RESULT");
    gate::<Register>(4, 4, "REGISTER");
    gate::<Registered>(3, 3, "REGISTERED");
    gate::<Unregister>(3, 3, "UNREGISTER");
    gate::<Unregistered>(2, 2, "UNREGISTERED");
    gate::<Invocation>(4, 6, "INVOCATION");
    gate::<Interrupt>(3, 3, "INTERRUPT");
    gate::<Yield>(3, 5, "YIELD");
}

#[test]
fn debug_text_of_values_in_errors() {
    let cases: Vec<(Value, &str)> = vec![
        (Value::Null, "Null"),
        (Value::Int(-7), "Int(-7)"),
        (Value::Bool(false), "Bool(false)"),
        (Value::Dict(dict(vec![("k", Value::Int(1))])), "Dict({\"k\": Int(1)})"),
        (Value::Bytes(ByteArray(vec![1, 2])), "Bytes([1, 2])"),
        (s("x"), "Str(\"x\")"),
    ];
    for (value, text) in cases {
        let details = dict(vec![("authid", s("a")), ("authmethods", value)]);
        assert_eq!(
            parse_error::<Hello>(vec![Value::Int(1), s("r"), Value::Dict(details)]),
            format!("Invalid type for 'authmethods': {}", text)
        );
    }
}
