//! HELLO: a client asks to join a realm.

use crate::messages::fields::{dict_field, get_dict, get_list, get_str, list_field, str_field};
use crate::messages::message::Message;
use crate::messages::types::{
    lemma_position, list_view, lookup, Dict, DictView, Error, Value, ValueView,
};
use crate::messages::validator::{arity_failure, invalid_format, ValidationSpec};
use vstd::prelude::*;

verus! {

pub const MESSAGE_TYPE_HELLO: i64 = 1;

pub const MESSAGE_NAME_HELLO: &'static str = "HELLO";

/// The arity bounds of HELLO.
pub fn validation_spec() -> (r: ValidationSpec)
    ensures
        r == Hello::validation(),
{
    ValidationSpec { min_length: 3, max_length: 3, name: MESSAGE_NAME_HELLO }
}

#[derive(Debug, PartialEq)]
pub struct Hello {
    pub realm: String,
    pub authid: String,
    pub auth_methods: Vec<String>,
    pub auth_extra: Dict,
    pub roles: Dict,
}

/// The model of a [`Hello`].
pub struct HelloView {
    pub realm: Seq<char>,
    pub authid: Seq<char>,
    pub auth_methods: Seq<Seq<char>>,
    pub auth_extra: DictView,
    pub roles: DictView,
}

/// The models of a list of strings, in order.
pub open spec fn texts(items: Seq<String>) -> Seq<Seq<char>> {
    Seq::new(items.len(), |i: int| items[i]@)
}

/// A list of strings, as string values.
pub open spec fn as_values(items: Seq<Seq<char>>) -> Seq<ValueView> {
    Seq::new(items.len(), |i: int| ValueView::Str(items[i]))
}

/// The strings among the items of a list, in order; other items are
/// passed over.
pub open spec fn strings_of(items: Seq<ValueView>) -> Seq<Seq<char>>
    decreases items.len(),
{
    if items.len() == 0 {
        seq![]
    } else {
        match items.last() {
            ValueView::Str(s) => strings_of(items.drop_last()).push(s),
            _ => strings_of(items.drop_last()),
        }
    }
}

/// The details dictionary of a HELLO.
pub open spec fn hello_details(m: HelloView) -> DictView {
    seq![
        ("authid"@, ValueView::Str(m.authid)),
        ("authmethods"@, ValueView::List(as_values(m.auth_methods))),
        ("authextra"@, ValueView::Dict(m.auth_extra)),
        ("roles"@, ValueView::Dict(m.roles)),
    ]
}

/// A list of string values holds just those strings.
pub proof fn lemma_strings_of_values(items: Seq<Seq<char>>)
    ensures
        strings_of(as_values(items)) == items,
    decreases items.len(),
{
    if items.len() == 0 {
        assert(strings_of(as_values(items)) =~= items);
    } else {
        lemma_strings_of_values(items.drop_last());
        assert(as_values(items).drop_last() =~= as_values(items.drop_last()));
        assert(items.drop_last().push(items.last()) =~= items);
    }
}

/// The four keys of the details dictionary differ from one another.
pub proof fn lemma_hello_keys()
    ensures
        "authid"@ != "authmethods"@,
        "authid"@ != "authextra"@,
        "authid"@ != "roles"@,
        "authmethods"@ != "authextra"@,
        "authmethods"@ != "roles"@,
        "authextra"@ != "roles"@,
{
    reveal_strlit("authid");
    reveal_strlit("authmethods");
    reveal_strlit("authextra");
    reveal_strlit("roles");
    assert("authid"@.len() == 6);
    assert("authmethods"@.len() == 11);
    assert("authextra"@.len() == 9);
    assert("roles"@.len() == 5);
}

/// Each of the four fields is found in the details dictionary of a HELLO.
pub proof fn lemma_hello_details(m: HelloView)
    ensures
        lookup(hello_details(m), "authid"@) == Some(ValueView::Str(m.authid)),
        lookup(hello_details(m), "authmethods"@) == Some(
            ValueView::List(as_values(m.auth_methods)),
        ),
        lookup(hello_details(m), "authextra"@) == Some(ValueView::Dict(m.auth_extra)),
        lookup(hello_details(m), "roles"@) == Some(ValueView::Dict(m.roles)),
{
    lemma_hello_keys();
    let d = hello_details(m);
    lemma_position(d, "authid"@, 0);
    lemma_position(d, "authmethods"@, 1);
    lemma_position(d, "authextra"@, 2);
    lemma_position(d, "roles"@, 3);
}

impl View for Hello {
    type V = HelloView;

    open spec fn view(&self) -> HelloView {
        HelloView {
            realm: self.realm@,
            authid: self.authid@,
            auth_methods: texts(self.auth_methods@),
            auth_extra: self.auth_extra@,
            roles: self.roles@,
        }
    }
}

impl Message for Hello {
    open spec fn tag() -> i64 {
        1
    }

    open spec fn validation() -> ValidationSpec {
        ValidationSpec { min_length: 3, max_length: 3, name: "HELLO" }
    }

    open spec fn wire(m: HelloView) -> Seq<ValueView> {
        seq![ValueView::Int(1), ValueView::Str(m.realm), ValueView::Dict(hello_details(m))]
    }

    open spec fn decode(data: Seq<ValueView>) -> Result<HelloView, Seq<char>> {
        match arity_failure(Self::validation(), data.len() as int) {
            Some(text) => Err(text),
            None => if data[1] is Str && data[2] is Dict {
                let details = data[2]->Dict_0;
                match str_field(details, "authid"@, "authid"@) {
                    Err(text) => Err(text),
                    Ok(authid) => match list_field(details, "authmethods"@, "authmethods"@) {
                        Err(text) => Err(text),
                        Ok(methods) => match dict_field(details, "authextra"@, "authextra"@) {
                            Err(text) => Err(text),
                            Ok(auth_extra) => match dict_field(
                                details,
                                "roles"@,
                                "authroles"@,
                            ) {
                                Err(text) => Err(text),
                                Ok(roles) => Ok(
                                    HelloView {
                                        realm: data[1]->Str_0,
                                        authid,
                                        auth_methods: strings_of(methods),
                                        auth_extra,
                                        roles,
                                    },
                                ),
                            },
                        },
                    },
                }
            } else {
                Err(invalid_format("HELLO"@))
            },
        }
    }

    open spec fn valid(m: HelloView) -> bool {
        true
    }

    fn message_type(&self) -> (r: Value) {
        Value::Int(MESSAGE_TYPE_HELLO)
    }

    fn marshal(&self) -> (r: Vec<Value>) {
        let mut methods: Vec<Value> = Vec::new();
        let mut i: usize = 0;
        while i < self.auth_methods.len()
            invariant
                i <= self.auth_methods.len(),
                methods@.len() == i,
                forall|k: int|
                    0 <= k < i ==> (#[trigger] methods@[k])@ == ValueView::Str(
                        self.auth_methods@[k]@,
                    ),
            decreases self.auth_methods.len() - i,
        {
            methods.push(Value::Str(self.auth_methods[i].clone()));
            i += 1;
        }
        assert(list_view(methods@) =~= as_values(texts(self.auth_methods@)));

        let ghost m = self@;
        proof {
            lemma_hello_keys();
        }
        let mut details = Dict::new();
        details.insert(String::from_str("authid"), Value::Str(self.authid.clone()));
        proof {
            lemma_position(Seq::<(Seq<char>, ValueView)>::empty(), "authid"@, 0);
        }
        assert(details@ =~= hello_details(m).take(1));
        details.insert(String::from_str("authmethods"), Value::list(methods));
        proof {
            lemma_position(hello_details(m).take(1), "authmethods"@, 1);
        }
        assert(details@ =~= hello_details(m).take(2));
        details.insert(String::from_str("authextra"), Value::Dict(self.auth_extra.clone()));
        proof {
            lemma_position(hello_details(m).take(2), "authextra"@, 2);
        }
        assert(details@ =~= hello_details(m).take(3));
        details.insert(String::from_str("roles"), Value::Dict(self.roles.clone()));
        proof {
            lemma_position(hello_details(m).take(3), "roles"@, 3);
        }
        assert(details@ =~= hello_details(m));

        let result = vec![
            Value::Int(MESSAGE_TYPE_HELLO),
            Value::Str(self.realm.clone()),
            Value::Dict(details),
        ];
        assert(list_view(result@) =~= Self::wire(m));
        result
    }

    fn parse(data: Vec<Value>) -> (r: Result<Self, Error>) {
        let spec = validation_spec();
        match spec.validate_message(data.as_slice()) {
            Err(e) => {
                return Err(e);
            },
            Ok(_) => {},
        }
        match (&data[1], &data[2]) {
            (Value::Str(realm), Value::Dict(details)) => {
                let authid = match get_str(details, "authid", "authid") {
                    Ok(s) => s,
                    Err(e) => {
                        return Err(e);
                    },
                };
                let auth_methods = match get_list(details, "authmethods", "authmethods") {
                    Ok(items) => items,
                    Err(e) => {
                        return Err(e);
                    },
                };
                let auth_extra = match get_dict(details, "authextra", "authextra") {
                    Ok(entries) => entries,
                    Err(e) => {
                        return Err(e);
                    },
                };
                let roles = match get_dict(details, "roles", "authroles") {
                    Ok(entries) => entries,
                    Err(e) => {
                        return Err(e);
                    },
                };
                let mut methods: Vec<String> = Vec::new();
                let mut i: usize = 0;
                while i < auth_methods.len()
                    invariant
                        i <= auth_methods.len(),
                        texts(methods@) == strings_of(list_view(auth_methods@).take(i as int)),
                    decreases auth_methods.len() - i,
                {
                    let ghost before = list_view(auth_methods@).take(i as int);
                    let ghost after = list_view(auth_methods@).take(i + 1);
                    assert(after.drop_last() =~= before);
                    assert(after.last() == auth_methods@[i as int]@);
                    // An item that is no string is passed over.
                    match &auth_methods[i] {
                        Value::Str(s) => {
                            let ghost old_texts = texts(methods@);
                            methods.push(s.clone());
                            assert(texts(methods@) =~= old_texts.push(s@));
                        },
                        _ => {},
                    }
                    i += 1;
                }
                assert(list_view(auth_methods@).take(auth_methods@.len() as int) =~= list_view(
                    auth_methods@,
                ));
                Ok(Hello::new(realm.as_str(), authid.as_str(), auth_extra, roles, methods))
            },
            _ => Err(spec.err_invalid_message()),
        }
    }

    proof fn tag_first(m: HelloView) {
    }

    proof fn arity_gate(data: Seq<ValueView>) {
    }

    proof fn round_trip(m: HelloView) {
        lemma_hello_details(m);
        lemma_strings_of_values(m.auth_methods);
    }
}

impl Hello {
    pub fn new(
        realm: &str,
        authid: &str,
        auth_extra: Dict,
        roles: Dict,
        auth_methods: Vec<String>,
    ) -> (r: Hello)
        ensures
            r@ == (HelloView {
                realm: realm@,
                authid: authid@,
                auth_methods: texts(auth_methods@),
                auth_extra: auth_extra@,
                roles: roles@,
            }),
    {
        Hello {
            realm: String::from_str(realm),
            authid: String::from_str(authid),
            auth_extra,
            auth_methods,
            roles,
        }
    }
}

} // verus!
