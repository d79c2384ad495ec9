//! WELCOME: the router admits the client to the session.

use crate::messages::fields::{get_optional_str, get_str, optional_str_field, str_field};
use crate::messages::message::Message;
use crate::messages::types::{list_view, Dict, DictView, Error, Value, ValueView};
use crate::messages::validator::{arity_failure, invalid_format, ValidationSpec};
use vstd::prelude::*;

verus! {

pub const MESSAGE_TYPE_WELCOME: i64 = 2;

pub const MESSAGE_NAME_WELCOME: &'static str = "WELCOME";

/// The arity bounds of WELCOME.
pub fn validation_spec() -> (r: ValidationSpec)
    ensures
        r == Welcome::validation(),
{
    ValidationSpec { min_length: 3, max_length: 3, name: MESSAGE_NAME_WELCOME }
}

/// `realm`, `authid` and `auth_role` repeat what `details` holds under
/// `realm`, `authid` and `authrole`. A router may leave the realm out;
/// `realm` is then empty.
#[derive(Debug, PartialEq)]
pub struct Welcome {
    pub session_id: i64,
    pub realm: String,
    pub authid: String,
    pub auth_role: String,
    pub details: Dict,
}

/// The model of a [`Welcome`].
pub struct WelcomeView {
    pub session_id: i64,
    pub realm: Seq<char>,
    pub authid: Seq<char>,
    pub auth_role: Seq<char>,
    pub details: DictView,
}

impl View for Welcome {
    type V = WelcomeView;

    open spec fn view(&self) -> WelcomeView {
        WelcomeView {
            session_id: self.session_id,
            realm: self.realm@,
            authid: self.authid@,
            auth_role: self.auth_role@,
            details: self.details@,
        }
    }
}

impl Message for Welcome {
    open spec fn tag() -> i64 {
        2
    }

    open spec fn validation() -> ValidationSpec {
        ValidationSpec { min_length: 3, max_length: 3, name: "WELCOME" }
    }

    open spec fn wire(m: WelcomeView) -> Seq<ValueView> {
        seq![ValueView::Int(2), ValueView::Int(m.session_id), ValueView::Dict(m.details)]
    }

    open spec fn decode(data: Seq<ValueView>) -> Result<WelcomeView, Seq<char>> {
        match arity_failure(Self::validation(), data.len() as int) {
            Some(text) => Err(text),
            None => if data[1] is Int && data[2] is Dict {
                let details = data[2]->Dict_0;
                match optional_str_field(details, "realm"@, "realm"@) {
                    Err(text) => Err(text),
                    Ok(realm) => match str_field(details, "authid"@, "authid"@) {
                        Err(text) => Err(text),
                        Ok(authid) => match str_field(details, "authrole"@, "authrole"@) {
                            Err(text) => Err(text),
                            Ok(auth_role) => Ok(
                                WelcomeView {
                                    session_id: data[1]->Int_0,
                                    realm,
                                    authid,
                                    auth_role,
                                    details,
                                },
                            ),
                        },
                    },
                }
            } else {
                Err(invalid_format("WELCOME"@))
            },
        }
    }

    /// The three repeated fields agree with the details.
    open spec fn valid(m: WelcomeView) -> bool {
        &&& optional_str_field(m.details, "realm"@, "realm"@) == Ok::<Seq<char>, Seq<char>>(
            m.realm,
        )
        &&& str_field(m.details, "authid"@, "authid"@) == Ok::<Seq<char>, Seq<char>>(m.authid)
        &&& str_field(m.details, "authrole"@, "authrole"@) == Ok::<Seq<char>, Seq<char>>(
            m.auth_role,
        )
    }

    fn message_type(&self) -> (r: Value) {
        Value::Int(MESSAGE_TYPE_WELCOME)
    }

    fn marshal(&self) -> (r: Vec<Value>) {
        let result = vec![
            Value::Int(MESSAGE_TYPE_WELCOME),
            Value::Int(self.session_id),
            Value::Dict(self.details.clone()),
        ];
        assert(list_view(result@) =~= Self::wire(self@));
        result
    }

    fn parse(data: Vec<Value>) -> (r: Result<Self, Error>) {
        let spec = validation_spec();
        match spec.validate_message(data.as_slice()) {
            Err(e) => {
                return Err(e);
            },
            Ok(_) => {},
        }
        match (&data[1], &data[2]) {
            (Value::Int(session_id), Value::Dict(details)) => {
                // Some routers leave the realm out of WELCOME; the one sent
                // in HELLO is then the realm of the session.
                let realm = match get_optional_str(details, "realm", "realm") {
                    Ok(s) => s,
                    Err(e) => {
                        return Err(e);
                    },
                };
                let authid = match get_str(details, "authid", "authid") {
                    Ok(s) => s,
                    Err(e) => {
                        return Err(e);
                    },
                };
                let auth_role = match get_str(details, "authrole", "authrole") {
                    Ok(s) => s,
                    Err(e) => {
                        return Err(e);
                    },
                };
                Ok(
                    Welcome {
                        session_id: *session_id,
                        realm,
                        authid,
                        auth_role,
                        details: details.clone(),
                    },
                )
            },
            _ => Err(spec.err_invalid_message()),
        }
    }

    proof fn tag_first(m: WelcomeView) {
    }

    proof fn arity_gate(data: Seq<ValueView>) {
    }

    proof fn round_trip(m: WelcomeView) {
    }
}

} // verus!
