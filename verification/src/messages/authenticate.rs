//! AUTHENTICATE: the answer of a client to a challenge.

use crate::messages::message::Message;
use crate::messages::types::{list_view, Dict, DictView, Error, Value, ValueView};
use crate::messages::validator::{arity_failure, invalid_format, ValidationSpec};
use vstd::prelude::*;

verus! {

pub const MESSAGE_TYPE_AUTHENTICATE: i64 = 5;

pub const MESSAGE_NAME_AUTHENTICATE: &'static str = "AUTHENTICATE";

/// The arity bounds of AUTHENTICATE.
pub fn validation_spec() -> (r: ValidationSpec)
    ensures
        r == Authenticate::validation(),
{
    ValidationSpec { min_length: 3, max_length: 3, name: MESSAGE_NAME_AUTHENTICATE }
}

#[derive(Debug, PartialEq)]
pub struct Authenticate {
    pub signature: String,
    pub extra: Dict,
}

/// The model of an [`Authenticate`].
pub struct AuthenticateView {
    pub signature: Seq<char>,
    pub extra: DictView,
}

impl View for Authenticate {
    type V = AuthenticateView;

    open spec fn view(&self) -> AuthenticateView {
        AuthenticateView {
            signature: self.signature@,
            extra: self.extra@,
        }
    }
}

impl Message for Authenticate {
    open spec fn tag() -> i64 {
        5
    }

    open spec fn validation() -> ValidationSpec {
        ValidationSpec { min_length: 3, max_length: 3, name: "AUTHENTICATE" }
    }

    open spec fn wire(m: AuthenticateView) -> Seq<ValueView> {
        seq![
            ValueView::Int(5),
            ValueView::Str(m.signature),
            ValueView::Dict(m.extra),
        ]
    }

    open spec fn decode(data: Seq<ValueView>) -> Result<AuthenticateView, Seq<char>> {
        match arity_failure(Self::validation(), data.len() as int) {
            Some(text) => Err(text),
            None => if data[1] is Str && data[2] is Dict {
                Ok(
                    AuthenticateView {
                        signature: data[1]->Str_0,
                        extra: data[2]->Dict_0,
                    },
                )
            } else {
                Err(invalid_format("AUTHENTICATE"@))
            },
        }
    }

    open spec fn valid(m: AuthenticateView) -> bool {
        true
    }

    fn message_type(&self) -> (r: Value) {
        Value::Int(MESSAGE_TYPE_AUTHENTICATE)
    }

    fn marshal(&self) -> (r: Vec<Value>) {
        let result = vec![
            Value::Int(MESSAGE_TYPE_AUTHENTICATE),
            Value::Str(self.signature.clone()),
            Value::Dict(self.extra.clone()),
        ];
        assert(list_view(result@) =~= seq![
            ValueView::Int(5),
            ValueView::Str(self.signature@),
            ValueView::Dict(self.extra@),
        ]);
        result
    }

    fn parse(data: Vec<Value>) -> (r: Result<Self, Error>) {
        let spec = validation_spec();
        match spec.validate_message(data.as_slice()) {
            Err(e) => {
                return Err(e);
            },
            Ok(_) => {},
        }
        match (&data[1], &data[2]) {
            (Value::Str(signature), Value::Dict(extra)) => Ok(
                Authenticate {
                    signature: signature.clone(),
                    extra: extra.clone(),
                },
            ),
            _ => Err(spec.err_invalid_message()),
        }
    }

    proof fn tag_first(m: AuthenticateView) {
    }

    proof fn arity_gate(data: Seq<ValueView>) {
    }

    proof fn round_trip(m: AuthenticateView) {
    }
}

} // verus!
