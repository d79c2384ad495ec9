//! CHALLENGE: the router asks the client to prove who it is.

use crate::messages::message::Message;
use crate::messages::types::{list_view, Dict, DictView, Error, Value, ValueView};
use crate::messages::validator::{arity_failure, invalid_format, ValidationSpec};
use vstd::prelude::*;

verus! {

pub const MESSAGE_TYPE_CHALLENGE: i64 = 4;

pub const MESSAGE_NAME_CHALLENGE: &'static str = "CHALLENGE";

/// The arity bounds of CHALLENGE.
pub fn validation_spec() -> (r: ValidationSpec)
    ensures
        r == Challenge::validation(),
{
    ValidationSpec { min_length: 3, max_length: 3, name: MESSAGE_NAME_CHALLENGE }
}

#[derive(Debug, PartialEq)]
pub struct Challenge {
    pub auth_method: String,
    pub extra: Dict,
}

/// The model of a [`Challenge`].
pub struct ChallengeView {
    pub auth_method: Seq<char>,
    pub extra: DictView,
}

impl View for Challenge {
    type V = ChallengeView;

    open spec fn view(&self) -> ChallengeView {
        ChallengeView {
            auth_method: self.auth_method@,
            extra: self.extra@,
        }
    }
}

impl Message for Challenge {
    open spec fn tag() -> i64 {
        4
    }

    open spec fn validation() -> ValidationSpec {
        ValidationSpec { min_length: 3, max_length: 3, name: "CHALLENGE" }
    }

    open spec fn wire(m: ChallengeView) -> Seq<ValueView> {
        seq![
            ValueView::Int(4),
            ValueView::Str(m.auth_method),
            ValueView::Dict(m.extra),
        ]
    }

    open spec fn decode(data: Seq<ValueView>) -> Result<ChallengeView, Seq<char>> {
        match arity_failure(Self::validation(), data.len() as int) {
            Some(text) => Err(text),
            None => if data[1] is Str && data[2] is Dict {
                Ok(
                    ChallengeView {
                        auth_method: data[1]->Str_0,
                        extra: data[2]->Dict_0,
                    },
                )
            } else {
                Err(invalid_format("CHALLENGE"@))
            },
        }
    }

    open spec fn valid(m: ChallengeView) -> bool {
        true
    }

    fn message_type(&self) -> (r: Value) {
        Value::Int(MESSAGE_TYPE_CHALLENGE)
    }

    fn marshal(&self) -> (r: Vec<Value>) {
        let result = vec![
            Value::Int(MESSAGE_TYPE_CHALLENGE),
            Value::Str(self.auth_method.clone()),
            Value::Dict(self.extra.clone()),
        ];
        assert(list_view(result@) =~= seq![
            ValueView::Int(4),
            ValueView::Str(self.auth_method@),
            ValueView::Dict(self.extra@),
        ]);
        result
    }

    fn parse(data: Vec<Value>) -> (r: Result<Self, Error>) {
        let spec = validation_spec();
        match spec.validate_message(data.as_slice()) {
            Err(e) => {
                return Err(e);
            },
            Ok(_) => {},
        }
        match (&data[1], &data[2]) {
            (Value::Str(auth_method), Value::Dict(extra)) => Ok(
                Challenge {
                    auth_method: auth_method.clone(),
                    extra: extra.clone(),
                },
            ),
            _ => Err(spec.err_invalid_message()),
        }
    }

    proof fn tag_first(m: ChallengeView) {
    }

    proof fn arity_gate(data: Seq<ValueView>) {
    }

    proof fn round_trip(m: ChallengeView) {
    }
}

} // verus!
