//! REGISTERED: the router acknowledges a registration.

use crate::messages::message::Message;
use crate::messages::types::{list_view, Error, Value, ValueView};
use crate::messages::validator::{arity_failure, invalid_format, ValidationSpec};
use vstd::prelude::*;

verus! {

pub const MESSAGE_TYPE_REGISTERED: i64 = 65;

pub const MESSAGE_NAME_REGISTERED: &'static str = "REGISTERED";

/// The arity bounds of REGISTERED.
pub fn validation_spec() -> (r: ValidationSpec)
    ensures
        r == Registered::validation(),
{
    ValidationSpec { min_length: 3, max_length: 3, name: MESSAGE_NAME_REGISTERED }
}

#[derive(Debug, PartialEq)]
pub struct Registered {
    pub request_id: i64,
    pub registration_id: i64,
}

/// The model of a [`Registered`].
pub struct RegisteredView {
    pub request_id: i64,
    pub registration_id: i64,
}

impl View for Registered {
    type V = RegisteredView;

    open spec fn view(&self) -> RegisteredView {
        RegisteredView {
            request_id: self.request_id,
            registration_id: self.registration_id,
        }
    }
}

impl Message for Registered {
    open spec fn tag() -> i64 {
        65
    }

    open spec fn validation() -> ValidationSpec {
        ValidationSpec { min_length: 3, max_length: 3, name: "REGISTERED" }
    }

    open spec fn wire(m: RegisteredView) -> Seq<ValueView> {
        seq![
            ValueView::Int(65),
            ValueView::Int(m.request_id),
            ValueView::Int(m.registration_id),
        ]
    }

    open spec fn decode(data: Seq<ValueView>) -> Result<RegisteredView, Seq<char>> {
        match arity_failure(Self::validation(), data.len() as int) {
            Some(text) => Err(text),
            None => if data[1] is Int && data[2] is Int {
                Ok(
                    RegisteredView {
                        request_id: data[1]->Int_0,
                        registration_id: data[2]->Int_0,
                    },
                )
            } else {
                Err(invalid_format("REGISTERED"@))
            },
        }
    }

    open spec fn valid(m: RegisteredView) -> bool {
        true
    }

    fn message_type(&self) -> (r: Value) {
        Value::Int(MESSAGE_TYPE_REGISTERED)
    }

    fn marshal(&self) -> (r: Vec<Value>) {
        let result = vec![
            Value::Int(MESSAGE_TYPE_REGISTERED),
            Value::Int(self.request_id),
            Value::Int(self.registration_id),
        ];
        assert(list_view(result@) =~= seq![
            ValueView::Int(65),
            ValueView::Int(self.request_id),
            ValueView::Int(self.registration_id),
        ]);
        result
    }

    fn parse(data: Vec<Value>) -> (r: Result<Self, Error>) {
        let spec = validation_spec();
        match spec.validate_message(data.as_slice()) {
            Err(e) => {
                return Err(e);
            },
            Ok(_) => {},
        }
        match (&data[1], &data[2]) {
            (Value::Int(request_id), Value::Int(registration_id)) => Ok(
                Registered {
                    request_id: *request_id,
                    registration_id: *registration_id,
                },
            ),
            _ => Err(spec.err_invalid_message()),
        }
    }

    proof fn tag_first(m: RegisteredView) {
    }

    proof fn arity_gate(data: Seq<ValueView>) {
    }

    proof fn round_trip(m: RegisteredView) {
    }
}

} // verus!
