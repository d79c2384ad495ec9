//! UNREGISTER: a callee withdraws a procedure.

use crate::messages::message::Message;
use crate::messages::types::{list_view, Error, Value, ValueView};
use crate::messages::validator::{arity_failure, invalid_format, ValidationSpec};
use vstd::prelude::*;

verus! {

pub const MESSAGE_TYPE_UNREGISTER: i64 = 66;

pub const MESSAGE_NAME_UNREGISTER: &'static str = "UNREGISTER";

/// The arity bounds of UNREGISTER.
pub fn validation_spec() -> (r: ValidationSpec)
    ensures
        r == Unregister::validation(),
{
    ValidationSpec { min_length: 3, max_length: 3, name: MESSAGE_NAME_UNREGISTER }
}

#[derive(Debug, PartialEq)]
pub struct Unregister {
    pub request_id: i64,
    pub registration_id: i64,
}

/// The model of an [`Unregister`].
pub struct UnregisterView {
    pub request_id: i64,
    pub registration_id: i64,
}

impl View for Unregister {
    type V = UnregisterView;

    open spec fn view(&self) -> UnregisterView {
        UnregisterView {
            request_id: self.request_id,
            registration_id: self.registration_id,
        }
    }
}

impl Message for Unregister {
    open spec fn tag() -> i64 {
        66
    }

    open spec fn validation() -> ValidationSpec {
        ValidationSpec { min_length: 3, max_length: 3, name: "UNREGISTER" }
    }

    open spec fn wire(m: UnregisterView) -> Seq<ValueView> {
        seq![
            ValueView::Int(66),
            ValueView::Int(m.request_id),
            ValueView::Int(m.registration_id),
        ]
    }

    open spec fn decode(data: Seq<ValueView>) -> Result<UnregisterView, Seq<char>> {
        match arity_failure(Self::validation(), data.len() as int) {
            Some(text) => Err(text),
            None => if data[1] is Int && data[2] is Int {
                Ok(
                    UnregisterView {
                        request_id: data[1]->Int_0,
                        registration_id: data[2]->Int_0,
                    },
                )
            } else {
                Err(invalid_format("UNREGISTER"@))
            },
        }
    }

    open spec fn valid(m: UnregisterView) -> bool {
        true
    }

    fn message_type(&self) -> (r: Value) {
        Value::Int(MESSAGE_TYPE_UNREGISTER)
    }

    fn marshal(&self) -> (r: Vec<Value>) {
        let result = vec![
            Value::Int(MESSAGE_TYPE_UNREGISTER),
            Value::Int(self.request_id),
            Value::Int(self.registration_id),
        ];
        assert(list_view(result@) =~= seq![
            ValueView::Int(66),
            ValueView::Int(self.request_id),
            ValueView::Int(self.registration_id),
        ]);
        result
    }

    fn parse(data: Vec<Value>) -> (r: Result<Self, Error>) {
        let spec = validation_spec();
        match spec.validate_message(data.as_slice()) {
            Err(e) => {
                return Err(e);
            },
            Ok(_) => {},
        }
        match (&data[1], &data[2]) {
            (Value::Int(request_id), Value::Int(registration_id)) => Ok(
                Unregister {
                    request_id: *request_id,
                    registration_id: *registration_id,
                },
            ),
            _ => Err(spec.err_invalid_message()),
        }
    }

    proof fn tag_first(m: UnregisterView) {
    }

    proof fn arity_gate(data: Seq<ValueView>) {
    }

    proof fn round_trip(m: UnregisterView) {
    }
}

} // verus!
