//! UNREGISTERED: the router acknowledges that a procedure was withdrawn.

use crate::messages::message::Message;
use crate::messages::types::{list_view, Error, Value, ValueView};
use crate::messages::validator::{arity_failure, invalid_format, ValidationSpec};
use vstd::prelude::*;

verus! {

pub const MESSAGE_TYPE_UNREGISTERED: i64 = 67;

pub const MESSAGE_NAME_UNREGISTERED: &'static str = "UNREGISTERED";

/// The arity bounds of UNREGISTERED.
pub fn validation_spec() -> (r: ValidationSpec)
    ensures
        r == Unregistered::validation(),
{
    ValidationSpec { min_length: 2, max_length: 2, name: MESSAGE_NAME_UNREGISTERED }
}

#[derive(Debug, PartialEq)]
pub struct Unregistered {
    pub request_id: i64,
}

/// The model of an [`Unregistered`].
pub struct UnregisteredView {
    pub request_id: i64,
}

impl View for Unregistered {
    type V = UnregisteredView;

    open spec fn view(&self) -> UnregisteredView {
        UnregisteredView {
            request_id: self.request_id,
        }
    }
}

impl Message for Unregistered {
    open spec fn tag() -> i64 {
        67
    }

    open spec fn validation() -> ValidationSpec {
        ValidationSpec { min_length: 2, max_length: 2, name: "UNREGISTERED" }
    }

    open spec fn wire(m: UnregisteredView) -> Seq<ValueView> {
        seq![
            ValueView::Int(67),
            ValueView::Int(m.request_id),
        ]
    }

    open spec fn decode(data: Seq<ValueView>) -> Result<UnregisteredView, Seq<char>> {
        match arity_failure(Self::validation(), data.len() as int) {
            Some(text) => Err(text),
            None => if data[1] is Int {
                Ok(
                    UnregisteredView {
                        request_id: data[1]->Int_0,
                    },
                )
            } else {
                Err(invalid_format("UNREGISTERED"@))
            },
        }
    }

    open spec fn valid(m: UnregisteredView) -> bool {
        true
    }

    fn message_type(&self) -> (r: Value) {
        Value::Int(MESSAGE_TYPE_UNREGISTERED)
    }

    fn marshal(&self) -> (r: Vec<Value>) {
        let result = vec![
            Value::Int(MESSAGE_TYPE_UNREGISTERED),
            Value::Int(self.request_id),
        ];
        assert(list_view(result@) =~= seq![
            ValueView::Int(67),
            ValueView::Int(self.request_id),
        ]);
        result
    }

    fn parse(data: Vec<Value>) -> (r: Result<Self, Error>) {
        let spec = validation_spec();
        match spec.validate_message(data.as_slice()) {
            Err(e) => {
                return Err(e);
            },
            Ok(_) => {},
        }
        match &data[1] {
            Value::Int(request_id) => Ok(
                Unregistered {
                    request_id: *request_id,
                },
            ),
            _ => Err(spec.err_invalid_message()),
        }
    }

    proof fn tag_first(m: UnregisteredView) {
    }

    proof fn arity_gate(data: Seq<ValueView>) {
    }

    proof fn round_trip(m: UnregisteredView) {
    }
}

} // verus!
