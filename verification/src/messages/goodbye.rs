//! GOODBYE: a peer closes the session in good order.

use crate::messages::message::Message;
use crate::messages::types::{list_view, Dict, DictView, Error, Value, ValueView};
use crate::messages::validator::{arity_failure, invalid_format, ValidationSpec};
use vstd::prelude::*;

verus! {

pub const MESSAGE_TYPE_GOODBYE: i64 = 6;

pub const MESSAGE_NAME_GOODBYE: &'static str = "GOODBYE";

/// The arity bounds of GOODBYE.
pub fn validation_spec() -> (r: ValidationSpec)
    ensures
        r == Goodbye::validation(),
{
    ValidationSpec { min_length: 3, max_length: 3, name: MESSAGE_NAME_GOODBYE }
}

#[derive(Debug, PartialEq)]
pub struct Goodbye {
    pub details: Dict,
    pub reason: String,
}

/// The model of a [`Goodbye`].
pub struct GoodbyeView {
    pub details: DictView,
    pub reason: Seq<char>,
}

impl View for Goodbye {
    type V = GoodbyeView;

    open spec fn view(&self) -> GoodbyeView {
        GoodbyeView {
            details: self.details@,
            reason: self.reason@,
        }
    }
}

impl Message for Goodbye {
    open spec fn tag() -> i64 {
        6
    }

    open spec fn validation() -> ValidationSpec {
        ValidationSpec { min_length: 3, max_length: 3, name: "GOODBYE" }
    }

    open spec fn wire(m: GoodbyeView) -> Seq<ValueView> {
        seq![
            ValueView::Int(6),
            ValueView::Dict(m.details),
            ValueView::Str(m.reason),
        ]
    }

    open spec fn decode(data: Seq<ValueView>) -> Result<GoodbyeView, Seq<char>> {
        match arity_failure(Self::validation(), data.len() as int) {
            Some(text) => Err(text),
            None => if data[1] is Dict && data[2] is Str {
                Ok(
                    GoodbyeView {
                        details: data[1]->Dict_0,
                        reason: data[2]->Str_0,
                    },
                )
            } else {
                Err(invalid_format("GOODBYE"@))
            },
        }
    }

    open spec fn valid(m: GoodbyeView) -> bool {
        true
    }

    fn message_type(&self) -> (r: Value) {
        Value::Int(MESSAGE_TYPE_GOODBYE)
    }

    fn marshal(&self) -> (r: Vec<Value>) {
        let result = vec![
            Value::Int(MESSAGE_TYPE_GOODBYE),
            Value::Dict(self.details.clone()),
            Value::Str(self.reason.clone()),
        ];
        assert(list_view(result@) =~= seq![
            ValueView::Int(6),
            ValueView::Dict(self.details@),
            ValueView::Str(self.reason@),
        ]);
        result
    }

    fn parse(data: Vec<Value>) -> (r: Result<Self, Error>) {
        let spec = validation_spec();
        match spec.validate_message(data.as_slice()) {
            Err(e) => {
                return Err(e);
            },
            Ok(_) => {},
        }
        match (&data[1], &data[2]) {
            (Value::Dict(details), Value::Str(reason)) => Ok(
                Goodbye {
                    details: details.clone(),
                    reason: reason.clone(),
                },
            ),
            _ => Err(spec.err_invalid_message()),
        }
    }

    proof fn tag_first(m: GoodbyeView) {
    }

    proof fn arity_gate(data: Seq<ValueView>) {
    }

    proof fn round_trip(m: GoodbyeView) {
    }
}

} // verus!
