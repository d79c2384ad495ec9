//! INTERRUPT: the router asks a callee to stop an invocation.

use crate::messages::message::Message;
use crate::messages::types::{list_view, Dict, DictView, Error, Value, ValueView};
use crate::messages::validator::{arity_failure, invalid_format, ValidationSpec};
use vstd::prelude::*;

verus! {

pub const MESSAGE_TYPE_INTERRUPT: i64 = 69;

pub const MESSAGE_NAME_INTERRUPT: &'static str = "INTERRUPT";

/// The arity bounds of INTERRUPT.
pub fn validation_spec() -> (r: ValidationSpec)
    ensures
        r == Interrupt::validation(),
{
    ValidationSpec { min_length: 3, max_length: 3, name: MESSAGE_NAME_INTERRUPT }
}

#[derive(Debug, PartialEq)]
pub struct Interrupt {
    pub request_id: i64,
    pub options: Dict,
}

/// The model of an [`Interrupt`].
pub struct InterruptView {
    pub request_id: i64,
    pub options: DictView,
}

impl View for Interrupt {
    type V = InterruptView;

    open spec fn view(&self) -> InterruptView {
        InterruptView {
            request_id: self.request_id,
            options: self.options@,
        }
    }
}

impl Message for Interrupt {
    open spec fn tag() -> i64 {
        69
    }

    open spec fn validation() -> ValidationSpec {
        ValidationSpec { min_length: 3, max_length: 3, name: "INTERRUPT" }
    }

    open spec fn wire(m: InterruptView) -> Seq<ValueView> {
        seq![
            ValueView::Int(69),
            ValueView::Int(m.request_id),
            ValueView::Dict(m.options),
        ]
    }

    open spec fn decode(data: Seq<ValueView>) -> Result<InterruptView, Seq<char>> {
        match arity_failure(Self::validation(), data.len() as int) {
            Some(text) => Err(text),
            None => if data[1] is Int && data[2] is Dict {
                Ok(
                    InterruptView {
                        request_id: data[1]->Int_0,
                        options: data[2]->Dict_0,
                    },
                )
            } else {
                Err(invalid_format("INTERRUPT"@))
            },
        }
    }

    open spec fn valid(m: InterruptView) -> bool {
        true
    }

    fn message_type(&self) -> (r: Value) {
        Value::Int(MESSAGE_TYPE_INTERRUPT)
    }

    fn marshal(&self) -> (r: Vec<Value>) {
        let result = vec![
            Value::Int(MESSAGE_TYPE_INTERRUPT),
            Value::Int(self.request_id),
            Value::Dict(self.options.clone()),
        ];
        assert(list_view(result@) =~= seq![
            ValueView::Int(69),
            ValueView::Int(self.request_id),
            ValueView::Dict(self.options@),
        ]);
        result
    }

    fn parse(data: Vec<Value>) -> (r: Result<Self, Error>) {
        let spec = validation_spec();
        match spec.validate_message(data.as_slice()) {
            Err(e) => {
                return Err(e);
            },
            Ok(_) => {},
        }
        match (&data[1], &data[2]) {
            (Value::Int(request_id), Value::Dict(options)) => Ok(
                Interrupt {
                    request_id: *request_id,
                    options: options.clone(),
                },
            ),
            _ => Err(spec.err_invalid_message()),
        }
    }

    proof fn tag_first(m: InterruptView) {
    }

    proof fn arity_gate(data: Seq<ValueView>) {
    }

    proof fn round_trip(m: InterruptView) {
    }
}

} // verus!
