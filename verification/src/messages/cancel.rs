//! CANCEL: a caller withdraws a call that is still outstanding.

use crate::messages::message::Message;
use crate::messages::types::{list_view, Dict, DictView, Error, Value, ValueView};
use crate::messages::validator::{arity_failure, invalid_format, ValidationSpec};
use vstd::prelude::*;

verus! {

pub const MESSAGE_TYPE_CANCEL: i64 = 49;

pub const MESSAGE_NAME_CANCEL: &'static str = "CANCEL";

/// The arity bounds of CANCEL.
pub fn validation_spec() -> (r: ValidationSpec)
    ensures
        r == Cancel::validation(),
{
    ValidationSpec { min_length: 3, max_length: 3, name: MESSAGE_NAME_CANCEL }
}

#[derive(Debug, PartialEq)]
pub struct Cancel {
    pub request_id: i64,
    pub options: Dict,
}

/// The model of a [`Cancel`].
pub struct CancelView {
    pub request_id: i64,
    pub options: DictView,
}

impl View for Cancel {
    type V = CancelView;

    open spec fn view(&self) -> CancelView {
        CancelView {
            request_id: self.request_id,
            options: self.options@,
        }
    }
}

impl Message for Cancel {
    open spec fn tag() -> i64 {
        49
    }

    open spec fn validation() -> ValidationSpec {
        ValidationSpec { min_length: 3, max_length: 3, name: "CANCEL" }
    }

    open spec fn wire(m: CancelView) -> Seq<ValueView> {
        seq![
            ValueView::Int(49),
            ValueView::Int(m.request_id),
            ValueView::Dict(m.options),
        ]
    }

    open spec fn decode(data: Seq<ValueView>) -> Result<CancelView, Seq<char>> {
        match arity_failure(Self::validation(), data.len() as int) {
            Some(text) => Err(text),
            None => if data[1] is Int && data[2] is Dict {
                Ok(
                    CancelView {
                        request_id: data[1]->Int_0,
                        options: data[2]->Dict_0,
                    },
                )
            } else {
                Err(invalid_format("CANCEL"@))
            },
        }
    }

    open spec fn valid(m: CancelView) -> bool {
        true
    }

    fn message_type(&self) -> (r: Value) {
        Value::Int(MESSAGE_TYPE_CANCEL)
    }

    fn marshal(&self) -> (r: Vec<Value>) {
        let result = vec![
            Value::Int(MESSAGE_TYPE_CANCEL),
            Value::Int(self.request_id),
            Value::Dict(self.options.clone()),
        ];
        assert(list_view(result@) =~= seq![
            ValueView::Int(49),
            ValueView::Int(self.request_id),
            ValueView::Dict(self.options@),
        ]);
        result
    }

    fn parse(data: Vec<Value>) -> (r: Result<Self, Error>) {
        let spec = validation_spec();
        match spec.validate_message(data.as_slice()) {
            Err(e) => {
                return Err(e);
            },
            Ok(_) => {},
        }
        match (&data[1], &data[2]) {
            (Value::Int(request_id), Value::Dict(options)) => Ok(
                Cancel {
                    request_id: *request_id,
                    options: options.clone(),
                },
            ),
            _ => Err(spec.err_invalid_message()),
        }
    }

    proof fn tag_first(m: CancelView) {
    }

    proof fn arity_gate(data: Seq<ValueView>) {
    }

    proof fn round_trip(m: CancelView) {
    }
}

} // verus!
