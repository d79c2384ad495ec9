//! UNSUBSCRIBED: the router acknowledges that a subscription was given up.

use crate::messages::message::Message;
use crate::messages::types::{list_view, Error, Value, ValueView};
use crate::messages::validator::{arity_failure, invalid_format, ValidationSpec};
use vstd::prelude::*;

verus! {

pub const MESSAGE_TYPE_UNSUBSCRIBED: i64 = 35;

pub const MESSAGE_NAME_UNSUBSCRIBED: &'static str = "UNSUBSCRIBED";

/// The arity bounds of UNSUBSCRIBED.
pub fn validation_spec() -> (r: ValidationSpec)
    ensures
        r == Unsubscribed::validation(),
{
    ValidationSpec { min_length: 2, max_length: 2, name: MESSAGE_NAME_UNSUBSCRIBED }
}

#[derive(Debug, PartialEq)]
pub struct Unsubscribed {
    pub request_id: i64,
}

/// The model of an [`Unsubscribed`].
pub struct UnsubscribedView {
    pub request_id: i64,
}

impl View for Unsubscribed {
    type V = UnsubscribedView;

    open spec fn view(&self) -> UnsubscribedView {
        UnsubscribedView {
            request_id: self.request_id,
        }
    }
}

impl Message for Unsubscribed {
    open spec fn tag() -> i64 {
        35
    }

    open spec fn validation() -> ValidationSpec {
        ValidationSpec { min_length: 2, max_length: 2, name: "UNSUBSCRIBED" }
    }

    open spec fn wire(m: UnsubscribedView) -> Seq<ValueView> {
        seq![
            ValueView::Int(35),
            ValueView::Int(m.request_id),
        ]
    }

    open spec fn decode(data: Seq<ValueView>) -> Result<UnsubscribedView, Seq<char>> {
        match arity_failure(Self::validation(), data.len() as int) {
            Some(text) => Err(text),
            None => if data[1] is Int {
                Ok(
                    UnsubscribedView {
                        request_id: data[1]->Int_0,
                    },
                )
            } else {
                Err(invalid_format("UNSUBSCRIBED"@))
            },
        }
    }

    open spec fn valid(m: UnsubscribedView) -> bool {
        true
    }

    fn message_type(&self) -> (r: Value) {
        Value::Int(MESSAGE_TYPE_UNSUBSCRIBED)
    }

    fn marshal(&self) -> (r: Vec<Value>) {
        let result = vec![
            Value::Int(MESSAGE_TYPE_UNSUBSCRIBED),
            Value::Int(self.request_id),
        ];
        assert(list_view(result@) =~= seq![
            ValueView::Int(35),
            ValueView::Int(self.request_id),
        ]);
        result
    }

    fn parse(data: Vec<Value>) -> (r: Result<Self, Error>) {
        let spec = validation_spec();
        match spec.validate_message(data.as_slice()) {
            Err(e) => {
                return Err(e);
            },
            Ok(_) => {},
        }
        match &data[1] {
            Value::Int(request_id) => Ok(
                Unsubscribed {
                    request_id: *request_id,
                },
            ),
            _ => Err(spec.err_invalid_message()),
        }
    }

    proof fn tag_first(m: UnsubscribedView) {
    }

    proof fn arity_gate(data: Seq<ValueView>) {
    }

    proof fn round_trip(m: UnsubscribedView) {
    }
}

} // verus!
