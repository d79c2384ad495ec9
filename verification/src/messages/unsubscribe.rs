//! UNSUBSCRIBE: a subscriber gives up a subscription.

use crate::messages::message::Message;
use crate::messages::types::{list_view, Error, Value, ValueView};
use crate::messages::validator::{arity_failure, invalid_format, ValidationSpec};
use vstd::prelude::*;

verus! {

pub const MESSAGE_TYPE_UNSUBSCRIBE: i64 = 34;

pub const MESSAGE_NAME_UNSUBSCRIBE: &'static str = "UNSUBSCRIBE";

/// The arity bounds of UNSUBSCRIBE.
pub fn validation_spec() -> (r: ValidationSpec)
    ensures
        r == Unsubscribe::validation(),
{
    ValidationSpec { min_length: 3, max_length: 3, name: MESSAGE_NAME_UNSUBSCRIBE }
}

#[derive(Debug, PartialEq)]
pub struct Unsubscribe {
    pub request_id: i64,
    pub subscription_id: i64,
}

/// The model of an [`Unsubscribe`].
pub struct UnsubscribeView {
    pub request_id: i64,
    pub subscription_id: i64,
}

impl View for Unsubscribe {
    type V = UnsubscribeView;

    open spec fn view(&self) -> UnsubscribeView {
        UnsubscribeView {
            request_id: self.request_id,
            subscription_id: self.subscription_id,
        }
    }
}

impl Message for Unsubscribe {
    open spec fn tag() -> i64 {
        34
    }

    open spec fn validation() -> ValidationSpec {
        ValidationSpec { min_length: 3, max_length: 3, name: "UNSUBSCRIBE" }
    }

    open spec fn wire(m: UnsubscribeView) -> Seq<ValueView> {
        seq![
            ValueView::Int(34),
            ValueView::Int(m.request_id),
            ValueView::Int(m.subscription_id),
        ]
    }

    open spec fn decode(data: Seq<ValueView>) -> Result<UnsubscribeView, Seq<char>> {
        match arity_failure(Self::validation(), data.len() as int) {
            Some(text) => Err(text),
            None => if data[1] is Int && data[2] is Int {
                Ok(
                    UnsubscribeView {
                        request_id: data[1]->Int_0,
                        subscription_id: data[2]->Int_0,
                    },
                )
            } else {
                Err(invalid_format("UNSUBSCRIBE"@))
            },
        }
    }

    open spec fn valid(m: UnsubscribeView) -> bool {
        true
    }

    fn message_type(&self) -> (r: Value) {
        Value::Int(MESSAGE_TYPE_UNSUBSCRIBE)
    }

    fn marshal(&self) -> (r: Vec<Value>) {
        let result = vec![
            Value::Int(MESSAGE_TYPE_UNSUBSCRIBE),
            Value::Int(self.request_id),
            Value::Int(self.subscription_id),
        ];
        assert(list_view(result@) =~= seq![
            ValueView::Int(34),
            ValueView::Int(self.request_id),
            ValueView::Int(self.subscription_id),
        ]);
        result
    }

    fn parse(data: Vec<Value>) -> (r: Result<Self, Error>) {
        let spec = validation_spec();
        match spec.validate_message(data.as_slice()) {
            Err(e) => {
                return Err(e);
            },
            Ok(_) => {},
        }
        match (&data[1], &data[2]) {
            (Value::Int(request_id), Value::Int(subscription_id)) => Ok(
                Unsubscribe {
                    request_id: *request_id,
                    subscription_id: *subscription_id,
                },
            ),
            _ => Err(spec.err_invalid_message()),
        }
    }

    proof fn tag_first(m: UnsubscribeView) {
    }

    proof fn arity_gate(data: Seq<ValueView>) {
    }

    proof fn round_trip(m: UnsubscribeView) {
    }
}

} // verus!
