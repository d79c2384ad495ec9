//! SUBSCRIBED: the router acknowledges a subscription.

use crate::messages::message::Message;
use crate::messages::types::{list_view, Error, Value, ValueView};
use crate::messages::validator::{arity_failure, invalid_format, ValidationSpec};
use vstd::prelude::*;

verus! {

pub const MESSAGE_TYPE_SUBSCRIBED: i64 = 33;

pub const MESSAGE_NAME_SUBSCRIBED: &'static str = "SUBSCRIBED";

/// The arity bounds of SUBSCRIBED.
pub fn validation_spec() -> (r: ValidationSpec)
    ensures
        r == Subscribed::validation(),
{
    ValidationSpec { min_length: 3, max_length: 3, name: MESSAGE_NAME_SUBSCRIBED }
}

#[derive(Debug, PartialEq)]
pub struct Subscribed {
    pub request_id: i64,
    pub subscription_id: i64,
}

/// The model of a [`Subscribed`].
pub struct SubscribedView {
    pub request_id: i64,
    pub subscription_id: i64,
}

impl View for Subscribed {
    type V = SubscribedView;

    open spec fn view(&self) -> SubscribedView {
        SubscribedView {
            request_id: self.request_id,
            subscription_id: self.subscription_id,
        }
    }
}

impl Message for Subscribed {
    open spec fn tag() -> i64 {
        33
    }

    open spec fn validation() -> ValidationSpec {
        ValidationSpec { min_length: 3, max_length: 3, name: "SUBSCRIBED" }
    }

    open spec fn wire(m: SubscribedView) -> Seq<ValueView> {
        seq![
            ValueView::Int(33),
            ValueView::Int(m.request_id),
            ValueView::Int(m.subscription_id),
        ]
    }

    open spec fn decode(data: Seq<ValueView>) -> Result<SubscribedView, Seq<char>> {
        match arity_failure(Self::validation(), data.len() as int) {
            Some(text) => Err(text),
            None => if data[1] is Int && data[2] is Int {
                Ok(
                    SubscribedView {
                        request_id: data[1]->Int_0,
                        subscription_id: data[2]->Int_0,
                    },
                )
            } else {
                Err(invalid_format("SUBSCRIBED"@))
            },
        }
    }

    open spec fn valid(m: SubscribedView) -> bool {
        true
    }

    fn message_type(&self) -> (r: Value) {
        Value::Int(MESSAGE_TYPE_SUBSCRIBED)
    }

    fn marshal(&self) -> (r: Vec<Value>) {
        let result = vec![
            Value::Int(MESSAGE_TYPE_SUBSCRIBED),
            Value::Int(self.request_id),
            Value::Int(self.subscription_id),
        ];
        assert(list_view(result@) =~= seq![
            ValueView::Int(33),
            ValueView::Int(self.request_id),
            ValueView::Int(self.subscription_id),
        ]);
        result
    }

    fn parse(data: Vec<Value>) -> (r: Result<Self, Error>) {
        let spec = validation_spec();
        match spec.validate_message(data.as_slice()) {
            Err(e) => {
                return Err(e);
            },
            Ok(_) => {},
        }
        match (&data[1], &data[2]) {
            (Value::Int(request_id), Value::Int(subscription_id)) => Ok(
                Subscribed {
                    request_id: *request_id,
                    subscription_id: *subscription_id,
                },
            ),
            _ => Err(spec.err_invalid_message()),
        }
    }

    proof fn tag_first(m: SubscribedView) {
    }

    proof fn arity_gate(data: Seq<ValueView>) {
    }

    proof fn round_trip(m: SubscribedView) {
    }
}

} // verus!
