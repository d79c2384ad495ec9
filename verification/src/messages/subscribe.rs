//! SUBSCRIBE: a subscriber asks for the events of a topic.

use crate::messages::message::Message;
use crate::messages::types::{list_view, Dict, DictView, Error, Value, ValueView};
use crate::messages::validator::{arity_failure, invalid_format, ValidationSpec};
use vstd::prelude::*;

verus! {

pub const MESSAGE_TYPE_SUBSCRIBE: i64 = 32;

pub const MESSAGE_NAME_SUBSCRIBE: &'static str = "SUBSCRIBE";

/// The arity bounds of SUBSCRIBE.
pub fn validation_spec() -> (r: ValidationSpec)
    ensures
        r == Subscribe::validation(),
{
    ValidationSpec { min_length: 4, max_length: 4, name: MESSAGE_NAME_SUBSCRIBE }
}

#[derive(Debug, PartialEq)]
pub struct Subscribe {
    pub request_id: i64,
    pub options: Dict,
    pub topic: String,
}

/// The model of a [`Subscribe`].
pub struct SubscribeView {
    pub request_id: i64,
    pub options: DictView,
    pub topic: Seq<char>,
}

impl View for Subscribe {
    type V = SubscribeView;

    open spec fn view(&self) -> SubscribeView {
        SubscribeView {
            request_id: self.request_id,
            options: self.options@,
            topic: self.topic@,
        }
    }
}

impl Message for Subscribe {
    open spec fn tag() -> i64 {
        32
    }

    open spec fn validation() -> ValidationSpec {
        ValidationSpec { min_length: 4, max_length: 4, name: "SUBSCRIBE" }
    }

    open spec fn wire(m: SubscribeView) -> Seq<ValueView> {
        seq![
            ValueView::Int(32),
            ValueView::Int(m.request_id),
            ValueView::Dict(m.options),
            ValueView::Str(m.topic),
        ]
    }

    open spec fn decode(data: Seq<ValueView>) -> Result<SubscribeView, Seq<char>> {
        match arity_failure(Self::validation(), data.len() as int) {
            Some(text) => Err(text),
            None => if data[1] is Int && data[2] is Dict && data[3] is Str {
                Ok(
                    SubscribeView {
                        request_id: data[1]->Int_0,
                        options: data[2]->Dict_0,
                        topic: data[3]->Str_0,
                    },
                )
            } else {
                Err(invalid_format("SUBSCRIBE"@))
            },
        }
    }

    open spec fn valid(m: SubscribeView) -> bool {
        true
    }

    fn message_type(&self) -> (r: Value) {
        Value::Int(MESSAGE_TYPE_SUBSCRIBE)
    }

    fn marshal(&self) -> (r: Vec<Value>) {
        let result = vec![
            Value::Int(MESSAGE_TYPE_SUBSCRIBE),
            Value::Int(self.request_id),
            Value::Dict(self.options.clone()),
            Value::Str(self.topic.clone()),
        ];
        assert(list_view(result@) =~= seq![
            ValueView::Int(32),
            ValueView::Int(self.request_id),
            ValueView::Dict(self.options@),
            ValueView::Str(self.topic@),
        ]);
        result
    }

    fn parse(data: Vec<Value>) -> (r: Result<Self, Error>) {
        let spec = validation_spec();
        match spec.validate_message(data.as_slice()) {
            Err(e) => {
                return Err(e);
            },
            Ok(_) => {},
        }
        match (&data[1], &data[2], &data[3]) {
            (Value::Int(request_id), Value::Dict(options), Value::Str(topic)) => Ok(
                Subscribe {
                    request_id: *request_id,
                    options: options.clone(),
                    topic: topic.clone(),
                },
            ),
            _ => Err(spec.err_invalid_message()),
        }
    }

    proof fn tag_first(m: SubscribeView) {
    }

    proof fn arity_gate(data: Seq<ValueView>) {
    }

    proof fn round_trip(m: SubscribeView) {
    }
}

} // verus!
