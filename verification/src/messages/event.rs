//! EVENT: a publication that is delivered to a subscriber.

use crate::messages::message::{
    args_view, kwargs_view, lemma_tail_round_trip, parse_tail, push_tail, tail_accepted,
    tail_args, tail_kwargs, tail_wire, Message,
};
use crate::messages::types::{list_view, Dict, DictView, Error, Value, ValueView};
use crate::messages::validator::{arity_failure, invalid_format, ValidationSpec};
use vstd::prelude::*;

verus! {

pub const MESSAGE_TYPE_EVENT: i64 = 36;

pub const MESSAGE_NAME_EVENT: &'static str = "EVENT";

/// The arity bounds of EVENT.
pub fn validation_spec() -> (r: ValidationSpec)
    ensures
        r == Event::validation(),
{
    ValidationSpec { min_length: 4, max_length: 6, name: MESSAGE_NAME_EVENT }
}

#[derive(Debug, PartialEq)]
pub struct Event {
    pub subscription_id: i64,
    pub publication_id: i64,
    pub details: Dict,
    pub args: Option<Vec<Value>>,
    pub kwargs: Option<Dict>,
}

/// The model of an [`Event`].
pub struct EventView {
    pub subscription_id: i64,
    pub publication_id: i64,
    pub details: DictView,
    pub args: Option<Seq<ValueView>>,
    pub kwargs: Option<DictView>,
}

impl View for Event {
    type V = EventView;

    open spec fn view(&self) -> EventView {
        EventView {
            subscription_id: self.subscription_id,
            publication_id: self.publication_id,
            details: self.details@,
            args: args_view(self.args),
            kwargs: kwargs_view(self.kwargs),
        }
    }
}

impl Message for Event {
    open spec fn tag() -> i64 {
        36
    }

    open spec fn validation() -> ValidationSpec {
        ValidationSpec { min_length: 4, max_length: 6, name: "EVENT" }
    }

    open spec fn wire(m: EventView) -> Seq<ValueView> {
        seq![
            ValueView::Int(36),
            ValueView::Int(m.subscription_id),
            ValueView::Int(m.publication_id),
            ValueView::Dict(m.details),
        ] + tail_wire(m.args, m.kwargs)
    }

    open spec fn decode(data: Seq<ValueView>) -> Result<EventView, Seq<char>> {
        match arity_failure(Self::validation(), data.len() as int) {
            Some(text) => Err(text),
            None => if data[1] is Int
                && data[2] is Int
                && data[3] is Dict
                && tail_accepted(data.skip(4)) {
                Ok(
                    EventView {
                        subscription_id: data[1]->Int_0,
                        publication_id: data[2]->Int_0,
                        details: data[3]->Dict_0,
                        args: tail_args(data.skip(4)),
                        kwargs: tail_kwargs(data.skip(4)),
                    },
                )
            } else {
                Err(invalid_format("EVENT"@))
            },
        }
    }

    open spec fn valid(m: EventView) -> bool {
        true
    }

    fn message_type(&self) -> (r: Value) {
        Value::Int(MESSAGE_TYPE_EVENT)
    }

    fn marshal(&self) -> (r: Vec<Value>) {
        let mut result = vec![
            Value::Int(MESSAGE_TYPE_EVENT),
            Value::Int(self.subscription_id),
            Value::Int(self.publication_id),
            Value::Dict(self.details.clone()),
        ];
        assert(list_view(result@) =~= seq![
            ValueView::Int(36),
            ValueView::Int(self.subscription_id),
            ValueView::Int(self.publication_id),
            ValueView::Dict(self.details@),
        ]);
        push_tail(&mut result, &self.args, &self.kwargs);
        result
    }

    fn parse(data: Vec<Value>) -> (r: Result<Self, Error>) {
        let spec = validation_spec();
        match spec.validate_message(data.as_slice()) {
            Err(e) => {
                return Err(e);
            },
            Ok(_) => {},
        }
        let tail = parse_tail(&data, 4);
        match (&data[1], &data[2], &data[3], tail) {
            (
                Value::Int(subscription_id),
                Value::Int(publication_id),
                Value::Dict(details),
                Some((args, kwargs)),
            ) => Ok(
                Event {
                    subscription_id: *subscription_id,
                    publication_id: *publication_id,
                    details: details.clone(),
                    args,
                    kwargs,
                },
            ),
            _ => Err(spec.err_invalid_message()),
        }
    }

    proof fn tag_first(m: EventView) {
    }

    proof fn arity_gate(data: Seq<ValueView>) {
    }

    proof fn round_trip(m: EventView) {
        lemma_tail_round_trip(m.args, m.kwargs);
        assert(Self::wire(m).skip(4) =~= tail_wire(m.args, m.kwargs));
    }
}

} // verus!
