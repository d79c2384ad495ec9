//! PUBLISH: a publisher sends an event to a topic.

use crate::messages::message::{
    args_view, kwargs_view, lemma_tail_round_trip, parse_tail, push_tail, tail_accepted,
    tail_args, tail_kwargs, tail_wire, Message,
};
use crate::messages::types::{list_view, Dict, DictView, Error, Value, ValueView};
use crate::messages::validator::{arity_failure, invalid_format, ValidationSpec};
use vstd::prelude::*;

verus! {

pub const MESSAGE_TYPE_PUBLISH: i64 = 16;

pub const MESSAGE_NAME_PUBLISH: &'static str = "PUBLISH";

/// The arity bounds of PUBLISH.
pub fn validation_spec() -> (r: ValidationSpec)
    ensures
        r == Publish::validation(),
{
    ValidationSpec { min_length: 4, max_length: 6, name: MESSAGE_NAME_PUBLISH }
}

#[derive(Debug, PartialEq)]
pub struct Publish {
    pub request_id: i64,
    pub options: Dict,
    pub topic: String,
    pub args: Option<Vec<Value>>,
    pub kwargs: Option<Dict>,
}

/// The model of a [`Publish`].
pub struct PublishView {
    pub request_id: i64,
    pub options: DictView,
    pub topic: Seq<char>,
    pub args: Option<Seq<ValueView>>,
    pub kwargs: Option<DictView>,
}

impl View for Publish {
    type V = PublishView;

    open spec fn view(&self) -> PublishView {
        PublishView {
            request_id: self.request_id,
            options: self.options@,
            topic: self.topic@,
            args: args_view(self.args),
            kwargs: kwargs_view(self.kwargs),
        }
    }
}

impl Message for Publish {
    open spec fn tag() -> i64 {
        16
    }

    open spec fn validation() -> ValidationSpec {
        ValidationSpec { min_length: 4, max_length: 6, name: "PUBLISH" }
    }

    open spec fn wire(m: PublishView) -> Seq<ValueView> {
        seq![
            ValueView::Int(16),
            ValueView::Int(m.request_id),
            ValueView::Dict(m.options),
            ValueView::Str(m.topic),
        ] + tail_wire(m.args, m.kwargs)
    }

    open spec fn decode(data: Seq<ValueView>) -> Result<PublishView, Seq<char>> {
        match arity_failure(Self::validation(), data.len() as int) {
            Some(text) => Err(text),
            None => if data[1] is Int
                && data[2] is Dict
                && data[3] is Str
                && tail_accepted(data.skip(4)) {
                Ok(
                    PublishView {
                        request_id: data[1]->Int_0,
                        options: data[2]->Dict_0,
                        topic: data[3]->Str_0,
                        args: tail_args(data.skip(4)),
                        kwargs: tail_kwargs(data.skip(4)),
                    },
                )
            } else {
                Err(invalid_format("PUBLISH"@))
            },
        }
    }

    open spec fn valid(m: PublishView) -> bool {
        true
    }

    fn message_type(&self) -> (r: Value) {
        Value::Int(MESSAGE_TYPE_PUBLISH)
    }

    fn marshal(&self) -> (r: Vec<Value>) {
        let mut result = vec![
            Value::Int(MESSAGE_TYPE_PUBLISH),
            Value::Int(self.request_id),
            Value::Dict(self.options.clone()),
            Value::Str(self.topic.clone()),
        ];
        assert(list_view(result@) =~= seq![
            ValueView::Int(16),
            ValueView::Int(self.request_id),
            ValueView::Dict(self.options@),
            ValueView::Str(self.topic@),
        ]);
        push_tail(&mut result, &self.args, &self.kwargs);
        result
    }

    fn parse(data: Vec<Value>) -> (r: Result<Self, Error>) {
        let spec = validation_spec();
        match spec.validate_message(data.as_slice()) {
            Err(e) => {
                return Err(e);
            },
            Ok(_) => {},
        }
        let tail = parse_tail(&data, 4);
        match (&data[1], &data[2], &data[3], tail) {
            (
                Value::Int(request_id),
                Value::Dict(options),
                Value::Str(topic),
                Some((args, kwargs)),
            ) => Ok(
                Publish {
                    request_id: *request_id,
                    options: options.clone(),
                    topic: topic.clone(),
                    args,
                    kwargs,
                },
            ),
            _ => Err(spec.err_invalid_message()),
        }
    }

    proof fn tag_first(m: PublishView) {
    }

    proof fn arity_gate(data: Seq<ValueView>) {
    }

    proof fn round_trip(m: PublishView) {
        lemma_tail_round_trip(m.args, m.kwargs);
        assert(Self::wire(m).skip(4) =~= tail_wire(m.args, m.kwargs));
    }
}

} // verus!
