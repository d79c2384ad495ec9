//! RESULT: the outcome of a call, delivered to the caller.

use crate::messages::message::{
    args_view, kwargs_view, lemma_tail_round_trip, parse_tail, push_tail, tail_accepted,
    tail_args, tail_kwargs, tail_wire, Message,
};
use crate::messages::types::{list_view, Dict, DictView, Error, Value, ValueView};
use crate::messages::validator::{arity_failure, invalid_format, ValidationSpec};
use vstd::prelude::*;

verus! {

pub const MESSAGE_TYPE_RESULT: i64 = 50;

pub const MESSAGE_NAME_RESULT: &'static str = "RESULT";

/// The arity bounds of RESULT.
pub fn validation_spec() -> (r: ValidationSpec)
    ensures
        r == Result_::validation(),
{
    ValidationSpec { min_length: 3, max_length: 5, name: MESSAGE_NAME_RESULT }
}

#[derive(Debug, PartialEq)]
pub struct Result_ {
    pub request_id: i64,
    pub details: Dict,
    pub args: Option<Vec<Value>>,
    pub kwargs: Option<Dict>,
}

/// The model of a [`Result_`].
pub struct ResultView {
    pub request_id: i64,
    pub details: DictView,
    pub args: Option<Seq<ValueView>>,
    pub kwargs: Option<DictView>,
}

impl View for Result_ {
    type V = ResultView;

    open spec fn view(&self) -> ResultView {
        ResultView {
            request_id: self.request_id,
            details: self.details@,
            args: args_view(self.args),
            kwargs: kwargs_view(self.kwargs),
        }
    }
}

impl Message for Result_ {
    open spec fn tag() -> i64 {
        50
    }

    open spec fn validation() -> ValidationSpec {
        ValidationSpec { min_length: 3, max_length: 5, name: "RESULT" }
    }

    open spec fn wire(m: ResultView) -> Seq<ValueView> {
        seq![
            ValueView::Int(50),
            ValueView::Int(m.request_id),
            ValueView::Dict(m.details),
        ] + tail_wire(m.args, m.kwargs)
    }

    open spec fn decode(data: Seq<ValueView>) -> Result<ResultView, Seq<char>> {
        match arity_failure(Self::validation(), data.len() as int) {
            Some(text) => Err(text),
            None => if data[1] is Int && data[2] is Dict && tail_accepted(data.skip(3)) {
                Ok(
                    ResultView {
                        request_id: data[1]->Int_0,
                        details: data[2]->Dict_0,
                        args: tail_args(data.skip(3)),
                        kwargs: tail_kwargs(data.skip(3)),
                    },
                )
            } else {
                Err(invalid_format("RESULT"@))
            },
        }
    }

    open spec fn valid(m: ResultView) -> bool {
        true
    }

    fn message_type(&self) -> (r: Value) {
        Value::Int(MESSAGE_TYPE_RESULT)
    }

    fn marshal(&self) -> (r: Vec<Value>) {
        let mut result = vec![
            Value::Int(MESSAGE_TYPE_RESULT),
            Value::Int(self.request_id),
            Value::Dict(self.details.clone()),
        ];
        assert(list_view(result@) =~= seq![
            ValueView::Int(50),
            ValueView::Int(self.request_id),
            ValueView::Dict(self.details@),
        ]);
        push_tail(&mut result, &self.args, &self.kwargs);
        result
    }

    fn parse(data: Vec<Value>) -> (r: Result<Self, Error>) {
        let spec = validation_spec();
        match spec.validate_message(data.as_slice()) {
            Err(e) => {
                return Err(e);
            },
            Ok(_) => {},
        }
        let tail = parse_tail(&data, 3);
        match (&data[1], &data[2], tail) {
            (Value::Int(request_id), Value::Dict(details), Some((args, kwargs))) => Ok(
                Result_ {
                    request_id: *request_id,
                    details: details.clone(),
                    args,
                    kwargs,
                },
            ),
            _ => Err(spec.err_invalid_message()),
        }
    }

    proof fn tag_first(m: ResultView) {
    }

    proof fn arity_gate(data: Seq<ValueView>) {
    }

    proof fn round_trip(m: ResultView) {
        lemma_tail_round_trip(m.args, m.kwargs);
        assert(Self::wire(m).skip(3) =~= tail_wire(m.args, m.kwargs));
    }
}

} // verus!
