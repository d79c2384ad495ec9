//! YIELD: the result that a callee gives for an invocation.

use crate::messages::message::{
    args_view, kwargs_view, lemma_tail_round_trip, parse_tail, push_tail, tail_accepted,
    tail_args, tail_kwargs, tail_wire, Message,
};
use crate::messages::types::{list_view, Dict, DictView, Error, Value, ValueView};
use crate::messages::validator::{arity_failure, invalid_format, ValidationSpec};
use vstd::prelude::*;

verus! {

pub const MESSAGE_TYPE_YIELD: i64 = 70;

pub const MESSAGE_NAME_YIELD: &'static str = "YIELD";

/// The arity bounds of YIELD.
pub fn validation_spec() -> (r: ValidationSpec)
    ensures
        r == Yield::validation(),
{
    ValidationSpec { min_length: 3, max_length: 5, name: MESSAGE_NAME_YIELD }
}

#[derive(Debug, PartialEq)]
pub struct Yield {
    pub request_id: i64,
    pub options: Dict,
    pub args: Option<Vec<Value>>,
    pub kwargs: Option<Dict>,
}

/// The model of a [`Yield`].
pub struct YieldView {
    pub request_id: i64,
    pub options: DictView,
    pub args: Option<Seq<ValueView>>,
    pub kwargs: Option<DictView>,
}

impl View for Yield {
    type V = YieldView;

    open spec fn view(&self) -> YieldView {
        YieldView {
            request_id: self.request_id,
            options: self.options@,
            args: args_view(self.args),
            kwargs: kwargs_view(self.kwargs),
        }
    }
}

impl Message for Yield {
    open spec fn tag() -> i64 {
        70
    }

    open spec fn validation() -> ValidationSpec {
        ValidationSpec { min_length: 3, max_length: 5, name: "YIELD" }
    }

    open spec fn wire(m: YieldView) -> Seq<ValueView> {
        seq![
            ValueView::Int(70),
            ValueView::Int(m.request_id),
            ValueView::Dict(m.options),
        ] + tail_wire(m.args, m.kwargs)
    }

    open spec fn decode(data: Seq<ValueView>) -> Result<YieldView, Seq<char>> {
        match arity_failure(Self::validation(), data.len() as int) {
            Some(text) => Err(text),
            None => if data[1] is Int && data[2] is Dict && tail_accepted(data.skip(3)) {
                Ok(
                    YieldView {
                        request_id: data[1]->Int_0,
                        options: data[2]->Dict_0,
                        args: tail_args(data.skip(3)),
                        kwargs: tail_kwargs(data.skip(3)),
                    },
                )
            } else {
                Err(invalid_format("YIELD"@))
            },
        }
    }

    open spec fn valid(m: YieldView) -> bool {
        true
    }

    fn message_type(&self) -> (r: Value) {
        Value::Int(MESSAGE_TYPE_YIELD)
    }

    fn marshal(&self) -> (r: Vec<Value>) {
        let mut result = vec![
            Value::Int(MESSAGE_TYPE_YIELD),
            Value::Int(self.request_id),
            Value::Dict(self.options.clone()),
        ];
        assert(list_view(result@) =~= seq![
            ValueView::Int(70),
            ValueView::Int(self.request_id),
            ValueView::Dict(self.options@),
        ]);
        push_tail(&mut result, &self.args, &self.kwargs);
        result
    }

    fn parse(data: Vec<Value>) -> (r: Result<Self, Error>) {
        let spec = validation_spec();
        match spec.validate_message(data.as_slice()) {
            Err(e) => {
                return Err(e);
            },
            Ok(_) => {},
        }
        let tail = parse_tail(&data, 3);
        match (&data[1], &data[2], tail) {
            (Value::Int(request_id), Value::Dict(options), Some((args, kwargs))) => Ok(
                Yield {
                    request_id: *request_id,
                    options: options.clone(),
                    args,
                    kwargs,
                },
            ),
            _ => Err(spec.err_invalid_message()),
        }
    }

    proof fn tag_first(m: YieldView) {
    }

    proof fn arity_gate(data: Seq<ValueView>) {
    }

    proof fn round_trip(m: YieldView) {
        lemma_tail_round_trip(m.args, m.kwargs);
        assert(Self::wire(m).skip(3) =~= tail_wire(m.args, m.kwargs));
    }
}

} // verus!
