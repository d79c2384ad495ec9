//! ABORT: a peer gives up on opening the session, or shuts it down at once.

use crate::messages::message::{
    args_view, kwargs_view, lemma_tail_round_trip, parse_tail, push_tail, tail_accepted,
    tail_args, tail_kwargs, tail_wire, Message,
};
use crate::messages::types::{list_view, Dict, DictView, Error, Value, ValueView};
use crate::messages::validator::{arity_failure, invalid_format, ValidationSpec};
use vstd::prelude::*;

verus! {

pub const MESSAGE_TYPE_ABORT: i64 = 3;

pub const MESSAGE_NAME_ABORT: &'static str = "ABORT";

/// The arity bounds of ABORT.
pub fn validation_spec() -> (r: ValidationSpec)
    ensures
        r == Abort::validation(),
{
    ValidationSpec { min_length: 3, max_length: 5, name: MESSAGE_NAME_ABORT }
}

#[derive(Debug, PartialEq)]
pub struct Abort {
    pub details: Dict,
    pub reason: String,
    pub args: Option<Vec<Value>>,
    pub kwargs: Option<Dict>,
}

/// The model of an [`Abort`].
pub struct AbortView {
    pub details: DictView,
    pub reason: Seq<char>,
    pub args: Option<Seq<ValueView>>,
    pub kwargs: Option<DictView>,
}

impl View for Abort {
    type V = AbortView;

    open spec fn view(&self) -> AbortView {
        AbortView {
            details: self.details@,
            reason: self.reason@,
            args: args_view(self.args),
            kwargs: kwargs_view(self.kwargs),
        }
    }
}

impl Message for Abort {
    open spec fn tag() -> i64 {
        3
    }

    open spec fn validation() -> ValidationSpec {
        ValidationSpec { min_length: 3, max_length: 5, name: "ABORT" }
    }

    open spec fn wire(m: AbortView) -> Seq<ValueView> {
        seq![
            ValueView::Int(3),
            ValueView::Dict(m.details),
            ValueView::Str(m.reason),
        ] + tail_wire(m.args, m.kwargs)
    }

    open spec fn decode(data: Seq<ValueView>) -> Result<AbortView, Seq<char>> {
        match arity_failure(Self::validation(), data.len() as int) {
            Some(text) => Err(text),
            None => if data[1] is Dict && data[2] is Str && tail_accepted(data.skip(3)) {
                Ok(
                    AbortView {
                        details: data[1]->Dict_0,
                        reason: data[2]->Str_0,
                        args: tail_args(data.skip(3)),
                        kwargs: tail_kwargs(data.skip(3)),
                    },
                )
            } else {
                Err(invalid_format("ABORT"@))
            },
        }
    }

    open spec fn valid(m: AbortView) -> bool {
        true
    }

    fn message_type(&self) -> (r: Value) {
        Value::Int(MESSAGE_TYPE_ABORT)
    }

    fn marshal(&self) -> (r: Vec<Value>) {
        let mut result = vec![
            Value::Int(MESSAGE_TYPE_ABORT),
            Value::Dict(self.details.clone()),
            Value::Str(self.reason.clone()),
        ];
        assert(list_view(result@) =~= seq![
            ValueView::Int(3),
            ValueView::Dict(self.details@),
            ValueView::Str(self.reason@),
        ]);
        push_tail(&mut result, &self.args, &self.kwargs);
        result
    }

    fn parse(data: Vec<Value>) -> (r: Result<Self, Error>) {
        let spec = validation_spec();
        match spec.validate_message(data.as_slice()) {
            Err(e) => {
                return Err(e);
            },
            Ok(_) => {},
        }
        let tail = parse_tail(&data, 3);
        match (&data[1], &data[2], tail) {
            (Value::Dict(details), Value::Str(reason), Some((args, kwargs))) => Ok(
                Abort {
                    details: details.clone(),
                    reason: reason.clone(),
                    args,
                    kwargs,
                },
            ),
            _ => Err(spec.err_invalid_message()),
        }
    }

    proof fn tag_first(m: AbortView) {
    }

    proof fn arity_gate(data: Seq<ValueView>) {
    }

    proof fn round_trip(m: AbortView) {
        lemma_tail_round_trip(m.args, m.kwargs);
        assert(Self::wire(m).skip(3) =~= tail_wire(m.args, m.kwargs));
    }
}

} // verus!
