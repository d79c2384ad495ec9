//! INVOCATION: the router hands a call to the callee that registered the procedure.

use crate::messages::message::{
    args_view, kwargs_view, lemma_tail_round_trip, parse_tail, push_tail, tail_accepted,
    tail_args, tail_kwargs, tail_wire, Message,
};
use crate::messages::types::{list_view, Dict, DictView, Error, Value, ValueView};
use crate::messages::validator::{arity_failure, invalid_format, ValidationSpec};
use vstd::prelude::*;

verus! {

pub const MESSAGE_TYPE_INVOCATION: i64 = 68;

pub const MESSAGE_NAME_INVOCATION: &'static str = "INVOCATION";

/// The arity bounds of INVOCATION.
pub fn validation_spec() -> (r: ValidationSpec)
    ensures
        r == Invocation::validation(),
{
    ValidationSpec { min_length: 4, max_length: 6, name: MESSAGE_NAME_INVOCATION }
}

#[derive(Debug, PartialEq)]
pub struct Invocation {
    pub request_id: i64,
    pub registration_id: i64,
    pub details: Dict,
    pub args: Option<Vec<Value>>,
    pub kwargs: Option<Dict>,
}

/// The model of an [`Invocation`].
pub struct InvocationView {
    pub request_id: i64,
    pub registration_id: i64,
    pub details: DictView,
    pub args: Option<Seq<ValueView>>,
    pub kwargs: Option<DictView>,
}

impl View for Invocation {
    type V = InvocationView;

    open spec fn view(&self) -> InvocationView {
        InvocationView {
            request_id: self.request_id,
            registration_id: self.registration_id,
            details: self.details@,
            args: args_view(self.args),
            kwargs: kwargs_view(self.kwargs),
        }
    }
}

impl Message for Invocation {
    open spec fn tag() -> i64 {
        68
    }

    open spec fn validation() -> ValidationSpec {
        ValidationSpec { min_length: 4, max_length: 6, name: "INVOCATION" }
    }

    open spec fn wire(m: InvocationView) -> Seq<ValueView> {
        seq![
            ValueView::Int(68),
            ValueView::Int(m.request_id),
            ValueView::Int(m.registration_id),
            ValueView::Dict(m.details),
        ] + tail_wire(m.args, m.kwargs)
    }

    open spec fn decode(data: Seq<ValueView>) -> Result<InvocationView, Seq<char>> {
        match arity_failure(Self::validation(), data.len() as int) {
            Some(text) => Err(text),
            None => if data[1] is Int
                && data[2] is Int
                && data[3] is Dict
                && tail_accepted(data.skip(4)) {
                Ok(
                    InvocationView {
                        request_id: data[1]->Int_0,
                        registration_id: data[2]->Int_0,
                        details: data[3]->Dict_0,
                        args: tail_args(data.skip(4)),
                        kwargs: tail_kwargs(data.skip(4)),
                    },
                )
            } else {
                Err(invalid_format("INVOCATION"@))
            },
        }
    }

    open spec fn valid(m: InvocationView) -> bool {
        true
    }

    fn message_type(&self) -> (r: Value) {
        Value::Int(MESSAGE_TYPE_INVOCATION)
    }

    fn marshal(&self) -> (r: Vec<Value>) {
        let mut result = vec![
            Value::Int(MESSAGE_TYPE_INVOCATION),
            Value::Int(self.request_id),
            Value::Int(self.registration_id),
            Value::Dict(self.details.clone()),
        ];
        assert(list_view(result@) =~= seq![
            ValueView::Int(68),
            ValueView::Int(self.request_id),
            ValueView::Int(self.registration_id),
            ValueView::Dict(self.details@),
        ]);
        push_tail(&mut result, &self.args, &self.kwargs);
        result
    }

    fn parse(data: Vec<Value>) -> (r: Result<Self, Error>) {
        let spec = validation_spec();
        match spec.validate_message(data.as_slice()) {
            Err(e) => {
                return Err(e);
            },
            Ok(_) => {},
        }
        let tail = parse_tail(&data, 4);
        match (&data[1], &data[2], &data[3], tail) {
            (
                Value::Int(request_id),
                Value::Int(registration_id),
                Value::Dict(details),
                Some((args, kwargs)),
            ) => Ok(
                Invocation {
                    request_id: *request_id,
                    registration_id: *registration_id,
                    details: details.clone(),
                    args,
                    kwargs,
                },
            ),
            _ => Err(spec.err_invalid_message()),
        }
    }

    proof fn tag_first(m: InvocationView) {
    }

    proof fn arity_gate(data: Seq<ValueView>) {
    }

    proof fn round_trip(m: InvocationView) {
        lemma_tail_round_trip(m.args, m.kwargs);
        assert(Self::wire(m).skip(4) =~= tail_wire(m.args, m.kwargs));
    }
}

} // verus!
