//! ERROR: the failure of a request, named by the type and id of the request.

use crate::messages::message::{
    args_view, kwargs_view, lemma_tail_round_trip, parse_tail, push_tail, tail_accepted,
    tail_args, tail_kwargs, tail_wire, Message,
};
use crate::messages::types::{list_view, Dict, DictView, Error as XError, Value, ValueView};
use crate::messages::validator::{arity_failure, invalid_format, ValidationSpec};
use vstd::prelude::*;

verus! {

pub const MESSAGE_TYPE_ERROR: i64 = 8;

pub const MESSAGE_NAME_ERROR: &'static str = "ERROR";

/// The arity bounds of ERROR.
pub fn validation_spec() -> (r: ValidationSpec)
    ensures
        r == Error::validation(),
{
    ValidationSpec { min_length: 5, max_length: 7, name: MESSAGE_NAME_ERROR }
}

#[derive(Debug, PartialEq)]
pub struct Error {
    pub message_type: i64,
    pub request_id: i64,
    pub options: Dict,
    pub uri: String,
    pub args: Option<Vec<Value>>,
    pub kwargs: Option<Dict>,
}

/// The model of an [`Error`].
pub struct ErrorView {
    pub message_type: i64,
    pub request_id: i64,
    pub options: DictView,
    pub uri: Seq<char>,
    pub args: Option<Seq<ValueView>>,
    pub kwargs: Option<DictView>,
}

impl View for Error {
    type V = ErrorView;

    open spec fn view(&self) -> ErrorView {
        ErrorView {
            message_type: self.message_type,
            request_id: self.request_id,
            options: self.options@,
            uri: self.uri@,
            args: args_view(self.args),
            kwargs: kwargs_view(self.kwargs),
        }
    }
}

impl Message for Error {
    open spec fn tag() -> i64 {
        8
    }

    open spec fn validation() -> ValidationSpec {
        ValidationSpec { min_length: 5, max_length: 7, name: "ERROR" }
    }

    open spec fn wire(m: ErrorView) -> Seq<ValueView> {
        seq![
            ValueView::Int(8),
            ValueView::Int(m.message_type),
            ValueView::Int(m.request_id),
            ValueView::Dict(m.options),
            ValueView::Str(m.uri),
        ] + tail_wire(m.args, m.kwargs)
    }

    open spec fn decode(data: Seq<ValueView>) -> Result<ErrorView, Seq<char>> {
        match arity_failure(Self::validation(), data.len() as int) {
            Some(text) => Err(text),
            None => if data[1] is Int
                && data[2] is Int
                && data[3] is Dict
                && data[4] is Str
                && tail_accepted(data.skip(5)) {
                Ok(
                    ErrorView {
                        message_type: data[1]->Int_0,
                        request_id: data[2]->Int_0,
                        options: data[3]->Dict_0,
                        uri: data[4]->Str_0,
                        args: tail_args(data.skip(5)),
                        kwargs: tail_kwargs(data.skip(5)),
                    },
                )
            } else {
                Err(invalid_format("ERROR"@))
            },
        }
    }

    open spec fn valid(m: ErrorView) -> bool {
        true
    }

    fn message_type(&self) -> (r: Value) {
        Value::Int(MESSAGE_TYPE_ERROR)
    }

    fn marshal(&self) -> (r: Vec<Value>) {
        let mut result = vec![
            Value::Int(MESSAGE_TYPE_ERROR),
            Value::Int(self.message_type),
            Value::Int(self.request_id),
            Value::Dict(self.options.clone()),
            Value::Str(self.uri.clone()),
        ];
        assert(list_view(result@) =~= seq![
            ValueView::Int(8),
            ValueView::Int(self.message_type),
            ValueView::Int(self.request_id),
            ValueView::Dict(self.options@),
            ValueView::Str(self.uri@),
        ]);
        push_tail(&mut result, &self.args, &self.kwargs);
        result
    }

    fn parse(data: Vec<Value>) -> (r: Result<Self, XError>) {
        let spec = validation_spec();
        match spec.validate_message(data.as_slice()) {
            Err(e) => {
                return Err(e);
            },
            Ok(_) => {},
        }
        let tail = parse_tail(&data, 5);
        match (&data[1], &data[2], &data[3], &data[4], tail) {
            (
                Value::Int(message_type),
                Value::Int(request_id),
                Value::Dict(options),
                Value::Str(uri),
                Some((args, kwargs)),
            ) => Ok(
                Error {
                    message_type: *message_type,
                    request_id: *request_id,
                    options: options.clone(),
                    uri: uri.clone(),
                    args,
                    kwargs,
                },
            ),
            _ => Err(spec.err_invalid_message()),
        }
    }

    proof fn tag_first(m: ErrorView) {
    }

    proof fn arity_gate(data: Seq<ValueView>) {
    }

    proof fn round_trip(m: ErrorView) {
        lemma_tail_round_trip(m.args, m.kwargs);
        assert(Self::wire(m).skip(5) =~= tail_wire(m.args, m.kwargs));
    }
}

} // verus!
