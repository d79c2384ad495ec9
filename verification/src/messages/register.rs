//! REGISTER: a callee offers a procedure.

use crate::messages::message::Message;
use crate::messages::types::{list_view, Dict, DictView, Error, Value, ValueView};
use crate::messages::validator::{arity_failure, invalid_format, ValidationSpec};
use vstd::prelude::*;

verus! {

pub const MESSAGE_TYPE_REGISTER: i64 = 64;

pub const MESSAGE_NAME_REGISTER: &'static str = "REGISTER";

/// The arity bounds of REGISTER.
pub fn validation_spec() -> (r: ValidationSpec)
    ensures
        r == Register::validation(),
{
    ValidationSpec { min_length: 4, max_length: 4, name: MESSAGE_NAME_REGISTER }
}

#[derive(Debug, PartialEq)]
pub struct Register {
    pub request_id: i64,
    pub options: Dict,
    pub procedure: String,
}

/// The model of a [`Register`].
pub struct RegisterView {
    pub request_id: i64,
    pub options: DictView,
    pub procedure: Seq<char>,
}

impl View for Register {
    type V = RegisterView;

    open spec fn view(&self) -> RegisterView {
        RegisterView {
            request_id: self.request_id,
            options: self.options@,
            procedure: self.procedure@,
        }
    }
}

impl Message for Register {
    open spec fn tag() -> i64 {
        64
    }

    open spec fn validation() -> ValidationSpec {
        ValidationSpec { min_length: 4, max_length: 4, name: "REGISTER" }
    }

    open spec fn wire(m: RegisterView) -> Seq<ValueView> {
        seq![
            ValueView::Int(64),
            ValueView::Int(m.request_id),
            ValueView::Dict(m.options),
            ValueView::Str(m.procedure),
        ]
    }

    open spec fn decode(data: Seq<ValueView>) -> Result<RegisterView, Seq<char>> {
        match arity_failure(Self::validation(), data.len() as int) {
            Some(text) => Err(text),
            None => if data[1] is Int && data[2] is Dict && data[3] is Str {
                Ok(
                    RegisterView {
                        request_id: data[1]->Int_0,
                        options: data[2]->Dict_0,
                        procedure: data[3]->Str_0,
                    },
                )
            } else {
                Err(invalid_format("REGISTER"@))
            },
        }
    }

    open spec fn valid(m: RegisterView) -> bool {
        true
    }

    fn message_type(&self) -> (r: Value) {
        Value::Int(MESSAGE_TYPE_REGISTER)
    }

    fn marshal(&self) -> (r: Vec<Value>) {
        let result = vec![
            Value::Int(MESSAGE_TYPE_REGISTER),
            Value::Int(self.request_id),
            Value::Dict(self.options.clone()),
            Value::Str(self.procedure.clone()),
        ];
        assert(list_view(result@) =~= seq![
            ValueView::Int(64),
            ValueView::Int(self.request_id),
            ValueView::Dict(self.options@),
            ValueView::Str(self.procedure@),
        ]);
        result
    }

    fn parse(data: Vec<Value>) -> (r: Result<Self, Error>) {
        let spec = validation_spec();
        match spec.validate_message(data.as_slice()) {
            Err(e) => {
                return Err(e);
            },
            Ok(_) => {},
        }
        match (&data[1], &data[2], &data[3]) {
            (Value::Int(request_id), Value::Dict(options), Value::Str(procedure)) => Ok(
                Register {
                    request_id: *request_id,
                    options: options.clone(),
                    procedure: procedure.clone(),
                },
            ),
            _ => Err(spec.err_invalid_message()),
        }
    }

    proof fn tag_first(m: RegisterView) {
    }

    proof fn arity_gate(data: Seq<ValueView>) {
    }

    proof fn round_trip(m: RegisterView) {
    }
}

} // verus!
