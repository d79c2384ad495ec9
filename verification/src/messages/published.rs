//! PUBLISHED: the router acknowledges a publication.

use crate::messages::message::Message;
use crate::messages::types::{list_view, Error, Value, ValueView};
use crate::messages::validator::{arity_failure, invalid_format, ValidationSpec};
use vstd::prelude::*;

verus! {

pub const MESSAGE_TYPE_PUBLISHED: i64 = 17;

pub const MESSAGE_NAME_PUBLISHED: &'static str = "PUBLISHED";

/// The arity bounds of PUBLISHED.
pub fn validation_spec() -> (r: ValidationSpec)
    ensures
        r == Published::validation(),
{
    ValidationSpec { min_length: 3, max_length: 3, name: MESSAGE_NAME_PUBLISHED }
}

#[derive(Debug, PartialEq)]
pub struct Published {
    pub request_id: i64,
    pub publication_id: i64,
}

/// The model of a [`Published`].
pub struct PublishedView {
    pub request_id: i64,
    pub publication_id: i64,
}

impl View for Published {
    type V = PublishedView;

    open spec fn view(&self) -> PublishedView {
        PublishedView {
            request_id: self.request_id,
            publication_id: self.publication_id,
        }
    }
}

impl Message for Published {
    open spec fn tag() -> i64 {
        17
    }

    open spec fn validation() -> ValidationSpec {
        ValidationSpec { min_length: 3, max_length: 3, name: "PUBLISHED" }
    }

    open spec fn wire(m: PublishedView) -> Seq<ValueView> {
        seq![
            ValueView::Int(17),
            ValueView::Int(m.request_id),
            ValueView::Int(m.publication_id),
        ]
    }

    open spec fn decode(data: Seq<ValueView>) -> Result<PublishedView, Seq<char>> {
        match arity_failure(Self::validation(), data.len() as int) {
            Some(text) => Err(text),
            None => if data[1] is Int && data[2] is Int {
                Ok(
                    PublishedView {
                        request_id: data[1]->Int_0,
                        publication_id: data[2]->Int_0,
                    },
                )
            } else {
                Err(invalid_format("PUBLISHED"@))
            },
        }
    }

    open spec fn valid(m: PublishedView) -> bool {
        true
    }

    fn message_type(&self) -> (r: Value) {
        Value::Int(MESSAGE_TYPE_PUBLISHED)
    }

    fn marshal(&self) -> (r: Vec<Value>) {
        let result = vec![
            Value::Int(MESSAGE_TYPE_PUBLISHED),
            Value::Int(self.request_id),
            Value::Int(self.publication_id),
        ];
        assert(list_view(result@) =~= seq![
            ValueView::Int(17),
            ValueView::Int(self.request_id),
            ValueView::Int(self.publication_id),
        ]);
        result
    }

    fn parse(data: Vec<Value>) -> (r: Result<Self, Error>) {
        let spec = validation_spec();
        match spec.validate_message(data.as_slice()) {
            Err(e) => {
                return Err(e);
            },
            Ok(_) => {},
        }
        match (&data[1], &data[2]) {
            (Value::Int(request_id), Value::Int(publication_id)) => Ok(
                Published {
                    request_id: *request_id,
                    publication_id: *publication_id,
                },
            ),
            _ => Err(spec.err_invalid_message()),
        }
    }

    proof fn tag_first(m: PublishedView) {
    }

    proof fn arity_gate(data: Seq<ValueView>) {
    }

    proof fn round_trip(m: PublishedView) {
    }
}

} // verus!
