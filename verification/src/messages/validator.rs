//! The arity gate that every message parser passes first.

use crate::messages::types::{Error, Value};
use crate::text::{decimal, push_length};
use vstd::prelude::*;

verus! {

/// The arity bounds of a message kind, and the name it has in error texts.
pub struct ValidationSpec {
    pub min_length: usize,
    pub max_length: usize,
    pub name: &'static str,
}

/// The text of the error for a value list whose length is in bounds but
/// whose slots do not hold what the kind `name` asks for.
pub open spec fn invalid_format(name: Seq<char>) -> Seq<char> {
    name + " received invalid message format"@
}

/// The text of the error for a value list of `len` items where the kind
/// `name` asks for at least `min`.
pub open spec fn too_short(name: Seq<char>, min: int, len: int) -> Seq<char> {
    "unexpected message length for "@ + name + ": must be at least "@ + decimal(min)
        + ", but was "@ + decimal(len)
}

/// The text of the error for a value list of `len` items where the kind
/// `name` asks for at most `max`.
pub open spec fn too_long(name: Seq<char>, max: int, len: int) -> Seq<char> {
    "unexpected message length for "@ + name + ", must be at most "@ + decimal(max)
        + ", but was "@ + decimal(len)
}

/// The text of the error that a value list of `len` items meets at the
/// arity gate of `spec`, or `None` where it passes.
pub open spec fn arity_failure(spec: ValidationSpec, len: int) -> Option<Seq<char>> {
    if len < spec.min_length {
        Some(too_short(spec.name@, spec.min_length as int, len))
    } else if len > spec.max_length {
        Some(too_long(spec.name@, spec.max_length as int, len))
    } else {
        None
    }
}

impl ValidationSpec {
    /// The error for a value list of the right length and the wrong shape.
    pub fn err_invalid_message(&self) -> (e: Error)
        ensures
            e.message@ == invalid_format(self.name@),
    {
        let mut message = String::from_str(self.name);
        message.append(" received invalid message format");
        Error::new(message)
    }

    /// Checks the length of `data` against the bounds, shortness first.
    pub fn validate_message(&self, data: &[Value]) -> (r: Result<(), Error>)
        ensures
            match r {
                Ok(_) => arity_failure(*self, data@.len() as int) is None,
                Err(e) => arity_failure(*self, data@.len() as int) == Some(e.message@),
            },
    {
        sanity_check(data, self)
    }
}

fn sanity_check(wamp_msg: &[Value], spec: &ValidationSpec) -> (r: Result<(), Error>)
    ensures
        match r {
            Ok(_) => arity_failure(*spec, wamp_msg@.len() as int) is None,
            Err(e) => arity_failure(*spec, wamp_msg@.len() as int) == Some(e.message@),
        },
{
    if wamp_msg.len() < spec.min_length {
        let mut message = String::from_str("unexpected message length for ");
        message.append(spec.name);
        message.append(": must be at least ");
        push_length(&mut message, spec.min_length);
        message.append(", but was ");
        push_length(&mut message, wamp_msg.len());
        Err(Error::new(message))
    } else if wamp_msg.len() > spec.max_length {
        let mut message = String::from_str("unexpected message length for ");
        message.append(spec.name);
        message.append(", must be at most ");
        push_length(&mut message, spec.max_length);
        message.append(", but was ");
        push_length(&mut message, wamp_msg.len());
        Err(Error::new(message))
    } else {
        Ok(())
    }
}

} // verus!
