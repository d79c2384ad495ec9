//! Conversions of plain values into protocol values.

use crate::messages::types::{ByteArray, Value, ValueView};
use vstd::prelude::*;
use vstd::std_specs::convert::FromSpecImpl;

verus! {

impl From<i64> for Value {
    fn from(val: i64) -> (r: Value) {
        Value::Int(val)
    }
}

impl FromSpecImpl<i64> for Value {
    open spec fn obeys_from_spec() -> bool {
        true
    }

    open spec fn from_spec(val: i64) -> Value {
        Value::Int(val)
    }
}

impl From<bool> for Value {
    fn from(val: bool) -> (r: Value) {
        Value::Bool(val)
    }
}

impl FromSpecImpl<bool> for Value {
    open spec fn obeys_from_spec() -> bool {
        true
    }

    open spec fn from_spec(val: bool) -> Value {
        Value::Bool(val)
    }
}

impl From<String> for Value {
    fn from(val: String) -> (r: Value) {
        Value::Str(val)
    }
}

impl FromSpecImpl<String> for Value {
    open spec fn obeys_from_spec() -> bool {
        true
    }

    open spec fn from_spec(val: String) -> Value {
        Value::Str(val)
    }
}

impl From<ByteArray> for Value {
    fn from(val: ByteArray) -> (r: Value) {
        Value::Bytes(val)
    }
}

impl FromSpecImpl<ByteArray> for Value {
    open spec fn obeys_from_spec() -> bool {
        true
    }

    open spec fn from_spec(val: ByteArray) -> Value {
        Value::Bytes(val)
    }
}

impl From<Vec<u8>> for Value {
    fn from(val: Vec<u8>) -> (r: Value) {
        Value::Bytes(ByteArray(val))
    }
}

impl FromSpecImpl<Vec<u8>> for Value {
    open spec fn obeys_from_spec() -> bool {
        true
    }

    open spec fn from_spec(val: Vec<u8>) -> Value {
        Value::Bytes(ByteArray(val))
    }
}

} // verus!
