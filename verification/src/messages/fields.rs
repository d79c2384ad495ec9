//! Typed access to the fields of a details dictionary.

use crate::messages::render::rendered;
use crate::messages::types::{
    clone_list, invalid_type, lemma_list_view, list_view, lookup, missing_field, outcome, Dict, DictView,
    Error, Value, ValueView,
};
use vstd::prelude::*;

verus! {

/// The string under `key`, or the text of the error: the field is missing,
/// or holds something else. `label` is the name of the field in the text.
pub open spec fn str_field(details: DictView, key: Seq<char>, label: Seq<char>) -> Result<
    Seq<char>,
    Seq<char>,
> {
    match lookup(details, key) {
        Some(ValueView::Str(s)) => Ok(s),
        Some(v) => Err(invalid_type(label, rendered(v))),
        None => Err(missing_field(label)),
    }
}

/// The string under `key`, the empty string where the field is missing, or
/// the text of the error where it holds something else.
pub open spec fn optional_str_field(
    details: DictView,
    key: Seq<char>,
    label: Seq<char>,
) -> Result<Seq<char>, Seq<char>> {
    match lookup(details, key) {
        Some(ValueView::Str(s)) => Ok(s),
        Some(v) => Err(invalid_type(label, rendered(v))),
        None => Ok(Seq::empty()),
    }
}

/// The list under `key`, or the text of the error.
pub open spec fn list_field(details: DictView, key: Seq<char>, label: Seq<char>) -> Result<
    Seq<ValueView>,
    Seq<char>,
> {
    match lookup(details, key) {
        Some(ValueView::List(items)) => Ok(items),
        Some(v) => Err(invalid_type(label, rendered(v))),
        None => Err(missing_field(label)),
    }
}

/// The dictionary under `key`, or the text of the error.
pub open spec fn dict_field(details: DictView, key: Seq<char>, label: Seq<char>) -> Result<
    DictView,
    Seq<char>,
> {
    match lookup(details, key) {
        Some(ValueView::Dict(entries)) => Ok(entries),
        Some(v) => Err(invalid_type(label, rendered(v))),
        None => Err(missing_field(label)),
    }
}

/// The model of the outcome of reading a string field.
pub open spec fn text_outcome(r: Result<String, Error>) -> Result<Seq<char>, Seq<char>> {
    match r {
        Ok(s) => Ok(s@),
        Err(e) => Err(e.message@),
    }
}

/// The model of the outcome of reading a list field.
pub open spec fn list_outcome(r: Result<Vec<Value>, Error>) -> Result<Seq<ValueView>, Seq<char>> {
    match r {
        Ok(items) => Ok(list_view(items@)),
        Err(e) => Err(e.message@),
    }
}

/// Reads the string under `key`.
pub fn get_str(details: &Dict, key: &str, label: &str) -> (r: Result<String, Error>)
    ensures
        text_outcome(r) == str_field(details@, key@, label@),
{
    match details.get(key) {
        Some(Value::Str(s)) => Ok(s.clone()),
        Some(v) => Err(Error::invalid_type(label, v.render().as_str())),
        None => Err(Error::missing_field(label)),
    }
}

/// Reads the string under `key`; a missing field reads as the empty string.
pub fn get_optional_str(details: &Dict, key: &str, label: &str) -> (r: Result<String, Error>)
    ensures
        text_outcome(r) == optional_str_field(details@, key@, label@),
{
    match details.get(key) {
        Some(Value::Str(s)) => Ok(s.clone()),
        Some(v) => Err(Error::invalid_type(label, v.render().as_str())),
        None => Ok(String::new()),
    }
}

/// Reads the list under `key`.
pub fn get_list(details: &Dict, key: &str, label: &str) -> (r: Result<Vec<Value>, Error>)
    ensures
        list_outcome(r) == list_field(details@, key@, label@),
{
    match details.get(key) {
        Some(Value::List(items)) => {
            proof {
                lemma_list_view(*items);
            }
            Ok(clone_list(items))
        },
        Some(v) => Err(Error::invalid_type(label, v.render().as_str())),
        None => Err(Error::missing_field(label)),
    }
}

/// Reads the dictionary under `key`.
pub fn get_dict(details: &Dict, key: &str, label: &str) -> (r: Result<Dict, Error>)
    ensures
        outcome(r) == dict_field(details@, key@, label@),
{
    match details.get(key) {
        Some(Value::Dict(entries)) => Ok(entries.clone()),
        Some(v) => Err(Error::invalid_type(label, v.render().as_str())),
        None => Err(Error::missing_field(label)),
    }
}

} // verus!
