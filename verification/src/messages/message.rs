//! What all message kinds have in common: a tag, a marshalled form, a
//! parser, and the optional `args` / `kwargs` tail that several kinds carry.

use crate::messages::types::{
    clone_list, lemma_list_view, list_view, outcome, Dict, DictView, Error, Value, ValueView,
};
use crate::messages::validator::{arity_failure, ValidationSpec};
use vstd::prelude::*;

verus! {

/// A message kind. Its model is `Self::V`; `wire` and `decode` say over
/// models what `marshal` and `parse` compute.
pub trait Message: Sized + View {
    /// The integer that identifies the kind in the first slot.
    spec fn tag() -> i64;

    /// The arity bounds of the kind and its name.
    spec fn validation() -> ValidationSpec;

    /// The value list that stands for a message.
    spec fn wire(m: Self::V) -> Seq<ValueView>;

    /// What parsing a value list comes to: a message, or the text of the
    /// error. The first slot is not looked at: the dispatcher has read it.
    spec fn decode(data: Seq<ValueView>) -> Result<Self::V, Seq<char>>;

    /// The messages whose marshalled form parses back to them. For most
    /// kinds these are all messages.
    spec fn valid(m: Self::V) -> bool;

    /// The tag, as a value.
    fn message_type(&self) -> (r: Value)
        ensures
            r@ == ValueView::Int(Self::tag()),
    ;

    /// The value list that stands for the message.
    fn marshal(&self) -> (r: Vec<Value>)
        ensures
            list_view(r@) == Self::wire(self@),
    ;

    /// Reads a message of this kind from a value list.
    fn parse(data: Vec<Value>) -> (r: Result<Self, Error>)
        ensures
            outcome(r) == Self::decode(list_view(data@)),
    ;

    /// A marshalled message begins with the tag of its kind.
    proof fn tag_first(m: Self::V)
        ensures
            Self::wire(m).len() > 0,
            Self::wire(m)[0] == ValueView::Int(Self::tag()),
    ;

    /// A value list whose length is out of the kind's bounds is rejected
    /// with the error of the arity gate, which names the kind and the
    /// bound, whatever the slots hold.
    proof fn arity_gate(data: Seq<ValueView>)
        requires
            data.len() < Self::validation().min_length || data.len()
                > Self::validation().max_length,
        ensures
            arity_failure(Self::validation(), data.len() as int) is Some,
            Self::decode(data) == Err::<Self::V, Seq<char>>(
                arity_failure(Self::validation(), data.len() as int)->0,
            ),
    ;

    /// Parsing the marshalled form of a valid message gives the message back.
    proof fn round_trip(m: Self::V)
        requires
            Self::valid(m),
        ensures
            Self::decode(Self::wire(m)) == Ok::<Self::V, Seq<char>>(m),
    ;
}

/// The model of an optional positional payload.
pub open spec fn args_view(args: Option<Vec<Value>>) -> Option<Seq<ValueView>> {
    match args {
        Some(items) => Some(list_view(items@)),
        None => None,
    }
}

/// The model of an optional keyword payload.
pub open spec fn kwargs_view(kwargs: Option<Dict>) -> Option<DictView> {
    match kwargs {
        Some(entries) => Some(entries@),
        None => None,
    }
}

/// Whether the slots after the required ones have one of the three legal
/// shapes: nothing; a list; a list or null, then a dictionary.
pub open spec fn tail_accepted(tail: Seq<ValueView>) -> bool {
    ||| tail.len() == 0
    ||| tail.len() == 1 && tail[0] is List
    ||| tail.len() == 2 && (tail[0] is List || tail[0] is Null) && tail[1] is Dict
}

/// The positional payload of a legal tail. A null before the dictionary
/// stands for an absent one.
pub open spec fn tail_args(tail: Seq<ValueView>) -> Option<Seq<ValueView>> {
    if tail.len() >= 1 && tail[0] is List {
        Some(tail[0]->List_0)
    } else {
        None
    }
}

/// The keyword payload of a legal tail.
pub open spec fn tail_kwargs(tail: Seq<ValueView>) -> Option<DictView> {
    if tail.len() == 2 {
        Some(tail[1]->Dict_0)
    } else {
        None
    }
}

/// The slots that stand for the two optional payloads. Where only the
/// keyword payload is present, a null holds the place of the positional one.
pub open spec fn tail_wire(args: Option<Seq<ValueView>>, kwargs: Option<DictView>) -> Seq<
    ValueView,
> {
    match (args, kwargs) {
        (None, None) => seq![],
        (Some(a), None) => seq![ValueView::List(a)],
        (None, Some(k)) => seq![ValueView::Null, ValueView::Dict(k)],
        (Some(a), Some(k)) => seq![ValueView::List(a), ValueView::Dict(k)],
    }
}

/// The tail of any two payloads is legal and gives both back.
pub proof fn lemma_tail_round_trip(args: Option<Seq<ValueView>>, kwargs: Option<DictView>)
    ensures
        tail_wire(args, kwargs).len() <= 2,
        tail_accepted(tail_wire(args, kwargs)),
        tail_args(tail_wire(args, kwargs)) == args,
        tail_kwargs(tail_wire(args, kwargs)) == kwargs,
{
}

/// Reads the optional payloads from the slots of `data` from `start` on.
/// `None` where they have no legal shape.
pub(crate) fn parse_tail(data: &Vec<Value>, start: usize) -> (r: Option<
    (Option<Vec<Value>>, Option<Dict>),
>)
    requires
        start <= data@.len() <= start + 2,
    ensures
        match r {
            Some((args, kwargs)) => {
                &&& tail_accepted(list_view(data@).skip(start as int))
                &&& args_view(args) == tail_args(list_view(data@).skip(start as int))
                &&& kwargs_view(kwargs) == tail_kwargs(list_view(data@).skip(start as int))
            },
            None => !tail_accepted(list_view(data@).skip(start as int)),
        },
{
    let ghost tail = list_view(data@).skip(start as int);
    let n = data.len() - start;
    if n == 0 {
        return Some((None, None));
    }
    assert(tail[0] == data@[start as int]@);
    let args = match &data[start] {
        Value::List(items) => {
            proof {
                lemma_list_view(*items);
            }
            Some(clone_list(items))
        },
        Value::Null => {
            if n == 1 {
                return None;
            }
            None
        },
        _ => {
            return None;
        },
    };
    if n == 1 {
        return Some((args, None));
    }
    assert(tail[1] == data@[start + 1]@);
    match &data[start + 1] {
        Value::Dict(entries) => Some((args, Some(entries.clone()))),
        _ => None,
    }
}

/// Appends the slots that stand for the two optional payloads.
pub(crate) fn push_tail(out: &mut Vec<Value>, args: &Option<Vec<Value>>, kwargs: &Option<Dict>)
    ensures
        list_view(final(out)@) == list_view(old(out)@) + tail_wire(
            args_view(*args),
            kwargs_view(*kwargs),
        ),
{
    let ghost before = list_view(out@);
    match args {
        Some(items) => {
            out.push(Value::list(clone_list(items)));
        },
        None => {},
    }
    match kwargs {
        Some(entries) => {
            if args.is_none() {
                out.push(Value::Null);
            }
            out.push(Value::Dict(entries.clone()));
        },
        None => {},
    }
    assert(list_view(out@) =~= before + tail_wire(args_view(*args), kwargs_view(*kwargs)));
}

} // verus!
