//! The dynamic value model that WAMP payloads are made of.

use crate::text::{decimal, push_decimal};
use vstd::prelude::*;

verus! {

/// An octet string.
#[derive(Debug, PartialEq)]
pub struct ByteArray(pub Vec<u8>);

impl View for ByteArray {
    type V = Seq<u8>;

    open spec fn view(&self) -> Seq<u8> {
        self.0@
    }
}

impl Clone for ByteArray {
    fn clone(&self) -> (r: Self)
        ensures
            r@ == self@,
    {
        ByteArray(self.0.clone())
    }
}

/// A string-keyed dictionary that keeps its entries in insertion order.
/// No key occurs twice.
#[derive(Debug, PartialEq)]
pub struct Dict {
    entries: Vec<(String, Value)>,
}

/// A protocol payload value.
#[derive(Debug, PartialEq)]
pub enum Value {
    Null,
    Int(i64),
    /// An IEEE-754 binary64 number, held as its bit pattern.
    Float(u64),
    Bool(bool),
    Str(String),
    List(Vec<Value>),
    Dict(Dict),
    Bytes(ByteArray),
}

/// The mathematical model of a [`Value`].
pub enum ValueView {
    Null,
    Int(i64),
    Float(u64),
    Bool(bool),
    Str(Seq<char>),
    List(Seq<ValueView>),
    Dict(Seq<(Seq<char>, ValueView)>),
    Bytes(Seq<u8>),
}

/// The model of a dictionary: its entries, oldest first.
pub type DictView = Seq<(Seq<char>, ValueView)>;

/// The model of a value.
pub open spec fn value_view(v: Value) -> ValueView
    decreases v,
{
    match v {
        Value::Null => ValueView::Null,
        Value::Int(n) => ValueView::Int(n),
        Value::Float(bits) => ValueView::Float(bits),
        Value::Bool(b) => ValueView::Bool(b),
        Value::Str(s) => ValueView::Str(s@),
        Value::List(items) => ValueView::List(
            Seq::new(
                items@.len(),
                |i: int|
                    if 0 <= i < items@.len() {
                        value_view(items@[i])
                    } else {
                        ValueView::Null
                    },
            ),
        ),
        Value::Dict(d) => ValueView::Dict(d.view()),
        Value::Bytes(b) => ValueView::Bytes(b@),
    }
}

impl View for Value {
    type V = ValueView;

    open spec fn view(&self) -> ValueView {
        value_view(*self)
    }
}

/// The models of a list of values, in order.
pub open spec fn list_view(items: Seq<Value>) -> Seq<ValueView> {
    Seq::new(items.len(), |i: int| items[i]@)
}

/// Whether no key occurs twice.
pub open spec fn distinct_keys(entries: DictView) -> bool {
    forall|i: int, j: int|
        0 <= i < j < entries.len() ==> (#[trigger] entries[i]).0 != (#[trigger] entries[j]).0
}

impl View for Dict {
    type V = DictView;

    closed spec fn view(&self) -> DictView
        decreases self,
    {
        Seq::new(
            self.entries@.len(),
            |i: int|
                if 0 <= i < self.entries@.len() {
                    (self.entries@[i].0@, value_view(self.entries@[i].1))
                } else {
                    (Seq::empty(), ValueView::Null)
                },
        )
    }
}

/// The index of the first entry under `key`, or the number of entries
/// if there is none.
pub open spec fn position(entries: DictView, key: Seq<char>) -> int
    decreases entries.len(),
{
    if entries.len() == 0 {
        0
    } else if entries[0].0 == key {
        0
    } else {
        1 + position(entries.drop_first(), key)
    }
}

/// The value stored under `key`, if any.
pub open spec fn lookup(entries: DictView, key: Seq<char>) -> Option<ValueView> {
    let i = position(entries, key);
    if i < entries.len() {
        Some(entries[i].1)
    } else {
        None
    }
}

/// The entries after `value` is stored under `key`: in the place of
/// the entry the key had, or else at the end.
pub open spec fn inserted(entries: DictView, key: Seq<char>, value: ValueView) -> DictView {
    let i = position(entries, key);
    if i < entries.len() {
        entries.update(i, (key, value))
    } else {
        entries.push((key, value))
    }
}

/// The entries without the one under `key`.
pub open spec fn removed(entries: DictView, key: Seq<char>) -> DictView {
    let i = position(entries, key);
    if i < entries.len() {
        entries.remove(i)
    } else {
        entries
    }
}

/// The dictionary that comes of storing the pairs one after the other:
/// of two pairs with one key, the later gives the value and the earlier
/// the place.
pub open spec fn built(pairs: DictView) -> DictView
    decreases pairs.len(),
{
    if pairs.len() == 0 {
        Seq::empty()
    } else {
        inserted(built(pairs.drop_last()), pairs.last().0, pairs.last().1)
    }
}

/// The models of a list of pairs, in order.
pub open spec fn pairs_view(pairs: Seq<(String, Value)>) -> DictView {
    Seq::new(pairs.len(), |i: int| (pairs[i].0@, pairs[i].1@))
}

/// The model of an optional value.
pub open spec fn optional_view(v: Option<Value>) -> Option<ValueView> {
    match v {
        Some(v) => Some(v@),
        None => None,
    }
}

/// `position` is the one index whose key matches while none before it does.
pub proof fn lemma_position(entries: DictView, key: Seq<char>, i: int)
    requires
        0 <= i <= entries.len(),
        forall|j: int| 0 <= j < i ==> (#[trigger] entries[j]).0 != key,
        i < entries.len() ==> entries[i].0 == key,
    ensures
        position(entries, key) == i,
    decreases entries.len(),
{
    if entries.len() > 0 && i > 0 {
        assert(entries[0].0 != key);
        let rest = entries.drop_first();
        assert forall|j: int| 0 <= j < i - 1 implies (#[trigger] rest[j]).0 != key by {
            assert(rest[j] == entries[j + 1]);
        }
        lemma_position(rest, key, i - 1);
    }
}

/// `position` lies within bounds, and no entry before it has the key.
pub proof fn lemma_position_bounds(entries: DictView, key: Seq<char>)
    ensures
        0 <= position(entries, key) <= entries.len(),
        position(entries, key) < entries.len() ==> entries[position(entries, key)].0 == key,
        forall|j: int| 0 <= j < position(entries, key) ==> (#[trigger] entries[j]).0 != key,
    decreases entries.len(),
{
    if entries.len() > 0 && entries[0].0 != key {
        let rest = entries.drop_first();
        lemma_position_bounds(rest, key);
        assert forall|j: int| 0 <= j < position(entries, key) implies (#[trigger] entries[j]).0
            != key by {
            if j > 0 {
                assert(entries[j] == rest[j - 1]);
            }
        }
    }
}

/// Storing a value keeps the keys distinct.
pub proof fn lemma_inserted_distinct(entries: DictView, key: Seq<char>, value: ValueView)
    requires
        distinct_keys(entries),
    ensures
        distinct_keys(inserted(entries, key, value)),
        lookup(inserted(entries, key, value), key) == Some(value),
{
    lemma_position_bounds(entries, key);
    let i = position(entries, key);
    let after = inserted(entries, key, value);
    lemma_position(after, key, i);
}

impl Dict {
    #[verifier::type_invariant]
    spec fn inv(self) -> bool {
        distinct_keys(self@)
    }

    /// An empty dictionary.
    pub fn new() -> (d: Dict)
        ensures
            d@ == Seq::<(Seq<char>, ValueView)>::empty(),
    {
        let d = Dict { entries: Vec::new() };
        assert(d@ =~= Seq::<(Seq<char>, ValueView)>::empty());
        d
    }

    /// The number of entries.
    pub fn len(&self) -> (n: usize)
        ensures
            n == self@.len(),
    {
        self.entries.len()
    }

    /// Whether there is no entry.
    pub fn is_empty(&self) -> (r: bool)
        ensures
            r == (self@.len() == 0),
    {
        self.entries.len() == 0
    }

    /// Does nothing at run time; tells the caller's proof that no key
    /// occurs twice.
    pub fn keys_are_distinct(&self)
        ensures
            distinct_keys(self@),
    {
        proof {
            use_type_invariant(self);
        }
    }

    /// The entries, oldest first.
    pub fn entries(&self) -> (r: &Vec<(String, Value)>)
        ensures
            decreases_to!(*self => *r),
            r@.len() == self@.len(),
            forall|i: int|
                0 <= i < r@.len() ==> (#[trigger] r@[i]).0@ == self@[i].0 && r@[i].1@
                    == self@[i].1,
    {
        &self.entries
    }

    fn find(&self, key: &String) -> (i: usize)
        ensures
            i == position(self@, key@),
            i <= self.entries@.len(),
            self.entries@.len() == self@.len(),
    {
        let mut i: usize = 0;
        while i < self.entries.len()
            invariant
                i <= self.entries@.len(),
                self.entries@.len() == self@.len(),
                forall|j: int| 0 <= j < i ==> (#[trigger] self@[j]).0 != key@,
            decreases self.entries@.len() - i,
        {
            if self.entries[i].0 == *key {
                proof {
                    lemma_position(self@, key@, i as int);
                }
                return i;
            }
            i += 1;
        }
        proof {
            lemma_position(self@, key@, i as int);
        }
        i
    }

    /// The value stored under `key`, if any.
    pub fn get(&self, key: &str) -> (r: Option<&Value>)
        ensures
            match r {
                Some(v) => lookup(self@, key@) == Some(v@),
                None => lookup(self@, key@) is None,
            },
    {
        let owned = key.to_owned();
        let i = self.find(&owned);
        if i < self.entries.len() {
            Some(&self.entries[i].1)
        } else {
            None
        }
    }

    /// Whether a value is stored under `key`.
    pub fn contains_key(&self, key: &str) -> (r: bool)
        ensures
            r == lookup(self@, key@) is Some,
    {
        let owned = key.to_owned();
        let i = self.find(&owned);
        i < self.entries.len()
    }

    /// Takes out the entry under `key` and gives its value, if there is
    /// one.
    pub fn remove(&mut self, key: &str) -> (r: Option<Value>)
        ensures
            final(self)@ == removed(old(self)@, key@),
            optional_view(r) == lookup(old(self)@, key@),
    {
        proof {
            use_type_invariant(&*self);
        }
        let owned = key.to_owned();
        let i = self.find(&owned);
        if i < self.entries.len() {
            let ghost before = self@;
            let mut entries: Vec<(String, Value)> = Vec::new();
            assert((Dict { entries })@ =~= Seq::<(Seq<char>, ValueView)>::empty());
            core::mem::swap(&mut self.entries, &mut entries);
            let entry = entries.remove(i);
            assert((Dict { entries })@ =~= before.remove(i as int));
            self.entries = entries;
            Some(entry.1)
        } else {
            None
        }
    }

    /// A dictionary of the pairs, stored one after the other.
    pub fn from_entries(pairs: Vec<(String, Value)>) -> (d: Dict)
        ensures
            d@ == built(pairs_view(pairs@)),
    {
        let mut d = Dict::new();
        let mut i: usize = 0;
        while i < pairs.len()
            invariant
                i <= pairs.len(),
                d@ == built(pairs_view(pairs@).take(i as int)),
            decreases pairs.len() - i,
        {
            let ghost before = pairs_view(pairs@).take(i as int);
            let ghost after = pairs_view(pairs@).take(i + 1);
            assert(after.drop_last() =~= before);
            assert(after.last() == (pairs@[i as int].0@, pairs@[i as int].1@));
            d.insert(pairs[i].0.clone(), pairs[i].1.clone());
            i += 1;
        }
        assert(pairs_view(pairs@).take(pairs@.len() as int) =~= pairs_view(pairs@));
        d
    }

    /// Stores `value` under `key`: in the place of the value the key had,
    /// or else as a new last entry.
    pub fn insert(&mut self, key: String, value: Value)
        ensures
            final(self)@ == inserted(old(self)@, key@, value@),
    {
        proof {
            use_type_invariant(&*self);
            lemma_inserted_distinct(self@, key@, value@);
        }
        let i = self.find(&key);
        let ghost before = self@;
        let mut entries: Vec<(String, Value)> = Vec::new();
        assert((Dict { entries })@ =~= Seq::<(Seq<char>, ValueView)>::empty());
        core::mem::swap(&mut self.entries, &mut entries);
        if i < entries.len() {
            entries.set(i, (key, value));
        } else {
            entries.push((key, value));
        }
        assert((Dict { entries })@ =~= inserted(before, key@, value@));
        self.entries = entries;
    }
}

/// A list value holds the models of its items.
pub proof fn lemma_list_view(items: Vec<Value>)
    ensures
        Value::List(items)@ == ValueView::List(list_view(items@)),
{
    assert(Value::List(items)@->List_0 =~= list_view(items@));
}

impl Value {
    /// A string value.
    pub fn str(s: &str) -> (r: Value)
        ensures
            r@ == ValueView::Str(s@),
    {
        Value::Str(String::from_str(s))
    }

    /// An integer value.
    pub fn integer(n: i64) -> (r: Value)
        ensures
            r@ == ValueView::Int(n),
    {
        Value::Int(n)
    }

    /// A floating-point value, given by its IEEE-754 binary64 bit pattern.
    pub fn float(bits: u64) -> (r: Value)
        ensures
            r@ == ValueView::Float(bits),
    {
        Value::Float(bits)
    }

    /// A boolean value.
    pub fn bool(b: bool) -> (r: Value)
        ensures
            r@ == ValueView::Bool(b),
    {
        Value::Bool(b)
    }

    /// A list value.
    pub fn list(items: Vec<Value>) -> (r: Value)
        ensures
            r@ == ValueView::List(list_view(items@)),
    {
        proof {
            lemma_list_view(items);
        }
        Value::List(items)
    }

    /// A dictionary value.
    pub fn dict(entries: Dict) -> (r: Value)
        ensures
            r@ == ValueView::Dict(entries@),
    {
        Value::Dict(entries)
    }
}

/// A copy of a list of values.
pub fn clone_list(items: &Vec<Value>) -> (r: Vec<Value>)
    ensures
        list_view(r@) == list_view(items@),
{
    let mut copy: Vec<Value> = Vec::new();
    let mut i: usize = 0;
    while i < items.len()
        invariant
            i <= items.len(),
            copy@.len() == i,
            forall|k: int| 0 <= k < i ==> copy@[k]@ == items@[k]@,
        decreases items.len() - i,
    {
        copy.push(items[i].clone());
        i += 1;
    }
    assert(list_view(copy@) =~= list_view(items@));
    copy
}

impl Clone for Value {
    fn clone(&self) -> (r: Self)
        ensures
            r@ == self@,
        decreases self,
    {
        match self {
            Value::Null => Value::Null,
            Value::Int(n) => Value::Int(*n),
            Value::Float(bits) => Value::Float(*bits),
            Value::Bool(b) => Value::Bool(*b),
            Value::Str(s) => Value::Str(s.clone()),
            Value::List(items) => {
                let mut copy: Vec<Value> = Vec::new();
                let mut i: usize = 0;
                while i < items.len()
                    invariant
                        *self == Value::List(*items),
                        i <= items.len(),
                        copy@.len() == i,
                        forall|k: int| 0 <= k < i ==> copy@[k]@ == items@[k]@,
                    decreases items.len() - i,
                {
                    proof {
                        assert(decreases_to!(*self => self->List_0));
                        vstd::std_specs::vec::axiom_vec_index_decreases(*items, i as int);
                    }
                    copy.push(items[i].clone());
                    i += 1;
                }
                let r = Value::List(copy);
                assert(r@->List_0 =~= self@->List_0);
                r
            },
            Value::Dict(d) => Value::Dict(d.clone()),
            Value::Bytes(b) => Value::Bytes(b.clone()),
        }
    }
}

impl Clone for Dict {
    fn clone(&self) -> (r: Self)
        ensures
            r@ == self@,
        decreases self,
    {
        proof {
            use_type_invariant(self);
        }
        let mut copy: Vec<(String, Value)> = Vec::new();
        let mut i: usize = 0;
        while i < self.entries.len()
            invariant
                i <= self.entries.len(),
                copy@.len() == i,
                forall|k: int|
                    0 <= k < i ==> copy@[k].0@ == self.entries@[k].0@ && copy@[k].1@
                        == self.entries@[k].1@,
            decreases self.entries.len() - i,
        {
            copy.push((self.entries[i].0.clone(), self.entries[i].1.clone()));
            i += 1;
        }
        assert((Dict { entries: copy })@ =~= self@);
        Dict { entries: copy }
    }
}

/// The one error kind of the library: a text that says what went wrong.
#[derive(Debug)]
pub struct Error {
    pub message: String,
}

impl Error {
    /// An error with the text `msg`.
    pub fn new(msg: String) -> (e: Error)
        ensures
            e.message@ == msg@,
    {
        Error { message: msg }
    }

    /// An error with the text of a literal.
    pub fn text(msg: &str) -> (e: Error)
        ensures
            e.message@ == msg@,
    {
        Error { message: String::from_str(msg) }
    }

    /// An error whose text is `prefix`, then `tail`.
    pub fn joined(prefix: &str, tail: &str) -> (e: Error)
        ensures
            e.message@ == prefix@ + tail@,
    {
        let mut message = String::from_str(prefix);
        message.append(tail);
        Error { message }
    }

    /// An error whose text is `prefix`, then the decimal text of `n`.
    pub fn numbered(prefix: &str, n: i64) -> (e: Error)
        ensures
            e.message@ == prefix@ + decimal(n as int),
    {
        let mut message = String::from_str(prefix);
        push_decimal(&mut message, n);
        Error { message }
    }

    /// An error whose text is `prefix`, then the text under which `cause`
    /// is shown.
    pub fn caused(prefix: &str, cause: &Error) -> (e: Error)
        ensures
            e.message@ == prefix@ + shown(cause.message@),
    {
        let mut message = String::from_str(prefix);
        message.append(cause.to_string().as_str());
        Error { message }
    }

    /// The error for a dictionary that lacks the field `label`.
    pub fn missing_field(label: &str) -> (e: Error)
        ensures
            e.message@ == missing_field(label@),
    {
        let mut message = String::from_str("Missing field: '");
        message.append(label);
        message.append("'");
        Error { message }
    }

    /// The error for a field `label` that holds a value of the wrong
    /// variant, where `rendered` is the text of that value.
    pub fn invalid_type(label: &str, rendered: &str) -> (e: Error)
        ensures
            e.message@ == invalid_type(label@, rendered@),
    {
        let mut message = String::from_str("Invalid type for '");
        message.append(label);
        message.append("': ");
        message.append(rendered);
        Error { message }
    }

    /// The text under which the error is shown.
    pub fn to_string(&self) -> (r: String)
        ensures
            r@ == shown(self.message@),
    {
        let mut r = String::from_str("MyError: ");
        r.append(self.message.as_str());
        r
    }
}

/// The text of the error for a dictionary that lacks a field.
pub open spec fn missing_field(label: Seq<char>) -> Seq<char> {
    "Missing field: '"@ + label + "'"@
}

/// The text of the error for a field that holds a value of the wrong
/// variant; `rendered` is the text of that value.
pub open spec fn invalid_type(label: Seq<char>, rendered: Seq<char>) -> Seq<char> {
    "Invalid type for '"@ + label + "': "@ + rendered
}

/// The text under which an error with the text `message` is shown.
pub open spec fn shown(message: Seq<char>) -> Seq<char> {
    "MyError: "@ + message
}

/// What a fallible operation came to, as a model: the model of its value, or
/// the text of its error.
pub open spec fn outcome<T: View>(r: Result<T, Error>) -> Result<T::V, Seq<char>> {
    match r {
        Ok(v) => Ok(v@),
        Err(e) => Err(e.message@),
    }
}

} // verus!
