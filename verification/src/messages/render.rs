//! The texts under which values and errors stand in the texts of errors.

use crate::messages::types::{Dict, DictView, Error, Value, ValueView};
use crate::text::{decimal, digits, push_decimal, push_digits};
use vstd::prelude::*;

verus! {

/// The parts, with a comma and a space between each two.
pub open spec fn joined(parts: Seq<Seq<char>>) -> Seq<char>
    decreases parts.len(),
{
    if parts.len() == 0 {
        Seq::empty()
    } else if parts.len() == 1 {
        parts[0]
    } else {
        joined(parts.drop_last()) + ", "@ + parts.last()
    }
}

/// A text between double quotes, as it is.
pub open spec fn quoted(text: Seq<char>) -> Seq<char> {
    "\""@ + text + "\""@
}

/// The text of a value: the name of its variant and, in round brackets,
/// what it holds. An integer is in decimal, a floating-point number is the
/// decimal of its bit pattern, a string is between double quotes, the items
/// of a list and the octets of an octet string are in square brackets, the
/// entries of a dictionary in braces, each as its key, a colon and its
/// value.
pub open spec fn rendered(v: ValueView) -> Seq<char>
    decreases v,
{
    match v {
        ValueView::Null => "Null"@,
        ValueView::Int(n) => "Int("@ + decimal(n as int) + ")"@,
        ValueView::Float(bits) => "Float("@ + digits(bits as nat) + ")"@,
        ValueView::Bool(b) => if b {
            "Bool(true)"@
        } else {
            "Bool(false)"@
        },
        ValueView::Str(s) => "Str("@ + quoted(s) + ")"@,
        ValueView::List(items) => "List(["@ + joined(item_texts(items)) + "])"@,
        ValueView::Dict(entries) => "Dict({"@ + joined(entry_texts(entries)) + "})"@,
        ValueView::Bytes(octets) => "Bytes(["@ + joined(octet_texts(octets)) + "])"@,
    }
}

/// The texts of the items of a list.
pub open spec fn item_texts(items: Seq<ValueView>) -> Seq<Seq<char>>
    decreases items,
{
    Seq::new(
        items.len(),
        |i: int|
            if 0 <= i < items.len() {
                rendered(items[i])
            } else {
                Seq::empty()
            },
    )
}

/// The texts of the entries of a dictionary: each is the key between
/// double quotes, a colon, and the text of the value.
pub open spec fn entry_texts(entries: DictView) -> Seq<Seq<char>>
    decreases entries,
{
    Seq::new(
        entries.len(),
        |i: int|
            if 0 <= i < entries.len() {
                quoted(entries[i].0) + ": "@ + rendered(entries[i].1)
            } else {
                Seq::empty()
            },
    )
}

/// The decimal texts of octets.
pub open spec fn octet_texts(octets: Seq<u8>) -> Seq<Seq<char>> {
    Seq::new(octets.len(), |i: int| digits(octets[i] as nat))
}

/// The text of an error: the name of its type and its text between double
/// quotes.
pub open spec fn rendered_error(message: Seq<char>) -> Seq<char> {
    "Error { message: "@ + quoted(message) + " }"@
}

/// Joining one part more appends a comma and a space, unless it is the
/// first, and the part.
pub proof fn lemma_joined_push(parts: Seq<Seq<char>>, part: Seq<char>)
    ensures
        joined(parts.push(part)) == if parts.len() == 0 {
            part
        } else {
            joined(parts) + ", "@ + part
        },
{
    assert(parts.push(part).drop_last() =~= parts);
}

fn push_quoted(out: &mut String, text: &str)
    ensures
        final(out)@ == old(out)@ + quoted(text@),
{
    out.append("\"");
    out.append(text);
    out.append("\"");
    assert(out@ =~= old(out)@ + quoted(text@));
}

impl Value {
    /// The text of the value.
    pub fn render(&self) -> (r: String)
        ensures
            r@ == rendered(self@),
    {
        let mut out = String::new();
        self.render_into(&mut out);
        assert(out@ =~= rendered(self@));
        out
    }

    /// Appends the text of the value.
    pub fn render_into(&self, out: &mut String)
        ensures
            final(out)@ == old(out)@ + rendered(self@),
        decreases self,
    {
        let ghost before = out@;
        match self {
            Value::Null => {
                out.append("Null");
            },
            Value::Int(n) => {
                out.append("Int(");
                push_decimal(out, *n);
                out.append(")");
                assert(out@ =~= before + rendered(self@));
            },
            Value::Float(bits) => {
                out.append("Float(");
                push_digits(out, *bits);
                out.append(")");
                assert(out@ =~= before + rendered(self@));
            },
            Value::Bool(b) => {
                if *b {
                    out.append("Bool(true)");
                } else {
                    out.append("Bool(false)");
                }
            },
            Value::Str(s) => {
                out.append("Str(");
                push_quoted(out, s.as_str());
                out.append(")");
                assert(out@ =~= before + rendered(self@));
            },
            Value::List(items) => {
                out.append("List([");
                let ghost parts = item_texts(self@->List_0);
                proof {
                    crate::messages::types::lemma_list_view(*items);
                }
                let mut i: usize = 0;
                while i < items.len()
                    invariant
                        *self == Value::List(*items),
                        i <= items.len(),
                        parts.len() == items@.len(),
                        forall|k: int| 0 <= k < parts.len() ==> parts[k] == rendered(items@[k]@),
                        out@ == before + "List(["@ + joined(parts.take(i as int)),
                    decreases items.len() - i,
                {
                    proof {
                        assert(decreases_to!(*self => self->List_0));
                        vstd::std_specs::vec::axiom_vec_index_decreases(*items, i as int);
                        lemma_joined_push(parts.take(i as int), parts[i as int]);
                        assert(parts.take(i + 1) =~= parts.take(i as int).push(parts[i as int]));
                    }
                    let ghost so_far = out@;
                    if i > 0 {
                        out.append(", ");
                    }
                    items[i].render_into(out);
                    assert(out@ =~= before + "List(["@ + joined(parts.take(i + 1)));
                    i += 1;
                }
                out.append("])");
                proof {
                    assert(parts.take(items@.len() as int) =~= parts);
                    assert(out@ =~= before + rendered(self@));
                }
            },
            Value::Dict(d) => {
                out.append("Dict({");
                d.render_entries(out);
                out.append("})");
                assert(out@ =~= before + rendered(self@));
            },
            Value::Bytes(b) => {
                out.append("Bytes([");
                let ghost parts = octet_texts(b@);
                let mut i: usize = 0;
                while i < b.0.len()
                    invariant
                        i <= b.0.len(),
                        b@ == b.0@,
                        parts == octet_texts(b@),
                        out@ == before + "Bytes(["@ + joined(parts.take(i as int)),
                    decreases b.0.len() - i,
                {
                    proof {
                        lemma_joined_push(parts.take(i as int), parts[i as int]);
                        assert(parts.take(i + 1) =~= parts.take(i as int).push(parts[i as int]));
                    }
                    if i > 0 {
                        out.append(", ");
                    }
                    push_digits(out, b.0[i] as u64);
                    assert(out@ =~= before + "Bytes(["@ + joined(parts.take(i + 1)));
                    i += 1;
                }
                out.append("])");
                proof {
                    assert(parts.take(b@.len() as int) =~= parts);
                    assert(out@ =~= before + rendered(self@));
                }
            },
        }
    }
}

impl Dict {
    /// Appends the texts of the entries, with a comma and a space between
    /// each two.
    pub fn render_entries(&self, out: &mut String)
        ensures
            final(out)@ == old(out)@ + joined(entry_texts(self@)),
        decreases self,
    {
        let ghost before = out@;
        let entries = self.entries();
        let ghost parts = entry_texts(self@);
        proof {
            assert forall|k: int| 0 <= k < entries@.len() implies decreases_to!(
                *self => entries@[k].1
            ) by {
                vstd::std_specs::vec::axiom_vec_index_decreases(*entries, k);
            }
        }
        let mut i: usize = 0;
        while i < entries.len()
            invariant
                i <= entries.len(),
                entries@.len() == self@.len(),
                forall|k: int|
                    0 <= k < entries@.len() ==> (#[trigger] entries@[k]).0@ == self@[k].0
                        && entries@[k].1@ == self@[k].1,
                forall|k: int| 0 <= k < entries@.len() ==> decreases_to!(*self => entries@[k].1),
                parts == entry_texts(self@),
                out@ == before + joined(parts.take(i as int)),
            decreases entries.len() - i,
        {
            proof {
                lemma_joined_push(parts.take(i as int), parts[i as int]);
                assert(parts.take(i + 1) =~= parts.take(i as int).push(parts[i as int]));
            }
            if i > 0 {
                out.append(", ");
            }
            push_quoted(out, entries[i].0.as_str());
            out.append(": ");
            entries[i].1.render_into(out);
            assert(out@ =~= before + joined(parts.take(i + 1)));
            i += 1;
        }
        proof {
            assert(parts.take(self@.len() as int) =~= parts);
        }
    }
}

impl Error {
    /// The text of the error, for the text of another error.
    pub fn render(&self) -> (r: String)
        ensures
            r@ == rendered_error(self.message@),
    {
        let mut out = String::from_str("Error { message: ");
        push_quoted(&mut out, self.message.as_str());
        out.append(" }");
        out
    }
}

} // verus!
