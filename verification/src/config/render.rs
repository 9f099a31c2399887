//! The text form of document nodes, as diagnostics show them: each node
//! under the name of its kind, strings between double quotes as they are.

use vstd::prelude::*;
use crate::config::document::{Mapping, MappingView, Value, ValueView};
use crate::config::scalar::{value_of, ScalarValue};

verus! {

/// The character of the decimal digit `d`.
pub open spec fn digit(d: int) -> char {
    if d == 0 {
        '0'
    } else if d == 1 {
        '1'
    } else if d == 2 {
        '2'
    } else if d == 3 {
        '3'
    } else if d == 4 {
        '4'
    } else if d == 5 {
        '5'
    } else if d == 6 {
        '6'
    } else if d == 7 {
        '7'
    } else if d == 8 {
        '8'
    } else {
        '9'
    }
}

/// The decimal digits of `n`, most significant first, no leading zero.
pub open spec fn decimal(n: nat) -> Seq<char>
    decreases n,
{
    if n < 10 {
        seq![digit(n as int)]
    } else {
        decimal(n / 10).push(digit((n % 10) as int))
    }
}

/// The decimal text of `i`, with a minus sign before a negative number.
pub open spec fn integer_text(i: int) -> Seq<char> {
    if i < 0 {
        seq!['-'] + decimal((-i) as nat)
    } else {
        decimal(i as nat)
    }
}

/// The text of a boolean.
pub open spec fn boolean_text(b: bool) -> Seq<char> {
    if b {
        "true"@
    } else {
        "false"@
    }
}

/// `text` between double quotes, unchanged.
pub open spec fn quoted(text: Seq<char>) -> Seq<char> {
    "\""@ + text + "\""@
}

/// The text of a node.
pub open spec fn value_text(value: ValueView) -> Seq<char>
    decreases value, 0nat,
{
    match value {
        ValueView::Null => "Null"@,
        ValueView::Boolean(b) => "Boolean("@ + boolean_text(b) + ")"@,
        ValueView::Integer(i) => "Integer("@ + integer_text(i) + ")"@,
        ValueView::Real(text) => "Real("@ + quoted(text) + ")"@,
        ValueView::String(text) => "String("@ + quoted(text) + ")"@,
        ValueView::Sequence(items) => "Sequence(["@ + items_text(items, items.len()) + "])"@,
        ValueView::Mapping(entries) => "Mapping({"@ + entries_text(entries, entries.len()) + "})"@,
    }
}

/// The texts of the first `n` of `items`, with a comma and a space between
/// two of them.
pub open spec fn items_text(items: Seq<ValueView>, n: nat) -> Seq<char>
    decreases items, n,
{
    if n == 0 || n > items.len() {
        Seq::empty()
    } else if n == 1 {
        value_text(items[0])
    } else {
        items_text(items, (n - 1) as nat) + ", "@ + value_text(items[n - 1])
    }
}

/// The texts of the first `n` of `entries`, each as key, colon, space and
/// value, with a comma and a space between two of them.
pub open spec fn entries_text(entries: MappingView, n: nat) -> Seq<char>
    decreases entries, n,
{
    if n == 0 || n > entries.len() {
        Seq::empty()
    } else if n == 1 {
        value_text(entries[0].0) + ": "@ + value_text(entries[0].1)
    } else {
        entries_text(entries, (n - 1) as nat) + ", "@ + value_text(entries[n - 1].0) + ": "@
            + value_text(entries[n - 1].1)
    }
}

/// The text of a mapping: its entries between braces.
pub open spec fn mapping_text(entries: MappingView) -> Seq<char> {
    "{"@ + entries_text(entries, entries.len()) + "}"@
}

/// The text of one decimal digit.
fn digit_text(d: u8) -> (text: &'static str)
    requires
        d < 10,
    ensures
        text@ == seq![digit(d as int)],
{
    proof {
        reveal_strlit("0");
        reveal_strlit("1");
        reveal_strlit("2");
        reveal_strlit("3");
        reveal_strlit("4");
        reveal_strlit("5");
        reveal_strlit("6");
        reveal_strlit("7");
        reveal_strlit("8");
        reveal_strlit("9");
    }
    let text = if d == 0 {
        "0"
    } else if d == 1 {
        "1"
    } else if d == 2 {
        "2"
    } else if d == 3 {
        "3"
    } else if d == 4 {
        "4"
    } else if d == 5 {
        "5"
    } else if d == 6 {
        "6"
    } else if d == 7 {
        "7"
    } else if d == 8 {
        "8"
    } else {
        "9"
    };
    assert(text@ =~= seq![digit(d as int)]);
    text
}

/// Writes the decimal digits of `n` after what `out` holds.
fn write_natural(out: &mut String, n: u64)
    ensures
        final(out)@ == old(out)@ + decimal(n as nat),
    decreases n,
{
    if n >= 10 {
        write_natural(out, n / 10);
    }
    let last = digit_text((n % 10) as u8);
    out.append(last);
    assert(out@ =~= old(out)@ + decimal(n as nat));
}

/// Writes the decimal text of `i` after what `out` holds.
fn write_integer(out: &mut String, i: i64)
    ensures
        final(out)@ == old(out)@ + integer_text(i as int),
{
    if i < 0 {
        proof {
            reveal_strlit("-");
        }
        out.append("-");
        let magnitude: u64 = ((-(i + 1)) as u64) + 1;
        write_natural(out, magnitude);
        assert(out@ =~= old(out)@ + integer_text(i as int));
    } else {
        write_natural(out, i as u64);
    }
}

/// Writes `text` between double quotes after what `out` holds.
fn write_quoted(out: &mut String, text: &str)
    ensures
        final(out)@ == old(out)@ + quoted(text@),
{
    out.append("\"");
    out.append(text);
    out.append("\"");
    assert(out@ =~= old(out)@ + quoted(text@));
}

/// Writes the text of `value` after what `out` holds.
pub fn write_value(out: &mut String, value: &Value)
    ensures
        final(out)@ == old(out)@ + value_text(value@),
    decreases value,
{
    match value {
        Value::Null => {
            out.append("Null");
        },
        Value::Boolean(b) => {
            out.append("Boolean(");
            if *b {
                out.append("true");
            } else {
                out.append("false");
            }
            out.append(")");
            assert(out@ =~= old(out)@ + value_text(value@));
        },
        Value::Integer(i) => {
            out.append("Integer(");
            write_integer(out, *i);
            out.append(")");
            assert(out@ =~= old(out)@ + value_text(value@));
        },
        Value::Real(text) => {
            out.append("Real(");
            write_quoted(out, text.as_str());
            out.append(")");
            assert(out@ =~= old(out)@ + value_text(value@));
        },
        Value::String(text) => {
            out.append("String(");
            write_quoted(out, text.as_str());
            out.append(")");
            assert(out@ =~= old(out)@ + value_text(value@));
        },
        Value::Sequence(items) => {
            out.append("Sequence([");
            let ghost before = out@;
            let ghost shown = value@->Sequence_0;
            let mut i: usize = 0;
            while i < items.len()
                invariant
                    i <= items.len(),
                    *value matches Value::Sequence(own) && own == *items,
                    shown == value@->Sequence_0,
                    shown.len() == items.len(),
                    out@ == before + items_text(shown, i as nat),
                decreases items.len() - i,
            {
                if i > 0 {
                    out.append(", ");
                }
                assert(shown[i as int] == items@[i as int]@);
                write_value(out, &items[i]);
                i += 1;
                assert(out@ =~= before + items_text(shown, i as nat));
            }
            out.append("])");
            assert(out@ =~= old(out)@ + value_text(value@));
        },
        Value::Mapping(mapping) => {
            out.append("Mapping(");
            write_mapping(out, mapping);
            out.append(")");
            assert(out@ =~= old(out)@ + value_text(value@)) by {
                reveal_strlit("Mapping(");
                reveal_strlit("Mapping({");
                reveal_strlit("{");
                reveal_strlit("}");
                reveal_strlit(")");
                reveal_strlit("})");
                assert("Mapping({"@ =~= "Mapping("@ + "{"@);
                assert("})"@ =~= "}"@ + ")"@);
            }
        },
    }
}

/// Writes the text of `mapping` after what `out` holds.
pub fn write_mapping(out: &mut String, mapping: &Mapping)
    ensures
        final(out)@ == old(out)@ + mapping_text(mapping@),
    decreases mapping,
{
    out.append("{");
    let ghost before = out@;
    let ghost shown = mapping@;
    let mut i: usize = 0;
    while i < mapping.entries.len()
        invariant
            i <= mapping.entries.len(),
            shown == mapping@,
            shown.len() == mapping.entries.len(),
            out@ == before + entries_text(shown, i as nat),
        decreases mapping.entries.len() - i,
    {
        if i > 0 {
            out.append(", ");
        }
        assert(shown[i as int] == (mapping.entries@[i as int].0@, mapping.entries@[i as int].1@));
        write_value(out, &mapping.entries[i].0);
        out.append(": ");
        write_value(out, &mapping.entries[i].1);
        i += 1;
        assert(out@ =~= before + entries_text(shown, i as nat));
    }
    out.append("}");
    assert(out@ =~= old(out)@ + mapping_text(mapping@));
}

/// Writes the text of the node that `scalar` is after what `out` holds.
pub fn write_scalar(out: &mut String, scalar: &ScalarValue)
    ensures
        final(out)@ == old(out)@ + value_text(value_of(scalar@)),
{
    let value = scalar.to_value();
    write_value(out, &value);
}

impl Value {
    /// The text of this node.
    pub fn to_text(&self) -> (text: String)
        ensures
            text@ == value_text(self@),
    {
        let mut text = String::new();
        write_value(&mut text, self);
        assert(text@ =~= value_text(self@));
        text
    }
}

impl Mapping {
    /// The text of this mapping.
    pub fn to_text(&self) -> (text: String)
        ensures
            text@ == mapping_text(self@),
    {
        let mut text = String::new();
        write_mapping(&mut text, self);
        assert(text@ =~= mapping_text(self@));
        text
    }
}

} // verus!
