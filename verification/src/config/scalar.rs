//! The scalar values that metadata may hold.

use vstd::prelude::*;
use vstd::std_specs::cmp::PartialEqSpecImpl;
use crate::config::document::{Value, ValueView};

verus! {

/// A value of one of the scalar kinds: string, boolean, integer or real.
///
/// A real number is kept as the text it was written with.
#[derive(Debug, Eq)]
pub enum ScalarValue {
    String(String),
    Boolean(bool),
    Integer(i64),
    Real(String),
}

/// What a [`ScalarValue`] is, mathematically.
pub enum ScalarView {
    String(Seq<char>),
    Boolean(bool),
    Integer(int),
    Real(Seq<char>),
}

/// The kinds of scalar.
#[derive(Clone, Copy, Debug, PartialEq, Eq, Structural)]
pub enum ScalarKind {
    String,
    Boolean,
    Integer,
    Real,
}

impl ScalarKind {
    /// How a diagnostic calls this kind.
    pub open spec fn description(self) -> Seq<char> {
        match self {
            ScalarKind::String => "string"@,
            ScalarKind::Boolean => "boolean"@,
            ScalarKind::Integer => "integer"@,
            ScalarKind::Real => "real number"@,
        }
    }

    /// How a diagnostic calls this kind.
    pub fn describe(&self) -> (text: &'static str)
        ensures
            text@ == self.description(),
    {
        match self {
            ScalarKind::String => "string",
            ScalarKind::Boolean => "boolean",
            ScalarKind::Integer => "integer",
            ScalarKind::Real => "real number",
        }
    }
}

/// The kind of a scalar.
pub open spec fn kind_of(scalar: ScalarView) -> ScalarKind {
    match scalar {
        ScalarView::String(_) => ScalarKind::String,
        ScalarView::Boolean(_) => ScalarKind::Boolean,
        ScalarView::Integer(_) => ScalarKind::Integer,
        ScalarView::Real(_) => ScalarKind::Real,
    }
}

impl View for ScalarValue {
    type V = ScalarView;

    open spec fn view(&self) -> ScalarView {
        match self {
            ScalarValue::String(text) => ScalarView::String(text@),
            ScalarValue::Boolean(b) => ScalarView::Boolean(*b),
            ScalarValue::Integer(i) => ScalarView::Integer(*i as int),
            ScalarValue::Real(text) => ScalarView::Real(text@),
        }
    }
}

/// The scalar that a node stands for, if it is of a scalar kind. Null,
/// sequences and mappings are of none.
pub open spec fn scalar_of(value: ValueView) -> Option<ScalarView> {
    match value {
        ValueView::String(text) => Some(ScalarView::String(text)),
        ValueView::Boolean(b) => Some(ScalarView::Boolean(b)),
        ValueView::Integer(i) => Some(ScalarView::Integer(i)),
        ValueView::Real(text) => Some(ScalarView::Real(text)),
        ValueView::Null => None,
        ValueView::Sequence(_) => None,
        ValueView::Mapping(_) => None,
    }
}

/// The node that a scalar is.
pub open spec fn value_of(scalar: ScalarView) -> ValueView {
    match scalar {
        ScalarView::String(text) => ValueView::String(text),
        ScalarView::Boolean(b) => ValueView::Boolean(b),
        ScalarView::Integer(i) => ValueView::Integer(i),
        ScalarView::Real(text) => ValueView::Real(text),
    }
}

/// A node of a scalar kind is the node of its scalar, and every scalar is
/// the scalar of its node: nothing is changed on the way.
pub proof fn lemma_scalar_round_trip(value: ValueView, scalar: ScalarView)
    ensures
        scalar_of(value) matches Some(s) ==> value_of(s) == value,
        scalar_of(value_of(scalar)) == Some(scalar),
{
}

impl ScalarValue {
    /// The scalar that `value` stands for, or nothing where it is null, a
    /// sequence or a mapping.
    pub fn from_value(value: &Value) -> (scalar: Option<ScalarValue>)
        ensures
            match scalar {
                Some(s) => scalar_of(value@) == Some(s@),
                None => scalar_of(value@) is None,
            },
    {
        match value {
            Value::String(text) => Some(ScalarValue::String(text.clone())),
            Value::Boolean(b) => Some(ScalarValue::Boolean(*b)),
            Value::Integer(i) => Some(ScalarValue::Integer(*i)),
            Value::Real(text) => Some(ScalarValue::Real(text.clone())),
            Value::Null => None,
            Value::Sequence(_) => None,
            Value::Mapping(_) => None,
        }
    }

    /// The kind of this scalar.
    pub fn kind(&self) -> (kind: ScalarKind)
        ensures
            kind == kind_of(self@),
    {
        match self {
            ScalarValue::String(_) => ScalarKind::String,
            ScalarValue::Boolean(_) => ScalarKind::Boolean,
            ScalarValue::Integer(_) => ScalarKind::Integer,
            ScalarValue::Real(_) => ScalarKind::Real,
        }
    }

    /// The node that this scalar is.
    pub fn to_value(&self) -> (value: Value)
        ensures
            value@ == value_of(self@),
    {
        match self {
            ScalarValue::String(text) => Value::String(text.clone()),
            ScalarValue::Boolean(b) => Value::Boolean(*b),
            ScalarValue::Integer(i) => Value::Integer(*i),
            ScalarValue::Real(text) => Value::Real(text.clone()),
        }
    }
}

impl PartialEq for ScalarValue {
    fn eq(&self, other: &Self) -> (same: bool) {
        match (self, other) {
            (ScalarValue::String(a), ScalarValue::String(b)) => *a == *b,
            (ScalarValue::Boolean(a), ScalarValue::Boolean(b)) => *a == *b,
            (ScalarValue::Integer(a), ScalarValue::Integer(b)) => *a == *b,
            (ScalarValue::Real(a), ScalarValue::Real(b)) => *a == *b,
            _ => false,
        }
    }
}

impl PartialEqSpecImpl for ScalarValue {
    open spec fn obeys_eq_spec() -> bool {
        true
    }

    open spec fn eq_spec(&self, other: &Self) -> bool {
        self@ == other@
    }
}

impl Clone for ScalarValue {
    fn clone(&self) -> (copy: Self)
        ensures
            copy@ == self@,
    {
        match self {
            ScalarValue::String(text) => ScalarValue::String(text.clone()),
            ScalarValue::Boolean(b) => ScalarValue::Boolean(*b),
            ScalarValue::Integer(i) => ScalarValue::Integer(*i),
            ScalarValue::Real(text) => ScalarValue::Real(text.clone()),
        }
    }
}

} // verus!
