//! The document tree that validation reads: a closed set of node kinds, and
//! mappings as ordered lists of entries.

use vstd::prelude::*;

verus! {

/// A node of the document tree.
///
/// A real number is kept as the text it was written with.
#[derive(Debug, PartialEq, Eq)]
pub enum Value {
    Null,
    Boolean(bool),
    Integer(i64),
    Real(String),
    String(String),
    Sequence(Vec<Value>),
    Mapping(Mapping),
}

/// A mapping node: its entries in the order of the document.
///
/// Keys are nodes themselves, and nothing forbids two entries with one key.
#[derive(Debug, PartialEq, Eq)]
pub struct Mapping {
    pub entries: Vec<(Value, Value)>,
}

/// What a [`Value`] is, mathematically.
pub enum ValueView {
    Null,
    Boolean(bool),
    Integer(int),
    Real(Seq<char>),
    String(Seq<char>),
    Sequence(Seq<ValueView>),
    Mapping(Seq<(ValueView, ValueView)>),
}

/// What a [`Mapping`] is, mathematically: its entries in order.
pub type MappingView = Seq<(ValueView, ValueView)>;

impl View for Value {
    type V = ValueView;

    open spec fn view(&self) -> ValueView
        decreases self,
    {
        match self {
            Value::Null => ValueView::Null,
            Value::Boolean(b) => ValueView::Boolean(*b),
            Value::Integer(i) => ValueView::Integer(*i as int),
            Value::Real(text) => ValueView::Real(text@),
            Value::String(text) => ValueView::String(text@),
            Value::Sequence(items) => ValueView::Sequence(
                Seq::new(
                    items@.len(),
                    |i: int|
                        if 0 <= i < items@.len() {
                            items@[i]@
                        } else {
                            ValueView::Null
                        },
                ),
            ),
            Value::Mapping(mapping) => ValueView::Mapping(mapping@),
        }
    }
}

impl View for Mapping {
    type V = MappingView;

    open spec fn view(&self) -> MappingView
        decreases self,
    {
        Seq::new(
            self.entries@.len(),
            |i: int|
                if 0 <= i < self.entries@.len() {
                    (self.entries@[i].0@, self.entries@[i].1@)
                } else {
                    (ValueView::Null, ValueView::Null)
                },
        )
    }
}

/// Whether entry `i` of `entries` exists and is keyed by the string `name`.
pub open spec fn keyed_by(entries: MappingView, i: int, name: Seq<char>) -> bool {
    0 <= i < entries.len() && entries[i].0 == ValueView::String(name)
}

/// The value of the first entry at or after `from` that is keyed by the
/// string `name`.
pub open spec fn lookup_from(entries: MappingView, name: Seq<char>, from: int) -> Option<
    ValueView,
>
    decreases entries.len() - from,
{
    if from < 0 || from >= entries.len() {
        None
    } else if entries[from].0 == ValueView::String(name) {
        Some(entries[from].1)
    } else {
        lookup_from(entries, name, from + 1)
    }
}

/// The value that a mapping gives for the string key `name`: that of the
/// first entry keyed by it.
pub open spec fn lookup(entries: MappingView, name: Seq<char>) -> Option<ValueView> {
    lookup_from(entries, name, 0)
}

/// `lookup_from` gives the value of entry `i` when that is the first entry
/// at or after `from` keyed by `name`.
proof fn lemma_lookup_from_first(entries: MappingView, name: Seq<char>, from: int, i: int)
    requires
        0 <= from <= i,
        keyed_by(entries, i, name),
        forall|j: int| from <= j < i ==> !keyed_by(entries, j, name),
    ensures
        lookup_from(entries, name, from) == Some(entries[i].1),
    decreases i - from,
{
    if from < i {
        assert(!keyed_by(entries, from, name));
        lemma_lookup_from_first(entries, name, from + 1, i);
    }
}

/// `lookup_from` finds nothing when no entry at or after `from` is keyed by
/// `name`.
proof fn lemma_lookup_from_absent(entries: MappingView, name: Seq<char>, from: int)
    requires
        0 <= from,
        forall|j: int| from <= j ==> !keyed_by(entries, j, name),
    ensures
        lookup_from(entries, name, from) is None,
    decreases entries.len() - from,
{
    if from < entries.len() {
        assert(!keyed_by(entries, from, name));
        lemma_lookup_from_absent(entries, name, from + 1);
    }
}

/// What `lookup_from` answers, told by the entries at or after `from`.
proof fn lemma_lookup_scan(entries: MappingView, name: Seq<char>, from: int)
    requires
        0 <= from,
    ensures
        lookup_from(entries, name, from) is None ==> forall|j: int|
            from <= j ==> !keyed_by(entries, j, name),
        lookup_from(entries, name, from) matches Some(value) ==> exists|i: int|
            #![trigger keyed_by(entries, i, name)]
            from <= i && keyed_by(entries, i, name) && entries[i].1 == value && forall|j: int|
                from <= j < i ==> !keyed_by(entries, j, name),
    decreases entries.len() - from,
{
    if from < entries.len() {
        if entries[from].0 == ValueView::String(name) {
            assert(keyed_by(entries, from, name));
        } else {
            lemma_lookup_scan(entries, name, from + 1);
            if lookup_from(entries, name, from) is Some {
                let value = lookup_from(entries, name, from)->0;
                let i = choose|i: int|
                    #![trigger keyed_by(entries, i, name)]
                    from + 1 <= i && keyed_by(entries, i, name) && entries[i].1 == value
                        && forall|j: int| from + 1 <= j < i ==> !keyed_by(entries, j, name);
                assert(keyed_by(entries, i, name));
            }
        }
    }
}

/// A lookup answers with the first entry keyed by the name, and with
/// nothing exactly when no entry is keyed by it.
pub proof fn lemma_lookup_is_first_match(entries: MappingView, name: Seq<char>)
    ensures
        lookup(entries, name) is None <==> forall|j: int| !keyed_by(entries, j, name),
        lookup(entries, name) matches Some(value) ==> exists|i: int|
            #![trigger keyed_by(entries, i, name)]
            keyed_by(entries, i, name) && entries[i].1 == value && forall|j: int|
                0 <= j < i ==> !keyed_by(entries, j, name),
{
    lemma_lookup_scan(entries, name, 0);
    if forall|j: int| !keyed_by(entries, j, name) {
        lemma_lookup_from_absent(entries, name, 0);
    }
}

/// A lookup answers with the value of entry `i` where no entry before it
/// is keyed by the name, whatever stands after it.
pub proof fn lemma_lookup_finds_first(entries: MappingView, name: Seq<char>, i: int)
    requires
        keyed_by(entries, i, name),
        forall|j: int| 0 <= j < i ==> !keyed_by(entries, j, name),
    ensures
        lookup(entries, name) == Some(entries[i].1),
{
    lemma_lookup_from_first(entries, name, 0, i);
}

impl Mapping {
    /// Looks the string key `key` up.
    pub fn get(&self, key: &str) -> (found: Option<&Value>)
        ensures
            match found {
                Some(value) => lookup(self@, key@) == Some(value@),
                None => lookup(self@, key@) is None,
            },
    {
        let wanted = key.to_owned();
        let mut i: usize = 0;
        while i < self.entries.len()
            invariant
                i <= self.entries.len(),
                wanted@ == key@,
                lookup(self@, key@) == lookup_from(self@, key@, i as int),
            decreases self.entries.len() - i,
        {
            if let Value::String(text) = &self.entries[i].0 {
                if *text == wanted {
                    return Some(&self.entries[i].1);
                }
            }
            i += 1;
        }
        None
    }
}

impl Clone for Value {
    fn clone(&self) -> (copy: Self)
        ensures
            copy@ == self@,
        decreases self,
    {
        match self {
            Value::Null => Value::Null,
            Value::Boolean(b) => Value::Boolean(*b),
            Value::Integer(i) => Value::Integer(*i),
            Value::Real(text) => Value::Real(text.clone()),
            Value::String(text) => Value::String(text.clone()),
            Value::Sequence(items) => {
                let mut copies: Vec<Value> = Vec::new();
                let mut i: usize = 0;
                while i < items.len()
                    invariant
                        i <= items.len(),
                        copies.len() == i,
                        *self matches Value::Sequence(own) && own == *items,
                        forall|j: int| 0 <= j < i ==> copies@[j]@ == items@[j]@,
                    decreases items.len() - i,
                {
                    copies.push(items[i].clone());
                    i += 1;
                }
                let copy = Value::Sequence(copies);
                assert(copy@->Sequence_0 =~= self@->Sequence_0);
                copy
            },
            Value::Mapping(mapping) => Value::Mapping(mapping.clone()),
        }
    }
}

impl Clone for Mapping {
    fn clone(&self) -> (copy: Self)
        ensures
            copy@ == self@,
        decreases self,
    {
        let mut entries: Vec<(Value, Value)> = Vec::new();
        let mut i: usize = 0;
        while i < self.entries.len()
            invariant
                i <= self.entries.len(),
                entries.len() == i,
                forall|j: int|
                    0 <= j < i ==> entries@[j].0@ == self.entries@[j].0@ && entries@[j].1@
                        == self.entries@[j].1@,
            decreases self.entries.len() - i,
        {
            let key = self.entries[i].0.clone();
            let value = self.entries[i].1.clone();
            entries.push((key, value));
            i += 1;
        }
        let copy = Mapping { entries };
        assert(copy@ =~= self@);
        copy
    }
}

} // verus!
