//! The metadata collector: walks an optional nested mapping entry by entry
//! and gathers its scalars under their string keys, stopping at the first
//! entry that does not fit.

use vstd::prelude::*;
use crate::config::diagnostic::{Diagnostic, DiagnosticView};
use crate::config::document::{lookup, Mapping, MappingView, Value, ValueView};
use crate::config::fields::string_kind;
use crate::config::metadata::Metadata;
use crate::config::outcome::outcome;
use crate::config::scalar::{scalar_of, ScalarValue, ScalarView};

verus! {

/// How a diagnostic calls the kinds that metadata may hold.
pub open spec fn scalar_kinds() -> Seq<char> {
    "string, boolean, or integer"@
}

/// How a diagnostic calls the mapping kind.
pub open spec fn mapping_kind() -> Seq<char> {
    "mapping"@
}

/// How a diagnostic names an entry whose key is no string.
pub open spec fn entry_key() -> Seq<char> {
    "key of mapping"@
}

/// What gathering the entries of `entries` from place `from` on gives,
/// with `gathered` in hand from the entries before.
///
/// Of each entry the key is looked at first, then the value, then whether
/// the key was gathered before.
pub open spec fn collect_from(
    entries: MappingView,
    from: int,
    gathered: Map<Seq<char>, ScalarView>,
) -> Result<Map<Seq<char>, ScalarView>, DiagnosticView>
    decreases entries.len() - from,
{
    if from < 0 || from >= entries.len() {
        Ok(gathered)
    } else {
        match entries[from].0 {
            ValueView::String(key) => match scalar_of(entries[from].1) {
                None => Err(
                    DiagnosticView::WrongFieldType {
                        key,
                        required: false,
                        container: entries,
                        expected: scalar_kinds(),
                    },
                ),
                Some(scalar) => if gathered.contains_key(key) {
                    Err(DiagnosticView::DuplicateKey { key, first: gathered[key], second: scalar })
                } else {
                    collect_from(entries, from + 1, gathered.insert(key, scalar))
                },
            },
            _ => Err(
                DiagnosticView::WrongFieldType {
                    key: entry_key(),
                    required: false,
                    container: entries,
                    expected: string_kind(),
                },
            ),
        }
    }
}

/// The metadata that the entries of a mapping spell out, or the
/// diagnostic for the first entry that does not fit.
pub open spec fn collect(entries: MappingView) -> Result<Map<Seq<char>, ScalarView>, DiagnosticView> {
    collect_from(entries, 0, Map::empty())
}

/// The metadata under the optional key `key` of `container`: empty where
/// the key is absent or null, gathered where it holds a mapping.
pub open spec fn metadata_of(container: MappingView, key: Seq<char>) -> Result<
    Map<Seq<char>, ScalarView>,
    DiagnosticView,
> {
    match lookup(container, key) {
        None => Ok(Map::empty()),
        Some(ValueView::Null) => Ok(Map::empty()),
        Some(ValueView::Mapping(entries)) => collect(entries),
        Some(_) => Err(
            DiagnosticView::WrongFieldType {
                key,
                required: false,
                container,
                expected: mapping_kind(),
            },
        ),
    }
}

/// Whether entry `i` of `entries` can stand in metadata by itself: a string
/// key with a scalar beside it.
pub open spec fn fits(entries: MappingView, i: int) -> bool {
    entries[i].0 is String && scalar_of(entries[i].1) is Some
}

/// Whether the key of entry `i` stands in an earlier entry too.
pub open spec fn repeats(entries: MappingView, i: int) -> bool {
    exists|j: int| 0 <= j < i && #[trigger] entries[j].0 == entries[i].0
}

/// Whether entry `i` fits and repeats no key.
pub open spec fn sound(entries: MappingView, i: int) -> bool {
    fits(entries, i) && !repeats(entries, i)
}

/// Whether each of the first `n` entries is sound.
pub open spec fn clean(entries: MappingView, n: int) -> bool {
    forall|i: int| 0 <= i < n ==> #[trigger] sound(entries, i)
}

/// The string that keys entry `i`.
pub open spec fn key_at(entries: MappingView, i: int) -> Seq<char> {
    entries[i].0->String_0
}

/// The scalar that entry `i` holds.
pub open spec fn scalar_at(entries: MappingView, i: int) -> ScalarView {
    scalar_of(entries[i].1)->0
}

/// The mapping that the first `n` entries spell out.
pub open spec fn gathered_before(entries: MappingView, n: int) -> Map<Seq<char>, ScalarView>
    decreases n,
{
    if n <= 0 {
        Map::empty()
    } else {
        gathered_before(entries, n - 1).insert(key_at(entries, n - 1), scalar_at(entries, n - 1))
    }
}

/// A clean run of entries stays clean when cut short.
pub proof fn lemma_clean_prefix(entries: MappingView, n: int, shorter: int)
    requires
        clean(entries, n),
        shorter <= n,
    ensures
        clean(entries, shorter),
{
    assert forall|i: int| 0 <= i < shorter implies #[trigger] sound(entries, i) by {
        assert(sound(entries, i));
    }
}

/// The keys gathered from the first `n` entries are the keys of those
/// entries, finitely many.
pub proof fn lemma_gathered_keys(entries: MappingView, n: int)
    requires
        0 <= n <= entries.len(),
        clean(entries, n),
    ensures
        gathered_before(entries, n).dom().finite(),
        forall|key: Seq<char>| #[trigger]
            gathered_before(entries, n).contains_key(key) <==> exists|j: int|
                0 <= j < n && #[trigger] entries[j].0 == ValueView::String(key),
    decreases n,
{
    if n > 0 {
        lemma_clean_prefix(entries, n, n - 1);
        lemma_gathered_keys(entries, n - 1);
        assert(sound(entries, n - 1));
        assert forall|key: Seq<char>| #[trigger]
            gathered_before(entries, n).contains_key(key) implies exists|j: int|
            0 <= j < n && #[trigger] entries[j].0 == ValueView::String(key) by {
            if key == key_at(entries, n - 1) {
                assert(entries[n - 1].0 == ValueView::String(key));
            } else {
                let j = choose|j: int|
                    0 <= j < n - 1 && #[trigger] entries[j].0 == ValueView::String(key);
                assert(entries[j].0 == ValueView::String(key));
            }
        }
        assert forall|key: Seq<char>|
            (exists|j: int|
                0 <= j < n && #[trigger] entries[j].0 == ValueView::String(
                    key,
                )) implies #[trigger] gathered_before(entries, n).contains_key(key) by {
            let j = choose|j: int| 0 <= j < n && #[trigger] entries[j].0 == ValueView::String(key);
            if j < n - 1 {
                assert(entries[j].0 == ValueView::String(key));
            }
        }
    }
}

/// Where the first `n` entries are clean, the key of entry `n` was not
/// gathered from them exactly when it repeats none of theirs.
pub proof fn lemma_gathered_lacks_fresh_key(entries: MappingView, n: int)
    requires
        0 <= n < entries.len(),
        clean(entries, n),
        entries[n].0 is String,
    ensures
        gathered_before(entries, n).contains_key(key_at(entries, n)) <==> repeats(entries, n),
{
    lemma_gathered_keys(entries, n);
    let key = key_at(entries, n);
    if gathered_before(entries, n).contains_key(key) {
        let j = choose|j: int| 0 <= j < n && #[trigger] entries[j].0 == ValueView::String(key);
        assert(entries[j].0 == entries[n].0);
    }
    if repeats(entries, n) {
        let j = choose|j: int| 0 <= j < n && #[trigger] entries[j].0 == entries[n].0;
        assert(entries[j].0 == ValueView::String(key));
    }
}

/// Where the first `n` entries are clean, what was gathered from them
/// holds each of their keys with the scalar beside it, and as many keys as
/// there are entries.
pub proof fn lemma_gathered_values(entries: MappingView, n: int)
    requires
        0 <= n <= entries.len(),
        clean(entries, n),
    ensures
        gathered_before(entries, n).len() == n,
        forall|i: int|
            0 <= i < n ==> gathered_before(entries, n).contains_key(#[trigger] key_at(entries, i))
                && gathered_before(entries, n)[key_at(entries, i)] == scalar_at(entries, i),
    decreases n,
{
    if n > 0 {
        lemma_clean_prefix(entries, n, n - 1);
        lemma_gathered_values(entries, n - 1);
        lemma_gathered_keys(entries, n - 1);
        assert(sound(entries, n - 1));
        lemma_gathered_lacks_fresh_key(entries, n - 1);
        assert forall|i: int| 0 <= i < n implies gathered_before(entries, n).contains_key(
            #[trigger] key_at(entries, i),
        ) && gathered_before(entries, n)[key_at(entries, i)] == scalar_at(entries, i) by {
            if i < n - 1 {
                assert(gathered_before(entries, n - 1).contains_key(key_at(entries, i)));
                assert(sound(entries, i));
            }
        }
    }
}

/// Gathering passes over a clean run of entries: from `from` it comes to
/// `upto` with what those entries spell out in hand.
pub proof fn lemma_collect_passes_clean(entries: MappingView, from: int, upto: int)
    requires
        0 <= from <= upto <= entries.len(),
        clean(entries, upto),
    ensures
        collect_from(entries, from, gathered_before(entries, from)) == collect_from(
            entries,
            upto,
            gathered_before(entries, upto),
        ),
    decreases upto - from,
{
    if from < upto {
        assert(sound(entries, from));
        lemma_clean_prefix(entries, upto, from);
        lemma_gathered_lacks_fresh_key(entries, from);
        lemma_collect_passes_clean(entries, from + 1, upto);
    }
}

/// Where gathering succeeds from a clean start, every entry is clean.
pub proof fn lemma_collect_ok_is_clean(entries: MappingView, from: int)
    requires
        0 <= from <= entries.len(),
        clean(entries, from),
        collect_from(entries, from, gathered_before(entries, from)) is Ok,
    ensures
        clean(entries, entries.len() as int),
    decreases entries.len() - from,
{
    if from < entries.len() {
        assert(fits(entries, from));
        lemma_gathered_lacks_fresh_key(entries, from);
        assert(clean(entries, from + 1)) by {
            assert forall|i: int| 0 <= i < from + 1 implies #[trigger] sound(entries, i) by {
                if i < from {
                    assert(sound(entries, i));
                }
            }
        }
        lemma_collect_ok_is_clean(entries, from + 1);
    }
}

/// Gathering succeeds exactly on mappings whose entries are all string
/// keys with scalars beside them, no key twice. It then holds every key
/// with its scalar, unchanged, and nothing else: as many keys as entries.
pub proof fn lemma_collect_succeeds(entries: MappingView)
    ensures
        collect(entries) is Ok <==> clean(entries, entries.len() as int),
        collect(entries) matches Ok(metadata) ==> {
            &&& metadata == gathered_before(entries, entries.len() as int)
            &&& metadata.dom().finite()
            &&& metadata.len() == entries.len()
            &&& forall|i: int|
                0 <= i < entries.len() ==> metadata.contains_key(#[trigger] key_at(entries, i))
                    && metadata[key_at(entries, i)] == scalar_at(entries, i)
            &&& forall|key: Seq<char>| #[trigger]
                metadata.contains_key(key) ==> exists|j: int|
                    0 <= j < entries.len() && #[trigger] entries[j].0 == ValueView::String(key)
        },
{
    let n = entries.len() as int;
    assert(clean(entries, 0));
    if collect(entries) is Ok {
        lemma_collect_ok_is_clean(entries, 0);
    }
    if clean(entries, n) {
        lemma_collect_passes_clean(entries, 0, n);
        lemma_gathered_values(entries, n);
        lemma_gathered_keys(entries, n);
    }
}

/// The first entry that is not sound decides the diagnostic: for a key
/// that is no string, for a value that is no scalar, or for a key that
/// stood before, in this order.
pub proof fn lemma_collect_first_fault(entries: MappingView, i: int)
    requires
        0 <= i < entries.len(),
        clean(entries, i),
        !sound(entries, i),
    ensures
        collect(entries) is Err,
        !(entries[i].0 is String) ==> collect(entries) == Err::<
            Map<Seq<char>, ScalarView>,
            DiagnosticView,
        >(
            DiagnosticView::WrongFieldType {
                key: entry_key(),
                required: false,
                container: entries,
                expected: string_kind(),
            },
        ),
        entries[i].0 is String && scalar_of(entries[i].1) is None ==> collect(entries) == Err::<
            Map<Seq<char>, ScalarView>,
            DiagnosticView,
        >(
            DiagnosticView::WrongFieldType {
                key: key_at(entries, i),
                required: false,
                container: entries,
                expected: scalar_kinds(),
            },
        ),
        fits(entries, i) ==> forall|j: int|
            0 <= j < i && #[trigger] entries[j].0 == entries[i].0 ==> collect(entries) == Err::<
                Map<Seq<char>, ScalarView>,
                DiagnosticView,
            >(
                DiagnosticView::DuplicateKey {
                    key: key_at(entries, i),
                    first: scalar_at(entries, j),
                    second: scalar_at(entries, i),
                },
            ),
{
    lemma_collect_passes_clean(entries, 0, i);
    if fits(entries, i) {
        lemma_gathered_values(entries, i);
        lemma_gathered_lacks_fresh_key(entries, i);
        assert forall|j: int| 0 <= j < i && #[trigger] entries[j].0 == entries[i].0 implies gathered_before(
            entries,
            i,
        )[key_at(entries, i)] == scalar_at(entries, j) by {
            assert(sound(entries, j));
            assert(key_at(entries, j) == key_at(entries, i));
        }
    }
}

/// Gathers the entries of `mapping` into metadata.
pub fn collect_entries(mapping: &Mapping) -> (result: Result<Metadata, Diagnostic>)
    ensures
        outcome(result) == collect(mapping@),
{
    let mut metadata = Metadata::new();
    let mut i: usize = 0;
    while i < mapping.entries.len()
        invariant
            i <= mapping.entries.len(),
            mapping@.len() == mapping.entries.len(),
            collect(mapping@) == collect_from(mapping@, i as int, metadata@),
        decreases mapping.entries.len() - i,
    {
        assert(mapping@[i as int] == (mapping.entries@[i as int].0@, mapping.entries@[i as int].1@));
        match &mapping.entries[i].0 {
            Value::String(name) => {
                match ScalarValue::from_value(&mapping.entries[i].1) {
                    None => {
                        return Err(
                            Diagnostic::key_of_type(
                                name.as_str(),
                                false,
                                mapping,
                                "string, boolean, or integer",
                            ),
                        );
                    },
                    Some(scalar) => {
                        let previous = metadata.insert(name.clone(), scalar.clone());
                        if let Some(first) = previous {
                            return Err(Diagnostic::double_insertion(name.as_str(), first, scalar));
                        }
                    },
                }
            },
            _ => {
                return Err(Diagnostic::key_of_type("key of mapping", false, mapping, "string"));
            },
        }
        i += 1;
    }
    Ok(metadata)
}

/// Reads the metadata under the optional key `key` of `container`.
pub fn collect_metadata(container: &Mapping, key: &str) -> (result: Result<Metadata, Diagnostic>)
    ensures
        outcome(result) == metadata_of(container@, key@),
{
    match container.get(key) {
        None => Ok(Metadata::new()),
        Some(Value::Null) => Ok(Metadata::new()),
        Some(Value::Mapping(mapping)) => collect_entries(mapping),
        Some(_) => Err(Diagnostic::key_of_type(key, false, container, "mapping")),
    }
}

} // verus!
