//! What holds of validation as a whole, proved from the definitions.

use vstd::prelude::*;
use crate::config::collect::{
    clean,
    collect,
    key_at,
    lemma_collect_first_fault,
    lemma_collect_succeeds,
    metadata_of,
    scalar_at,
    scalar_kinds,
    sound,
};
use crate::config::diagnostic::{Diagnostic, DiagnosticView};
use crate::config::document::{lookup, MappingView, ValueView};
use crate::config::fields::{
    is_missing,
    is_string,
    optional_string,
    required_string,
    string_kind,
};
use crate::config::outcome::outcome;
use crate::config::scalar::{value_of, ScalarView};
use crate::config::timezone::timezone_registered;
use crate::config::validated_url::url_well_formed;
use crate::config::site_info::{
    default_timezone_key,
    description_key,
    metadata_key,
    title_key,
    url_key,
    url_of,
    validated,
    SiteInfo,
    SiteInfoView,
};

verus! {

/// A document whose title is absent or null is turned down for the
/// missing title, whatever its other fields hold.
pub proof fn lemma_title_is_required(document: MappingView)
    requires
        is_missing(lookup(document, title_key())),
    ensures
        validated(document) == Err::<SiteInfoView, DiagnosticView>(
            DiagnosticView::MissingRequiredField { key: title_key(), container: document },
        ),
{
}

/// A document whose title is there but no string is turned down for the
/// kind of its title, whatever its other fields hold.
pub proof fn lemma_title_must_be_a_string(document: MappingView)
    requires
        !is_missing(lookup(document, title_key())),
        !is_string(lookup(document, title_key())),
    ensures
        validated(document) == Err::<SiteInfoView, DiagnosticView>(
            DiagnosticView::WrongFieldType {
                key: title_key(),
                required: true,
                container: document,
                expected: string_kind(),
            },
        ),
{
}

/// A document with a title whose URL is absent or null is turned down for
/// the missing URL, whatever the fields after it hold.
pub proof fn lemma_url_is_required(document: MappingView)
    requires
        required_string(document, title_key()) is Ok,
        is_missing(lookup(document, url_key())),
    ensures
        validated(document) == Err::<SiteInfoView, DiagnosticView>(
            DiagnosticView::MissingRequiredField { key: url_key(), container: document },
        ),
{
}

/// The record of a document holds no description where the document has
/// none or null, and the very string where it has one.
pub proof fn lemma_description_is_carried(document: MappingView)
    requires
        validated(document) is Ok,
    ensures
        is_missing(lookup(document, description_key())) ==> validated(document)->Ok_0.description
            is None,
        forall|text: Seq<char>|
            lookup(document, description_key()) == Some(ValueView::String(text)) ==> validated(
                document,
            )->Ok_0.description == Some(text),
        !is_missing(lookup(document, description_key())) ==> is_string(
            lookup(document, description_key()),
        ),
{
}

/// The record of a document holds empty metadata where the document has
/// none or null. Where it has a mapping, every entry of that mapping is a
/// string key beside a scalar, no key stands twice, and the record holds
/// each key with its scalar unchanged and no other key: as many keys as
/// the mapping has entries.
pub proof fn lemma_metadata_is_carried(document: MappingView)
    requires
        validated(document) is Ok,
    ensures
        is_missing(lookup(document, metadata_key())) ==> validated(document)->Ok_0.metadata
            == Map::<Seq<char>, ScalarView>::empty(),
        forall|entries: MappingView|
            lookup(document, metadata_key()) == Some(ValueView::Mapping(entries)) ==> {
                let metadata = validated(document)->Ok_0.metadata;
                &&& clean(entries, entries.len() as int)
                &&& metadata.dom().finite()
                &&& metadata.len() == entries.len()
                &&& forall|i: int|
                    0 <= i < entries.len() ==> metadata.contains_key(
                        #[trigger] key_at(entries, i),
                    ) && metadata[key_at(entries, i)] == scalar_at(entries, i) && value_of(
                        metadata[key_at(entries, i)],
                    ) == entries[i].1
                &&& forall|key: Seq<char>| #[trigger]
                    metadata.contains_key(key) ==> exists|j: int|
                        0 <= j < entries.len() && #[trigger] entries[j].0 == ValueView::String(key)
            },
        !is_missing(lookup(document, metadata_key())) ==> lookup(document, metadata_key())->0
            is Mapping,
{
    assert(metadata_of(document, metadata_key()) is Ok);
    assert forall|entries: MappingView|
        lookup(document, metadata_key()) == Some(ValueView::Mapping(entries)) implies {
        let metadata = validated(document)->Ok_0.metadata;
        &&& clean(entries, entries.len() as int)
        &&& metadata.dom().finite()
        &&& metadata.len() == entries.len()
        &&& forall|i: int|
            0 <= i < entries.len() ==> metadata.contains_key(#[trigger] key_at(entries, i))
                && metadata[key_at(entries, i)] == scalar_at(entries, i) && value_of(
                metadata[key_at(entries, i)],
            ) == entries[i].1
        &&& forall|key: Seq<char>| #[trigger]
            metadata.contains_key(key) ==> exists|j: int|
                0 <= j < entries.len() && #[trigger] entries[j].0 == ValueView::String(key)
    } by {
        lemma_collect_succeeds(entries);
        assert forall|i: int| 0 <= i < entries.len() implies value_of(#[trigger] scalar_at(entries, i))
            == entries[i].1 by {
            assert(sound(entries, i));
        }
    }
}

/// Metadata whose entries are all string keys beside scalars, no key
/// twice, never stands in the way: it is gathered whole.
pub proof fn lemma_scalar_metadata_is_accepted(document: MappingView, entries: MappingView)
    requires
        lookup(document, metadata_key()) == Some(ValueView::Mapping(entries)),
        clean(entries, entries.len() as int),
    ensures
        metadata_of(document, metadata_key()) is Ok,
{
    lemma_collect_succeeds(entries);
}

/// A document whose metadata holds a sequence or a mapping under some key
/// is never accepted.
pub proof fn lemma_nested_metadata_is_refused(document: MappingView, entries: MappingView, i: int)
    requires
        lookup(document, metadata_key()) == Some(ValueView::Mapping(entries)),
        0 <= i < entries.len(),
        entries[i].1 is Sequence || entries[i].1 is Mapping,
    ensures
        validated(document) is Err,
{
    if validated(document) is Ok {
        lemma_collect_succeeds(entries);
        assert(sound(entries, i));
    }
}

/// Where title, URL and description pass, and the entries of the metadata
/// before entry `i` are sound, a sequence or a mapping under the string
/// key of entry `i` is what the document is turned down for: the
/// diagnostic names that key.
pub proof fn lemma_nested_metadata_names_its_key(
    document: MappingView,
    entries: MappingView,
    i: int,
)
    requires
        required_string(document, title_key()) is Ok,
        url_of(document) is Ok,
        optional_string(document, description_key()) is Ok,
        lookup(document, metadata_key()) == Some(ValueView::Mapping(entries)),
        0 <= i < entries.len(),
        clean(entries, i),
        entries[i].0 is String,
        entries[i].1 is Sequence || entries[i].1 is Mapping,
    ensures
        validated(document) == Err::<SiteInfoView, DiagnosticView>(
            DiagnosticView::WrongFieldType {
                key: key_at(entries, i),
                required: false,
                container: entries,
                expected: scalar_kinds(),
            },
        ),
{
    lemma_collect_first_fault(entries, i);
}

/// A document is accepted exactly when its title is a string, its URL a
/// well-formed string, its description absent, null or a string, its
/// metadata absent, null or a mapping of sound entries, and its default
/// timezone a string that the registry knows.
pub proof fn lemma_acceptance(document: MappingView)
    ensures
        validated(document) is Ok <==> {
            &&& is_string(lookup(document, title_key()))
            &&& is_string(lookup(document, url_key())) && url_well_formed(
                lookup(document, url_key())->0->String_0,
            )
            &&& is_missing(lookup(document, description_key())) || is_string(
                lookup(document, description_key()),
            )
            &&& is_missing(lookup(document, metadata_key())) || (lookup(
                document,
                metadata_key(),
            ) matches Some(ValueView::Mapping(entries)) && clean(entries, entries.len() as int))
            &&& is_string(lookup(document, default_timezone_key())) && timezone_registered(
                lookup(document, default_timezone_key())->0->String_0,
            )
        },
{
    match lookup(document, metadata_key()) {
        Some(ValueView::Mapping(entries)) => {
            lemma_collect_succeeds(entries);
        },
        _ => {},
    }
}

/// Validating one document twice gives the same answer twice: records
/// that agree field for field, or the same diagnostic.
pub proof fn lemma_validation_repeats(
    document: MappingView,
    first: Result<SiteInfo, Diagnostic>,
    second: Result<SiteInfo, Diagnostic>,
)
    requires
        outcome(first) == validated(document),
        outcome(second) == validated(document),
    ensures
        outcome(first) == outcome(second),
        first is Ok <==> second is Ok,
        first is Ok ==> {
            &&& first->Ok_0.title@ == second->Ok_0.title@
            &&& first->Ok_0.url@ == second->Ok_0.url@
            &&& first->Ok_0.default_timezone@ == second->Ok_0.default_timezone@
            &&& first->Ok_0@.description == second->Ok_0@.description
            &&& first->Ok_0.metadata@ == second->Ok_0.metadata@
        },
        first is Err ==> first->Err_0@ == second->Err_0@,
{
}

} // verus!
