//! Free-form metadata: an unordered mapping from string keys to scalars.

use vstd::prelude::*;
use vstd::std_specs::cmp::PartialEqSpecImpl;
use crate::config::scalar::{ScalarValue, ScalarView};

verus! {

/// A keyed list as it stands in memory: pairs of key and scalar.
type Pairs = Seq<(Seq<char>, ScalarView)>;

/// Whether no key stands twice in `pairs`.
spec fn distinct_keys(pairs: Pairs) -> bool {
    forall|i: int, j: int| 0 <= i < j < pairs.len() ==> pairs[i].0 != pairs[j].0
}

/// The mapping that `pairs` spell out, a later pair overriding an earlier
/// one with the same key.
spec fn as_map(pairs: Pairs) -> Map<Seq<char>, ScalarView>
    decreases pairs.len(),
{
    if pairs.len() == 0 {
        Map::empty()
    } else {
        as_map(pairs.drop_last()).insert(pairs.last().0, pairs.last().1)
    }
}

/// The keys of `as_map(pairs)` are the keys that stand in `pairs`, and
/// there are finitely many.
proof fn lemma_as_map_keys(pairs: Pairs)
    ensures
        as_map(pairs).dom().finite(),
        forall|key: Seq<char>| #[trigger]
            as_map(pairs).contains_key(key) <==> exists|i: int|
                0 <= i < pairs.len() && #[trigger] pairs[i].0 == key,
    decreases pairs.len(),
{
    if pairs.len() > 0 {
        let front = pairs.drop_last();
        lemma_as_map_keys(front);
        assert forall|key: Seq<char>| #[trigger]
            as_map(pairs).contains_key(key) implies exists|i: int|
            0 <= i < pairs.len() && #[trigger] pairs[i].0 == key by {
            if key == pairs.last().0 {
                assert(pairs[pairs.len() - 1].0 == key);
            } else {
                assert(as_map(front).contains_key(key));
                let i = choose|i: int| 0 <= i < front.len() && #[trigger] front[i].0 == key;
                assert(pairs[i].0 == key);
            }
        }
        assert forall|key: Seq<char>|
            (exists|i: int|
                0 <= i < pairs.len() && #[trigger] pairs[i].0 == key) implies #[trigger] as_map(
            pairs,
        ).contains_key(key) by {
            let i = choose|i: int| 0 <= i < pairs.len() && #[trigger] pairs[i].0 == key;
            if i < pairs.len() - 1 {
                assert(front[i].0 == key);
            }
        }
    }
}

/// Where no key stands twice, `as_map(pairs)` gives each key the scalar
/// that stands beside it, and has as many keys as there are pairs.
proof fn lemma_as_map_values(pairs: Pairs)
    requires
        distinct_keys(pairs),
    ensures
        forall|i: int|
            0 <= i < pairs.len() ==> as_map(pairs).contains_key(#[trigger] pairs[i].0) && as_map(
                pairs,
            )[pairs[i].0] == pairs[i].1,
        as_map(pairs).len() == pairs.len(),
    decreases pairs.len(),
{
    if pairs.len() > 0 {
        let front = pairs.drop_last();
        lemma_as_map_values(front);
        lemma_as_map_keys(front);
        assert(!as_map(front).contains_key(pairs.last().0)) by {
            if as_map(front).contains_key(pairs.last().0) {
                let i = choose|i: int|
                    0 <= i < front.len() && #[trigger] front[i].0 == pairs.last().0;
                assert(pairs[i].0 == pairs[pairs.len() - 1].0);
            }
        }
        assert forall|i: int| 0 <= i < pairs.len() implies as_map(pairs).contains_key(
            #[trigger] pairs[i].0,
        ) && as_map(pairs)[pairs[i].0] == pairs[i].1 by {
            if i < pairs.len() - 1 {
                assert(front[i] == pairs[i]);
                assert(pairs[i].0 != pairs[pairs.len() - 1].0);
            }
        }
    }
}

/// What a list of pairs in memory is, mathematically.
spec fn pairs_of(held: Seq<(String, ScalarValue)>) -> Pairs {
    Seq::new(held.len(), |i: int| (held[i].0@, held[i].1@))
}

/// An unordered mapping from string keys to scalars. No key occurs twice.
#[derive(Debug, Eq)]
pub struct Metadata {
    pairs: Vec<(String, ScalarValue)>,
}

impl View for Metadata {
    type V = Map<Seq<char>, ScalarView>;

    closed spec fn view(&self) -> Map<Seq<char>, ScalarView> {
        as_map(self.pairs())
    }
}

impl Metadata {
    /// The pairs as they stand in memory.
    spec fn pairs(&self) -> Pairs {
        pairs_of(self.pairs@)
    }

    #[verifier::type_invariant]
    spec fn no_key_twice(&self) -> bool {
        distinct_keys(self.pairs())
    }

    /// An empty mapping.
    pub fn new() -> (metadata: Metadata)
        ensures
            metadata@ == Map::<Seq<char>, ScalarView>::empty(),
    {
        let metadata = Metadata { pairs: Vec::new() };
        assert(metadata.pairs() =~= Seq::empty());
        metadata
    }

    /// How many keys the mapping holds: finitely many.
    pub fn len(&self) -> (count: usize)
        ensures
            count == self@.len(),
            self@.dom().finite(),
    {
        proof {
            use_type_invariant(self);
            lemma_as_map_keys(self.pairs());
            lemma_as_map_values(self.pairs());
        }
        self.pairs.len()
    }

    /// Whether the mapping holds no key.
    pub fn is_empty(&self) -> (empty: bool)
        ensures
            empty == (self@.len() == 0),
    {
        self.len() == 0
    }

    /// The place of `key` among the pairs, if it is there.
    fn position(&self, key: &String) -> (place: Option<usize>)
        ensures
            match place {
                Some(i) => i < self.pairs().len() && self.pairs()[i as int].0 == key@,
                None => forall|i: int| 0 <= i < self.pairs().len() ==> self.pairs()[i].0 != key@,
            },
    {
        let mut i: usize = 0;
        while i < self.pairs.len()
            invariant
                i <= self.pairs.len(),
                self.pairs().len() == self.pairs.len(),
                forall|j: int| 0 <= j < i ==> self.pairs()[j].0 != key@,
            decreases self.pairs.len() - i,
        {
            if self.pairs[i].0 == *key {
                return Some(i);
            }
            i += 1;
        }
        None
    }

    /// The scalar that stands under `key`, if any does.
    pub fn get(&self, key: &str) -> (found: Option<&ScalarValue>)
        ensures
            match found {
                Some(scalar) => self@.contains_key(key@) && self@[key@] == scalar@,
                None => !self@.contains_key(key@),
            },
    {
        proof {
            use_type_invariant(self);
            lemma_as_map_keys(self.pairs());
            lemma_as_map_values(self.pairs());
        }
        let wanted = key.to_owned();
        match self.position(&wanted) {
            Some(i) => {
                assert(self.pairs()[i as int].1 == self.pairs@[i as int].1@);
                Some(&self.pairs[i].1)
            },
            None => None,
        }
    }

    /// Puts `value` under `key` and hands back the scalar that stood there
    /// before, if one did.
    pub fn insert(&mut self, key: String, value: ScalarValue) -> (previous: Option<ScalarValue>)
        ensures
            final(self)@ == old(self)@.insert(key@, value@),
            match previous {
                Some(scalar) => old(self)@.contains_key(key@) && old(self)@[key@] == scalar@,
                None => !old(self)@.contains_key(key@),
            },
    {
        proof {
            use_type_invariant(&*self);
            lemma_as_map_keys(self.pairs());
            lemma_as_map_values(self.pairs());
        }
        let ghost before = self.pairs();
        let place = self.position(&key);
        let ghost pair = (key@, value@);
        let mut pairs: Vec<(String, ScalarValue)> = Vec::new();
        assert(pairs_of(pairs@) =~= Seq::empty());
        std::mem::swap(&mut self.pairs, &mut pairs);
        let previous = match place {
            Some(i) => {
                let previous = pairs[i].1.clone();
                pairs.set(i, (key, value));
                proof {
                    let after = pairs_of(pairs@);
                    assert(after =~= before.update(i as int, pair));
                    lemma_as_map_keys(after);
                    lemma_as_map_values(after);
                    assert forall|k: Seq<char>| #[trigger]
                        as_map(after).contains_key(k) == as_map(before).insert(
                            pair.0,
                            pair.1,
                        ).contains_key(k) by {
                        if as_map(after).contains_key(k) {
                            let j = choose|j: int|
                                0 <= j < after.len() && #[trigger] after[j].0 == k;
                            assert(before[j].0 == k);
                        }
                        if as_map(before).contains_key(k) {
                            let j = choose|j: int|
                                0 <= j < before.len() && #[trigger] before[j].0 == k;
                            assert(after[j].0 == k);
                        }
                    }
                    assert forall|k: Seq<char>| #[trigger]
                        as_map(after).contains_key(k) implies as_map(after)[k] == as_map(
                        before,
                    ).insert(pair.0, pair.1)[k] by {
                        let j = choose|j: int|
                            0 <= j < after.len() && #[trigger] after[j].0 == k;
                        assert(as_map(after)[after[j].0] == after[j].1);
                        if j != i {
                            assert(as_map(before)[before[j].0] == before[j].1);
                        }
                    }
                    assert(as_map(after) =~= as_map(before).insert(pair.0, pair.1));
                }
                Some(previous)
            },
            None => {
                pairs.push((key, value));
                proof {
                    let after = pairs_of(pairs@);
                    assert(after =~= before.push(pair));
                    assert(after.drop_last() =~= before);
                }
                None
            },
        };
        std::mem::swap(&mut self.pairs, &mut pairs);
        previous
    }

    /// The keys of the mapping, each once, in no order that means anything.
    pub fn keys(&self) -> (keys: Vec<String>)
        ensures
            keys@.len() == self@.len(),
            forall|i: int| 0 <= i < keys@.len() ==> self@.contains_key(#[trigger] keys@[i]@),
            forall|i: int, j: int| 0 <= i < j < keys@.len() ==> keys@[i]@ != keys@[j]@,
            forall|key: Seq<char>| #[trigger]
                self@.contains_key(key) ==> exists|i: int|
                    0 <= i < keys@.len() && #[trigger] keys@[i]@ == key,
    {
        proof {
            use_type_invariant(self);
            lemma_as_map_keys(self.pairs());
            lemma_as_map_values(self.pairs());
        }
        let mut keys: Vec<String> = Vec::new();
        let mut i: usize = 0;
        while i < self.pairs.len()
            invariant
                i <= self.pairs.len(),
                self.pairs().len() == self.pairs.len(),
                keys@.len() == i,
                forall|j: int| 0 <= j < i ==> #[trigger] keys@[j]@ == self.pairs()[j].0,
            decreases self.pairs.len() - i,
        {
            assert(self.pairs()[i as int].0 == self.pairs@[i as int].0@);
            keys.push(self.pairs[i].0.clone());
            i += 1;
        }
        proof {
            assert forall|key: Seq<char>| #[trigger] self@.contains_key(key) implies exists|
                i: int,
            |
                0 <= i < keys@.len() && #[trigger] keys@[i]@ == key by {
                let j = choose|j: int|
                    0 <= j < self.pairs().len() && #[trigger] self.pairs()[j].0 == key;
                assert(keys@[j]@ == key);
            }
            assert forall|i: int| 0 <= i < keys@.len() implies self@.contains_key(
                #[trigger] keys@[i]@,
            ) by {
                assert(self@.contains_key(self.pairs()[i].0));
            }
        }
        keys
    }

    /// Whether a scalar stands under `key`.
    pub fn contains_key(&self, key: &str) -> (held: bool)
        ensures
            held == self@.contains_key(key@),
    {
        self.get(key).is_some()
    }
}

impl Clone for Metadata {
    fn clone(&self) -> (copy: Self)
        ensures
            copy@ == self@,
    {
        proof {
            use_type_invariant(self);
        }
        let mut pairs: Vec<(String, ScalarValue)> = Vec::new();
        let mut i: usize = 0;
        while i < self.pairs.len()
            invariant
                i <= self.pairs.len(),
                pairs.len() == i,
                forall|j: int|
                    0 <= j < i ==> pairs@[j].0@ == self.pairs@[j].0@ && pairs@[j].1@
                        == self.pairs@[j].1@,
            decreases self.pairs.len() - i,
        {
            pairs.push((self.pairs[i].0.clone(), self.pairs[i].1.clone()));
            i += 1;
        }
        assert(pairs_of(pairs@) =~= self.pairs());
        Metadata { pairs }
    }
}

impl PartialEq for Metadata {
    fn eq(&self, other: &Self) -> (same: bool) {
        proof {
            use_type_invariant(self);
            use_type_invariant(other);
            lemma_as_map_keys(self.pairs());
            lemma_as_map_values(self.pairs());
            lemma_as_map_keys(other.pairs());
            lemma_as_map_values(other.pairs());
        }
        if self.pairs.len() != other.pairs.len() {
            return false;
        }
        let mut i: usize = 0;
        while i < self.pairs.len()
            invariant
                i <= self.pairs.len(),
                self.pairs().len() == self.pairs.len(),
                self@.len() == other@.len(),
                self@.dom().finite(),
                other@.dom().finite(),
                forall|j: int|
                    0 <= j < self.pairs().len() ==> self@.contains_key(
                        #[trigger] self.pairs()[j].0,
                    ) && self@[self.pairs()[j].0] == self.pairs()[j].1,
                forall|key: Seq<char>| #[trigger]
                    self@.contains_key(key) ==> exists|j: int|
                        0 <= j < self.pairs().len() && #[trigger] self.pairs()[j].0 == key,
                forall|j: int|
                    0 <= j < i ==> other@.contains_key(#[trigger] self.pairs()[j].0)
                        && other@[self.pairs()[j].0] == self.pairs()[j].1,
            decreases self.pairs.len() - i,
        {
            let held = other.get(self.pairs[i].0.as_str());
            assert(self.pairs()[i as int] == (self.pairs@[i as int].0@, self.pairs@[i as int].1@));
            assert(self@.contains_key(self.pairs()[i as int].0));
            match held {
                Some(scalar) => {
                    if !(*scalar == self.pairs[i].1) {
                        return false;
                    }
                },
                None => {
                    return false;
                },
            }
            i += 1;
        }
        proof {
            assert forall|key: Seq<char>| #[trigger] self@.contains_key(key) implies other@.contains_key(
                key,
            ) && other@[key] == self@[key] by {
                let j = choose|j: int|
                    0 <= j < self.pairs().len() && #[trigger] self.pairs()[j].0 == key;
                assert(other@.contains_key(self.pairs()[j].0));
            }
            assert(self@.dom().subset_of(other@.dom()));
            vstd::set_lib::lemma_subset_equality(self@.dom(), other@.dom());
            assert(self@ =~= other@);
        }
        true
    }
}

impl PartialEqSpecImpl for Metadata {
    open spec fn obeys_eq_spec() -> bool {
        true
    }

    open spec fn eq_spec(&self, other: &Self) -> bool {
        self@ == other@
    }
}

} // verus!
