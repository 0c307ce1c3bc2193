//! A cache of assets of several kinds behind one map.
//!
//! An entry is filed under the kind of asset and the hash of the source it was
//! made from. The kind is part of the key, so two kinds never share an entry,
//! whatever their sources hash to. Two sources of one kind that hash alike do
//! share one: the cache keeps no source to tell them apart.

use std::collections::HashMap;
use vstd::prelude::*;

verus! {

/// A kind of asset: what it is made from, what it yields, and how it is filed.
pub trait Asset {
    /// The source of the asset.
    type Source;

    /// The loaded asset.
    type Output;

    /// The number that stands for this kind in the cache. Each kind has its own.
    spec fn kind() -> u64;

    /// The hash under which a source of this kind is filed.
    spec fn source_hash(source: &Self::Source) -> u64;

    /// Computes [`Asset::kind`].
    fn kind_tag() -> (k: u64)
        ensures
            k == Self::kind(),
    ;

    /// Computes [`Asset::source_hash`].
    fn hash_source(source: &Self::Source) -> (h: u64)
        ensures
            h == Self::source_hash(source),
    ;
}

/// The key of the entry for `source` of kind `A`: the kind's number and the
/// source's hash.
pub open spec fn entry_key<A: Asset>(source: &A::Source) -> (u64, u64) {
    (A::kind(), A::source_hash(source))
}

/// Where the entry `key` lives in the one map: the kind in the upper half of the
/// word, the hash in the lower.
pub closed spec fn slot(key: (u64, u64)) -> u128 {
    (key.0 * 0x1_0000_0000_0000_0000 + key.1) as u128
}

proof fn lemma_slot_is_injective(a: (u64, u64), b: (u64, u64))
    ensures
        slot(a) == slot(b) <==> a == b,
{
}

fn slot_of(kind: u64, hash: u64) -> (s: u128)
    ensures
        s == slot((kind, hash)),
{
    (kind as u128) * 0x1_0000_0000_0000_0000u128 + (hash as u128)
}

/// A cache for assets, together with the client that fetches them.
pub struct AssetCache<C, V> {
    client: C,
    assets: HashMap<u128, V>,
}

impl<C, V> View for AssetCache<C, V> {
    type V = Map<(u64, u64), V>;

    /// The entries, by kind and hash.
    closed spec fn view(&self) -> Map<(u64, u64), V> {
        Map::new(
            |key: (u64, u64)| self.assets@.contains_key(slot(key)),
            |key: (u64, u64)| self.assets@[slot(key)],
        )
    }
}

impl<C, V> AssetCache<C, V> {
    /// An empty cache that fetches through `client`.
    pub fn new(client: C) -> (cache: Self)
        ensures
            cache@ == Map::<(u64, u64), V>::empty(),
            *cache.client() == client,
    {
        let cache = Self { client, assets: HashMap::new() };
        assert(cache@ =~= Map::<(u64, u64), V>::empty());
        cache
    }

    /// The client given to [`AssetCache::new`].
    pub closed spec fn spec_client(&self) -> &C {
        &self.client
    }

    /// Get the HTTP client used by this asset cache.
    #[verifier::when_used_as_spec(spec_client)]
    pub fn client(&self) -> (client: &C)
        ensures
            client == self.spec_client(),
    {
        &self.client
    }

    /// The entry filed under `kind` and `hash`, if there is one. Nothing is created.
    pub fn get_entry(&self, kind: u64, hash: u64) -> (found: Option<&V>)
        ensures
            match found {
                Some(value) => self@.contains_key((kind, hash)) && *value == self@[(kind, hash)],
                None => !self@.contains_key((kind, hash)),
            },
    {
        let s = slot_of(kind, hash);
        self.assets.get(&s)
    }

    /// Files `value` under `kind` and `hash`, in place of what was filed there.
    /// Every other entry stays as it was.
    pub fn insert_entry(&mut self, kind: u64, hash: u64, value: V)
        ensures
            final(self)@ == old(self)@.insert((kind, hash), value),
            final(self).client() == old(self).client(),
    {
        let s = slot_of(kind, hash);
        self.assets.insert(s, value);
        proof {
            assert forall|key: (u64, u64)| slot(key) == s <==> key == (kind, hash) by {
                lemma_slot_is_injective(key, (kind, hash));
            }
            assert(self@ =~= old(self)@.insert((kind, hash), value));
        }
    }

    /// Takes out the entry filed under `kind` and `hash` and returns what it held.
    /// Every other entry stays as it was.
    pub fn remove_entry(&mut self, kind: u64, hash: u64) -> (removed: Option<V>)
        ensures
            final(self)@ == old(self)@.remove((kind, hash)),
            final(self).client() == old(self).client(),
            match removed {
                Some(value) => old(self)@.contains_key((kind, hash)) && value == old(self)@[(
                    kind,
                    hash,
                )],
                None => !old(self)@.contains_key((kind, hash)),
            },
    {
        let s = slot_of(kind, hash);
        let removed = self.assets.remove(&s);
        proof {
            assert forall|key: (u64, u64)| slot(key) == s <==> key == (kind, hash) by {
                lemma_slot_is_injective(key, (kind, hash));
            }
            assert(self@ =~= old(self)@.remove((kind, hash)));
        }
        removed
    }

    /// Get the asset from the cache, if it exists.
    pub fn get<A: Asset>(&self, source: &A::Source) -> (found: Option<&V>)
        ensures
            match found {
                Some(value) => self@.contains_key(entry_key::<A>(source)) && *value == self@[entry_key::<
                    A,
                >(source)],
                None => !self@.contains_key(entry_key::<A>(source)),
            },
    {
        self.get_entry(A::kind_tag(), A::hash_source(source))
    }

    /// Insert the asset into the cache.
    pub fn insert<A: Asset>(&mut self, source: A::Source, value: V)
        ensures
            final(self)@ == old(self)@.insert(entry_key::<A>(&source), value),
            final(self).client() == old(self).client(),
    {
        let hash = A::hash_source(&source);
        self.insert_entry(A::kind_tag(), hash, value)
    }

    /// Remove the asset from the cache and return what was cached for it.
    pub fn remove<A: Asset>(&mut self, source: &A::Source) -> (removed: Option<V>)
        ensures
            final(self)@ == old(self)@.remove(entry_key::<A>(source)),
            final(self).client() == old(self).client(),
            match removed {
                Some(value) => old(self)@.contains_key(entry_key::<A>(source)) && value == old(
                    self,
                )@[entry_key::<A>(source)],
                None => !old(self)@.contains_key(entry_key::<A>(source)),
            },
    {
        self.remove_entry(A::kind_tag(), A::hash_source(source))
    }
}

/// Inserting twice under one key leaves what inserting the second value alone
/// leaves: one entry for the key, holding the value inserted last.
pub proof fn lemma_insert_is_idempotent<V>(
    entries: Map<(u64, u64), V>,
    key: (u64, u64),
    first: V,
    second: V,
)
    ensures
        entries.insert(key, first).insert(key, second) == entries.insert(key, second),
        entries.insert(key, first).insert(key, second)[key] == second,
        entries.insert(key, first).insert(key, first) == entries.insert(key, first),
        entries.insert(key, first).insert(key, second).dom() == entries.insert(key, first).dom(),
{
    assert(entries.insert(key, first).insert(key, second) =~= entries.insert(key, second));
    assert(entries.insert(key, first).insert(key, first) =~= entries.insert(key, first));
    assert(entries.insert(key, first).insert(key, second).dom() =~= entries.insert(
        key,
        first,
    ).dom());
}

/// Entries of two kinds do not collide, even where their sources hash alike:
/// after one insert for each kind under the same hash, each kind finds its own
/// value, and taking one out leaves the other.
pub proof fn lemma_kinds_are_isolated<V>(
    entries: Map<(u64, u64), V>,
    kind_a: u64,
    kind_b: u64,
    hash: u64,
    value_a: V,
    value_b: V,
)
    requires
        kind_a != kind_b,
    ensures
        ({
            let both = entries.insert((kind_a, hash), value_a).insert((kind_b, hash), value_b);
            &&& both.contains_key((kind_a, hash)) && both[(kind_a, hash)] == value_a
            &&& both.contains_key((kind_b, hash)) && both[(kind_b, hash)] == value_b
            &&& both.remove((kind_b, hash)).contains_key((kind_a, hash))
            &&& both.remove((kind_b, hash))[(kind_a, hash)] == value_a
        }),
{
}

/// After a removal the key has no entry, whatever it held, until something is
/// inserted for it again; entries under other keys are not touched.
pub proof fn lemma_removed_stays_absent<V>(
    entries: Map<(u64, u64), V>,
    key: (u64, u64),
    other: (u64, u64),
    value: V,
)
    requires
        other != key,
    ensures
        !entries.remove(key).contains_key(key),
        !entries.remove(key).insert(other, value).contains_key(key),
        !entries.remove(key).remove(other).contains_key(key),
        entries.remove(key).contains_key(other) == entries.contains_key(other),
        entries.contains_key(other) ==> entries.remove(key)[other] == entries[other],
        entries.remove(key).insert(key, value)[key] == value,
{
}

} // verus!
