//! Registry of live component instances and their metadata.
//!
//! A keyed collection mapping component identity to the instance and its
//! metadata. Registration with an existing key overwrites both atomically;
//! lookups and removal of absent keys are no-ops that report absence. The
//! registry is modelled as a `Map` from identity to the pair of instance and
//! metadata, so both records always share one domain.

use vstd::prelude::*;

use crate::component::{ComponentId, ComponentMetadata, WasmComponent};

verus! {

struct RegistryEntry {
    key: u64,
    component: WasmComponent,
    metadata: ComponentMetadata,
}

/// The map described by an entry list, later entries winning.
spec fn map_of(s: Seq<RegistryEntry>) -> Map<u64, (WasmComponent, ComponentMetadata)>
    decreases s.len(),
{
    if s.len() == 0 {
        Map::empty()
    } else {
        map_of(s.drop_last()).insert(
            s.last().key,
            (s.last().component, s.last().metadata),
        )
    }
}

/// No key occurs twice in the entry list.
spec fn unique_keys(s: Seq<RegistryEntry>) -> bool {
    forall|i: int, j: int| 0 <= i < j < s.len() ==> (#[trigger] s[i]).key != (#[trigger] s[j]).key
}

proof fn lemma_map_of_contains(s: Seq<RegistryEntry>)
    ensures
        forall|k: u64|
            map_of(s).contains_key(k) <==> exists|i: int| 0 <= i < s.len() && (#[trigger] s[i]).key
                == k,
    decreases s.len(),
{
    if s.len() > 0 {
        lemma_map_of_contains(s.drop_last());
        assert forall|k: u64| map_of(s).contains_key(k) implies exists|i: int|
            0 <= i < s.len() && (#[trigger] s[i]).key == k by {
            if k == s.last().key {
                assert(s[s.len() - 1] == s.last());
                assert((s[s.len() - 1]).key == k);
            } else {
                assert(map_of(s.drop_last()).contains_key(k));
                assert(exists|i: int|
                    0 <= i < s.drop_last().len() && (#[trigger] s.drop_last()[i]).key == k);
                let i = choose|i: int|
                    0 <= i < s.drop_last().len() && (#[trigger] s.drop_last()[i]).key == k;
                assert(s.drop_last()[i] == s[i]);
                assert((s[i]).key == k);
            }
        }
        assert forall|k: u64|
            (exists|i: int| 0 <= i < s.len() && (#[trigger] s[i]).key == k) implies map_of(
            s,
        ).contains_key(k) by {
            let i = choose|i: int| 0 <= i < s.len() && (#[trigger] s[i]).key == k;
            if i == s.len() - 1 {
                assert(s[i] == s.last());
                assert(map_of(s).contains_key(s.last().key));
            } else {
                assert(s.drop_last()[i] == s[i]);
                assert((s.drop_last()[i]).key == k);
                assert(map_of(s.drop_last()).contains_key(k));
                assert(map_of(s).contains_key(k));
            }
        }
    }
}

proof fn lemma_map_of_index(s: Seq<RegistryEntry>, i: int)
    requires
        0 <= i < s.len(),
        forall|j: int| i < j < s.len() ==> (#[trigger] s[j]).key != s[i].key,
    ensures
        map_of(s).contains_key(s[i].key),
        map_of(s)[s[i].key] == (s[i].component, s[i].metadata),
    decreases s.len(),
{
    if i < s.len() - 1 {
        assert(s.drop_last()[i] == s[i]);
        lemma_map_of_index(s.drop_last(), i);
    }
}

proof fn lemma_map_of_update(s: Seq<RegistryEntry>, i: int, e: RegistryEntry)
    requires
        0 <= i < s.len(),
        unique_keys(s),
        e.key == s[i].key,
    ensures
        map_of(s.update(i, e)) == map_of(s).insert(e.key, (e.component, e.metadata)),
    decreases s.len(),
{
    let t = s.update(i, e);
    if i == s.len() - 1 {
        assert(t.drop_last() =~= s.drop_last());
        assert(t.last() == e);
        assert(map_of(t) == map_of(s.drop_last()).insert(e.key, (e.component, e.metadata)));
        assert(map_of(s.drop_last()).insert(e.key, (e.component, e.metadata)) =~= map_of(
            s,
        ).insert(e.key, (e.component, e.metadata)));
    } else {
        assert(t.drop_last() =~= s.drop_last().update(i, e));
        assert(s.drop_last()[i] == s[i]);
        lemma_map_of_update(s.drop_last(), i, e);
        assert(t.last() == s.last());
        assert(s.last().key != e.key);
        assert(map_of(t) == map_of(s.drop_last()).insert(e.key, (e.component, e.metadata)).insert(
            s.last().key,
            (s.last().component, s.last().metadata),
        ));
        assert(map_of(s.drop_last()).insert(e.key, (e.component, e.metadata)).insert(
            s.last().key,
            (s.last().component, s.last().metadata),
        ) =~= map_of(s).insert(e.key, (e.component, e.metadata)));
    }
}

proof fn lemma_map_of_remove(s: Seq<RegistryEntry>, i: int)
    requires
        0 <= i < s.len(),
        unique_keys(s),
    ensures
        map_of(s.remove(i)) == map_of(s).remove(s[i].key),
    decreases s.len(),
{
    let k = s[i].key;
    if i == s.len() - 1 {
        assert(s.remove(i) =~= s.drop_last());
        lemma_map_of_contains(s.drop_last());
        assert forall|j: int| 0 <= j < s.drop_last().len() implies (#[trigger] s.drop_last()[j]).key
            != k by {
            assert(s.drop_last()[j] == s[j]);
        }
        assert(!map_of(s.drop_last()).contains_key(k));
        assert(map_of(s.drop_last()) =~= map_of(s).remove(k));
    } else {
        let d = s.drop_last();
        assert(s.remove(i).drop_last() =~= d.remove(i));
        assert(s.remove(i).last() == s.last());
        assert(d[i] == s[i]);
        lemma_map_of_remove(d, i);
        assert(map_of(s.remove(i)) == map_of(d).remove(k).insert(
            s.last().key,
            (s.last().component, s.last().metadata),
        ));
        assert(s.last().key != k);
        assert(map_of(d).remove(k).insert(
            s.last().key,
            (s.last().component, s.last().metadata),
        ) =~= map_of(s).remove(k));
    }
}

/// Registry of dynamically loaded components.
pub struct ComponentRegistry {
    entries: Vec<RegistryEntry>,
}

impl ComponentRegistry {
    /// The registered components and their metadata, keyed by identity.
    pub closed spec fn spec_entries(&self) -> Map<u64, (WasmComponent, ComponentMetadata)> {
        map_of(self.entries@)
    }

    /// Well-formedness: no identity occurs twice in the backing list.
    /// Constructors establish it and every method preserves it.
    pub closed spec fn wf(&self) -> bool {
        unique_keys(self.entries@)
    }

    /// Find the position of `key` in the entry list, if present.
    fn find_index(&self, key: u64) -> (r: Option<usize>)
        ensures
            match r {
                Some(i) => i < self.entries@.len() && self.entries@[i as int].key == key,
                None => forall|j: int|
                    0 <= j < self.entries@.len() ==> (#[trigger] self.entries@[j]).key != key,
            },
    {
        let n = self.entries.len();
        let mut i: usize = 0;
        while i < n
            invariant
                i <= n,
                n == self.entries@.len(),
                forall|j: int| 0 <= j < i ==> (#[trigger] self.entries@[j]).key != key,
            decreases n - i,
        {
            if self.entries[i].key == key {
                return Some(i);
            }
            i = i + 1;
        }
        None
    }

    /// Create a new empty registry.
    pub fn new() -> (r: Self)
        ensures
            r.wf(),
            r.spec_entries() == Map::<u64, (WasmComponent, ComponentMetadata)>::empty(),
    {
        ComponentRegistry { entries: Vec::new() }
    }

    /// Register a component under `id`, overwriting instance and metadata
    /// together if the key is already present.
    pub fn register(&mut self, id: ComponentId, component: WasmComponent, metadata: ComponentMetadata)
        requires
            old(self).wf(),
        ensures
            final(self).wf(),
            final(self).spec_entries() == old(self).spec_entries().insert(
                id.0,
                (component, metadata),
            ),
    {
        let entry = RegistryEntry { key: id.0, component, metadata };
        match self.find_index(id.0) {
            Some(i) => {
                let ghost s0 = self.entries@;
                proof {
                    lemma_map_of_update(s0, i as int, entry);
                }
                let slot = &mut self.entries[i];
                *slot = entry;
            },
            None => {
                let ghost s0 = self.entries@;
                proof {
                    lemma_map_of_contains(s0);
                }
                self.entries.push(entry);
                proof {
                    assert(self.entries@.drop_last() =~= s0);
                }
            },
        }
    }

    /// Look up a component by identity.
    pub fn get(&self, id: &ComponentId) -> (r: Option<&WasmComponent>)
        requires
            self.wf(),
        ensures
            match r {
                Some(c) => self.spec_entries().contains_key(id.0) && *c == self.spec_entries()[id.0].0,
                None => !self.spec_entries().contains_key(id.0),
            },
    {
        proof {
            lemma_map_of_contains(self.entries@);
        }
        match self.find_index(id.0) {
            Some(i) => {
                proof {
                    lemma_map_of_index(self.entries@, i as int);
                }
                Some(&self.entries[i].component)
            },
            None => None,
        }
    }

    /// Look up a component by identity, for in-place mutation such as a
    /// reload. The metadata record of the key is left untouched.
    pub fn get_mut(&mut self, id: &ComponentId) -> (r: Option<&mut WasmComponent>)
        requires
            old(self).wf(),
        ensures
            final(self).wf(),
            match r {
                Some(c) => {
                    &&& old(self).spec_entries().contains_key(id.0)
                    &&& *c == old(self).spec_entries()[id.0].0
                    &&& final(self).spec_entries() == old(self).spec_entries().insert(
                        id.0,
                        (*final(c), old(self).spec_entries()[id.0].1),
                    )
                },
                None => {
                    &&& !old(self).spec_entries().contains_key(id.0)
                    &&& final(self).spec_entries() == old(self).spec_entries()
                },
            },
    {
        proof {
            lemma_map_of_contains(self.entries@);
        }
        match self.find_index(id.0) {
            Some(i) => {
                let ghost s0 = self.entries@;
                proof {
                    lemma_map_of_index(s0, i as int);
                }
                let slot = &mut self.entries[i];
                let r = &mut slot.component;
                proof {
                    lemma_map_of_update(
                        s0,
                        i as int,
                        RegistryEntry {
                            key: id.0,
                            component: *final(r),
                            metadata: s0[i as int].metadata,
                        },
                    );
                }
                Some(r)
            },
            None => None,
        }
    }

    /// Look up the metadata of a component by identity.
    pub fn metadata(&self, id: &ComponentId) -> (r: Option<&ComponentMetadata>)
        requires
            self.wf(),
        ensures
            match r {
                Some(m) => self.spec_entries().contains_key(id.0) && *m == self.spec_entries()[id.0].1,
                None => !self.spec_entries().contains_key(id.0),
            },
    {
        proof {
            lemma_map_of_contains(self.entries@);
        }
        match self.find_index(id.0) {
            Some(i) => {
                proof {
                    lemma_map_of_index(self.entries@, i as int);
                }
                Some(&self.entries[i].metadata)
            },
            None => None,
        }
    }

    /// The registered identities in the order the listing walks them. Each
    /// registered identity occurs exactly once.
    pub closed spec fn spec_listed_keys(&self) -> Seq<u64> {
        self.entries@.map_values(|e: RegistryEntry| e.key)
    }

    /// Metadata of all registered components: row `i` is the metadata
    /// registered under the `i`-th listed identity, the listed identities
    /// are pairwise distinct, and they are exactly the registered ones — so
    /// the result is, as a multiset, one metadata record per registered
    /// identity. The order itself carries no meaning.
    pub fn list(&self) -> (r: Vec<&ComponentMetadata>)
        requires
            self.wf(),
        ensures
            r@.len() == self.spec_listed_keys().len(),
            r@.len() == self.spec_entries().dom().len(),
            forall|i: int, j: int|
                0 <= i < j < r@.len() ==> (#[trigger] self.spec_listed_keys()[i]) != (
                #[trigger] self.spec_listed_keys()[j]),
            forall|k: u64|
                self.spec_entries().contains_key(k) <==> #[trigger] self.spec_listed_keys().contains(
                    k,
                ),
            forall|i: int|
                0 <= i < r@.len() ==> self.spec_entries().contains_key(
                    #[trigger] self.spec_listed_keys()[i],
                ) && *(#[trigger] r@[i]) == self.spec_entries()[self.spec_listed_keys()[i]].1,
    {
        let n = self.entries.len();
        let mut out: Vec<&ComponentMetadata> = Vec::new();
        let mut i: usize = 0;
        while i < n
            invariant
                i <= n,
                n == self.entries@.len(),
                unique_keys(self.entries@),
                out@.len() == i,
                forall|j: int|
                    0 <= j < i ==> map_of(self.entries@).contains_key(
                        (#[trigger] self.entries@[j]).key,
                    ) && out@[j] == &map_of(self.entries@)[self.entries@[j].key].1,
            decreases n - i,
        {
            proof {
                lemma_map_of_index(self.entries@, i as int);
            }
            out.push(&self.entries[i].metadata);
            i = i + 1;
        }
        proof {
            lemma_entry_count(self.entries@);
            lemma_map_of_contains(self.entries@);
            assert forall|k: u64|
                self.spec_entries().contains_key(k) <==> #[trigger] self.spec_listed_keys().contains(
                    k,
                ) by {
                if self.spec_entries().contains_key(k) {
                    let j = choose|j: int|
                        0 <= j < self.entries@.len() && (#[trigger] self.entries@[j]).key == k;
                    assert(self.spec_listed_keys()[j] == k);
                }
                if self.spec_listed_keys().contains(k) {
                    let j = choose|j: int|
                        0 <= j < self.spec_listed_keys().len() && self.spec_listed_keys()[j] == k;
                    assert(self.entries@[j].key == k);
                }
            }
            assert forall|i: int|
                0 <= i < out@.len() implies self.spec_entries().contains_key(
                #[trigger] self.spec_listed_keys()[i],
            ) && *(#[trigger] out@[i]) == self.spec_entries()[self.spec_listed_keys()[i]].1 by {
                assert(self.spec_listed_keys()[i] == self.entries@[i].key);
            }
        }
        out
    }

    /// Remove a component and its metadata. Returns the removed instance,
    /// or `None` (with no change) if the key is absent.
    pub fn remove(&mut self, id: &ComponentId) -> (r: Option<WasmComponent>)
        requires
            old(self).wf(),
        ensures
            final(self).wf(),
            final(self).spec_entries() == old(self).spec_entries().remove(id.0),
            match r {
                Some(c) => old(self).spec_entries().contains_key(id.0) && c == old(self).spec_entries()[id.0].0,
                None => !old(self).spec_entries().contains_key(id.0),
            },
    {
        proof {
            lemma_map_of_contains(self.entries@);
        }
        match self.find_index(id.0) {
            Some(i) => {
                let ghost s0 = self.entries@;
                proof {
                    lemma_map_of_index(s0, i as int);
                    lemma_map_of_remove(s0, i as int);
                }
                let entry = self.entries.remove(i);
                Some(entry.component)
            },
            None => {
                proof {
                    assert(old(self).spec_entries().remove(id.0) =~= old(self).spec_entries());
                }
                None
            },
        }
    }
}

/// With unique keys, the entry list and the map it describes have the same
/// size.
proof fn lemma_entry_count(s: Seq<RegistryEntry>)
    requires
        unique_keys(s),
    ensures
        map_of(s).dom().len() == s.len(),
        map_of(s).dom().finite(),
    decreases s.len(),
{
    if s.len() > 0 {
        lemma_entry_count(s.drop_last());
        lemma_map_of_contains(s.drop_last());
        assert forall|j: int| 0 <= j < s.drop_last().len() implies (#[trigger] s.drop_last()[j]).key
            != s.last().key by {
            assert(s.drop_last()[j] == s[j]);
        }
        assert(!map_of(s.drop_last()).contains_key(s.last().key));
        assert(map_of(s).dom() =~= map_of(s.drop_last()).dom().insert(s.last().key));
        vstd::set::axiom_set_insert_finite(map_of(s.drop_last()).dom(), s.last().key);
        vstd::set::axiom_set_insert_len(map_of(s.drop_last()).dom(), s.last().key);
    }
}

/// Law: registering any component and then removing its key leaves the
/// registry exactly as it was without the key; on an empty registry both
/// lookups then report absence. Removing a key that was never registered
/// returns `None` and changes nothing.
pub proof fn lemma_register_remove(
    m0: Map<u64, (WasmComponent, ComponentMetadata)>,
    id: ComponentId,
    component: WasmComponent,
    metadata: ComponentMetadata,
)
    ensures
        !m0.contains_key(id.0) ==> m0.insert(id.0, (component, metadata)).remove(id.0) == m0,
        m0 == Map::<u64, (WasmComponent, ComponentMetadata)>::empty() ==> !m0.insert(
            id.0,
            (component, metadata),
        ).remove(id.0).contains_key(id.0),
        !m0.contains_key(id.0) ==> m0.remove(id.0) == m0,
{
    if !m0.contains_key(id.0) {
        assert(m0.insert(id.0, (component, metadata)).remove(id.0) =~= m0);
        assert(m0.remove(id.0) =~= m0);
    }
}

} // verus!
