//! The sources that are tracked one by one, each with a store of its own.

use vstd::prelude::*;
use crate::record::Record;
use crate::record::RecordView;
use crate::store::push_bounded;
use crate::store::BoundedLogStore;

verus! {

/// A tracked source and the store of the records that came from it.
pub struct SourceEntry {
    name: String,
    logs: BoundedLogStore,
}

/// The tracked sources in the order of their registration, each bound to a
/// store that takes the records of that source only.
pub struct SourceFilterRegistry {
    capacity: usize,
    entries: Vec<SourceEntry>,
}

/// What a registry holds: the capacity that it gives to each store, the
/// registered sources in the order of their registration, and for each
/// source, at the same index, the content of its store.
#[verifier::ext_equal]
pub struct RegistryView {
    pub capacity: nat,
    pub sources: Seq<Seq<char>>,
    pub stores: Seq<Seq<RecordView>>,
}

impl RegistryView {
    /// No source is registered twice, each source has its store, and a store
    /// holds no more than the capacity and only records of its source.
    pub open spec fn wf(self) -> bool {
        &&& self.sources.no_duplicates()
        &&& self.stores.len() == self.sources.len()
        &&& forall|i: int|
            0 <= i < self.stores.len() ==> (#[trigger] self.stores[i]).len() <= self.capacity
        &&& forall|i: int, k: int|
            0 <= i < self.stores.len() && 0 <= k < self.stores[i].len() ==> (
            #[trigger] self.stores[i][k]).module == self.sources[i]
    }

    /// The registry with nothing registered.
    pub open spec fn empty(capacity: nat) -> RegistryView {
        RegistryView { capacity, sources: Seq::empty(), stores: Seq::empty() }
    }

    /// Whether `source` is registered.
    pub open spec fn is_registered(self, source: Seq<char>) -> bool {
        self.sources.contains(source)
    }

    /// The registry after `source` was registered: unchanged where the source
    /// is registered already, else with the source and an empty store at the end.
    pub open spec fn register(self, source: Seq<char>) -> RegistryView {
        if self.is_registered(source) {
            self
        } else {
            RegistryView {
                capacity: self.capacity,
                sources: self.sources.push(source),
                stores: self.stores.push(Seq::empty()),
            }
        }
    }

    /// The registry after `record` was handed to it: the store of the record's
    /// source has taken the record, every other store is as it was.
    pub open spec fn route(self, record: RecordView) -> RegistryView {
        RegistryView {
            capacity: self.capacity,
            sources: self.sources,
            stores: Seq::new(
                self.stores.len(),
                |i: int|
                    if self.sources[i] == record.module {
                        push_bounded(self.stores[i], self.capacity, record)
                    } else {
                        self.stores[i]
                    },
            ),
        }
    }

    /// The content of the store of `source`, where it is registered.
    pub open spec fn store_of(self, source: Seq<char>) -> Option<Seq<RecordView>> {
        if self.is_registered(source) {
            Some(self.stores[self.sources.index_of(source)])
        } else {
            None
        }
    }
}

impl View for SourceFilterRegistry {
    type V = RegistryView;

    closed spec fn view(&self) -> RegistryView {
        RegistryView {
            capacity: self.capacity as nat,
            sources: Seq::new(self.entries@.len(), |i: int| self.entries@[i].name@),
            stores: Seq::new(self.entries@.len(), |i: int| self.entries@[i].logs@),
        }
    }
}

impl SourceFilterRegistry {
    /// The registry is in order: its view is, and so is each of its stores.
    pub closed spec fn wf(&self) -> bool {
        &&& self@.wf()
        &&& forall|i: int|
            0 <= i < self.entries@.len() ==> {
                &&& (#[trigger] self.entries@[i]).logs.wf()
                &&& self.entries@[i].logs.capacity() == self.capacity
            }
    }

    /// A registry that is in order has a view that is in order.
    pub proof fn lemma_view_wf(&self)
        requires
            self.wf(),
        ensures
            self@.wf(),
    {
    }

    /// Makes a registry with no source, whose stores will hold up to `capacity` records.
    pub fn new(capacity: usize) -> (registry: SourceFilterRegistry)
        ensures
            registry.wf(),
            registry@ == RegistryView::empty(capacity as nat),
    {
        let registry = SourceFilterRegistry { capacity, entries: Vec::new() };
        assert(registry@ =~= RegistryView::empty(capacity as nat));
        registry
    }

    /// Number of registered sources.
    pub fn len(&self) -> (len: usize)
        ensures
            len == self@.sources.len(),
    {
        self.entries.len()
    }

    /// Index of `source` among the registered sources; `None` where it is not registered.
    pub fn position(&self, source: &String) -> (found: Option<usize>)
        requires
            self.wf(),
        ensures
            match found {
                Some(i) => i < self@.sources.len() && self@.sources[i as int] == source@,
                None => !self@.is_registered(source@),
            },
    {
        let mut i: usize = 0;
        while i < self.entries.len()
            invariant
                i <= self.entries@.len(),
                forall|j: int| 0 <= j < i ==> self@.sources[j] != source@,
            decreases self.entries@.len() - i,
        {
            if self.entries[i].name == *source {
                return Some(i);
            }
            i = i + 1;
        }
        None
    }

    /// Registers `source`. A source that is registered already stays as it is;
    /// a new one is added after the others, bound to an empty store.
    pub fn register(&mut self, source: &str)
        requires
            old(self).wf(),
        ensures
            final(self).wf(),
            final(self)@ == old(self)@.register(source@),
    {
        let name = source.to_owned();
        if self.position(&name).is_none() {
            let logs = BoundedLogStore::new(self.capacity);
            self.entries.push(SourceEntry { name, logs });
            assert(self@ =~~= old(self)@.register(source@));
            assert forall|i: int, j: int|
                0 <= i < j < self@.sources.len() implies self@.sources[i] != self@.sources[j] by {
                if j < old(self)@.sources.len() {
                    assert(old(self)@.sources[i] != old(self)@.sources[j]);
                } else {
                    assert(old(self)@.sources[i] != source@);
                }
            }
            assert forall|i: int| 0 <= i < self.entries@.len() implies {
                &&& (#[trigger] self.entries@[i]).logs.wf()
                &&& self.entries@[i].logs.capacity() == self.capacity
            } by {
                if i < old(self).entries@.len() {
                    assert(old(self).entries@[i].logs.wf());
                }
            }
        }
    }

    /// The registered sources in the order of their registration.
    pub fn list(&self) -> (sources: Vec<String>)
        ensures
            sources@.len() == self@.sources.len(),
            forall|i: int| 0 <= i < sources@.len() ==> (#[trigger] sources@[i])@ == self@.sources[i],
    {
        let mut sources: Vec<String> = Vec::new();
        let mut i: usize = 0;
        while i < self.entries.len()
            invariant
                i <= self.entries@.len(),
                sources@.len() == i,
                forall|j: int| 0 <= j < i ==> (#[trigger] sources@[j])@ == self@.sources[j],
            decreases self.entries@.len() - i,
        {
            sources.push(self.entries[i].name.clone());
            i = i + 1;
        }
        sources
    }

    /// The store bound to `source`; `None` where the source is not registered.
    pub fn store(&self, source: &str) -> (found: Option<&BoundedLogStore>)
        requires
            self.wf(),
        ensures
            match found {
                Some(store) => store.wf() && Some(store@) == self@.store_of(source@)
                    && store.capacity() == self@.capacity,
                None => self@.store_of(source@).is_none(),
            },
    {
        let name = source.to_owned();
        match self.position(&name) {
            Some(i) => {
                proof {
                    self@.sources.index_of_first_ensures(source@);
                }
                Some(&self.entries[i].logs)
            },
            None => None,
        }
    }

    /// Hands `record` to the store of its source: where the source is
    /// registered, that store takes a copy of the record; else nothing changes.
    pub fn route(&mut self, record: &Record)
        requires
            old(self).wf(),
        ensures
            final(self).wf(),
            final(self)@ == old(self)@.route(record@),
    {
        match self.position(&record.module) {
            Some(i) => {
                self.entries[i].logs.append(record.clone());
                assert(self@ =~~= old(self)@.route(record@));
            },
            None => {
                assert(self@ =~~= old(self)@.route(record@));
            },
        }
    }
}

/// Registering keeps a registry in order, and the sources registered before
/// keep their places and their stores.
pub proof fn lemma_register_keeps_wf(registry: RegistryView, source: Seq<char>)
    requires
        registry.wf(),
    ensures
        registry.register(source).wf(),
        registry.register(source).is_registered(source),
        forall|i: int|
            0 <= i < registry.sources.len() ==> {
                &&& registry.register(source).sources[i] == registry.sources[i]
                &&& registry.register(source).stores[i] == registry.stores[i]
            },
{
    let after = registry.register(source);
    if !registry.is_registered(source) {
        assert(after.sources.last() == source);
        assert forall|i: int, j: int|
            0 <= i < after.sources.len() && 0 <= j < after.sources.len() && i != j implies after.sources[i]
            != after.sources[j] by {
            if i < registry.sources.len() && j < registry.sources.len() {
                assert(registry.sources[i] != registry.sources[j]);
            } else if i < registry.sources.len() {
                assert(registry.sources.contains(registry.sources[i]));
            } else {
                assert(registry.sources.contains(registry.sources[j]));
            }
        }
    }
}

/// Registering a source twice leaves the registry as registering it once does:
/// the same sources in the same order, each with the same store.
pub proof fn lemma_register_idempotent(registry: RegistryView, source: Seq<char>)
    ensures
        registry.register(source).register(source) == registry.register(source),
{
    if !registry.is_registered(source) {
        assert(registry.sources.push(source).last() == source);
    }
}

/// Handing a record to a registry keeps it in order and registers nothing.
pub proof fn lemma_route_keeps_wf(registry: RegistryView, record: RecordView)
    requires
        registry.wf(),
    ensures
        registry.route(record).wf(),
        registry.route(record).sources == registry.sources,
{
    let after = registry.route(record);
    assert forall|i: int, k: int|
        0 <= i < after.stores.len() && 0 <= k < after.stores[i].len() implies (
    #[trigger] after.stores[i][k]).module == after.sources[i] by {
        if registry.sources[i] == record.module {
            let pushed = registry.stores[i].push(record);
            if pushed.len() <= registry.capacity {
                if k < registry.stores[i].len() {
                    assert(registry.stores[i][k].module == registry.sources[i]);
                }
            } else {
                let at = pushed.len() - registry.capacity + k;
                if at < registry.stores[i].len() {
                    assert(registry.stores[i][at].module == registry.sources[i]);
                }
            }
        } else {
            assert(registry.stores[i][k].module == registry.sources[i]);
        }
    }
}

} // verus!
