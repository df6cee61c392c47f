//! Bounded stores of captured records: when a store is full, the oldest record
//! leaves to make room for the newest.

use std::collections::VecDeque;
use vstd::prelude::*;
use crate::record::Record;
use crate::record::RecordView;

verus! {

/// Number of records that a store holds unless it is made with another capacity.
pub const DEFAULT_CAPACITY: usize = 1000;

/// The last `n` elements of `s` in their order; all of `s` where it has no more than `n`.
pub open spec fn keep_last<T>(s: Seq<T>, n: nat) -> Seq<T> {
    if s.len() <= n {
        s
    } else {
        s.subrange(s.len() - n, s.len() as int)
    }
}

/// What is left of `s` without its first `n` elements; nothing where it has no more than `n`.
pub open spec fn skip_first<T>(s: Seq<T>, n: nat) -> Seq<T> {
    if s.len() <= n {
        Seq::empty()
    } else {
        s.subrange(n as int, s.len() as int)
    }
}

/// Content of a store of the given capacity after `x` was appended to the content `s`.
pub open spec fn push_bounded<T>(s: Seq<T>, capacity: nat, x: T) -> Seq<T> {
    keep_last(s.push(x), capacity)
}

/// Content of a store of the given capacity after the elements of `xs` were
/// appended one by one, in their order, to the content `s`.
pub open spec fn extend_bounded<T>(s: Seq<T>, capacity: nat, xs: Seq<T>) -> Seq<T>
    decreases xs.len(),
{
    if xs.len() == 0 {
        s
    } else {
        push_bounded(extend_bounded(s, capacity, xs.drop_last()), capacity, xs.last())
    }
}

/// Number of leading records that a viewport of `height` rows leaves out of `len` records.
pub open spec fn viewport_skip(len: nat, height: nat) -> nat {
    if len <= height {
        0
    } else {
        (len - height) as nat
    }
}

/// The views of the records of `s`, in their order.
pub open spec fn views(s: Seq<Record>) -> Seq<RecordView> {
    s.map_values(|r: Record| r@)
}

/// A fixed-capacity buffer of records in the order of their insertion.
pub struct BoundedLogStore {
    records: VecDeque<Record>,
    capacity: usize,
}

impl View for BoundedLogStore {
    type V = Seq<RecordView>;

    closed spec fn view(&self) -> Seq<RecordView> {
        views(self.records@)
    }
}

impl BoundedLogStore {
    /// The store holds no more records than its capacity.
    pub closed spec fn wf(&self) -> bool {
        self.records@.len() <= self.capacity
    }

    /// The greatest number of records that the store holds.
    pub closed spec fn spec_capacity(&self) -> usize {
        self.capacity
    }

    /// Makes an empty store that holds up to `capacity` records.
    pub fn new(capacity: usize) -> (store: BoundedLogStore)
        ensures
            store.wf(),
            store@ == Seq::<RecordView>::empty(),
            store.capacity() == capacity,
    {
        let store = BoundedLogStore { records: VecDeque::new(), capacity };
        assert(store@ =~= Seq::<RecordView>::empty());
        store
    }

    /// The greatest number of records that the store holds.
    #[verifier::when_used_as_spec(spec_capacity)]
    pub fn capacity(&self) -> (capacity: usize)
        ensures
            capacity == self.spec_capacity(),
    {
        self.capacity
    }

    /// Number of records in the store.
    pub fn len(&self) -> (len: usize)
        requires
            self.wf(),
        ensures
            len == self@.len(),
            len <= self.capacity(),
    {
        self.records.len()
    }

    /// Whether the store holds no record.
    pub fn is_empty(&self) -> (empty: bool)
        ensures
            empty == (self@.len() == 0),
    {
        self.records.len() == 0
    }

    /// Inserts `record` at the tail. A full store first drops its oldest record.
    pub fn append(&mut self, record: Record)
        requires
            old(self).wf(),
        ensures
            final(self).wf(),
            final(self)@ == push_bounded(old(self)@, old(self).capacity() as nat, record@),
            final(self).capacity() == old(self).capacity(),
    {
        if self.capacity == 0 {
            assert(self@ =~= push_bounded(self@, 0, record@));
            return ;
        }
        if self.records.len() == self.capacity {
            self.records.pop_front();
        }
        self.records.push_back(record);
        assert(self@ =~= push_bounded(old(self)@, old(self).capacity() as nat, record@));
    }

    /// The record at `index`, counted from the oldest; `None` past the end.
    pub fn get(&self, index: usize) -> (found: Option<&Record>)
        ensures
            index < self@.len() ==> found.is_some() && found.unwrap()@ == self@[index as int],
            index >= self@.len() ==> found.is_none(),
    {
        if index < self.records.len() {
            Some(&self.records[index])
        } else {
            None
        }
    }

    /// Copies the records in the order of their insertion, leaving out the first `skip_count`.
    pub fn snapshot_iterate(&self, skip_count: usize) -> (snapshot: Vec<Record>)
        ensures
            views(snapshot@) == skip_first(self@, skip_count as nat),
    {
        let mut snapshot: Vec<Record> = Vec::new();
        let len = self.records.len();
        if skip_count >= len {
            assert(views(snapshot@) =~= skip_first(self@, skip_count as nat));
            return snapshot;
        }
        let mut i: usize = skip_count;
        while i < len
            invariant
                skip_count <= i <= len,
                len == self.records@.len(),
                views(snapshot@) == self@.subrange(skip_count as int, i as int),
            decreases len - i,
        {
            let ghost before = snapshot@;
            let copy = self.records[i].clone();
            assert(copy@ == self@[i as int]);
            snapshot.push(copy);
            i = i + 1;
            assert(views(snapshot@) =~= views(before).push(copy@));
            assert(views(snapshot@) =~= self@.subrange(skip_count as int, i as int));
        }
        snapshot
    }
}

/// Appending to a store that is not full adds the record at the tail.
pub proof fn lemma_push_with_room<T>(s: Seq<T>, capacity: nat, x: T)
    requires
        s.len() < capacity,
    ensures
        push_bounded(s, capacity, x) == s.push(x),
{
}

/// Appending to a full store drops the oldest record and adds the new one at the tail.
pub proof fn lemma_push_when_full<T>(s: Seq<T>, capacity: nat, x: T)
    requires
        s.len() == capacity,
        capacity > 0,
    ensures
        push_bounded(s, capacity, x) == s.drop_first().push(x),
{
    assert(push_bounded(s, capacity, x) =~= s.drop_first().push(x));
}

/// Appends to a store accumulate: whatever the store held, after the records
/// of `xs` were appended in their order it holds the last records of the old
/// content followed by `xs`, as many as the capacity allows.
pub proof fn lemma_appends_keep_last<T>(s: Seq<T>, capacity: nat, xs: Seq<T>)
    requires
        s.len() <= capacity,
    ensures
        extend_bounded(s, capacity, xs) == keep_last(s + xs, capacity),
        extend_bounded(s, capacity, xs).len() <= capacity,
    decreases xs.len(),
{
    if xs.len() == 0 {
        assert(s + xs =~= s);
    } else {
        let front = xs.drop_last();
        lemma_appends_keep_last(s, capacity, front);
        assert((s + front).push(xs.last()) =~= s + xs);
        assert(keep_last(keep_last(s + front, capacity).push(xs.last()), capacity) =~= keep_last(
            s + xs,
            capacity,
        ));
    }
}

/// After `appended.len()` appends to an empty store of the given capacity, the
/// store holds the smaller of the two numbers of records, and they are the
/// last records appended, in the order in which they were appended.
pub proof fn lemma_store_holds_last_appended<T>(capacity: nat, appended: Seq<T>)
    ensures
        ({
            let held = extend_bounded(Seq::<T>::empty(), capacity, appended);
            let kept = if appended.len() <= capacity {
                appended.len()
            } else {
                capacity
            };
            &&& held.len() == kept
            &&& held == appended.subrange(appended.len() - kept, appended.len() as int)
        }),
{
    lemma_appends_keep_last(Seq::<T>::empty(), capacity, appended);
    assert(Seq::<T>::empty() + appended =~= appended);
    assert(keep_last(appended, capacity) =~= appended.subrange(
        appended.len() - (if appended.len() <= capacity {
            appended.len()
        } else {
            capacity
        }),
        appended.len() as int,
    ));
}

/// Skipping what a viewport leaves out shows the last records, as many as the
/// viewport has rows.
pub proof fn lemma_viewport_shows_last<T>(s: Seq<T>, height: nat)
    ensures
        skip_first(s, viewport_skip(s.len(), height)) == keep_last(s, height),
{
    assert(skip_first(s, viewport_skip(s.len(), height)) =~= keep_last(s, height));
}

} // verus!
