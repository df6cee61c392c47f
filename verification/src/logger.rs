//! The capture sink: every event goes to the primary store, and also to the
//! store of its source where that source is tracked.

use vstd::prelude::*;
use crate::clock::now;
use crate::clock::Timestamp;
use crate::level::Level;
use crate::level::LevelFilter;
use crate::record::captured;
use crate::record::Record;
use crate::record::RecordView;
use crate::registry::lemma_register_idempotent;
use crate::registry::lemma_route_keeps_wf;
use crate::registry::RegistryView;
use crate::registry::SourceFilterRegistry;
use crate::store::keep_last;
use crate::store::push_bounded;
use crate::store::BoundedLogStore;
use crate::store::DEFAULT_CAPACITY;

verus! {

/// Why the sink could not be installed.
#[derive(Clone, Copy, Debug, PartialEq, Eq, Structural)]
pub enum InitError {
    /// The sink is installed already.
    DoubleInitialization,
}

/// Saves all log records: each in the primary store, and those of a tracked
/// source in the store of that source too.
pub struct CaptureSink {
    installed: bool,
    primary: BoundedLogStore,
    registry: SourceFilterRegistry,
}

/// What a sink holds: whether it is installed, the content of the primary
/// store, and the registry with the content of the stores of the tracked sources.
#[verifier::ext_equal]
pub struct SinkView {
    pub installed: bool,
    pub primary: Seq<RecordView>,
    pub registry: RegistryView,
}

/// The records that came from `source`.
pub open spec fn from_source(source: Seq<char>) -> spec_fn(RecordView) -> bool {
    |record: RecordView| record.module == source
}

impl SinkView {
    /// The registry is in order and the primary store holds no more than the
    /// capacity, which is that of every store of the sink.
    pub open spec fn wf(self) -> bool {
        &&& self.registry.wf()
        &&& self.primary.len() <= self.registry.capacity
    }

    /// A sink that is not installed, tracks no source and has captured nothing.
    pub open spec fn fresh(capacity: nat) -> SinkView {
        SinkView {
            installed: false,
            primary: Seq::empty(),
            registry: RegistryView::empty(capacity),
        }
    }

    /// The capacity of every store of the sink.
    pub open spec fn capacity(self) -> nat {
        self.registry.capacity
    }

    /// The sink once it is installed.
    pub open spec fn install(self) -> SinkView {
        SinkView { installed: true, ..self }
    }

    /// The sink after `source` was registered.
    pub open spec fn register(self, source: Seq<char>) -> SinkView {
        SinkView { registry: self.registry.register(source), ..self }
    }

    /// The sink after it has captured `record`: the primary store has taken
    /// it, and so has the store of its source where that source is tracked.
    pub open spec fn on_event(self, record: RecordView) -> SinkView {
        SinkView {
            installed: self.installed,
            primary: push_bounded(self.primary, self.capacity(), record),
            registry: self.registry.route(record),
        }
    }

    /// The sink after it has captured the records of `records`, in their order.
    pub open spec fn on_events(self, records: Seq<RecordView>) -> SinkView
        decreases records.len(),
    {
        if records.len() == 0 {
            self
        } else {
            self.on_events(records.drop_last()).on_event(records.last())
        }
    }
}

impl View for CaptureSink {
    type V = SinkView;

    closed spec fn view(&self) -> SinkView {
        SinkView { installed: self.installed, primary: self.primary@, registry: self.registry@ }
    }
}

impl CaptureSink {
    /// The sink is in order: its view is, and so are its stores.
    pub closed spec fn wf(&self) -> bool {
        &&& self@.wf()
        &&& self.primary.wf()
        &&& self.registry.wf()
        &&& self.primary.capacity() == self.registry@.capacity
    }

    /// A sink that is in order has a view that is in order.
    pub proof fn lemma_view_wf(&self)
        requires
            self.wf(),
        ensures
            self@.wf(),
    {
    }

    /// Makes a sink whose stores hold up to `DEFAULT_CAPACITY` records each.
    pub fn new() -> (sink: CaptureSink)
        ensures
            sink.wf(),
            sink@ == SinkView::fresh(DEFAULT_CAPACITY as nat),
    {
        CaptureSink::with_capacity(DEFAULT_CAPACITY)
    }

    /// Makes a sink whose stores hold up to `capacity` records each.
    pub fn with_capacity(capacity: usize) -> (sink: CaptureSink)
        ensures
            sink.wf(),
            sink@ == SinkView::fresh(capacity as nat),
    {
        CaptureSink {
            installed: false,
            primary: BoundedLogStore::new(capacity),
            registry: SourceFilterRegistry::new(capacity),
        }
    }

    /// Whether the sink is installed.
    pub fn is_installed(&self) -> (installed: bool)
        ensures
            installed == self@.installed,
    {
        self.installed
    }

    /// Whether the sink takes events of this severity and path: it takes all.
    /// What is shown is chosen when the stores are read, so that a change of
    /// filter never loses what was captured before.
    pub fn enabled(&self, level: Level, target: &str) -> (enabled: bool)
        ensures
            enabled,
    {
        true
    }

    /// Captures an event that was logged at `time`.
    pub fn on_event_at(&mut self, level: Level, target: &str, message: String, time: Timestamp)
        requires
            old(self).wf(),
        ensures
            final(self).wf(),
            final(self)@ == old(self)@.on_event(captured(level, target@, message@, time)),
    {
        let record = Record::new(level, target, message, time);
        self.registry.route(&record);
        self.primary.append(record);
    }

    /// Captures an event, stamped with the time at which it is captured.
    pub fn on_event(&mut self, level: Level, target: &str, message: String)
        requires
            old(self).wf(),
        ensures
            final(self).wf(),
            exists|time: Timestamp|
                final(self)@ == old(self)@.on_event(
                    #[trigger] captured(level, target@, message@, time),
                ),
    {
        let time = now();
        self.on_event_at(level, target, message, time);
    }

    /// Does nothing: an event is in the stores as soon as it is captured.
    pub fn flush(&self) {
    }

    /// Starts to track `source`: from now on the records of that source go
    /// to a store of their own as well. Does nothing where it is tracked already.
    pub fn register(&mut self, source: &str)
        requires
            old(self).wf(),
        ensures
            final(self).wf(),
            final(self)@ == old(self)@.register(source@),
    {
        self.registry.register(source);
    }

    /// The tracked sources in the order of their registration.
    pub fn list(&self) -> (sources: Vec<String>)
        ensures
            sources@.len() == self@.registry.sources.len(),
            forall|i: int|
                0 <= i < sources@.len() ==> (#[trigger] sources@[i])@ == self@.registry.sources[i],
    {
        self.registry.list()
    }

    /// The primary store, which holds the records of all sources.
    pub fn logs(&self) -> (store: &BoundedLogStore)
        requires
            self.wf(),
        ensures
            store.wf(),
            store@ == self@.primary,
            store.capacity() == self@.capacity(),
    {
        &self.primary
    }

    /// The store of the records of `source`; `None` where the source is not tracked.
    pub fn module_logs(&self, source: &str) -> (found: Option<&BoundedLogStore>)
        requires
            self.wf(),
        ensures
            match found {
                Some(store) => store.wf() && Some(store@) == self@.registry.store_of(source@)
                    && store.capacity() == self@.capacity(),
                None => self@.registry.store_of(source@).is_none(),
            },
    {
        self.registry.store(source)
    }
}

/// Installs the sink as the one that captures the log records of the process.
///
/// Fails, and leaves the sink as it is, where it is installed already. On success
/// returns the threshold that the caller is to let pass to the sink: all severities.
pub fn init(sink: &mut CaptureSink) -> (result: Result<LevelFilter, InitError>)
    requires
        old(sink).wf(),
    ensures
        final(sink).wf(),
        old(sink)@.installed ==> result == Err::<LevelFilter, InitError>(
            InitError::DoubleInitialization,
        ) && final(sink)@ == old(sink)@,
        !old(sink)@.installed ==> result == Ok::<LevelFilter, InitError>(LevelFilter::Trace)
            && final(sink)@ == old(sink)@.install(),
{
    if sink.installed {
        return Err(InitError::DoubleInitialization);
    }
    sink.installed = true;
    Ok(LevelFilter::Trace)
}

/// Installs the sink as `init` does, and has it track the source `module`.
///
/// Fails, and leaves the sink as it is, where it is installed already.
pub fn init_for_module(sink: &mut CaptureSink, module: &str) -> (result: Result<
    LevelFilter,
    InitError,
>)
    requires
        old(sink).wf(),
    ensures
        final(sink).wf(),
        old(sink)@.installed ==> result == Err::<LevelFilter, InitError>(
            InitError::DoubleInitialization,
        ) && final(sink)@ == old(sink)@,
        !old(sink)@.installed ==> result == Ok::<LevelFilter, InitError>(LevelFilter::Trace)
            && final(sink)@ == old(sink)@.register(module@).install(),
{
    if sink.installed {
        return Err(InitError::DoubleInitialization);
    }
    sink.register(module);
    init(sink)
}

/// Registering the same source twice leaves the sink as registering it once
/// does: the same tracked sources, each with the same store.
pub proof fn lemma_register_twice(sink: SinkView, source: Seq<char>)
    ensures
        sink.register(source).register(source) == sink.register(source),
        sink.register(source).registry.is_registered(source),
{
    lemma_register_idempotent(sink.registry, source);
    if !sink.registry.is_registered(source) {
        assert(sink.registry.sources.push(source).last() == source);
    }
}

/// Capturing keeps a sink in order, tracks no new source and installs nothing.
pub proof fn lemma_on_events_keeps_wf(sink: SinkView, records: Seq<RecordView>)
    requires
        sink.wf(),
    ensures
        sink.on_events(records).wf(),
        sink.on_events(records).installed == sink.installed,
        sink.on_events(records).registry.sources == sink.registry.sources,
        sink.on_events(records).registry.capacity == sink.registry.capacity,
    decreases records.len(),
{
    if records.len() > 0 {
        lemma_on_events_keeps_wf(sink, records.drop_last());
        lemma_route_keeps_wf(sink.on_events(records.drop_last()).registry, records.last());
    }
}

/// Once a source is tracked, every event from it reaches both the primary
/// store and the store of that source, in the order of capture.
///
/// After the sink has captured `records`, the primary store holds the last
/// records of its old content followed by all of `records`, and the store of a
/// tracked source holds the last records of its old content followed by those
/// of `records` that came from the source, each as many as the capacity allows.
pub proof fn lemma_fan_out(sink: SinkView, records: Seq<RecordView>, i: int)
    requires
        sink.wf(),
        0 <= i < sink.registry.sources.len(),
    ensures
        sink.on_events(records).primary == keep_last(sink.primary + records, sink.capacity()),
        sink.on_events(records).registry.stores[i] == keep_last(
            sink.registry.stores[i] + records.filter(from_source(sink.registry.sources[i])),
            sink.capacity(),
        ),
    decreases records.len(),
{
    let source = sink.registry.sources[i];
    let capacity = sink.capacity();
    if records.len() == 0 {
        assert(sink.primary + records =~= sink.primary);
        assert(records.filter(from_source(source)) =~= Seq::<RecordView>::empty()) by {
            reveal(Seq::filter);
        }
        assert(sink.registry.stores[i] + Seq::<RecordView>::empty() =~= sink.registry.stores[i]);
    } else {
        let front = records.drop_last();
        let last = records.last();
        let before = sink.on_events(front);
        lemma_fan_out(sink, front, i);
        lemma_on_events_keeps_wf(sink, front);
        assert(front.push(last) =~= records);
        assert((sink.primary + front).push(last) =~= sink.primary + records);
        assert(keep_last(keep_last(sink.primary + front, capacity).push(last), capacity)
            =~= keep_last(sink.primary + records, capacity));
        let old_store = sink.registry.stores[i];
        let kept = front.filter(from_source(source));
        front.lemma_filter_push(last, from_source(source));
        if last.module == source {
            assert((old_store + kept).push(last) =~= old_store + records.filter(
                from_source(source),
            ));
            assert(keep_last(keep_last(old_store + kept, capacity).push(last), capacity)
                =~= keep_last(old_store + records.filter(from_source(source)), capacity));
        }
    }
}

/// An event from a tracked source is the newest record of both the primary
/// store and the store of its source, unless the stores hold nothing at all.
pub proof fn lemma_event_reaches_both(sink: SinkView, record: RecordView, i: int)
    requires
        sink.wf(),
        sink.capacity() > 0,
        0 <= i < sink.registry.sources.len(),
        record.module == sink.registry.sources[i],
    ensures
        sink.on_event(record).primary.last() == record,
        sink.on_event(record).registry.stores[i].last() == record,
{
}

} // verus!
