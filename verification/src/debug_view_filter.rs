//! The controls beside a debug view: what each of them offers, and what a
//! choice does.

use vstd::prelude::*;
use crate::debug_view::DebugView;
use crate::debug_view::ModuleFilter;
use crate::debug_view::ViewFilter;
use crate::level::LevelFilter;
use crate::logger::CaptureSink;

verus! {

/// One choice of a threshold: the label that is shown, and the threshold.
pub struct LevelItem {
    pub label: String,
    pub value: LevelFilter,
}

/// One choice of a store: the label that is shown, and the store.
pub struct ModuleItem {
    pub label: String,
    pub value: ModuleFilter,
}

/// A control that offers thresholds under a title.
pub struct LevelSelect {
    pub title: String,
    pub items: Vec<LevelItem>,
}

/// A control that offers stores under a title.
pub struct ModuleSelect {
    pub title: String,
    pub items: Vec<ModuleItem>,
}

/// What a control shows and offers: its title, and for each choice its label
/// and its value.
pub struct SelectView<T> {
    pub title: Seq<char>,
    pub items: Seq<(Seq<char>, T)>,
}

impl View for LevelSelect {
    type V = SelectView<LevelFilter>;

    open spec fn view(&self) -> SelectView<LevelFilter> {
        SelectView {
            title: self.title@,
            items: Seq::new(self.items@.len(), |i: int| (self.items@[i].label@, self.items@[i].value)),
        }
    }
}

impl View for ModuleSelect {
    type V = SelectView<Option<Seq<char>>>;

    open spec fn view(&self) -> SelectView<Option<Seq<char>>> {
        SelectView {
            title: self.title@,
            items: Seq::new(
                self.items@.len(),
                |i: int| (self.items@[i].label@, self.items@[i].value@),
            ),
        }
    }
}

/// The thresholds that a control offers, from the least to the most strict.
pub open spec fn level_items() -> Seq<(Seq<char>, LevelFilter)> {
    seq![
        ("Debug"@, LevelFilter::Debug),
        ("Info"@, LevelFilter::Info),
        ("Warn"@, LevelFilter::Warn),
        ("Error"@, LevelFilter::Error),
    ]
}

/// The stores that a control offers where `sources` are tracked: first the
/// primary store under the label `All`, then the store of each source under
/// the name of the source, in the order of registration.
pub open spec fn module_items(sources: Seq<Seq<char>>) -> Seq<(Seq<char>, Option<Seq<char>>)> {
    seq![("All"@, None::<Seq<char>>)] + Seq::new(
        sources.len(),
        |i: int| (sources[i], Some(sources[i])),
    )
}

fn level_choices() -> (items: Vec<LevelItem>)
    ensures
        Seq::new(items@.len(), |i: int| (items@[i].label@, items@[i].value)) == level_items(),
{
    let mut items: Vec<LevelItem> = Vec::new();
    items.push(LevelItem { label: "Debug".to_owned(), value: LevelFilter::Debug });
    items.push(LevelItem { label: "Info".to_owned(), value: LevelFilter::Info });
    items.push(LevelItem { label: "Warn".to_owned(), value: LevelFilter::Warn });
    items.push(LevelItem { label: "Error".to_owned(), value: LevelFilter::Error });
    assert(Seq::new(items@.len(), |i: int| (items@[i].label@, items@[i].value)) =~= level_items());
    items
}

/// Returns the control that modifies the minimum log severity displayed.
pub fn debug_set_log_filter() -> (select: LevelSelect)
    ensures
        select@ == (SelectView { title: "Filter Log Levels"@, items: level_items() }),
{
    LevelSelect { title: "Filter Log Levels".to_owned(), items: level_choices() }
}

/// Returns the control that updates the minimum severity of new logs saved
/// in the stores.
pub fn debug_set_log_level() -> (select: LevelSelect)
    ensures
        select@ == (SelectView { title: "Set Max Log Level"@, items: level_items() }),
{
    LevelSelect { title: "Set Max Log Level".to_owned(), items: level_choices() }
}

/// Returns the control that modifies whether all logs, or only the logs of
/// one of the sources that `sink` tracks, are displayed.
pub fn debug_set_mod_filter(sink: &CaptureSink) -> (select: ModuleSelect)
    ensures
        select@ == (SelectView {
            title: "Filter Log Modules"@,
            items: module_items(sink@.registry.sources),
        }),
{
    let mut items: Vec<ModuleItem> = Vec::new();
    items.push(ModuleItem { label: "All".to_owned(), value: ModuleFilter::All });
    let sources = sink.list();
    let ghost names = sink@.registry.sources;
    let total = sources.len();
    let mut i: usize = 0;
    while i < total
        invariant
            total == names.len(),
            i <= total,
            items@.len() == i + 1,
            items@[0].label@ == "All"@,
            items@[0].value@ == None::<Seq<char>>,
            forall|j: int|
                1 <= j <= i ==> (#[trigger] items@[j]).label@ == names[j - 1] && items@[j].value@
                    == Some(names[j - 1]),
            sources@.len() == total,
            forall|j: int| i <= j < total ==> (#[trigger] sources@[j])@ == names[j],
        decreases total - i,
    {
        let label = sources[i].clone();
        let name = sources[i].clone();
        items.push(ModuleItem { label, value: ModuleFilter::Module(name) });
        i = i + 1;
    }
    let select = ModuleSelect { title: "Filter Log Modules".to_owned(), items };
    assert(select@.items =~= module_items(names));
    select
}

/// The controls that toggle the logs shown within a debug view, or update
/// the severity that is captured.
pub struct DebugViewFilter {
    /// Sets the least severity that is captured at all.
    pub log_level: LevelSelect,
    /// Sets the threshold of the view.
    pub log_filter: LevelSelect,
    /// Sets the store that the view reads.
    pub mod_filter: ModuleSelect,
}

impl DebugViewFilter {
    /// Creates the controls of a view over `sink`.
    pub fn new(sink: &CaptureSink) -> (filter: DebugViewFilter)
        ensures
            filter.log_level@ == (SelectView { title: "Set Max Log Level"@, items: level_items() }),
            filter.log_filter@ == (SelectView {
                title: "Filter Log Levels"@,
                items: level_items(),
            }),
            filter.mod_filter@ == (SelectView {
                title: "Filter Log Modules"@,
                items: module_items(sink@.registry.sources),
            }),
    {
        DebugViewFilter {
            log_level: debug_set_log_level(),
            log_filter: debug_set_log_filter(),
            mod_filter: debug_set_mod_filter(sink),
        }
    }

    /// The severity to capture from now on, after the choice at `index` of
    /// the first control; `None` where the control has no such choice.
    pub fn submit_log_level(&self, index: usize) -> (level: Option<LevelFilter>)
        ensures
            level == if index < self.log_level@.items.len() {
                Some(self.log_level@.items[index as int].1)
            } else {
                None
            },
    {
        if index < self.log_level.items.len() {
            Some(self.log_level.items[index].value)
        } else {
            None
        }
    }

    /// Sets the threshold of `view` to the choice at `index` of the second
    /// control. Leaves the view as it is where the control has no such choice.
    pub fn submit_log_filter(&self, index: usize, view: &mut DebugView)
        ensures
            final(view)@ == if index < self.log_filter@.items.len() {
                ViewFilter {
                    threshold: self.log_filter@.items[index as int].1,
                    source: old(view)@.source,
                }
            } else {
                old(view)@
            },
    {
        if index < self.log_filter.items.len() {
            view.set_filter(self.log_filter.items[index].value);
        }
    }

    /// Has `view` read the store of the choice at `index` of the third
    /// control. Leaves the view as it is where the control has no such choice.
    pub fn submit_mod_filter(&self, index: usize, view: &mut DebugView)
        ensures
            final(view)@ == if index < self.mod_filter@.items.len() {
                ViewFilter {
                    threshold: old(view)@.threshold,
                    source: self.mod_filter@.items[index as int].1,
                }
            } else {
                old(view)@
            },
    {
        if index < self.mod_filter.items.len() {
            view.set_module(self.mod_filter.items[index].value.clone());
        }
    }
}

} // verus!
