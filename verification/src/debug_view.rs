//! The view that shows captured records: which store it reads, which records
//! pass its severity threshold, and how much room they take.

use vstd::prelude::*;
use crate::level::Level;
use crate::level::LevelFilter;
use crate::logger::CaptureSink;
use crate::logger::SinkView;
use crate::record::Record;
use crate::record::RecordView;
use crate::store::skip_first;
use crate::store::viewport_skip;
use crate::store::views;
use crate::store::BoundedLogStore;
use crate::width::display_width;
use crate::width::text_width;

verus! {

/// Which store the view reads.
#[derive(Debug, PartialEq, Eq)]
pub enum ModuleFilter {
    /// The primary store, with the records of all sources.
    All,
    /// The store of the named source.
    Module(String),
}

/// What a view is set to: a severity threshold, and the source whose store
/// it reads (`None`: the primary store).
pub struct ViewFilter {
    pub threshold: LevelFilter,
    pub source: Option<Seq<char>>,
}

impl View for ModuleFilter {
    type V = Option<Seq<char>>;

    open spec fn view(&self) -> Option<Seq<char>> {
        match self {
            ModuleFilter::All => None,
            ModuleFilter::Module(name) => Some(name@),
        }
    }
}

impl Clone for ModuleFilter {
    fn clone(&self) -> (copy: ModuleFilter)
        ensures
            copy@ == self@,
    {
        match self {
            ModuleFilter::All => ModuleFilter::All,
            ModuleFilter::Module(name) => ModuleFilter::Module(name.clone()),
        }
    }
}

/// A record of severity `record_level` is shown under the threshold
/// `display_filter`: it is at least as severe as the threshold, or the
/// threshold is `Off`, which shows every record.
pub open spec fn is_visible(record_level: Level, display_filter: LevelFilter) -> bool {
    match display_filter.level() {
        Some(display_level) => record_level.at_least(display_level),
        None => true,
    }
}

/// The records that are shown under `threshold`.
pub open spec fn shown(threshold: LevelFilter) -> spec_fn(RecordView) -> bool {
    |record: RecordView| is_visible(record.level, threshold)
}

/// The lines of a viewport of `height` rows over the records `logs`, from top
/// to bottom: of the last `height` records, those shown under `threshold`.
pub open spec fn visible_lines(logs: Seq<RecordView>, height: nat, threshold: LevelFilter) -> Seq<
    RecordView,
> {
    skip_first(logs, viewport_skip(logs.len(), height)).filter(shown(threshold))
}

impl ViewFilter {
    /// The content of the store that the view reads from `sink`. A view set
    /// to a source that is not tracked has nothing to read.
    pub open spec fn selected(self, sink: SinkView) -> Seq<RecordView> {
        match self.source {
            None => sink.primary,
            Some(source) => match sink.registry.store_of(source) {
                Some(content) => content,
                None => Seq::empty(),
            },
        }
    }
}

/// Decides whether a record of severity `record_level` is shown under the
/// threshold `display_filter`.
pub fn record_above_set_filter(record_level: Level, display_filter: LevelFilter) -> (visible: bool)
    ensures
        visible == is_visible(record_level, display_filter),
{
    // If no display filter set (ie, the user has not applied a log filter yet), display all logs
    match display_filter.to_level() {
        Some(display_level) => record_level.is_at_least(display_level),
        None => true,
    }
}

/// The eight colors of a terminal.
#[derive(Clone, Copy, Debug, PartialEq, Eq, Hash, Structural)]
pub enum BaseColor {
    Black,
    Red,
    Green,
    Yellow,
    Blue,
    Magenta,
    Cyan,
    White,
}

/// A terminal color in its dark or its light version.
#[derive(Clone, Copy, Debug, PartialEq, Eq, Hash, Structural)]
pub enum Color {
    Dark(BaseColor),
    Light(BaseColor),
}

/// A size on the screen, in cells: `x` columns and `y` rows.
#[derive(Clone, Copy, Debug, PartialEq, Eq, Hash, Structural)]
pub struct Vec2 {
    pub x: usize,
    pub y: usize,
}

/// Width of a level between its brackets, as in `[ERROR]`.
pub const LEVEL_WIDTH: usize = 7;

/// Width of a time of day with its milliseconds, as in `23:59:59.123`.
pub const TIME_WIDTH: usize = 12;

/// Width of the separator ` | `.
pub const SEPARATOR_WIDTH: usize = 3;

/// Column at which the level of a line is printed, between the brackets.
pub const LEVEL_COLUMN: usize = 16;

/// The color in which the level of a record is printed.
pub open spec fn level_color(level: Level) -> Color {
    match level {
        Level::Error => Color::Dark(BaseColor::Red),
        Level::Warn => Color::Dark(BaseColor::Yellow),
        Level::Info => Color::Light(BaseColor::Black),
        Level::Debug => Color::Dark(BaseColor::Green),
        Level::Trace => Color::Dark(BaseColor::Blue),
    }
}

/// The name of a level in capitals, filled with spaces to five characters.
pub open spec fn level_label(level: Level) -> Seq<char> {
    match level {
        Level::Error => "ERROR"@,
        Level::Warn => "WARN "@,
        Level::Info => "INFO "@,
        Level::Debug => "DEBUG"@,
        Level::Trace => "TRACE"@,
    }
}

/// The text of the line of `record`, with `time` as the text of its time. The
/// brackets are left empty: the level is printed into them in its color.
pub open spec fn line_text(time: Seq<char>, record: RecordView) -> Seq<char> {
    time + " | [     ] | "@ + record.module + " | "@ + record.message
}

/// Width of a line whose message and module take the given widths: the two,
/// the level, the time and three separators.
pub open spec fn line_width(message_width: nat, module_width: nat) -> nat {
    message_width + module_width + LEVEL_WIDTH as nat + TIME_WIDTH as nat + 3 * (
    SEPARATOR_WIDTH as nat)
}

/// Width of the line of `record`.
pub open spec fn record_width(record: RecordView) -> nat {
    line_width(display_width(record.message), display_width(record.module))
}

/// Width of the widest line of `records`; 0 where there is none.
pub open spec fn widest(records: Seq<RecordView>) -> nat
    decreases records.len(),
{
    if records.len() == 0 {
        0
    } else {
        let rest = widest(records.drop_last());
        let width = record_width(records.last());
        if width > rest {
            width
        } else {
            rest
        }
    }
}

/// The number `n` where a `usize` holds it, else the greatest `usize`.
pub open spec fn clip(n: nat) -> usize {
    if n > usize::MAX {
        usize::MAX
    } else {
        n as usize
    }
}

/// No line of `records` is wider than `widest(records)`, and one is as wide.
pub proof fn lemma_widest_is_max(records: Seq<RecordView>)
    ensures
        forall|i: int| 0 <= i < records.len() ==> record_width(#[trigger] records[i]) <= widest(records),
        records.len() > 0 ==> exists|i: int|
            0 <= i < records.len() && record_width(#[trigger] records[i]) == widest(records),
    decreases records.len(),
{
    if records.len() > 0 {
        let front = records.drop_last();
        lemma_widest_is_max(front);
        assert forall|i: int| 0 <= i < records.len() implies record_width(#[trigger] records[i])
            <= widest(records) by {
            if i < front.len() {
                assert(front[i] == records[i]);
            }
        }
        if record_width(records.last()) > widest(front) || front.len() == 0 {
            assert(record_width(records[records.len() - 1]) == widest(records));
        } else {
            let i = choose|i: int|
                0 <= i < front.len() && record_width(#[trigger] front[i]) == widest(front);
            assert(front[i] == records[i]);
        }
    }
}

/// The color in which the level of a record is printed.
pub fn color_of(level: Level) -> (color: Color)
    ensures
        color == level_color(level),
{
    match level {
        Level::Error => Color::Dark(BaseColor::Red),
        Level::Warn => Color::Dark(BaseColor::Yellow),
        Level::Info => Color::Light(BaseColor::Black),
        Level::Debug => Color::Dark(BaseColor::Green),
        Level::Trace => Color::Dark(BaseColor::Blue),
    }
}

/// The name of a level as it is printed between the brackets of a line.
pub fn label_of(level: Level) -> (label: String)
    ensures
        label@ == level_label(level),
{
    match level {
        Level::Error => "ERROR".to_owned(),
        Level::Warn => "WARN ".to_owned(),
        Level::Info => "INFO ".to_owned(),
        Level::Debug => "DEBUG".to_owned(),
        Level::Trace => "TRACE".to_owned(),
    }
}

/// Writes the line of `record`, with `time` as the text of its time.
pub fn format_line(time: &str, record: &Record) -> (text: String)
    ensures
        text@ == line_text(time@, record@),
{
    let mut text = time.to_owned();
    text.append(" | [     ] | ");
    text.append(record.module.as_str());
    text.append(" | ");
    text.append(record.message.as_str());
    text
}

/// Width of a line whose message and module take the given widths; the
/// greatest `usize` where the width is beyond it.
pub fn line_width_of(message_width: usize, module_width: usize) -> (width: usize)
    ensures
        width == clip(line_width(message_width as nat, module_width as nat)),
{
    message_width.saturating_add(module_width).saturating_add(LEVEL_WIDTH).saturating_add(
        TIME_WIDTH,
    ).saturating_add(SEPARATOR_WIDTH * 3)
}

/// Width of the line of `record`; the greatest `usize` where the width is beyond it.
pub fn width_of(record: &Record) -> (width: usize)
    ensures
        width == clip(record_width(record@)),
{
    line_width_of(text_width(record.message.as_str()), text_width(record.module.as_str()))
}

/// View used for debugging, showing logs.
pub struct DebugView {
    log_filter: LevelFilter,
    module_filter: ModuleFilter,
}

impl View for DebugView {
    type V = ViewFilter;

    closed spec fn view(&self) -> ViewFilter {
        ViewFilter { threshold: self.log_filter, source: self.module_filter@ }
    }
}

impl Default for DebugView {
    fn default() -> (view: DebugView)
        ensures
            view@ == (ViewFilter { threshold: LevelFilter::Off, source: None }),
    {
        DebugView::new()
    }
}

impl DebugView {
    /// Creates a new DebugView: no threshold is set, and it reads the primary store.
    pub fn new() -> (view: DebugView)
        ensures
            view@ == (ViewFilter { threshold: LevelFilter::Off, source: None }),
    {
        DebugView { log_filter: LevelFilter::Off, module_filter: ModuleFilter::All }
    }

    /// Updates the maximum log level of logs displayed within the DebugView
    pub fn set_filter(&mut self, new_filter: LevelFilter)
        ensures
            final(self)@ == (ViewFilter { threshold: new_filter, source: old(self)@.source }),
    {
        self.log_filter = new_filter;
    }

    /// Updates the store whose logs are displayed within the DebugView
    pub fn set_module(&mut self, new_filter: ModuleFilter)
        ensures
            final(self)@ == (ViewFilter {
                threshold: old(self)@.threshold,
                source: new_filter@,
            }),
    {
        self.module_filter = new_filter;
    }

    /// The threshold that the view is set to.
    pub fn filter(&self) -> (threshold: LevelFilter)
        ensures
            threshold == self@.threshold,
    {
        self.log_filter
    }

    /// The store that the view is set to read.
    pub fn module(&self) -> (module: &ModuleFilter)
        ensures
            module@ == self@.source,
    {
        &self.module_filter
    }

    /// The records of `logs` that a viewport of `height` rows shows, from
    /// top to bottom: only the last logs are kept, what doesn't fit is skipped.
    pub fn draw_logs(&self, logs: &BoundedLogStore, height: usize) -> (lines: Vec<Record>)
        requires
            logs.wf(),
        ensures
            views(lines@) == visible_lines(logs@, height as nat, self@.threshold),
    {
        let len = logs.len();
        let skipped = len.saturating_sub(height);
        let mut lines: Vec<Record> = Vec::new();
        let mut i: usize = skipped;
        proof {
            reveal(Seq::filter);
            assert(logs@.subrange(skipped as int, i as int) =~= Seq::<RecordView>::empty());
            assert(views(lines@) =~= Seq::<RecordView>::empty());
        }
        while i < len
            invariant
                logs.wf(),
                len == logs@.len(),
                skipped <= i <= len,
                skipped == viewport_skip(len as nat, height as nat),
                views(lines@) == logs@.subrange(skipped as int, i as int).filter(
                    shown(self@.threshold),
                ),
            decreases len - i,
        {
            let ghost seen = logs@.subrange(skipped as int, i as int);
            let ghost before = lines@;
            match logs.get(i) {
                Some(record) => {
                    proof {
                        seen.lemma_filter_push(record@, shown(self@.threshold));
                        assert(seen.push(record@) =~= logs@.subrange(skipped as int, i + 1));
                    }
                    if record_above_set_filter(record.level, self.log_filter) {
                        let copy = record.clone();
                        lines.push(copy);
                        assert(views(lines@) =~= views(before).push(copy@));
                    }
                },
                None => {},
            }
            i = i + 1;
        }
        assert(logs@.subrange(skipped as int, len as int) =~= skip_first(logs@, skipped as nat));
        lines
    }

    /// The room that the view asks for: as many rows as the primary store of
    /// `sink` holds records, and the width of its widest line, or one column
    /// where the store is empty.
    pub fn required_size(&self, sink: &CaptureSink) -> (size: Vec2)
        requires
            sink.wf(),
        ensures
            size.y == sink@.primary.len(),
            size.x == if sink@.primary.len() == 0 {
                1
            } else {
                clip(widest(sink@.primary))
            },
    {
        let logs = sink.logs();
        let h = logs.len();
        // The longest line sets the width
        let mut w: usize = 0;
        let mut i: usize = 0;
        while i < h
            invariant
                logs.wf(),
                h == logs@.len(),
                i <= h,
                w == clip(widest(logs@.take(i as int))),
            decreases h - i,
        {
            match logs.get(i) {
                Some(record) => {
                    assert(logs@.take(i + 1).drop_last() =~= logs@.take(i as int));
                    let width = width_of(record);
                    if width > w {
                        w = width;
                    }
                },
                None => {},
            }
            i = i + 1;
        }
        assert(logs@.take(h as int) =~= logs@);
        if h == 0 {
            w = 1;
        }
        Vec2 { x: w, y: h }
    }

    /// The records that a viewport of `height` rows shows of the store that
    /// the view reads from `sink`, from top to bottom.
    pub fn draw(&self, sink: &CaptureSink, height: usize) -> (lines: Vec<Record>)
        requires
            sink.wf(),
        ensures
            views(lines@) == visible_lines(self@.selected(sink@), height as nat, self@.threshold),
    {
        match &self.module_filter {
            ModuleFilter::All => self.draw_logs(sink.logs(), height),
            ModuleFilter::Module(name) => match sink.module_logs(name.as_str()) {
                Some(logs) => self.draw_logs(logs, height),
                None => {
                    let lines: Vec<Record> = Vec::new();
                    proof {
                        reveal(Seq::filter);
                        assert(views(lines@) =~= Seq::<RecordView>::empty());
                    }
                    lines
                },
            },
        }
    }
}

} // verus!
