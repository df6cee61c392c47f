use log_capture::clock::Timestamp;
use log_capture::debug_view::record_above_set_filter;
use log_capture::level::Level;
use log_capture::level::LevelFilter;
use log_capture::logger::init;
use log_capture::logger::init_for_module;
use log_capture::logger::CaptureSink;
use log_capture::logger::InitError;
use log_capture::record::Record;

fn at(secs: i64) -> Timestamp {
    Timestamp { secs, nanos: 0 }
}

fn event(sink: &mut CaptureSink, level: Level, target: &str, message: &str, secs: i64) -> Record {
    sink.on_event_at(level, target, message.to_string(), at(secs));
    Record::new(level, target, message.to_string(), at(secs))
}

fn primary(sink: &CaptureSink) -> Vec<Record> {
    sink.logs().snapshot_iterate(0)
}

fn secondary(sink: &CaptureSink, source: &str) -> Option<Vec<Record>> {
    sink.module_logs(source).map(|store| store.snapshot_iterate(0))
}

#[test]
fn new_sink_is_empty_and_not_installed() {
    let sink = CaptureSink::new();
    assert!(!sink.is_installed());
    assert!(sink.logs().is_empty());
    assert_eq!(sink.logs().capacity(), 1000);
    assert_eq!(sink.list(), Vec::<String>::new());
    assert!(sink.module_logs("net").is_none());
}

#[test]
fn sink_takes_every_severity_and_path() {
    let sink = CaptureSink::new();
    for level in [Level::Error, Level::Warn, Level::Info, Level::Debug, Level::Trace] {
        assert!(sink.enabled(level, "net::tcp"));
        assert!(sink.enabled(level, ""));
    }
}

#[test]
fn init_installs_once() {
    let mut sink = CaptureSink::new();
    assert_eq!(init(&mut sink), Ok(LevelFilter::Trace));
    assert!(sink.is_installed());
    assert_eq!(init(&mut sink), Err(InitError::DoubleInitialization));
    assert!(sink.is_installed());
}

#[test]
fn second_init_keeps_what_was_captured() {
    let mut sink = CaptureSink::with_capacity(4);
    assert!(init_for_module(&mut sink, "net").is_ok());
    let a = event(&mut sink, Level::Info, "net", "a", 1);
    assert_eq!(init(&mut sink), Err(InitError::DoubleInitialization));
    assert_eq!(primary(&sink), vec![a.clone()]);
    assert_eq!(secondary(&sink, "net"), Some(vec![a]));
    assert_eq!(sink.list(), vec!["net".to_string()]);
}

#[test]
fn init_for_module_installs_and_tracks() {
    let mut sink = CaptureSink::new();
    assert_eq!(init_for_module(&mut sink, "net"), Ok(LevelFilter::Trace));
    assert!(sink.is_installed());
    assert_eq!(sink.list(), vec!["net".to_string()]);
    let store = sink.module_logs("net").unwrap();
    assert!(store.is_empty());
    assert_eq!(store.capacity(), 1000);
}

#[test]
fn init_for_module_fails_on_an_installed_sink() {
    let mut sink = CaptureSink::new();
    assert!(init(&mut sink).is_ok());
    assert_eq!(init_for_module(&mut sink, "net"), Err(InitError::DoubleInitialization));
    assert_eq!(sink.list(), Vec::<String>::new());
    assert!(sink.module_logs("net").is_none());
}

#[test]
fn init_for_module_twice_fails_the_second_time() {
    let mut sink = CaptureSink::new();
    assert!(init_for_module(&mut sink, "net").is_ok());
    assert_eq!(init_for_module(&mut sink, "ui"), Err(InitError::DoubleInitialization));
    assert_eq!(sink.list(), vec!["net".to_string()]);
}

#[test]
fn event_goes_to_the_primary_store() {
    let mut sink = CaptureSink::new();
    let a = event(&mut sink, Level::Debug, "ui::widget", "drawn", 5);
    assert_eq!(a.module, "ui");
    assert_eq!(primary(&sink), vec![a]);
}

#[test]
fn event_of_a_tracked_source_goes_to_both_stores() {
    let mut sink = CaptureSink::new();
    sink.register("net");
    let a = event(&mut sink, Level::Info, "net::tcp", "open", 1);
    let b = event(&mut sink, Level::Info, "ui", "click", 2);
    let c = event(&mut sink, Level::Warn, "net", "slow", 3);
    assert_eq!(primary(&sink), vec![a.clone(), b, c.clone()]);
    assert_eq!(secondary(&sink, "net"), Some(vec![a, c]));
}

#[test]
fn events_before_registration_stay_in_the_primary_store_only() {
    let mut sink = CaptureSink::new();
    let a = event(&mut sink, Level::Info, "net", "early", 1);
    sink.register("net");
    let b = event(&mut sink, Level::Info, "net", "late", 2);
    assert_eq!(primary(&sink), vec![a, b.clone()]);
    assert_eq!(secondary(&sink, "net"), Some(vec![b]));
}

#[test]
fn stores_evict_apart_from_each_other() {
    let mut sink = CaptureSink::with_capacity(2);
    sink.register("net");
    let a = event(&mut sink, Level::Info, "net", "a", 1);
    let _b = event(&mut sink, Level::Info, "ui", "b", 2);
    let c = event(&mut sink, Level::Info, "ui", "c", 3);
    let d = event(&mut sink, Level::Info, "net", "d", 4);
    assert_eq!(primary(&sink), vec![c, d.clone()]);
    assert_eq!(secondary(&sink, "net"), Some(vec![a, d]));
}

#[test]
fn capacity_two_scenario() {
    let mut sink = CaptureSink::with_capacity(2);
    let _a = event(&mut sink, Level::Error, "ui", "A", 1);
    sink.register("net");
    let b = event(&mut sink, Level::Info, "net", "B", 2);
    let c = event(&mut sink, Level::Warn, "net", "C", 3);
    assert_eq!(primary(&sink), vec![b.clone(), c.clone()]);
    assert_eq!(secondary(&sink, "net"), Some(vec![b, c.clone()]));
    let visible: Vec<Record> = secondary(&sink, "net")
        .unwrap()
        .into_iter()
        .filter(|record| record_above_set_filter(record.level, LevelFilter::Warn))
        .collect();
    assert_eq!(visible, vec![c]);
}

#[test]
fn registering_twice_leaves_the_sink_as_registering_once() {
    let mut once = CaptureSink::with_capacity(3);
    once.register("net");
    let mut twice = CaptureSink::with_capacity(3);
    twice.register("net");
    twice.register("net");
    assert_eq!(twice.list(), once.list());
    assert_eq!(secondary(&twice, "net"), secondary(&once, "net"));
    assert_eq!(primary(&twice), primary(&once));
}

#[test]
fn sink_without_room_captures_nothing() {
    let mut sink = CaptureSink::with_capacity(0);
    sink.register("net");
    sink.on_event_at(Level::Info, "net", "a".to_string(), at(1));
    assert_eq!(primary(&sink), vec![]);
    assert_eq!(secondary(&sink, "net"), Some(vec![]));
}

#[test]
fn event_is_stamped_when_it_is_captured() {
    let mut sink = CaptureSink::new();
    sink.register("net");
    sink.on_event(Level::Info, "net::tcp", "hello".to_string());
    let records = primary(&sink);
    assert_eq!(records.len(), 1);
    assert_eq!(records[0].level, Level::Info);
    assert_eq!(records[0].module, "net");
    assert_eq!(records[0].message, "hello");
    // The clock of this machine stands after the year 2001.
    assert!(records[0].time.secs > 1_000_000_000);
    assert!(records[0].time.nanos < 2_000_000_000);
    assert_eq!(secondary(&sink, "net"), Some(records));
}

#[test]
fn flush_changes_nothing() {
    let mut sink = CaptureSink::with_capacity(2);
    let a = event(&mut sink, Level::Info, "net", "a", 1);
    sink.flush();
    assert_eq!(primary(&sink), vec![a]);
}

#[test]
fn capture_ignores_whether_the_sink_is_installed() {
    let mut sink = CaptureSink::with_capacity(4);
    let a = event(&mut sink, Level::Trace, "x", "before", 1);
    assert!(init(&mut sink).is_ok());
    let b = event(&mut sink, Level::Trace, "x", "after", 2);
    assert_eq!(primary(&sink), vec![a, b]);
}
