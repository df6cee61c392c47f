use log_capture::clock::Timestamp;
use log_capture::level::Level;
use log_capture::record::Record;
use log_capture::store::BoundedLogStore;
use log_capture::store::DEFAULT_CAPACITY;

fn numbered(n: usize) -> Record {
    Record::new(
        Level::Info,
        "store::test",
        format!("record {}", n),
        Timestamp { secs: n as i64, nanos: 0 },
    )
}

fn filled(capacity: usize, count: usize) -> BoundedLogStore {
    let mut store = BoundedLogStore::new(capacity);
    for n in 0..count {
        store.append(numbered(n));
    }
    store
}

fn numbers(from: usize, to: usize) -> Vec<Record> {
    (from..to).map(numbered).collect()
}

#[test]
fn new_store_is_empty() {
    let store = BoundedLogStore::new(4);
    assert_eq!(store.len(), 0);
    assert!(store.is_empty());
    assert_eq!(store.capacity(), 4);
    assert_eq!(store.snapshot_iterate(0), Vec::<Record>::new());
    assert!(store.get(0).is_none());
}

#[test]
fn default_capacity_is_a_thousand() {
    assert_eq!(DEFAULT_CAPACITY, 1000);
}

#[test]
fn record_keeps_what_it_was_made_of() {
    let record = Record::new(
        Level::Warn,
        "net::tcp::stream",
        "reset by peer".to_string(),
        Timestamp { secs: 1_700_000_000, nanos: 123_000_000 },
    );
    assert_eq!(record.level, Level::Warn);
    assert_eq!(record.module, "net");
    assert_eq!(record.message, "reset by peer");
    assert_eq!(record.time, Timestamp { secs: 1_700_000_000, nanos: 123_000_000 });
}

#[test]
fn record_of_an_empty_path_has_the_unknown_source() {
    let record = Record::new(Level::Info, "", "m".to_string(), Timestamp { secs: 0, nanos: 0 });
    assert_eq!(record.module, "<unknown>");
}

#[test]
fn clone_of_a_record_equals_it() {
    let record = numbered(7);
    assert_eq!(record.clone(), record);
}

#[test]
fn appends_below_capacity_are_all_kept() {
    let store = filled(5, 3);
    assert_eq!(store.len(), 3);
    assert!(!store.is_empty());
    assert_eq!(store.snapshot_iterate(0), numbers(0, 3));
}

#[test]
fn appends_up_to_capacity_are_all_kept() {
    let store = filled(3, 3);
    assert_eq!(store.len(), 3);
    assert_eq!(store.snapshot_iterate(0), numbers(0, 3));
}

#[test]
fn full_store_evicts_the_oldest() {
    let mut store = filled(3, 3);
    store.append(numbered(3));
    assert_eq!(store.len(), 3);
    assert_eq!(store.snapshot_iterate(0), numbers(1, 4));
}

#[test]
fn store_holds_the_last_appended() {
    for capacity in 0..6 {
        for count in 0..12 {
            let store = filled(capacity, count);
            let kept = count.min(capacity);
            assert_eq!(store.len(), kept);
            assert_eq!(store.snapshot_iterate(0), numbers(count - kept, count));
            assert_eq!(store.capacity(), capacity);
        }
    }
}

#[test]
fn store_without_room_stays_empty() {
    let store = filled(0, 3);
    assert_eq!(store.len(), 0);
    assert!(store.is_empty());
    assert_eq!(store.snapshot_iterate(0), Vec::<Record>::new());
}

#[test]
fn store_of_one_keeps_the_newest() {
    let store = filled(1, 4);
    assert_eq!(store.snapshot_iterate(0), numbers(3, 4));
}

#[test]
fn get_counts_from_the_oldest() {
    let store = filled(3, 5);
    assert_eq!(store.get(0), Some(&numbered(2)));
    assert_eq!(store.get(1), Some(&numbered(3)));
    assert_eq!(store.get(2), Some(&numbered(4)));
    assert_eq!(store.get(3), None);
    assert_eq!(store.get(usize::MAX), None);
}

#[test]
fn snapshot_skips_from_the_front() {
    let store = filled(10, 6);
    assert_eq!(store.snapshot_iterate(2), numbers(2, 6));
    assert_eq!(store.snapshot_iterate(5), numbers(5, 6));
}

#[test]
fn snapshot_past_the_end_is_empty() {
    let store = filled(10, 6);
    assert_eq!(store.snapshot_iterate(6), Vec::<Record>::new());
    assert_eq!(store.snapshot_iterate(7), Vec::<Record>::new());
    assert_eq!(store.snapshot_iterate(usize::MAX), Vec::<Record>::new());
}

#[test]
fn snapshot_is_not_changed_by_later_appends() {
    let mut store = filled(3, 3);
    let before = store.snapshot_iterate(0);
    store.append(numbered(3));
    assert_eq!(before, numbers(0, 3));
    assert_eq!(store.snapshot_iterate(0), numbers(1, 4));
}

#[test]
fn snapshot_can_be_taken_again() {
    let store = filled(4, 4);
    assert_eq!(store.snapshot_iterate(1), store.snapshot_iterate(1));
}

#[test]
fn viewport_of_twenty_over_a_thousand_shows_the_last_twenty() {
    let store = filled(1000, 1000);
    assert_eq!(store.len(), 1000);
    let height: usize = 20;
    let skip_count = store.len().saturating_sub(height);
    assert_eq!(skip_count, 980);
    assert_eq!(store.snapshot_iterate(skip_count), numbers(980, 1000));
}

#[test]
fn default_store_keeps_a_thousand_of_more() {
    let store = filled(DEFAULT_CAPACITY, 1005);
    assert_eq!(store.len(), 1000);
    assert_eq!(store.get(0), Some(&numbered(5)));
    assert_eq!(store.get(999), Some(&numbered(1004)));
}
