use log_capture::debug_view::record_above_set_filter;
use log_capture::level::Level;
use log_capture::level::LevelFilter;

const ALL_LEVELS: [Level; 5] = [Level::Error, Level::Warn, Level::Info, Level::Debug, Level::Trace];

#[test]
fn ranks_run_from_error_to_trace() {
    assert_eq!(Level::Error.to_rank(), 1);
    assert_eq!(Level::Warn.to_rank(), 2);
    assert_eq!(Level::Info.to_rank(), 3);
    assert_eq!(Level::Debug.to_rank(), 4);
    assert_eq!(Level::Trace.to_rank(), 5);
}

#[test]
fn error_is_the_most_severe() {
    for level in ALL_LEVELS {
        assert!(Level::Error.is_at_least(level));
        assert!(level.is_at_least(Level::Trace));
    }
    assert!(!Level::Warn.is_at_least(Level::Error));
    assert!(!Level::Trace.is_at_least(Level::Debug));
}

#[test]
fn every_level_is_at_least_itself() {
    for level in ALL_LEVELS {
        assert!(level.is_at_least(level));
    }
}

#[test]
fn filter_names_its_level() {
    assert_eq!(LevelFilter::Off.to_level(), None);
    assert_eq!(LevelFilter::Error.to_level(), Some(Level::Error));
    assert_eq!(LevelFilter::Warn.to_level(), Some(Level::Warn));
    assert_eq!(LevelFilter::Info.to_level(), Some(Level::Info));
    assert_eq!(LevelFilter::Debug.to_level(), Some(Level::Debug));
    assert_eq!(LevelFilter::Trace.to_level(), Some(Level::Trace));
}

#[test]
fn warn_threshold_shows_error_and_warn_only() {
    assert!(record_above_set_filter(Level::Error, LevelFilter::Warn));
    assert!(record_above_set_filter(Level::Warn, LevelFilter::Warn));
    assert!(!record_above_set_filter(Level::Info, LevelFilter::Warn));
    assert!(!record_above_set_filter(Level::Debug, LevelFilter::Warn));
    assert!(!record_above_set_filter(Level::Trace, LevelFilter::Warn));
}

#[test]
fn unset_threshold_shows_everything() {
    for level in ALL_LEVELS {
        assert!(record_above_set_filter(level, LevelFilter::Off));
    }
}

#[test]
fn trace_threshold_shows_everything() {
    for level in ALL_LEVELS {
        assert!(record_above_set_filter(level, LevelFilter::Trace));
    }
}

#[test]
fn error_threshold_shows_errors_only() {
    assert!(record_above_set_filter(Level::Error, LevelFilter::Error));
    for level in [Level::Warn, Level::Info, Level::Debug, Level::Trace] {
        assert!(!record_above_set_filter(level, LevelFilter::Error));
    }
}

#[test]
fn threshold_agrees_with_ranks() {
    for level in ALL_LEVELS {
        for filter in [
            LevelFilter::Error,
            LevelFilter::Warn,
            LevelFilter::Info,
            LevelFilter::Debug,
            LevelFilter::Trace,
        ] {
            let named = filter.to_level().unwrap();
            assert_eq!(record_above_set_filter(level, filter), level.to_rank() <= named.to_rank());
        }
    }
}
