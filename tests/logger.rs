use log::Log;
use ros2_helpers::logger::{init_logger, is_enabled, severity_of, Level, LogSink, Logger, Severity};
use std::sync::{Arc, Mutex};

struct Recording(Arc<Mutex<Vec<(Severity, String)>>>);

impl LogSink for Recording {
    fn emit(&self, severity: Severity, text: &str) {
        self.0.lock().expect("not poisoned").push((severity, text.to_string()));
    }
}

#[test]
fn levels_map_to_severities() {
    assert_eq!(severity_of(Level::Trace), Severity::Debug);
    assert_eq!(severity_of(Level::Debug), Severity::Debug);
    assert_eq!(severity_of(Level::Info), Severity::Info);
    assert_eq!(severity_of(Level::Warn), Severity::Warn);
    assert_eq!(severity_of(Level::Error), Severity::Error);
}

#[test]
fn every_level_is_enabled() {
    for level in [Level::Error, Level::Warn, Level::Info, Level::Debug, Level::Trace] {
        assert!(is_enabled(level));
    }
}

#[test]
fn logger_writes_records_with_their_severity() {
    let seen = Arc::new(Mutex::new(Vec::new()));
    let logger = Logger::new(Recording(seen.clone()));
    assert!(logger.enabled(&log::Metadata::builder().level(log::Level::Trace).build()));
    logger.log(&log::Record::builder().level(log::Level::Trace).build());
    logger.log(&log::Record::builder().level(log::Level::Warn).build());
    logger.flush();
    let seen = seen.lock().expect("not poisoned");
    assert_eq!(*seen, vec![(Severity::Debug, String::new()), (Severity::Warn, String::new())]);
}

#[test]
fn init_logger_installs_once() {
    let seen = Arc::new(Mutex::new(Vec::new()));
    assert!(init_logger(Recording(seen.clone())).is_ok());
    assert_eq!(log::max_level(), log::LevelFilter::Trace);
    log::logger().log(&log::Record::builder().level(log::Level::Error).build());
    assert_eq!(seen.lock().expect("not poisoned").len(), 1);
    assert!(init_logger(Recording(seen.clone())).is_err());
}
