use vstd::prelude::*;

verus! {

#[verifier::external_type_specification]
#[verifier::external_body]
pub struct ExMetadata<'a>(log::Metadata<'a>);

#[verifier::external_type_specification]
#[verifier::external_body]
pub struct ExRecord<'a>(log::Record<'a>);

#[verifier::external_type_specification]
#[verifier::external_body]
pub struct ExSetLoggerError(log::SetLoggerError);

/// The verbosity of a log record, from the most to the least severe.
#[derive(Clone, Copy, PartialEq, Eq, Structural, Debug)]
pub enum Level {
    Error,
    Warn,
    Info,
    Debug,
    Trace,
}

/// The severities that the middleware's logger writes.
#[derive(Clone, Copy, PartialEq, Eq, Structural, Debug)]
pub enum Severity {
    Debug,
    Info,
    Warn,
    Error,
}

/// How verbose a level is: 1 for `Error` up to 5 for `Trace`.
pub open spec fn verbosity(level: Level) -> nat {
    match level {
        Level::Error => 1,
        Level::Warn => 2,
        Level::Info => 3,
        Level::Debug => 4,
        Level::Trace => 5,
    }
}

/// The severity a record of `level` is written with: the middleware has no
/// trace severity, so traces are written as debug messages.
pub open spec fn severity_for(level: Level) -> Severity {
    match level {
        Level::Trace => Severity::Debug,
        Level::Debug => Severity::Debug,
        Level::Info => Severity::Info,
        Level::Warn => Severity::Warn,
        Level::Error => Severity::Error,
    }
}

/// The severity a record of `level` is written with.
pub fn severity_of(level: Level) -> (r: Severity)
    ensures
        r == severity_for(level),
{
    match level {
        Level::Trace => Severity::Debug,
        Level::Debug => Severity::Debug,
        Level::Info => Severity::Info,
        Level::Warn => Severity::Warn,
        Level::Error => Severity::Error,
    }
}

/// Whether records of `level` are written: every level up to `Trace` is.
pub fn is_enabled(level: Level) -> (r: bool)
    ensures
        r == (verbosity(level) <= verbosity(Level::Trace)),
{
    match level {
        Level::Error | Level::Warn | Level::Info | Level::Debug | Level::Trace => true,
    }
}

/// Where the logger's records go: the middleware's logger for a node.
pub trait LogSink: Send + Sync {
    /// Writes one message with the given severity.
    fn emit(&self, severity: Severity, text: &str);
}

/// A logger for the `log` facade that writes every record to a sink, with
/// the severity that its level maps to.
pub struct Logger<S> {
    sink: S,
}

impl<S: LogSink> Logger<S> {
    /// The sink that records go to.
    pub closed spec fn sink(&self) -> S {
        self.sink
    }

    /// A logger writing to `sink`.
    pub fn new(sink: S) -> (r: Self)
        ensures
            r.sink() == sink,
    {
        Logger { sink }
    }
}

/// Relies on log::Metadata::level: the level of the record being asked about.
#[verifier::external_body]
fn level_of_metadata(metadata: &log::Metadata) -> (r: Level) {
    match metadata.level() {
        log::Level::Error => Level::Error,
        log::Level::Warn => Level::Warn,
        log::Level::Info => Level::Info,
        log::Level::Debug => Level::Debug,
        log::Level::Trace => Level::Trace,
    }
}

/// Relies on log::Record::level: the level of the record.
#[verifier::external_body]
fn level_of_record(record: &log::Record) -> (r: Level) {
    match record.level() {
        log::Level::Error => Level::Error,
        log::Level::Warn => Level::Warn,
        log::Level::Info => Level::Info,
        log::Level::Debug => Level::Debug,
        log::Level::Trace => Level::Trace,
    }
}

/// Relies on log::Record::args: the record's message, formatted.
#[verifier::external_body]
fn text_of_record(record: &log::Record) -> (r: String) {
    format!("{}", record.args())
}

/// Relies on log::set_max_level: records above `level` are filtered out by
/// the facade from now on.
#[verifier::external_body]
fn set_max_level(level: Level) {
    let filter = match level {
        Level::Error => log::LevelFilter::Error,
        Level::Warn => log::LevelFilter::Warn,
        Level::Info => log::LevelFilter::Info,
        Level::Debug => log::LevelFilter::Debug,
        Level::Trace => log::LevelFilter::Trace,
    };
    log::set_max_level(filter)
}

/// Relies on log::set_boxed_logger: installs the process's logger, or fails
/// if one is installed already.
#[verifier::external_body]
fn install_logger<S: LogSink + 'static>(logger: Logger<S>) -> (r: Result<(), log::SetLoggerError>) {
    log::set_boxed_logger(Box::new(logger))
}

impl<S: LogSink> log::Log for Logger<S> {
    fn enabled(&self, metadata: &log::Metadata) -> bool {
        is_enabled(level_of_metadata(metadata))
    }

    fn log(&self, record: &log::Record) {
        let level = level_of_record(record);
        if is_enabled(level) {
            let text = text_of_record(record);
            self.sink.emit(severity_of(level), text.as_str());
        }
    }

    fn flush(&self) {
    }
}

/// Installs a logger writing to `sink` as the process's logger, with every
/// level up to `Trace` let through. Fails if a logger is installed already.
pub fn init_logger<S: LogSink + 'static>(sink: S) -> (r: Result<(), log::SetLoggerError>) {
    set_max_level(Level::Trace);
    install_logger(Logger::new(sink))
}

} // verus!
