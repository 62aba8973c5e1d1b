//! The logger: where a record goes.

use crate::logger::buffer::{init_buffer, LogBuffer, SinkModel};
use crate::logger::config::{text_or, Config, FinalConfig};
use crate::logger::model::{rfc3339_utc, LogEntry, LogLevel};
use vstd::prelude::*;
use vstd::string::*;

verus! {

/// The logger's settings.
#[derive(Debug)]
pub struct Logger {
    pub config: FinalConfig,
}

/// What is to be done with a record.
#[derive(Debug)]
pub enum LogAction {
    /// Hand the record to the buffer of the log file.
    Enqueue(LogEntry),
    /// Print this line on standard output.
    Print(String),
}

/// The path of the log file: the file's name with the extension of the log
/// type.
pub open spec fn log_file_path(config: FinalConfig) -> Seq<char> {
    if config.is_json() {
        config.file_name@ + ".json"@
    } else {
        config.file_name@ + ".txt"@
    }
}

/// Sets the logger up. Where records go to a file, the buffer of that file
/// comes with it: nothing waits in it, and the time of its last batch is
/// `now`. A log type other than `json` and `txt` cannot be logged to a file.
pub fn init_logger(config: FinalConfig, now: u64) -> (made: (Logger, Option<LogBuffer>))
    requires
        config.to_file ==> config.has_known_log_type(),
    ensures
        made.0.config == config,
        made.1 is Some <==> config.to_file,
        made.1 matches Some(buffer) ==> {
            &&& buffer.file_path@ == log_file_path(config)
            &&& buffer.is_json == config.is_json()
            &&& buffer@ == (SinkModel { pending: Seq::empty(), last_flush: now })
        },
{
    let buffer = if config.to_file {
        let json = String::from_str("json");
        let is_json: bool = config.log_type == json;
        let mut file_path = config.file_name.clone();
        if is_json {
            file_path.append(".json");
        } else {
            file_path.append(".txt");
        }
        Some(init_buffer(file_path, is_json, now))
    } else {
        None
    };
    (Logger { config }, buffer)
}

/// The settings in force, as texts.
pub struct Settings {
    pub log_type: Seq<char>,
    pub file_name: Seq<char>,
    pub min_level: Seq<char>,
    pub to_file: bool,
}

/// The settings in force: those that were read, with the defaults filled
/// in, or else lines of text on standard output.
pub open spec fn chosen(loaded: Option<Config>) -> Settings {
    match loaded {
        Some(given) => Settings {
            log_type: text_or(given.log_type, "txt"@),
            file_name: text_or(given.file_name, "log"@),
            min_level: text_or(given.min_level, "info"@),
            to_file: match given.to_file {
                Some(to_file) => to_file,
                None => true,
            },
        },
        None => Settings {
            log_type: "txt"@,
            file_name: "grumpy_clippy_log"@,
            min_level: "info"@,
            to_file: false,
        },
    }
}

/// Whether a logger can be set up: records that go to a file need a known
/// log type.
pub open spec fn can_start(loaded: Option<Config>) -> bool {
    chosen(loaded).to_file ==> (chosen(loaded).log_type == "json"@ || chosen(loaded).log_type
        == "txt"@)
}

/// Sets the logger up from the settings that were read, or from the
/// fallback settings where none could be read. `None` where records are to
/// go to a file and the log type is not known.
pub fn initialize_logger(loaded: Option<Config>, now: u64) -> (made: Option<
    (Logger, Option<LogBuffer>),
>)
    ensures
        made is Some <==> can_start(loaded),
        made matches Some(pair) ==> {
            &&& pair.0.config.log_type@ == chosen(loaded).log_type
            &&& pair.0.config.file_name@ == chosen(loaded).file_name
            &&& pair.0.config.min_level@ == chosen(loaded).min_level
            &&& pair.0.config.to_file == chosen(loaded).to_file
            &&& pair.1 is Some <==> chosen(loaded).to_file
            &&& pair.1 matches Some(buffer) ==> {
                &&& buffer.file_path@ == log_file_path(pair.0.config)
                &&& buffer.is_json == pair.0.config.is_json()
                &&& buffer@ == (SinkModel { pending: Seq::empty(), last_flush: now })
            }
        },
{
    let settings = match loaded {
        Some(given) => given.finalize(),
        None => Config::fallback().finalize(),
    };
    if settings.to_file && !settings.knows_log_type() {
        None
    } else {
        Some(init_logger(settings, now))
    }
}

/// Whether `action` is what is done with `entry` under `config`: the record
/// goes to the buffer where records go to a file, and is printed otherwise,
/// as a JSON object where the log type is `json` and as a line of text where
/// it is not.
pub open spec fn routed(config: FinalConfig, entry: LogEntry, action: LogAction) -> bool {
    if config.to_file {
        action == LogAction::Enqueue(entry)
    } else {
        match action {
            LogAction::Print(line) => line@ == if config.is_json() {
                entry.json_text()
            } else {
                entry.format_text()
            },
            LogAction::Enqueue(_) => false,
        }
    }
}

impl Logger {
    /// Says what is done with `entry`.
    pub fn route(&self, entry: LogEntry) -> (action: LogAction)
        ensures
            routed(self.config, entry, action),
    {
        if self.config.to_file {
            LogAction::Enqueue(entry)
        } else {
            let json = String::from_str("json");
            if self.config.log_type == json {
                LogAction::Print(entry.to_json())
            } else {
                LogAction::Print(entry.format())
            }
        }
    }
}

/// Makes a record of `message` at the time that lies `secs` seconds and
/// `nanos` nanoseconds after the start of 1970 in UTC, and says what is done
/// with it. `None` where that is no time that can be written.
pub fn log(logger: &Logger, level: LogLevel, message: String, secs: i64, nanos: u32) -> (action:
    Option<LogAction>)
    ensures
        match rfc3339_utc(secs, nanos) {
            Some(timestamp) => action matches Some(done) && exists|entry: LogEntry|
                entry.level == level && entry.message == message && entry.timestamp@
                    == timestamp && #[trigger] routed(logger.config, entry, done),
            None => action is None,
        },
{
    match LogEntry::new(level, message, secs, nanos) {
        Some(entry) => {
            let done = logger.route(entry);
            proof {
                assert(routed(logger.config, entry, done));
            }
            Some(done)
        },
        None => None,
    }
}

} // verus!
