//! A log record and its two written forms.

use vstd::prelude::*;
use vstd::string::*;

verus! {

/// The severity of a record.
#[derive(Debug, Clone, Copy, PartialEq, Eq, Structural)]
pub enum LogLevel {
    Info,
    Warn,
    Error,
    Debug,
}

/// One record: its severity, its message, and the time at which it was
/// made, written as RFC 3339 says.
#[derive(Debug, Clone)]
pub struct LogEntry {
    pub level: LogLevel,
    pub message: String,
    pub timestamp: String,
}

/// What `serde_json::to_string` writes for a text: the text as a JSON
/// string, between double quotes and with JSON's escapes.
pub uninterp spec fn json_quoted(text: Seq<char>) -> Seq<char>;

/// Calls `serde_json::to_string` on a text. The result is a function of the
/// text alone and is named `json_quoted`. The call is documented to fail
/// only where the value's own `Serialize` fails or where a map has a key
/// that is no string; a text is neither: it is written by `serialize_str`
/// into a `Vec<u8>`, whose only errors would be errors of the writer.
#[verifier::external_body]
fn json_string(text: &str) -> (quoted: String)
    ensures
        quoted@ == json_quoted(text@),
{
    serde_json::to_string(text).unwrap()
}

/// The time that lies `secs` seconds and `nanos` nanoseconds after the
/// start of 1970 in UTC, written as RFC 3339 says, as
/// `chrono::DateTime::from_timestamp` and `DateTime::to_rfc3339` give it.
/// `None` where `from_timestamp` gives no time: the seconds are out of its
/// range or the nanoseconds are no nanoseconds of a second.
pub uninterp spec fn rfc3339_utc(secs: i64, nanos: u32) -> Option<Seq<char>>;

/// Makes the time with `chrono::DateTime::from_timestamp` and writes it
/// with `DateTime::to_rfc3339`. The result is a function of the two numbers
/// alone and is named `rfc3339_utc`. Neither call reads the clock, and
/// neither panics: the first gives `None` for what it cannot represent, the
/// second writes into a `String`.
#[verifier::external_body]
fn rfc3339(secs: i64, nanos: u32) -> (written: Option<String>)
    ensures
        match rfc3339_utc(secs, nanos) {
            Some(expected) => written matches Some(text) && text@ == expected,
            None => written is None,
        },
{
    match chrono::DateTime::from_timestamp(secs, nanos) {
        Some(time) => Some(time.to_rfc3339()),
        None => None,
    }
}

impl LogLevel {
    /// The variant's name.
    pub open spec fn name_text(self) -> Seq<char> {
        match self {
            LogLevel::Info => "Info"@,
            LogLevel::Warn => "Warn"@,
            LogLevel::Error => "Error"@,
            LogLevel::Debug => "Debug"@,
        }
    }

    /// The variant's name, as it is written in a record.
    pub fn name(&self) -> (name: &'static str)
        ensures
            name@ == self.name_text(),
    {
        match self {
            LogLevel::Info => "Info",
            LogLevel::Warn => "Warn",
            LogLevel::Error => "Error",
            LogLevel::Debug => "Debug",
        }
    }
}

/// A record as a JSON object, from its three texts as they are already
/// quoted.
pub open spec fn json_frame(level: Seq<char>, message: Seq<char>, timestamp: Seq<char>) -> Seq<
    char,
> {
    "{\"level\":"@ + level + ",\"message\":"@ + message + ",\"timestamp\":"@ + timestamp + "}"@
}

impl LogEntry {
    /// A record made at the time that lies `secs` seconds and `nanos`
    /// nanoseconds after the start of 1970 in UTC. `None` where that is no
    /// time that can be written.
    pub fn new(level: LogLevel, message: String, secs: i64, nanos: u32) -> (made: Option<LogEntry>)
        ensures
            match rfc3339_utc(secs, nanos) {
                Some(timestamp) => made matches Some(entry) && entry.level == level
                    && entry.message == message && entry.timestamp@ == timestamp,
                None => made is None,
            },
    {
        match rfc3339(secs, nanos) {
            Some(timestamp) => Some(LogEntry::at(level, message, timestamp)),
            None => None,
        }
    }

    /// A record with the given timestamp.
    pub fn at(level: LogLevel, message: String, timestamp: String) -> (entry: LogEntry)
        ensures
            entry.level == level,
            entry.message == message,
            entry.timestamp == timestamp,
    {
        LogEntry { level, message, timestamp }
    }

    /// The record as a line of text.
    pub open spec fn format_text(self) -> Seq<char> {
        "["@ + self.timestamp@ + "] "@ + self.level.name_text() + ": "@ + self.message@
    }

    /// The record as a JSON object.
    pub open spec fn json_text(self) -> Seq<char> {
        json_frame(
            json_quoted(self.level.name_text()),
            json_quoted(self.message@),
            json_quoted(self.timestamp@),
        )
    }

    /// Writes the record as a line of text: the time between brackets, the
    /// severity, a colon, the message.
    pub fn format(&self) -> (line: String)
        ensures
            line@ == self.format_text(),
    {
        let mut line = String::from_str("[");
        line.append(self.timestamp.as_str());
        line.append("] ");
        line.append(self.level.name());
        line.append(": ");
        line.append(self.message.as_str());
        line
    }

    /// Frames a record as a JSON object with the members `level`, `message`
    /// and `timestamp`, in this order, from the three texts as they are
    /// already quoted.
    pub fn frame_json(level: &str, message: &str, timestamp: &str) -> (object: String)
        ensures
            object@ == json_frame(level@, message@, timestamp@),
    {
        let mut object = String::from_str("{\"level\":");
        object.append(level);
        object.append(",\"message\":");
        object.append(message);
        object.append(",\"timestamp\":");
        object.append(timestamp);
        object.append("}");
        object
    }

    /// Writes the record as a JSON object with the members `level`,
    /// `message` and `timestamp`, in this order.
    pub fn to_json(&self) -> (object: String)
        ensures
            object@ == self.json_text(),
    {
        let level = json_string(self.level.name());
        let message = json_string(self.message.as_str());
        let timestamp = json_string(self.timestamp.as_str());
        LogEntry::frame_json(level.as_str(), message.as_str(), timestamp.as_str())
    }
}

} // verus!
