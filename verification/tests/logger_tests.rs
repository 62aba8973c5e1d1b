use grumpy_clippy::logger::buffer::{init_buffer, SinkAction, SinkEvent, FLUSH_INTERVAL_MS};
use grumpy_clippy::logger::config::Config;
use grumpy_clippy::logger::init_logger;
use grumpy_clippy::logger::model::{LogEntry, LogLevel};
use grumpy_clippy::logger::config::{ConfigError, ConfigFile};
use grumpy_clippy::logger::service::{initialize_logger, log, LogAction};

#[test]
fn test_finalize_with_all_fields() {
    let config = Config {
        log_type: Some("json".to_string()),
        file_name: Some("mylog".to_string()),
        min_level: Some("warn".to_string()),
        to_file: Some(false),
    };
    let final_config = config.finalize();
    assert_eq!(final_config.log_type, "json");
    assert_eq!(final_config.file_name, "mylog");
    assert_eq!(final_config.min_level, "warn");
    assert!(!final_config.to_file);
}

#[test]
fn test_finalize_with_defaults() {
    let config = Config {
        log_type: None,
        file_name: None,
        min_level: None,
        to_file: None,
    };
    let final_config = config.finalize();
    assert_eq!(final_config.log_type, "txt");
    assert_eq!(final_config.file_name, "log");
    assert_eq!(final_config.min_level, "info");
    assert!(final_config.to_file);
}

fn entry(number: usize) -> LogEntry {
    LogEntry::at(
        LogLevel::Info,
        format!("record {}", number),
        "2024-05-01T10:00:00+00:00".to_string(),
    )
}

#[test]
fn entry_is_formatted_as_a_line() {
    let entry = LogEntry::at(
        LogLevel::Warn,
        "disk is nearly full".to_string(),
        "2024-05-01T10:00:00+00:00".to_string(),
    );
    assert_eq!(
        entry.format(),
        "[2024-05-01T10:00:00+00:00] Warn: disk is nearly full"
    );
    assert_eq!(LogLevel::Info.name(), "Info");
    assert_eq!(LogLevel::Error.name(), "Error");
    assert_eq!(LogLevel::Debug.name(), "Debug");
}

#[test]
fn entry_is_written_as_a_json_object() {
    let entry = LogEntry::at(
        LogLevel::Error,
        "he said \"no\"\n".to_string(),
        "2024-05-01T10:00:00+00:00".to_string(),
    );
    assert_eq!(
        entry.to_json(),
        "{\"level\":\"Error\",\"message\":\"he said \\\"no\\\"\\n\",\"timestamp\":\"2024-05-01T10:00:00+00:00\"}"
    );
    let parsed: serde_json::Value = serde_json::from_str(&entry.to_json()).unwrap();
    assert_eq!(parsed["message"], "he said \"no\"\n");
    assert_eq!(parsed["level"], "Error");
}

#[test]
fn json_frame_keeps_the_order_of_the_members() {
    assert_eq!(
        LogEntry::frame_json("\"Info\"", "\"m\"", "\"t\""),
        "{\"level\":\"Info\",\"message\":\"m\",\"timestamp\":\"t\"}"
    );
}

#[test]
fn new_entry_carries_level_message_and_the_time_as_rfc3339() {
    let entry = LogEntry::new(LogLevel::Debug, "started".to_string(), 1_431_648_000, 0).unwrap();
    assert_eq!(entry.level, LogLevel::Debug);
    assert_eq!(entry.message, "started");
    assert_eq!(entry.timestamp, "2015-05-15T00:00:00+00:00");
    let entry = LogEntry::new(LogLevel::Info, "m".to_string(), 0, 500_000_000).unwrap();
    assert_eq!(entry.timestamp, "1970-01-01T00:00:00.500+00:00");
    let entry = LogEntry::new(LogLevel::Info, "m".to_string(), -1, 0).unwrap();
    assert_eq!(entry.timestamp, "1969-12-31T23:59:59+00:00");
    let entry = LogEntry::new(LogLevel::Info, "m".to_string(), 1_700_000_000, 123_456_789);
    assert_eq!(entry.unwrap().timestamp, "2023-11-14T22:13:20.123456789+00:00");
}

#[test]
fn time_that_cannot_be_written_gives_no_entry() {
    assert!(LogEntry::new(LogLevel::Info, "m".to_string(), i64::MAX, 0).is_none());
    assert!(LogEntry::new(LogLevel::Info, "m".to_string(), i64::MIN, 0).is_none());
    assert!(LogEntry::new(LogLevel::Info, "m".to_string(), 0, 2_000_000_000).is_none());
    let (logger, _) = initialize_logger(None, 0).unwrap();
    assert!(log(&logger, LogLevel::Info, "m".to_string(), i64::MAX, 0).is_none());
}

#[test]
fn hundred_entries_then_close_are_all_written_in_order() {
    let mut buffer = init_buffer("log.txt".to_string(), false, 0);
    let mut written: Vec<LogEntry> = Vec::new();
    let mut stopped = false;
    for number in 0..100usize {
        // one record every 130 ms: several batches become due on the way
        let now = (number as u64) * 130;
        match buffer.on_event(SinkEvent::Received(entry(number)), now) {
            SinkAction::Wait => {}
            SinkAction::Flush(batch) => written.extend(batch),
            SinkAction::Finish(_) => panic!("the sink must not end while records come"),
        }
    }
    match buffer.on_event(SinkEvent::Closed, 13_000) {
        SinkAction::Finish(batch) => {
            written.extend(batch);
            stopped = true;
        }
        _ => panic!("closing must end the sink"),
    }
    assert!(stopped);
    assert!(buffer.pending.is_empty());
    assert_eq!(written.len(), 100);
    for (number, record) in written.iter().enumerate() {
        assert_eq!(record.message, format!("record {}", number));
    }
}

#[test]
fn batch_is_due_only_after_the_interval_and_with_records() {
    let mut buffer = init_buffer("log.txt".to_string(), false, 1_000);
    assert!(matches!(
        buffer.on_event(SinkEvent::TimedOut, 1_000 + FLUSH_INTERVAL_MS + 1),
        SinkAction::Wait
    ));
    assert_eq!(buffer.last_flush, 1_000);
    assert!(matches!(
        buffer.on_event(SinkEvent::Received(entry(1)), 2_000),
        SinkAction::Wait
    ));
    assert!(matches!(
        buffer.on_event(SinkEvent::TimedOut, 1_000 + FLUSH_INTERVAL_MS - 1),
        SinkAction::Wait
    ));
    match buffer.on_event(SinkEvent::Received(entry(2)), 1_000 + FLUSH_INTERVAL_MS) {
        SinkAction::Flush(batch) => {
            assert_eq!(batch.len(), 2);
            assert_eq!(batch[0].message, "record 1");
            assert_eq!(batch[1].message, "record 2");
        }
        _ => panic!("the batch is due"),
    }
    assert_eq!(buffer.last_flush, 1_000 + FLUSH_INTERVAL_MS);
    assert!(buffer.pending.is_empty());
    // a clock that went back never makes a batch due
    assert!(matches!(
        buffer.on_event(SinkEvent::Received(entry(3)), 10),
        SinkAction::Wait
    ));
    match buffer.on_event(SinkEvent::Closed, 20) {
        SinkAction::Finish(batch) => assert_eq!(batch.len(), 1),
        _ => panic!("closing must end the sink"),
    }
}

#[test]
fn lines_are_rendered_as_the_buffer_is_set_up() {
    let text = init_buffer("log.txt".to_string(), false, 0);
    let json = init_buffer("log.json".to_string(), true, 0);
    let record = entry(7);
    assert_eq!(
        text.render(&record),
        "[2024-05-01T10:00:00+00:00] Info: record 7\n"
    );
    assert_eq!(
        json.render(&record),
        "{\"level\":\"Info\",\"message\":\"record 7\",\"timestamp\":\"2024-05-01T10:00:00+00:00\"}\n"
    );
}

#[test]
fn logger_to_file_comes_with_a_buffer() {
    let config = Config {
        log_type: Some("json".to_string()),
        file_name: Some("mylog".to_string()),
        min_level: None,
        to_file: Some(true),
    }
    .finalize();
    assert!(config.knows_log_type());
    let (logger, buffer) = init_logger(config, 42);
    let buffer = buffer.expect("records go to a file");
    assert_eq!(buffer.file_path, "mylog.json");
    assert!(buffer.is_json);
    assert_eq!(buffer.last_flush, 42);
    assert!(buffer.pending.is_empty());
    match log(&logger, LogLevel::Info, "hello".to_string(), 1_431_648_000, 0).unwrap() {
        LogAction::Enqueue(record) => {
            assert_eq!(record.level, LogLevel::Info);
            assert_eq!(record.message, "hello");
            assert_eq!(record.timestamp, "2015-05-15T00:00:00+00:00");
        }
        LogAction::Print(_) => panic!("records go to the file"),
    }

    let config = Config {
        log_type: None,
        file_name: None,
        min_level: None,
        to_file: None,
    }
    .finalize();
    let (_, buffer) = init_logger(config, 0);
    assert_eq!(buffer.unwrap().file_path, "log.txt");
}

#[test]
fn logger_without_file_prints() {
    let (logger, buffer) = initialize_logger(None, 0).expect("the fallback settings can start");
    assert!(buffer.is_none());
    assert_eq!(logger.config.file_name, "grumpy_clippy_log");
    assert_eq!(logger.config.log_type, "txt");
    let record = LogEntry::at(LogLevel::Warn, "w".to_string(), "t".to_string());
    match logger.route(record) {
        LogAction::Print(line) => assert_eq!(line, "[t] Warn: w"),
        LogAction::Enqueue(_) => panic!("nothing goes to a file"),
    }

    let json = Config {
        log_type: Some("json".to_string()),
        file_name: None,
        min_level: None,
        to_file: Some(false),
    };
    let (logger, _) = initialize_logger(Some(json), 0).unwrap();
    let record = LogEntry::at(LogLevel::Warn, "w".to_string(), "t".to_string());
    match logger.route(record) {
        LogAction::Print(line) => assert_eq!(
            line,
            "{\"level\":\"Warn\",\"message\":\"w\",\"timestamp\":\"t\"}"
        ),
        LogAction::Enqueue(_) => panic!("nothing goes to a file"),
    }
}

#[test]
fn unknown_log_type_cannot_log_to_a_file() {
    let odd = Config {
        log_type: Some("xml".to_string()),
        file_name: None,
        min_level: None,
        to_file: Some(true),
    };
    assert!(!odd.clone().finalize().knows_log_type());
    assert!(initialize_logger(Some(odd), 0).is_none());
    let odd_on_stdout = Config {
        log_type: Some("xml".to_string()),
        file_name: None,
        min_level: None,
        to_file: Some(false),
    };
    assert!(initialize_logger(Some(odd_on_stdout), 0).is_some());
}

#[test]
fn test_from_file_success() {
    let config = Config::from_file(ConfigFile::Parsed(Config {
        log_type: Some("json".to_string()),
        file_name: Some("myapp".to_string()),
        min_level: Some("error".to_string()),
        to_file: Some(false),
    }))
    .unwrap();
    assert_eq!(config.log_type.unwrap(), "json");
    assert_eq!(config.file_name.unwrap(), "myapp");
    assert_eq!(config.min_level.unwrap(), "error");
    assert_eq!(config.to_file.unwrap(), false);
}

#[test]
fn test_from_file_missing_file() {
    let result = Config::from_file(ConfigFile::Unreadable(
        "No such file or directory (os error 2)".to_string(),
    ));
    assert!(matches!(result, Err(ConfigError::Io(_))));
}

#[test]
fn test_from_file_malformed_toml() {
    let result = Config::from_file(ConfigFile::Malformed("invalid basic string".to_string()));
    assert!(matches!(result, Err(ConfigError::Toml(_))));
}

#[test]
fn printed_record_carries_time_level_and_message() {
    let (logger, _) = initialize_logger(None, 0).unwrap();
    match log(&logger, LogLevel::Error, "it broke".to_string(), 1_431_648_000, 0).unwrap() {
        LogAction::Print(line) => {
            assert_eq!(line, "[2015-05-15T00:00:00+00:00] Error: it broke");
        }
        LogAction::Enqueue(_) => panic!("nothing goes to a file"),
    }
}
