//! Log records as producers issue them, and log entries as the consumer
//! receives them.

use vstd::prelude::*;
use crate::level::Level;

verus! {

/// What a `LogRecord` holds, as mathematical values.
pub struct LogRecordView {
    pub level: Level,
    pub target: Seq<char>,
    pub message: Seq<char>,
    pub file: Option<Seq<char>>,
    pub line: Option<u32>,
}

/// What a `LogEntry` holds, as mathematical values.
pub struct LogEntryView {
    pub level: Seq<char>,
    pub target: Seq<char>,
    pub message: Seq<char>,
    pub file: Option<Seq<char>>,
    pub line: Option<u32>,
}

/// The view of an optional string.
pub open spec fn text_view(text: Option<String>) -> Option<Seq<char>> {
    match text {
        Some(t) => Some(t@),
        None => None,
    }
}

/// The entry under which a record reaches the consumer: the level by its
/// upper-case name, every other field as the producer gave it.
pub open spec fn entry_of(record: LogRecordView) -> LogEntryView {
    LogEntryView {
        level: record.level.name(),
        target: record.target,
        message: record.message,
        file: record.file,
        line: record.line,
    }
}

/// One log record. It is complete when it is made, and no field changes
/// afterwards: the fields are read through the accessors only.
#[derive(Debug)]
pub struct LogRecord {
    level: Level,
    target: String,
    message: String,
    file: Option<String>,
    line: Option<u32>,
}

impl View for LogRecord {
    type V = LogRecordView;

    closed spec fn view(&self) -> LogRecordView {
        LogRecordView {
            level: self.level,
            target: self.target@,
            message: self.message@,
            file: text_view(self.file),
            line: self.line,
        }
    }
}

impl LogRecord {
    /// A record of the given severity, target and rendered message, with the
    /// source file and line where they are known.
    pub fn new(
        level: Level,
        target: String,
        message: String,
        file: Option<String>,
        line: Option<u32>,
    ) -> (record: LogRecord)
        ensures
            record@ == (LogRecordView {
                level,
                target: target@,
                message: message@,
                file: text_view(file),
                line,
            }),
    {
        LogRecord { level, target, message, file, line }
    }

    /// The severity of the record.
    pub fn level(&self) -> (level: Level)
        ensures
            level == self@.level,
    {
        self.level
    }

    /// The subsystem that issued the record.
    pub fn target(&self) -> (target: &str)
        ensures
            target@ == self@.target,
    {
        self.target.as_str()
    }

    /// The rendered message.
    pub fn message(&self) -> (message: &str)
        ensures
            message@ == self@.message,
    {
        self.message.as_str()
    }

    /// The source file in which the record was issued, where known.
    pub fn file(&self) -> (file: Option<&str>)
        ensures
            match file {
                Some(f) => self@.file == Some(f@),
                None => self@.file is None,
            },
    {
        match &self.file {
            Some(f) => Some(f.as_str()),
            None => None,
        }
    }

    /// The source line at which the record was issued, where known.
    pub fn line(&self) -> (line: Option<u32>)
        ensures
            line == self@.line,
    {
        self.line
    }

    /// The place at which the record was issued, where both the file and the
    /// line are known.
    pub fn source_location(&self) -> (location: Option<(&str, u32)>)
        ensures
            match location {
                Some((file, line)) => self@.file == Some(file@) && self@.line == Some(line),
                None => self@.file is None || self@.line is None,
            },
    {
        match (&self.file, self.line) {
            (Some(file), Some(line)) => Some((file.as_str(), line)),
            _ => None,
        }
    }

    /// The entry that the consumer receives for this record.
    pub fn to_entry(&self) -> (entry: LogEntry)
        ensures
            entry@ == entry_of(self@),
    {
        let file = match &self.file {
            Some(f) => Some(f.clone()),
            None => None,
        };
        LogEntry {
            level: self.level.as_str().to_owned(),
            target: self.target.clone(),
            message: self.message.clone(),
            file,
            line: self.line,
        }
    }
}

/// One log entry as handed to the consumer.
#[derive(Debug, Clone)]
pub struct LogEntry {
    /// One of `"ERROR"`, `"WARN"`, `"INFO"`, `"DEBUG"`, `"TRACE"`.
    pub level: String,
    pub target: String,
    pub message: String,
    pub file: Option<String>,
    pub line: Option<u32>,
}

impl View for LogEntry {
    type V = LogEntryView;

    open spec fn view(&self) -> LogEntryView {
        LogEntryView {
            level: self.level@,
            target: self.target@,
            message: self.message@,
            file: text_view(self.file),
            line: self.line,
        }
    }
}

impl Default for LogEntry {
    /// An `ERROR` entry with empty target and message and no source location.
    fn default() -> (entry: LogEntry)
        ensures
            entry@ == (LogEntryView {
                level: "ERROR"@,
                target: Seq::<char>::empty(),
                message: Seq::<char>::empty(),
                file: None,
                line: None,
            }),
    {
        LogEntry {
            level: "ERROR".to_owned(),
            target: String::new(),
            message: String::new(),
            file: None,
            line: None,
        }
    }
}

} // verus!
