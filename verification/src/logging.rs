//! What the library logs: each helper builds the record; writing it out is
//! the caller's part.

use crate::strings::{decimal_chars, decimal_string, same_text};
use vstd::prelude::*;
use vstd::string::*;

verus! {

/// How the log is configured.
#[derive(Debug, PartialEq, Eq)]
pub struct LoggingConfig {
    pub level: String,
    pub log_file: Option<String>,
    pub console_output: bool,
}

impl LoggingConfig {
    /// Level `info`, no file, output to the console.
    pub fn default() -> (r: LoggingConfig)
        ensures
            r.level@ == "info"@,
            r.log_file is None,
            r.console_output,
    {
        LoggingConfig { level: String::from_str("info"), log_file: None, console_output: true }
    }
}

/// The severity of a log record.
#[derive(Debug, Clone, Copy, PartialEq, Eq, Structural)]
pub enum LogLevel {
    Error,
    Warn,
    Info,
    Debug,
}

/// One field of a log record: a name and a value.
#[derive(Debug, PartialEq, Eq)]
pub struct LogField {
    pub name: String,
    pub value: String,
}

impl View for LogField {
    type V = (Seq<char>, Seq<char>);

    open spec fn view(&self) -> (Seq<char>, Seq<char>) {
        (self.name@, self.value@)
    }
}

impl DeepView for LogField {
    type V = (Seq<char>, Seq<char>);

    open spec fn deep_view(&self) -> (Seq<char>, Seq<char>) {
        self@
    }
}

/// A log record: severity, message and fields.
#[derive(Debug, PartialEq, Eq)]
pub struct LogRecord {
    pub level: LogLevel,
    pub message: String,
    pub fields: Vec<LogField>,
}

/// A log record as plain values.
pub struct LogView {
    pub level: LogLevel,
    pub message: Seq<char>,
    pub fields: Seq<(Seq<char>, Seq<char>)>,
}

impl View for LogRecord {
    type V = LogView;

    open spec fn view(&self) -> LogView {
        LogView { level: self.level, message: self.message@, fields: self.fields.deep_view() }
    }
}

/// The message of a plain record: the text, behind its context in square
/// brackets where it has one.
pub open spec fn with_context(message: Seq<char>, context: Option<Seq<char>>) -> Seq<char> {
    match context {
        Some(c) => "["@ + c + "] "@ + message,
        None => message,
    }
}

/// The view of an optional text.
pub open spec fn opt_str_view(s: Option<&str>) -> Option<Seq<char>> {
    match s {
        Some(t) => Some(t@),
        None => None,
    }
}

/// A field that is there only where its value is.
pub open spec fn optional_field(name: Seq<char>, value: Option<Seq<char>>) -> Seq<
    (Seq<char>, Seq<char>),
> {
    match value {
        Some(v) => seq![(name, v)],
        None => Seq::empty(),
    }
}

fn plain(level: LogLevel, message: &str, context: Option<&str>) -> (r: LogRecord)
    ensures
        r@ == (LogView {
            level,
            message: with_context(message@, opt_str_view(context)),
            fields: Seq::empty(),
        }),
{
    let text = match context {
        Some(c) => {
            let mut t = String::from_str("[");
            t.append(c);
            t.append("] ");
            t.append(message);
            t
        },
        None => String::from_str(message),
    };
    let r = LogRecord { level, message: text, fields: Vec::new() };
    assert(r.fields.deep_view() =~= Seq::<(Seq<char>, Seq<char>)>::empty());
    r
}

fn field(name: &str, value: &str) -> (r: LogField)
    ensures
        r@ == (name@, value@),
{
    LogField { name: String::from_str(name), value: String::from_str(value) }
}

/// A warning.
pub fn log_warning(message: &str, context: Option<&str>) -> (r: LogRecord)
    ensures
        r@ == (LogView {
            level: LogLevel::Warn,
            message: with_context(message@, opt_str_view(context)),
            fields: Seq::empty(),
        }),
{
    plain(LogLevel::Warn, message, context)
}

/// A piece of information.
pub fn log_info(message: &str, context: Option<&str>) -> (r: LogRecord)
    ensures
        r@ == (LogView {
            level: LogLevel::Info,
            message: with_context(message@, opt_str_view(context)),
            fields: Seq::empty(),
        }),
{
    plain(LogLevel::Info, message, context)
}

/// A note for debugging.
pub fn log_debug(message: &str, context: Option<&str>) -> (r: LogRecord)
    ensures
        r@ == (LogView {
            level: LogLevel::Debug,
            message: with_context(message@, opt_str_view(context)),
            fields: Seq::empty(),
        }),
{
    plain(LogLevel::Debug, message, context)
}

/// The start of an operation.
pub fn log_operation_start(operation: &str, details: Option<&str>) -> (r: LogRecord)
    ensures
        r@ == (LogView {
            level: LogLevel::Info,
            message: "Operation started"@,
            fields: seq![("operation"@, operation@)] + optional_field(
                "details"@,
                opt_str_view(details),
            ),
        }),
{
    let mut fields: Vec<LogField> = Vec::new();
    fields.push(field("operation", operation));
    match details {
        Some(d) => fields.push(field("details", d)),
        None => {},
    }
    assert(fields.deep_view() =~= seq![("operation"@, operation@)] + optional_field(
        "details"@,
        opt_str_view(details),
    ));
    LogRecord { level: LogLevel::Info, message: String::from_str("Operation started"), fields }
}

/// The success of an operation, with the time it took.
pub fn log_operation_success(operation: &str, duration_ms: u64, details: Option<&str>) -> (r:
    LogRecord)
    ensures
        r@ == (LogView {
            level: LogLevel::Info,
            message: "Operation completed successfully"@,
            fields: seq![
                ("operation"@, operation@),
                ("duration_ms"@, decimal_chars(duration_ms as nat)),
            ] + optional_field("details"@, opt_str_view(details)),
        }),
{
    let mut fields: Vec<LogField> = Vec::new();
    fields.push(field("operation", operation));
    let d = decimal_string(duration_ms);
    fields.push(field("duration_ms", d.as_str()));
    match details {
        Some(x) => fields.push(field("details", x)),
        None => {},
    }
    assert(fields.deep_view() =~= seq![
        ("operation"@, operation@),
        ("duration_ms"@, decimal_chars(duration_ms as nat)),
    ] + optional_field("details"@, opt_str_view(details)));
    LogRecord {
        level: LogLevel::Info,
        message: String::from_str("Operation completed successfully"),
        fields,
    }
}

/// An operation on the database.
pub fn log_database_operation(operation: &str, table: &str, id: Option<&str>) -> (r: LogRecord)
    ensures
        r@ == (LogView {
            level: LogLevel::Info,
            message: "Database operation"@,
            fields: seq![("operation"@, operation@), ("table"@, table@)] + optional_field(
                "record_id"@,
                opt_str_view(id),
            ),
        }),
{
    let mut fields: Vec<LogField> = Vec::new();
    fields.push(field("operation", operation));
    fields.push(field("table", table));
    match id {
        Some(x) => fields.push(field("record_id", x)),
        None => {},
    }
    assert(fields.deep_view() =~= seq![("operation"@, operation@), ("table"@, table@)]
        + optional_field("record_id"@, opt_str_view(id)));
    LogRecord { level: LogLevel::Info, message: String::from_str("Database operation"), fields }
}

/// An operation on a file.
pub fn log_file_operation(operation: &str, file_path: &str, file_size: Option<u64>) -> (r:
    LogRecord)
    ensures
        r@ == (LogView {
            level: LogLevel::Info,
            message: "File operation"@,
            fields: seq![("operation"@, operation@), ("file_path"@, file_path@)] + optional_field(
                "file_size"@,
                match file_size {
                    Some(n) => Some(decimal_chars(n as nat)),
                    None => None,
                },
            ),
        }),
{
    let mut fields: Vec<LogField> = Vec::new();
    fields.push(field("operation", operation));
    fields.push(field("file_path", file_path));
    match file_size {
        Some(n) => {
            let d = decimal_string(n);
            fields.push(field("file_size", d.as_str()));
        },
        None => {},
    }
    assert(fields.deep_view() =~= seq![("operation"@, operation@), ("file_path"@, file_path@)]
        + optional_field(
        "file_size"@,
        match file_size {
            Some(n) => Some(decimal_chars(n as nat)),
            None => None,
        },
    ));
    LogRecord { level: LogLevel::Info, message: String::from_str("File operation"), fields }
}

/// The level at which a security event of the given severity is logged.
pub open spec fn severity_level(severity: Seq<char>) -> LogLevel {
    if severity == "critical"@ {
        LogLevel::Error
    } else if severity == "warning"@ {
        LogLevel::Warn
    } else {
        LogLevel::Info
    }
}

/// A security event: an error where it is critical, a warning where it is
/// one, else a piece of information.
pub fn log_security_event(event_type: &str, details: &str, severity: &str) -> (r: LogRecord)
    ensures
        r@ == (LogView {
            level: severity_level(severity@),
            message: "Security event"@,
            fields: seq![
                ("event_type"@, event_type@),
                ("details"@, details@),
                ("severity"@, severity@),
            ],
        }),
{
    let level = if same_text(severity, "critical") {
        LogLevel::Error
    } else if same_text(severity, "warning") {
        LogLevel::Warn
    } else {
        LogLevel::Info
    };
    let mut fields: Vec<LogField> = Vec::new();
    fields.push(field("event_type", event_type));
    fields.push(field("details", details));
    fields.push(field("severity", severity));
    assert(fields.deep_view() =~= seq![
        ("event_type"@, event_type@),
        ("details"@, details@),
        ("severity"@, severity@),
    ]);
    LogRecord { level, message: String::from_str("Security event"), fields }
}

} // verus!
