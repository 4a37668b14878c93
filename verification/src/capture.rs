//! Reading a captured event of `tracing` into plain values.

use vstd::prelude::*;
use crate::message::{
    line_or_unknown, mapped_message, text_or_empty, EventRecord, LogMessage, Origin,
};
use crate::platform::is_normal;
use crate::severity::{is_level_code, level_code, Severity};

verus! {

/// One event as `tracing` hands it to a subscriber.
#[verifier::external_type_specification]
#[verifier::external_body]
pub struct ExEvent<'a>(tracing::Event<'a>);

/// The severity that stands for the level in the event's metadata.
pub uninterp spec fn event_level(event: tracing::Event<'_>) -> Severity;

/// The text that `tracing_subscriber`'s JSON visitor renders of the event's
/// fields.
pub uninterp spec fn event_fields_text(event: tracing::Event<'_>) -> Seq<char>;

/// The target in the event's metadata.
pub uninterp spec fn event_target_text(event: tracing::Event<'_>) -> Seq<char>;

/// The source file in the event's metadata, if it names one.
pub uninterp spec fn event_file_text(event: tracing::Event<'_>) -> Option<Seq<char>>;

/// The line in the event's metadata, if it names one.
pub uninterp spec fn event_line_number(event: tracing::Event<'_>) -> Option<u32>;

/// Reads `tracing::Metadata::level` of the event and names the level, one
/// severity for each of the five levels.
#[verifier::external_body]
fn event_severity(event: &tracing::Event<'_>) -> (severity: Severity)
    ensures
        severity == event_level(*event),
{
    match *event.metadata().level() {
        tracing::Level::TRACE => Severity::Trace,
        tracing::Level::DEBUG => Severity::Debug,
        tracing::Level::INFO => Severity::Info,
        tracing::Level::WARN => Severity::Warn,
        tracing::Level::ERROR => Severity::Error,
    }
}

/// Lets `tracing_subscriber::fmt::format::JsonVisitor` record the event's
/// fields into a text, as one JSON object with the fields as its entries. A failure
/// of the visitor is swallowed: what was written until then is returned.
#[verifier::external_body]
fn event_fields(event: &tracing::Event<'_>) -> (text: String)
    ensures
        text@ == event_fields_text(*event),
{
    let mut text = String::new();
    let mut visitor = tracing_subscriber::fmt::format::JsonVisitor::new(&mut text);
    event.record(&mut visitor);
    tracing_subscriber::field::VisitOutput::finish(visitor).ok();
    text
}

/// Reads `tracing::Metadata::target` of the event.
#[verifier::external_body]
fn event_target(event: &tracing::Event<'_>) -> (target: String)
    ensures
        target@ == event_target_text(*event),
{
    event.metadata().target().to_string()
}

/// Reads `tracing::Metadata::file` of the event.
#[verifier::external_body]
fn event_file(event: &tracing::Event<'_>) -> (file: Option<String>)
    ensures
        file.is_some() == event_file_text(*event).is_some(),
        file matches Some(f) ==> event_file_text(*event) == Some(f@),
{
    event.metadata().file().map(String::from)
}

/// Reads `tracing::Metadata::line` of the event.
#[verifier::external_body]
fn event_line(event: &tracing::Event<'_>) -> (line: Option<u32>)
    ensures
        line == event_line_number(*event),
{
    event.metadata().line()
}

/// Whether `record` holds what `tracing` tells of `event`: its level, the
/// rendering of its fields, its target, and its file and line where it has
/// them. The module is left to the one who reads it from the metadata.
pub open spec fn captures(record: EventRecord, event: tracing::Event<'_>) -> bool {
    &&& record.level == event_level(event)
    &&& record.fields@ == event_fields_text(event)
    &&& record.target@ == event_target_text(event)
    &&& record.file.is_some() == event_file_text(event).is_some()
    &&& (record.file matches Some(f) ==> event_file_text(event) == Some(f@))
    &&& record.line == event_line_number(event)
}

/// The text of an optional text, empty where there is none.
pub open spec fn seq_or_empty(text: Option<Seq<char>>) -> Seq<char> {
    match text {
        Some(s) => s,
        None => Seq::empty(),
    }
}

impl EventRecord {
    /// What `event` holds, as plain values. The module in which the event
    /// was emitted is handed in by the caller, who reads it from the event's
    /// metadata.
    pub fn capture(event: &tracing::Event<'_>, module: Option<String>) -> (record: EventRecord)
        ensures
            captures(record, *event),
            record.module == module,
    {
        EventRecord {
            level: event_severity(event),
            fields: event_fields(event),
            module,
            target: event_target(event),
            file: event_file(event),
            line: event_line(event),
        }
    }
}

impl LogMessage {
    /// Builds the message for `event`, emitted by the calling thread now in
    /// the process `process_id` and in the module `module`. What the event
    /// tells is carried as it is; what it lacks gets its default; where and
    /// when is the machine's to say.
    pub fn of_event(event: &tracing::Event<'_>, module: Option<String>, process_id: u32) -> (message:
        LogMessage)
        ensures
            exists|record: EventRecord, origin: Origin|
                captures(record, *event) && record.module == module && origin.process_id
                    == process_id && is_normal(origin.time) && #[trigger] mapped_message(
                    record,
                    origin,
                ) == message@,
            message@.level == level_code(event_level(*event)),
            message@.text == event_fields_text(*event),
            message@.source == event_target_text(*event),
            message@.file_name == seq_or_empty(event_file_text(*event)),
            message@.line_number == line_or_unknown(event_line_number(*event)),
            message@.module == text_or_empty(module),
    {
        let record = EventRecord::capture(event, module);
        proof {
            lemma_captured_fields(*event, record);
        }
        LogMessage::from_event(record, process_id)
    }
}

/// The message of a record that holds what an event tells has the code of
/// the event's level for its level, which is one of the five codes of the
/// protocol, and carries the event's fields and target.
pub proof fn lemma_event_level_is_code(event: tracing::Event<'_>, record: EventRecord, origin: Origin)
    requires
        captures(record, event),
    ensures
        mapped_message(record, origin).level == level_code(event_level(event)),
        is_level_code(mapped_message(record, origin).level),
        mapped_message(record, origin).text == event_fields_text(event),
        mapped_message(record, origin).source == event_target_text(event),
{
}

/// Where an event names no file or no line, the message of a record that
/// holds what the event tells carries the empty text or -1 in its place;
/// where the event names them, the message carries them.
pub proof fn lemma_event_absent_fields_default(
    event: tracing::Event<'_>,
    record: EventRecord,
    origin: Origin,
)
    requires
        captures(record, event),
    ensures
        event_file_text(event).is_none() ==> mapped_message(record, origin).file_name
            == Seq::<char>::empty(),
        event_line_number(event).is_none() ==> mapped_message(record, origin).line_number == -1,
        mapped_message(record, origin).file_name == seq_or_empty(event_file_text(event)),
        mapped_message(record, origin).line_number == line_or_unknown(event_line_number(event)),
        record.module.is_none() ==> mapped_message(record, origin).module == Seq::<char>::empty(),
{
    lemma_captured_fields(event, record);
}

/// The file text of a record that holds what an event tells is the event's,
/// empty where the event names none.
pub proof fn lemma_captured_fields(event: tracing::Event<'_>, record: EventRecord)
    requires
        captures(record, event),
    ensures
        text_or_empty(record.file) == seq_or_empty(event_file_text(event)),
        line_or_unknown(record.line) == line_or_unknown(event_line_number(event)),
{
}

} // verus!
