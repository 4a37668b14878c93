//! The message that is sent to the viewer for one captured event.

use vstd::prelude::*;
use crate::severity::{level_code, Severity};

verus! {

/// The tag by which the viewer tells which runtime emitted a message.
pub open spec fn category_tag() -> Seq<char> {
    "RUST"@
}

/// The line number sent when the event carries none.
pub const UNKNOWN_LINE: i32 = -1;

/// A point in time: whole seconds since the Unix epoch, and the nanoseconds
/// into that second.
#[derive(Clone, Copy, Debug, PartialEq, Eq, Structural)]
pub struct Timestamp {
    pub seconds: i64,
    pub nanos: i32,
}

/// What the event-capture front end knows of one event.
#[derive(Clone, Debug)]
pub struct EventRecord {
    pub level: Severity,
    /// The event's fields, already rendered as one text.
    pub fields: String,
    pub module: Option<String>,
    pub target: String,
    pub file: Option<String>,
    pub line: Option<u32>,
}

/// Where and when an event was emitted.
#[derive(Clone, Debug)]
pub struct Origin {
    pub time: Timestamp,
    pub process_id: u32,
    pub thread_id: usize,
    /// The host's name, where it could be read as text.
    pub machine_name: Option<String>,
}

/// One message as the viewer's protocol shapes it.
#[derive(Clone, Debug)]
pub struct LogMessage {
    pub text: String,
    pub level: i32,
    pub date: Option<Timestamp>,
    pub process_id: i32,
    pub thread_id: i32,
    pub module: String,
    pub source: String,
    pub method_name: String,
    pub file_name: String,
    pub line_number: i32,
    pub machine_name: String,
    pub category: String,
    pub user: String,
    pub additional_information: Vec<(String, String)>,
    pub id: String,
    pub class: i32,
}

/// The mathematical content of a [`LogMessage`].
pub ghost struct LogMessageView {
    pub text: Seq<char>,
    pub level: int,
    pub date: Option<Timestamp>,
    pub process_id: int,
    pub thread_id: int,
    pub module: Seq<char>,
    pub source: Seq<char>,
    pub method_name: Seq<char>,
    pub file_name: Seq<char>,
    pub line_number: int,
    pub machine_name: Seq<char>,
    pub category: Seq<char>,
    pub user: Seq<char>,
    pub additional_information: Seq<(Seq<char>, Seq<char>)>,
    pub id: Seq<char>,
    pub class: int,
}

impl View for LogMessage {
    type V = LogMessageView;

    open spec fn view(&self) -> LogMessageView {
        LogMessageView {
            text: self.text@,
            level: self.level as int,
            date: self.date,
            process_id: self.process_id as int,
            thread_id: self.thread_id as int,
            module: self.module@,
            source: self.source@,
            method_name: self.method_name@,
            file_name: self.file_name@,
            line_number: self.line_number as int,
            machine_name: self.machine_name@,
            category: self.category@,
            user: self.user@,
            additional_information: Seq::new(
                self.additional_information@.len(),
                |i: int| (self.additional_information@[i].0@, self.additional_information@[i].1@),
            ),
            id: self.id@,
            class: self.class as int,
        }
    }
}

/// The signed 32-bit number that the low 32 bits of `value` spell in two's
/// complement: what the protocol's integer fields carry of a wider or
/// unsigned number.
pub open spec fn wire_int(value: int) -> int {
    let low = value % 0x1_0000_0000;
    if low < 0x8000_0000 {
        low
    } else {
        low - 0x1_0000_0000
    }
}

/// The text of an optional string, empty where there is none.
pub open spec fn text_or_empty(text: Option<String>) -> Seq<char> {
    match text {
        Some(s) => s@,
        None => Seq::empty(),
    }
}

/// The line number sent for an optional line.
pub open spec fn line_or_unknown(line: Option<u32>) -> int {
    match line {
        Some(l) => wire_int(l as int),
        None => UNKNOWN_LINE as int,
    }
}

/// The message that stands for `record`, emitted at `origin`.
pub open spec fn mapped_message(record: EventRecord, origin: Origin) -> LogMessageView {
    LogMessageView {
        text: record.fields@,
        level: level_code(record.level),
        date: Some(origin.time),
        process_id: wire_int(origin.process_id as int),
        thread_id: wire_int(origin.thread_id as int),
        module: text_or_empty(record.module),
        source: record.target@,
        method_name: Seq::empty(),
        file_name: text_or_empty(record.file),
        line_number: line_or_unknown(record.line),
        machine_name: text_or_empty(origin.machine_name),
        category: category_tag(),
        user: Seq::empty(),
        additional_information: Seq::empty(),
        id: Seq::empty(),
        class: 0,
    }
}

/// Reads an unsigned 32-bit number as the protocol's signed integer.
pub fn narrow_u32(value: u32) -> (narrowed: i32)
    ensures
        narrowed == wire_int(value as int),
{
    if value < 0x8000_0000 {
        value as i32
    } else {
        let low: u32 = value - 0x8000_0000;
        (low as i32) + i32::MIN
    }
}

/// Reads the low 32 bits of a machine word as the protocol's signed integer.
pub fn narrow_usize(value: usize) -> (narrowed: i32)
    ensures
        narrowed == wire_int(value as int),
{
    let wide: u64 = value as u64;
    let low: u64 = wide % 0x1_0000_0000;
    narrow_u32(low as u32)
}

/// The text of an optional string, empty where there is none.
pub fn owned_or_empty(text: Option<String>) -> (owned: String)
    ensures
        owned@ == text_or_empty(text),
{
    match text {
        Some(s) => s,
        None => String::new(),
    }
}

impl LogMessage {
    /// Builds the message for one captured event. Every field has a value
    /// whatever the event lacks: there is no input on which this fails.
    pub fn from_record(record: EventRecord, origin: Origin) -> (message: LogMessage)
        ensures
            message@ == mapped_message(record, origin),
    {
        let line_number: i32 = match record.line {
            Some(l) => narrow_u32(l),
            None => UNKNOWN_LINE,
        };
        let message = LogMessage {
            text: record.fields,
            level: record.level.code(),
            date: Some(origin.time),
            process_id: narrow_u32(origin.process_id),
            thread_id: narrow_usize(origin.thread_id),
            module: owned_or_empty(record.module),
            source: record.target,
            method_name: String::new(),
            file_name: owned_or_empty(record.file),
            line_number,
            machine_name: owned_or_empty(origin.machine_name),
            category: "RUST".to_string(),
            user: String::new(),
            additional_information: Vec::new(),
            id: String::new(),
            class: 0,
        };
        assert(message@.additional_information =~= Seq::empty());
        message
    }
}

/// The level of every mapped message is the code of the event's severity,
/// hence one of the five codes of the protocol.
pub proof fn lemma_mapped_level_is_code(record: EventRecord, origin: Origin)
    ensures
        mapped_message(record, origin).level == level_code(record.level),
        crate::severity::is_level_code(mapped_message(record, origin).level),
{
}

/// Where the event lacks its module, its file name or its line, the
/// message carries the empty text, the empty text and -1 in their place; where
/// it has them, the message carries them.
pub proof fn lemma_absent_fields_default(record: EventRecord, origin: Origin)
    ensures
        record.module.is_none() ==> mapped_message(record, origin).module == Seq::<char>::empty(),
        record.file.is_none() ==> mapped_message(record, origin).file_name == Seq::<char>::empty(),
        record.line.is_none() ==> mapped_message(record, origin).line_number == -1,
        record.module matches Some(m) ==> mapped_message(record, origin).module == m@,
        record.file matches Some(f) ==> mapped_message(record, origin).file_name == f@,
        record.line matches Some(l) ==> mapped_message(record, origin).line_number == wire_int(l as int),
{
}

/// A number that fits the protocol's signed integer is sent as it is.
pub proof fn lemma_wire_int_keeps_small(value: int)
    requires
        0 <= value < 0x8000_0000,
    ensures
        wire_int(value) == value,
{
}

/// Whatever the number, what is sent is a signed 32-bit integer.
pub proof fn lemma_wire_int_range(value: int)
    ensures
        -0x8000_0000 <= wire_int(value) < 0x8000_0000,
{
}

} // verus!
