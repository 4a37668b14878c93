use std::sync::OnceLock;

use tracing::callsite::{Callsite, Identifier};
use tracing::field::{FieldSet, Value};
use tracing::metadata::Kind;
use tracing::subscriber::Interest;
use tracing::{Event, Level, Metadata};
use tracing_analogy::channel::{open_delivery_channel, Delivery};
use tracing_analogy::message::{narrow_usize, EventRecord, LogMessage};
use tracing_analogy::severity::Severity;
use tracing_analogy::AnalogyLayer;

struct Site {
    meta: OnceLock<Metadata<'static>>,
}

impl Callsite for Site {
    fn set_interest(&self, _interest: Interest) {}

    fn metadata(&self) -> &Metadata<'_> {
        self.meta.get().expect("the metadata is set before the site is used")
    }
}

fn site(
    level: Level,
    file: Option<&'static str>,
    line: Option<u32>,
    names: &'static [&'static str],
) -> &'static Metadata<'static> {
    let site: &'static Site = Box::leak(Box::new(Site { meta: OnceLock::new() }));
    let fields = FieldSet::new(names, Identifier(site));
    let meta = Metadata::new("event", "test", level, file, line, Some("demo::worker"), fields, Kind::EVENT);
    site.meta.set(meta).ok();
    site.meta.get().expect("just set")
}

#[test]
fn capture_reads_level_place_and_fields() {
    let meta = site(Level::ERROR, Some("src/worker.rs"), Some(12), &["message", "x"]);
    let text = "This is a test message";
    let four: i64 = 4;
    let values = [Some(&text as &dyn Value), Some(&four as &dyn Value)];
    let set = meta.fields().value_set_all(&values);
    let event = Event::new(meta, &set);
    let record = EventRecord::capture(&event, Some("demo::worker".to_string()));
    assert_eq!(record.level, Severity::Error);
    assert_eq!(record.fields, "{\"message\":\"This is a test message\",\"x\":4}");
    assert_eq!(record.target, "test");
    assert_eq!(record.file.as_deref(), Some("src/worker.rs"));
    assert_eq!(record.line, Some(12));
    assert_eq!(record.module.as_deref(), Some("demo::worker"));
}

#[test]
fn capture_without_place_or_fields() {
    let meta = site(Level::TRACE, None, None, &[]);
    let values: [Option<&dyn Value>; 0] = [];
    let set = meta.fields().value_set_all(&values);
    let event = Event::new(meta, &set);
    let record = EventRecord::capture(&event, None);
    assert_eq!(record.level, Severity::Trace);
    assert_eq!(record.fields, "{}");
    assert_eq!(record.file, None);
    assert_eq!(record.line, None);
    assert_eq!(record.module, None);
}

#[test]
fn capture_names_each_level() {
    let pairs = [
        (Level::TRACE, Severity::Trace, 1),
        (Level::DEBUG, Severity::Debug, 3),
        (Level::INFO, Severity::Info, 4),
        (Level::WARN, Severity::Warn, 5),
        (Level::ERROR, Severity::Error, 6),
    ];
    for (level, severity, code) in pairs {
        let meta = site(level, None, None, &[]);
        let values: [Option<&dyn Value>; 0] = [];
        let set = meta.fields().value_set_all(&values);
        let event = Event::new(meta, &set);
        let record = EventRecord::capture(&event, None);
        assert_eq!(record.level, severity);
        assert_eq!(record.level.code(), code);
    }
}

#[test]
fn captured_error_event_arrives_with_its_field() {
    let mut sink = AnalogyLayer::new("http://localhost:6000".to_string(), None).expect("an address");
    let meta = site(Level::ERROR, Some("src/worker.rs"), Some(3), &["x"]);
    let four: i64 = 4;
    let values = [Some(&four as &dyn Value)];
    let set = meta.fields().value_set_all(&values);
    let event = Event::new(meta, &set);
    let first = EventRecord::capture(&event, None);
    assert_eq!(sink.on_event(first, 200), Delivery::Reconnect);
    let (tx, mut rx) = open_delivery_channel();
    sink.restore_connection(Some(tx));
    let second = EventRecord::capture(&event, None);
    assert_eq!(sink.on_event(second, 200), Delivery::Queued);
    let arrived = rx.try_recv().expect("the second event is queued");
    assert_eq!(arrived.level, 6);
    assert_eq!(arrived.text, "{\"x\":4}");
    assert_eq!(arrived.file_name, "src/worker.rs");
    assert_eq!(arrived.line_number, 3);
    assert_eq!(arrived.module, "");
}

#[test]
fn message_of_an_event_carries_what_the_event_tells() {
    let meta = site(Level::WARN, Some("src/worker.rs"), Some(12), &["message", "x"]);
    let text = "This is a test message containing fields";
    let four: i64 = 4;
    let values = [Some(&text as &dyn Value), Some(&four as &dyn Value)];
    let set = meta.fields().value_set_all(&values);
    let event = Event::new(meta, &set);
    let message = LogMessage::of_event(&event, Some("demo::worker".to_string()), 4711);
    assert_eq!(message.level, 5);
    assert_eq!(message.text, "{\"message\":\"This is a test message containing fields\",\"x\":4}");
    assert_eq!(message.source, "test");
    assert_eq!(message.file_name, "src/worker.rs");
    assert_eq!(message.line_number, 12);
    assert_eq!(message.module, "demo::worker");
    assert_eq!(message.process_id, 4711);
    assert_eq!(message.thread_id, narrow_usize(thread_id::get()));
    assert_eq!(message.category, "RUST");
    assert_eq!(message.method_name, "");
    assert_eq!(message.class, 0);
    assert!(message.date.is_some());
}

#[test]
fn message_of_an_event_without_place_gets_the_defaults() {
    let levels = [(Level::TRACE, 1), (Level::DEBUG, 3), (Level::INFO, 4), (Level::WARN, 5), (Level::ERROR, 6)];
    for (level, code) in levels {
        let meta = site(level, None, None, &[]);
        let values: [Option<&dyn Value>; 0] = [];
        let set = meta.fields().value_set_all(&values);
        let event = Event::new(meta, &set);
        let message = LogMessage::of_event(&event, None, 1);
        assert_eq!(message.level, code);
        assert_eq!(message.text, "{}");
        assert_eq!(message.file_name, "");
        assert_eq!(message.line_number, -1);
        assert_eq!(message.module, "");
    }
}
