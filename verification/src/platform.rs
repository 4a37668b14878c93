//! What the machine tells of the place and time of an event.

use vstd::prelude::*;
use crate::message::{EventRecord, LogMessage, Origin, Timestamp, mapped_message};

verus! {

/// Whether the nanoseconds of `time` lie within one second.
pub open spec fn is_normal(time: Timestamp) -> bool {
    0 <= time.nanos < 1_000_000_000
}

/// Calls `thread_id::get`: a number that tells the calling thread from the
/// others that run. Nothing is claimed of it.
#[verifier::external_body]
fn current_thread_id() -> (id: usize) {
    thread_id::get()
}

/// Calls `gethostname::gethostname` and reads the name as text, which fails
/// where the name is not Unicode. Nothing is claimed of it.
#[verifier::external_body]
fn host_name() -> (name: Option<String>) {
    gethostname::gethostname().into_string().ok()
}

/// Reads the clock with `std::time::SystemTime::now` and converts with
/// `prost_types::Timestamp::from`, which counts from the Unix epoch and keeps
/// the nanoseconds within one second, before the epoch too.
#[verifier::external_body]
fn current_time() -> (now: Timestamp)
    ensures
        is_normal(now),
{
    let stamp = prost_types::Timestamp::from(std::time::SystemTime::now());
    Timestamp { seconds: stamp.seconds, nanos: stamp.nanos }
}

impl Origin {
    /// The origin of an event that the calling thread emits now, in the
    /// process `process_id`.
    pub fn here(process_id: u32) -> (origin: Origin)
        ensures
            origin.process_id == process_id,
            is_normal(origin.time),
    {
        Origin {
            time: current_time(),
            process_id,
            thread_id: current_thread_id(),
            machine_name: host_name(),
        }
    }
}

impl LogMessage {
    /// Builds the message for an event that the calling thread emits now, in
    /// the process `process_id`: the mapped message of the event and of an
    /// origin in that process.
    pub fn from_event(record: EventRecord, process_id: u32) -> (message: LogMessage)
        ensures
            exists|origin: Origin|
                origin.process_id == process_id && is_normal(origin.time)
                    && #[trigger] mapped_message(record, origin) == message@,
    {
        let origin = Origin::here(process_id);
        LogMessage::from_record(record, origin)
    }
}

} // verus!
