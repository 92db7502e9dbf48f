//! Log records: a local-time timestamp, a severity, a message, and an
//! optional source location.

use vstd::prelude::*;
use chrono::Datelike;
use chrono::Timelike;
use crate::severity::Severity;

verus! {

/// A local clock reading, split into plain calendar and clock fields.
#[derive(Clone, Copy, Debug, PartialEq, Eq, Structural)]
pub struct Timestamp {
    pub year: i32,
    pub month: u32,
    pub day: u32,
    pub hour: u32,
    pub minute: u32,
    pub second: u32,
    /// Nanoseconds within the second; values of 1_000_000_000 and above
    /// encode a leap second.
    pub nanos: u32,
}

impl Timestamp {
    /// The field ranges every local clock reading satisfies.
    pub open spec fn wf(self) -> bool {
        &&& 1 <= self.month <= 12
        &&& 1 <= self.day <= 31
        &&& self.hour <= 23
        &&& self.minute <= 59
        &&& self.second <= 59
        &&& self.nanos <= 1_999_999_999
    }
}

/// Reads the local clock as plain field values.
///
/// Relies on chrono::Local::now and the chrono::Datelike / chrono::Timelike
/// accessors of the value it returns: month is 1..=12, day is 1..=31, hour
/// is 0..=23, minute and second are 0..=59, and nanosecond is
/// 0..=1_999_999_999 (1_000_000_000 and above mark a leap second).
#[verifier::external_body]
pub fn now_local() -> (t: Timestamp)
    ensures
        t.wf(),
{
    let now = chrono::Local::now();
    Timestamp {
        year: now.year(),
        month: now.month(),
        day: now.day(),
        hour: now.hour(),
        minute: now.minute(),
        second: now.second(),
        nanos: now.nanosecond(),
    }
}

/// Source position attached to a record.
#[derive(Clone, Debug)]
pub struct Location {
    pub file: Vec<u8>,
    pub line: u64,
}

/// Mathematical view of a `Location`.
pub struct LocationModel {
    pub file: Seq<u8>,
    pub line: u64,
}

impl View for Location {
    type V = LocationModel;

    open spec fn view(&self) -> LocationModel {
        LocationModel { file: self.file@, line: self.line }
    }
}

/// One log record, immutable once constructed.
#[derive(Clone, Debug)]
pub struct LogRecord {
    pub timestamp: Timestamp,
    pub severity: Severity,
    pub message: Vec<u8>,
    pub location: Option<Location>,
}

/// Mathematical view of a `LogRecord`.
pub struct RecordModel {
    pub timestamp: Timestamp,
    pub severity: Severity,
    pub message: Seq<u8>,
    pub location: Option<LocationModel>,
}

impl View for LogRecord {
    type V = RecordModel;

    open spec fn view(&self) -> RecordModel {
        RecordModel {
            timestamp: self.timestamp,
            severity: self.severity,
            message: self.message@,
            location: match self.location {
                Some(l) => Some(l@),
                None => None,
            },
        }
    }
}

} // verus!
