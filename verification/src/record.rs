//! The unit of work: one logged event.

use crate::clock::Timestamp;
use crate::context::ContextStore;
use crate::levels::LogLevel;
use crate::payload::{FieldView, Payload, PayloadView};
use std::sync::Arc;
use vstd::prelude::*;

verus! {

/// One logged event. It is made at the call site and never changed.
#[derive(Debug)]
pub struct Record {
    pub level: LogLevel,
    pub message: Option<String>,
    pub payload: Payload,
    pub timestamp: Timestamp,
    pub context: Arc<ContextStore>,
}

/// What a [`Record`] holds.
pub struct RecordView {
    pub level: LogLevel,
    pub message: Option<Seq<char>>,
    pub payload: PayloadView,
    pub timestamp: Timestamp,
    pub context: Seq<FieldView>,
}

impl View for Record {
    type V = RecordView;

    open spec fn view(&self) -> RecordView {
        RecordView {
            level: self.level,
            message: match self.message {
                Some(m) => Some(m@),
                None => None,
            },
            payload: self.payload@,
            timestamp: self.timestamp,
            context: (*self.context)@,
        }
    }
}

/// The views of a sequence of records, in order.
pub open spec fn record_views(records: Seq<Record>) -> Seq<RecordView> {
    records.map_values(|r: Record| r@)
}

impl Record {
    pub fn new(
        level: LogLevel,
        message: Option<String>,
        payload: Payload,
        timestamp: Timestamp,
        context: Arc<ContextStore>,
    ) -> (record: Self)
        ensures
            record.level == level,
            record.message == message,
            record.payload == payload,
            record.timestamp == timestamp,
            record.context == context,
    {
        Record { level, message, payload, timestamp, context }
    }
}

} // verus!
