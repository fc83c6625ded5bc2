//! The logger handle: the producer side of the pipeline.

use crate::channel::{try_send, SendOutcome};
use crate::clock::Timestamp;
use crate::constants::{BUFFER_FULL_WARNING, SERIALIZATION_FAILURE};
use crate::context::ContextStore;
use crate::format::{
    batch_text, flush_batch, flushed, written, FlushOutput, FlushView, FormatState,
    FormatStateView,
};
use crate::levels::LogLevel;
use crate::options::LoggerOptions;
use crate::payload::{FieldView, Payload, PayloadView};
use crate::record::{record_views, Record, RecordView};
use crate::support::share;
use crossbeam_channel::Sender;
use std::sync::Arc;
use vstd::prelude::*;

verus! {

/// What became of a call to [`Logger::log`].
#[derive(Debug)]
pub enum Delivery {
    /// The level is below the minimum: no record was made, nothing was sent
    /// and nothing is to be written.
    Filtered,
    /// The value could not be serialized: the record is dropped, and the
    /// caller reports this diagnostic on the error stream.
    Unserializable(String),
    /// The record is in the channel.
    Queued,
    /// The channel did not take the record. The caller writes this text to
    /// the sink itself, at once.
    Bypassed(FlushOutput),
}

/// What a [`Delivery`] holds.
pub enum DeliveryView {
    Filtered,
    Unserializable(Seq<char>),
    Queued,
    Bypassed(FlushView),
}

impl View for Delivery {
    type V = DeliveryView;

    open spec fn view(&self) -> DeliveryView {
        match self {
            Delivery::Filtered => DeliveryView::Filtered,
            Delivery::Unserializable(diagnostic) => DeliveryView::Unserializable(diagnostic@),
            Delivery::Queued => DeliveryView::Queued,
            Delivery::Bypassed(out) => DeliveryView::Bypassed(out@),
        }
    }
}

/// What a [`Logger`] holds.
pub struct LoggerView {
    pub log_sender: Sender<Record>,
    pub min_level: LogLevel,
    pub format_state: FormatStateView,
}

/// The record that tells of a saturated channel.
pub open spec fn saturation_warning(now: Timestamp, context: Seq<FieldView>) -> RecordView {
    RecordView {
        level: LogLevel::Warn,
        message: None,
        payload: PayloadView::Text(BUFFER_FULL_WARNING@),
        timestamp: now,
        context,
    }
}

/// The records that the caller writes itself after an attempt to enqueue:
/// none where the record was queued; the record and a warning where the
/// channel was full; the record alone where the channel was closed.
pub open spec fn fallback_views(outcome: SendOutcome, now: Timestamp, context: Seq<FieldView>) -> Seq<
    RecordView,
> {
    match outcome {
        SendOutcome::Queued => Seq::empty(),
        SendOutcome::Full(record) => seq![record@, saturation_warning(now, context)],
        SendOutcome::Disconnected(record) => seq![record@],
    }
}

impl LoggerView {
    /// Whether a record of this level is logged at all.
    pub open spec fn admits(self, level: LogLevel) -> bool {
        level.spec_rank() >= self.min_level.spec_rank()
    }

    /// The record that a call makes.
    pub open spec fn record(
        self,
        message: Option<Seq<char>>,
        payload: PayloadView,
        level: LogLevel,
        now: Timestamp,
    ) -> RecordView {
        RecordView { level, message, payload, timestamp: now, context: self.format_state.context }
    }

    /// What a call comes to once the channel has answered: a queued record
    /// needs nothing more, and any other answer makes the caller write the
    /// fallback records itself.
    pub open spec fn concluded(self, outcome: SendOutcome, now: Timestamp, colored: bool) -> DeliveryView {
        match outcome {
            SendOutcome::Queued => DeliveryView::Queued,
            _ => DeliveryView::Bypassed(
                flushed(
                    fallback_views(outcome, now, self.format_state.context),
                    self.format_state,
                    colored,
                ),
            ),
        }
    }

    /// What a call may come to. Below the minimum level it is filtered, and
    /// only then. Otherwise the channel decides: the record is queued, or the
    /// caller gets the text of the record followed by the saturation warning,
    /// or the text of the record alone.
    pub open spec fn delivers(
        self,
        message: Option<Seq<char>>,
        payload: PayloadView,
        level: LogLevel,
        now: Timestamp,
        colored: bool,
        delivery: Delivery,
    ) -> bool {
        let record = self.record(message, payload, level, now);
        let warning = saturation_warning(now, self.format_state.context);
        match delivery {
            Delivery::Filtered => !self.admits(level),
            Delivery::Unserializable(_) => false,
            Delivery::Queued => self.admits(level),
            Delivery::Bypassed(out) => self.admits(level) && (out@ == flushed(
                seq![record, warning],
                self.format_state,
                colored,
            ) || out@ == flushed(seq![record], self.format_state, colored)),
        }
    }

    /// What a call may come to where the value arrives as the outcome of its
    /// serialization. The level filter comes first. A value that could not
    /// be serialized gives the diagnostic and nothing else; one that could is
    /// logged as by [`LoggerView::delivers`].
    pub open spec fn delivers_serialized(
        self,
        message: Option<Seq<char>>,
        data: Result<PayloadView, Seq<char>>,
        level: LogLevel,
        now: Timestamp,
        colored: bool,
        delivery: Delivery,
    ) -> bool {
        match data {
            Ok(payload) => self.delivers(message, payload, level, now, colored, delivery),
            Err(reason) => if self.admits(level) {
                delivery matches Delivery::Unserializable(diagnostic) && diagnostic@
                    == serialization_diagnostic(reason)
            } else {
                delivery is Filtered
            },
        }
    }
}

/// What is reported of a value that could not be serialized.
pub open spec fn serialization_diagnostic(reason: Seq<char>) -> Seq<char> {
    SERIALIZATION_FAILURE@ + reason
}

/// The view of the outcome of a serialization.
pub open spec fn serialized_view(data: Result<Payload, String>) -> Result<PayloadView, Seq<char>> {
    match data {
        Ok(payload) => Ok(payload@),
        Err(reason) => Err(reason@),
    }
}

/// The view of an optional string.
pub open spec fn text_view(text: Option<String>) -> Option<Seq<char>> {
    match text {
        Some(t) => Some(t@),
        None => None,
    }
}

/// The records that the caller writes itself after an attempt to enqueue.
pub fn fallback_records(outcome: SendOutcome, now: Timestamp, context: &Arc<ContextStore>) -> (records:
    Vec<Record>)
    ensures
        record_views(records@) == fallback_views(outcome, now, (**context)@),
{
    let mut records: Vec<Record> = Vec::new();
    match outcome {
        SendOutcome::Queued => {},
        SendOutcome::Full(record) => {
            records.push(record);
            records.push(
                Record::new(
                    LogLevel::Warn,
                    None,
                    Payload::Text(BUFFER_FULL_WARNING.to_owned()),
                    now,
                    share(context),
                ),
            );
        },
        SendOutcome::Disconnected(record) => {
            records.push(record);
        },
    }
    records
}

/// The producer-side handle: callers hand it what they want logged.
#[derive(Debug)]
pub struct Logger {
    log_sender: Sender<Record>,
    min_level: LogLevel,
    format_state: Arc<FormatState>,
}

impl View for Logger {
    type V = LoggerView;

    closed spec fn view(&self) -> LoggerView {
        LoggerView {
            log_sender: self.log_sender,
            min_level: self.min_level,
            format_state: (*self.format_state)@,
        }
    }
}

impl Logger {
    /// Starts the configuration of a logger.
    pub fn init() -> (options: LoggerOptions)
        ensures
            options@ == crate::options::LoggerOptionsView::initial(),
    {
        LoggerOptions::initial()
    }

    /// A handle that sends into `log_sender`.
    pub fn new(log_sender: Sender<Record>, min_level: LogLevel, format_state: Arc<FormatState>) -> (logger:
        Self)
        ensures
            logger@ == (LoggerView { log_sender, min_level, format_state: (*format_state)@ }),
    {
        Logger { log_sender, min_level, format_state }
    }

    /// The lowest level that is logged.
    pub fn min_level(&self) -> (level: LogLevel)
        ensures
            level == self@.min_level,
    {
        self.min_level
    }

    /// The rendering configuration, shared with the worker.
    pub fn format_state(&self) -> (state: &Arc<FormatState>)
        ensures
            (**state)@ == self@.format_state,
    {
        &self.format_state
    }

    /// Whether a record of this level is logged at all.
    pub fn admits(&self, log_level: LogLevel) -> (passes: bool)
        ensures
            passes == self@.admits(log_level),
    {
        log_level.at_least(self.min_level)
    }

    /// The level filter and the making of the record: `None` below the
    /// minimum level, and otherwise the record as it will travel.
    pub fn prepare(
        &self,
        message: Option<String>,
        payload: Payload,
        log_level: LogLevel,
        now: Timestamp,
    ) -> (made: Option<Record>)
        ensures
            made is None <==> !self@.admits(log_level),
            made matches Some(record) ==> record@ == self@.record(
                text_view(message),
                payload@,
                log_level,
                now,
            ),
    {
        if !log_level.at_least(self.min_level) {
            return None;
        }
        let context = share(self.format_state.context());
        Some(Record::new(log_level, message, payload, now, context))
    }

    /// What a call comes to once the channel has answered with `outcome`:
    /// `Queued` where the record was taken, and otherwise the text that the
    /// caller writes itself, which is the record that came back and, where
    /// the channel was full, the saturation warning after it.
    pub fn conclude(&self, outcome: SendOutcome, now: Timestamp, is_tty: bool) -> (delivery: Delivery)
        ensures
            delivery@ == self@.concluded(outcome, now, is_tty),
    {
        match outcome {
            SendOutcome::Queued => Delivery::Queued,
            _ => {
                let records = fallback_records(outcome, now, self.format_state.context());
                Delivery::Bypassed(flush_batch(&records, &self.format_state, is_tty))
            },
        }
    }

    /// Logs one event that was captured at `now`. The record is offered to
    /// the channel without waiting. Where the channel does not take it, the
    /// text to write is handed back: the record's line, and after it a
    /// warning where the channel was full.
    pub fn log(
        &self,
        message: Option<String>,
        payload: Payload,
        log_level: LogLevel,
        now: Timestamp,
        is_tty: bool,
    ) -> (delivery: Delivery)
        ensures
            self@.delivers(text_view(message), payload@, log_level, now, is_tty, delivery),
    {
        let record = match self.prepare(message, payload, log_level, now) {
            Some(record) => record,
            None => {
                return Delivery::Filtered;
            },
        };
        let outcome = try_send(&self.log_sender, record);
        self.conclude(outcome, now, is_tty)
    }

    /// Logs one event whose value arrives as the outcome of its
    /// serialization: the payload, or the reason why there is none. Below the
    /// minimum level the call is filtered whatever the outcome was.
    pub fn log_serialized(
        &self,
        message: Option<String>,
        data: Result<Payload, String>,
        log_level: LogLevel,
        now: Timestamp,
        is_tty: bool,
    ) -> (delivery: Delivery)
        ensures
            self@.delivers_serialized(
                text_view(message),
                serialized_view(data),
                log_level,
                now,
                is_tty,
                delivery,
            ),
    {
        match data {
            Ok(payload) => self.log(message, payload, log_level, now, is_tty),
            Err(reason) => {
                if !self.admits(log_level) {
                    return Delivery::Filtered;
                }
                let diagnostic = SERIALIZATION_FAILURE.to_owned().concat(reason.as_str());
                Delivery::Unserializable(diagnostic)
            },
        }
    }

    /// Logs a value at the `INFO` level.
    pub fn info(&self, data: Payload, now: Timestamp, is_tty: bool) -> (delivery: Delivery)
        ensures
            self@.delivers(None, data@, LogLevel::Info, now, is_tty, delivery),
    {
        self.log(None, data, LogLevel::Info, now, is_tty)
    }

    /// Logs a value at the `ERROR` level.
    pub fn error(&self, data: Payload, now: Timestamp, is_tty: bool) -> (delivery: Delivery)
        ensures
            self@.delivers(None, data@, LogLevel::Error, now, is_tty, delivery),
    {
        self.log(None, data, LogLevel::Error, now, is_tty)
    }

    /// Logs a value at the `WARN` level.
    pub fn warn(&self, data: Payload, now: Timestamp, is_tty: bool) -> (delivery: Delivery)
        ensures
            self@.delivers(None, data@, LogLevel::Warn, now, is_tty, delivery),
    {
        self.log(None, data, LogLevel::Warn, now, is_tty)
    }

    /// Logs a value at the `DEBUG` level.
    pub fn debug(&self, data: Payload, now: Timestamp, is_tty: bool) -> (delivery: Delivery)
        ensures
            self@.delivers(None, data@, LogLevel::Debug, now, is_tty, delivery),
    {
        self.log(None, data, LogLevel::Debug, now, is_tty)
    }

    /// Logs a value with an optional message that is given as a slice.
    pub fn __log_with_message(
        &self,
        message: Option<&str>,
        data: Payload,
        level: LogLevel,
        now: Timestamp,
        is_tty: bool,
    ) -> (delivery: Delivery)
        ensures
            self@.delivers(
                match message {
                    Some(m) => Some(m@),
                    None => None,
                },
                data@,
                level,
                now,
                is_tty,
                delivery,
            ),
    {
        let owned_message = match message {
            Some(m) => Some(m.to_owned()),
            None => None,
        };
        self.log(owned_message, data, level, now, is_tty)
    }
}

/// Level filtering: below the minimum level a call comes to nothing. No
/// record is made, so nothing reaches the channel and nothing is written.
pub proof fn lemma_below_minimum_is_filtered(
    logger: LoggerView,
    message: Option<Seq<char>>,
    payload: PayloadView,
    level: LogLevel,
    now: Timestamp,
    colored: bool,
    delivery: Delivery,
)
    requires
        level.spec_rank() < logger.min_level.spec_rank(),
        logger.delivers(message, payload, level, now, colored, delivery),
    ensures
        delivery is Filtered,
{
}

/// Saturation fallback: for a full channel the caller writes two things,
/// the record that was not taken and then the warning; for a closed channel
/// it writes the record alone; for a queued record, nothing.
pub proof fn lemma_fallback_text(
    record: Record,
    now: Timestamp,
    state: FormatStateView,
    colored: bool,
)
    ensures
        batch_text(fallback_views(SendOutcome::Full(record), now, state.context), state, colored)
            == written(record@, state, colored) + written(
            saturation_warning(now, state.context),
            state,
            colored,
        ),
        batch_text(
            fallback_views(SendOutcome::Disconnected(record), now, state.context),
            state,
            colored,
        ) == written(record@, state, colored),
        batch_text(fallback_views(SendOutcome::Queued, now, state.context), state, colored)
            == Seq::<char>::empty(),
{
    let warning = saturation_warning(now, state.context);
    let two = seq![record@, warning];
    let one = seq![record@];
    assert(two.drop_last() =~= one);
    assert(batch_text(one.drop_last(), state, colored) =~= Seq::<char>::empty());
    assert(batch_text(one, state, colored) =~= written(record@, state, colored));
}

} // verus!
