//! The configuration builder.

use crate::colors::{ColorSettings, RGB};
use crate::constants::{
    DEFAULT_BATCH_DURATION_MS, DEFAULT_BATCH_SIZE, DEFAULT_BUFFER_SIZE, DEFAULT_TIMESTAMP_FORMAT,
    DEFAULT_TIMESTAMP_KEY,
};
use crate::context::{
    has_key, is_reserved_key, is_reserved_name, same_text, upsert, ConfigError, ContextStore,
};
use crate::format::{FormatState, FormatStateView};
use crate::globals::LoggerRegistry;
use crate::levels::LogLevel;
use crate::logger::{Logger, LoggerView};
use crate::payload::{FieldView, Payload, PayloadView};
use crate::record::Record;
use crate::worker::{Worker, WorkerModel};
use crossbeam_channel::Sender;
use std::sync::Arc;
use vstd::prelude::*;

verus! {

/// What a [`LoggerOptions`] holds.
pub struct LoggerOptionsView {
    pub buffer_size: usize,
    pub batch_size: usize,
    pub batch_duration_ms: u64,
    pub min_level: LogLevel,
    pub timestamp_format: Seq<char>,
    pub timestamp_key: Seq<char>,
    pub color_settings: ColorSettings,
    pub context: Seq<FieldView>,
    pub pretty: bool,
}

impl LoggerOptionsView {
    /// The configuration that [`Logger::init`] starts with.
    pub open spec fn initial() -> Self {
        LoggerOptionsView {
            buffer_size: DEFAULT_BUFFER_SIZE,
            batch_size: DEFAULT_BATCH_SIZE,
            batch_duration_ms: DEFAULT_BATCH_DURATION_MS,
            min_level: LogLevel::Debug,
            timestamp_format: DEFAULT_TIMESTAMP_FORMAT@,
            timestamp_key: DEFAULT_TIMESTAMP_KEY@,
            color_settings: ColorSettings::standard(),
            context: Seq::empty(),
            pretty: false,
        }
    }

    /// The rendering configuration that the options describe.
    pub open spec fn format_state(self) -> FormatStateView {
        FormatStateView {
            timestamp_format: self.timestamp_format,
            timestamp_key: self.timestamp_key,
            color_settings: self.color_settings,
            pretty: self.pretty,
            context: self.context,
        }
    }

    /// The handle that the options describe, sending into `log_sender`.
    pub open spec fn logger(self, log_sender: Sender<Record>) -> LoggerView {
        LoggerView { log_sender, min_level: self.min_level, format_state: self.format_state() }
    }

    /// Whether `key` may name a context value under these options.
    pub open spec fn refuses_key(self, key: Seq<char>) -> bool {
        is_reserved_name(key) || key == self.timestamp_key
    }

    /// Whether `key` may name the timestamp member under these options.
    pub open spec fn refuses_timestamp_key(self, key: Seq<char>) -> bool {
        is_reserved_name(key) || has_key(self.context, key)
    }
}

/// Builder for the configuration of a [`Logger`]. It is made by
/// [`Logger::init`] and finished by [`LoggerOptions::build`].
#[derive(Debug)]
pub struct LoggerOptions {
    buffer_size: usize,
    batch_size: usize,
    batch_duration_ms: u64,
    min_level: LogLevel,
    timestamp_format: String,
    timestamp_key: String,
    color_settings: ColorSettings,
    context: ContextStore,
    pretty: bool,
}

impl View for LoggerOptions {
    type V = LoggerOptionsView;

    closed spec fn view(&self) -> LoggerOptionsView {
        LoggerOptionsView {
            buffer_size: self.buffer_size,
            batch_size: self.batch_size,
            batch_duration_ms: self.batch_duration_ms,
            min_level: self.min_level,
            timestamp_format: self.timestamp_format@,
            timestamp_key: self.timestamp_key@,
            color_settings: self.color_settings,
            context: self.context@,
            pretty: self.pretty,
        }
    }
}

impl LoggerOptions {
    #[verifier::type_invariant]
    spec fn inv(self) -> bool {
        self@.format_state().valid()
    }

    /// The configuration every logger starts from.
    pub(crate) fn initial() -> (options: Self)
        ensures
            options@ == LoggerOptionsView::initial(),
    {
        proof {
            reveal_strlit("timestamp");
            reveal_strlit("level");
            reveal_strlit("context");
            reveal_strlit("message");
            reveal_strlit("data");
            assert(!is_reserved_name(DEFAULT_TIMESTAMP_KEY@)) by {
                assert(DEFAULT_TIMESTAMP_KEY@.len() == 9);
            }
        }
        LoggerOptions {
            buffer_size: DEFAULT_BUFFER_SIZE,
            batch_size: DEFAULT_BATCH_SIZE,
            batch_duration_ms: DEFAULT_BATCH_DURATION_MS,
            min_level: LogLevel::Debug,
            timestamp_format: DEFAULT_TIMESTAMP_FORMAT.to_owned(),
            timestamp_key: DEFAULT_TIMESTAMP_KEY.to_owned(),
            color_settings: ColorSettings::default(),
            context: ContextStore::new(),
            pretty: false,
        }
    }

    /// The lowest level that is logged; records below it are skipped.
    pub fn min_level(self, log_level: LogLevel) -> (options: Self)
        ensures
            options@ == (LoggerOptionsView { min_level: log_level, ..self@ }),
    {
        proof {
            use_type_invariant(&self);
        }
        let mut next = self;
        next.min_level = log_level;
        next
    }

    /// How many records the channel holds before the caller writes for
    /// itself.
    pub fn buffer_size(self, buffer_size: usize) -> (options: Self)
        ensures
            options@ == (LoggerOptionsView { buffer_size, ..self@ }),
    {
        proof {
            use_type_invariant(&self);
        }
        let mut next = self;
        next.buffer_size = buffer_size;
        next
    }

    /// How many records make a batch.
    pub fn batch_size(self, batch_size: usize) -> (options: Self)
        ensures
            options@ == (LoggerOptionsView { batch_size, ..self@ }),
    {
        proof {
            use_type_invariant(&self);
        }
        let mut next = self;
        next.batch_size = batch_size;
        next
    }

    /// For how long records are gathered before the batch is flushed.
    pub fn batch_duration_ms(self, batch_duration_ms: u64) -> (options: Self)
        ensures
            options@ == (LoggerOptionsView { batch_duration_ms, ..self@ }),
    {
        proof {
            use_type_invariant(&self);
        }
        let mut next = self;
        next.batch_duration_ms = batch_duration_ms;
        next
    }

    /// The strftime-style pattern of the timestamp.
    pub fn timestamp_format(self, timestamp_format: &str) -> (options: Self)
        ensures
            options@ == (LoggerOptionsView { timestamp_format: timestamp_format@, ..self@ }),
    {
        proof {
            use_type_invariant(&self);
        }
        let mut next = self;
        next.timestamp_format = timestamp_format.to_owned();
        next
    }

    /// The name of the timestamp member. A reserved name, or one that a
    /// context value has, is refused.
    pub fn timestamp_key(self, timestamp_key: &str) -> (done: Result<Self, ConfigError>)
        ensures
            self@.refuses_timestamp_key(timestamp_key@) ==> done == Err::<Self, ConfigError>(
                ConfigError::TimestampKeyTaken,
            ),
            !self@.refuses_timestamp_key(timestamp_key@) ==> done is Ok && done->Ok_0@ == (
            LoggerOptionsView { timestamp_key: timestamp_key@, ..self@ }),
    {
        proof {
            use_type_invariant(&self);
        }
        if is_reserved_key(timestamp_key) || self.context.contains_key(timestamp_key) {
            return Err(ConfigError::TimestampKeyTaken);
        }
        let mut next = self;
        next.timestamp_key = timestamp_key.to_owned();
        Ok(next)
    }

    /// The colour of the `DEBUG` level.
    pub fn debug_color(self, color: RGB) -> (options: Self)
        ensures
            options@ == (LoggerOptionsView {
                color_settings: ColorSettings { debug: color, ..self@.color_settings },
                ..self@
            }),
    {
        proof {
            use_type_invariant(&self);
        }
        let mut next = self;
        next.color_settings.debug = color;
        next
    }

    /// The colour of the `INFO` level.
    pub fn info_color(self, color: RGB) -> (options: Self)
        ensures
            options@ == (LoggerOptionsView {
                color_settings: ColorSettings { info: color, ..self@.color_settings },
                ..self@
            }),
    {
        proof {
            use_type_invariant(&self);
        }
        let mut next = self;
        next.color_settings.info = color;
        next
    }

    /// The colour of the `WARN` level.
    pub fn warn_color(self, color: RGB) -> (options: Self)
        ensures
            options@ == (LoggerOptionsView {
                color_settings: ColorSettings { warn: color, ..self@.color_settings },
                ..self@
            }),
    {
        proof {
            use_type_invariant(&self);
        }
        let mut next = self;
        next.color_settings.warn = color;
        next
    }

    /// The colour of the `ERROR` level.
    pub fn error_color(self, color: RGB) -> (options: Self)
        ensures
            options@ == (LoggerOptionsView {
                color_settings: ColorSettings { error: color, ..self@.color_settings },
                ..self@
            }),
    {
        proof {
            use_type_invariant(&self);
        }
        let mut next = self;
        next.color_settings.error = color;
        next
    }

    /// Adds a value that appears in every line, at the top level. A reserved
    /// name, or the name of the timestamp member, is refused. A name that is
    /// already bound keeps its place and gets the new value.
    pub fn context(self, key: &str, value: Payload) -> (done: Result<Self, ConfigError>)
        ensures
            self@.refuses_key(key@) ==> done == Err::<Self, ConfigError>(ConfigError::ReservedKey),
            !self@.refuses_key(key@) ==> done is Ok && done->Ok_0@ == (LoggerOptionsView {
                context: upsert(self@.context, key@, value@),
                ..self@
            }),
    {
        proof {
            use_type_invariant(&self);
        }
        if is_reserved_key(key) || same_text(key, self.timestamp_key.as_str()) {
            return Err(ConfigError::ReservedKey);
        }
        let ghost before = self@;
        let mut next = self;
        let mut store = ContextStore::new();
        core::mem::swap(&mut next.context, &mut store);
        let bound = store.insert(key.to_owned(), value);
        proof {
            lemma_upsert_keeps_others_out(before.context, key@, value@, before.timestamp_key);
        }
        next.context = store;
        Ok(next)
    }

    /// Whether lines are pretty-printed: indented and spread over several
    /// lines, instead of compact on one.
    pub fn pretty(self, pretty: bool) -> (options: Self)
        ensures
            options@ == (LoggerOptionsView { pretty, ..self@ }),
    {
        proof {
            use_type_invariant(&self);
        }
        let mut next = self;
        next.pretty = pretty;
        next
    }

    /// The capacity that the hand-off channel is to have.
    pub fn channel_capacity(&self) -> (n: usize)
        ensures
            n == self@.buffer_size,
    {
        self.buffer_size
    }

    /// The time after which a batch is flushed, in milliseconds.
    pub fn flush_interval_ms(&self) -> (ms: u64)
        ensures
            ms == self@.batch_duration_ms,
    {
        self.batch_duration_ms
    }

    /// Makes the handle and the worker of an independent logger that sends
    /// into `log_sender`.
    pub fn into_parts(self, log_sender: Sender<Record>) -> (parts: (Logger, Worker))
        ensures
            parts.0@ == self@.logger(log_sender),
            parts.0@.format_state.valid(),
            parts.1@ == WorkerModel::fresh(self@.batch_size as nat),
    {
        proof {
            use_type_invariant(&self);
        }
        let state = FormatState::assemble(
            self.timestamp_format,
            self.timestamp_key,
            self.color_settings,
            self.pretty,
            Arc::new(self.context),
        );
        (Logger::new(log_sender, self.min_level, Arc::new(state)), Worker::new(self.batch_size))
    }

    /// Builds the logger of `registry`, once. Where the registry holds no
    /// logger yet, the handle is installed and the worker to run is
    /// returned. Where it holds one, the registry is left as it is, these
    /// options are dropped, and no worker is made.
    pub fn build(self, log_sender: Sender<Record>, registry: &mut LoggerRegistry) -> (worker: Option<
        Worker,
    >)
        ensures
            old(registry)@ is Some ==> final(registry)@ == old(registry)@ && worker is None,
            old(registry)@ is None ==> final(registry)@ is Some && final(registry)@->Some_0@
                == self@.logger(log_sender) && worker is Some && worker->Some_0@
                == WorkerModel::fresh(self@.batch_size as nat),
            final(registry)@ is Some,
            old(registry)@ is None ==> self@.format_state().valid(),
    {
        if registry.is_initialized() {
            return None;
        }
        let (logger, worker) = self.into_parts(log_sender);
        registry.install(logger);
        Some(worker)
    }
}

/// Binding a name that is not the given one never makes the given one
/// appear.
pub proof fn lemma_upsert_keeps_others_out(
    fields: Seq<FieldView>,
    key: Seq<char>,
    value: PayloadView,
    other: Seq<char>,
)
    requires
        !has_key(fields, other),
        key != other,
    ensures
        !has_key(upsert(fields, key, value), other),
{
    let after = upsert(fields, key, value);
    if has_key(after, other) {
        let i = choose|i: int| 0 <= i < after.len() && (#[trigger] after[i]).key == other;
        if has_key(fields, key) {
            assert(fields[i].key == other);
        } else {
            if i < fields.len() {
                assert(fields[i].key == other);
            }
        }
    }
}

} // verus!
