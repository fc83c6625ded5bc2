//! The line formatter: one record and the rendering configuration give one
//! line of JSON text.

use crate::clock::{strftime, strftime_text};
use crate::colors::ColorSettings;
use crate::context::{
    has_key, is_reserved_key, is_reserved_name, keys_valid, rendered_fields, ConfigError,
    ContextStore,
};
use crate::json::{quote, quoted};
use crate::levels::LogLevel;
use crate::payload::{append_member, append_member_name, member_text, name_separator, FieldView};
use crate::record::{record_views, Record, RecordView};
use std::sync::Arc;
use vstd::prelude::*;

verus! {

/// Why a record could not be rendered.
#[derive(Clone, Copy, Debug, PartialEq, Eq, Structural)]
pub enum FormatError {
    /// The capture instant is outside the calendar, or the timestamp pattern
    /// is not valid.
    Timestamp,
}

/// What a [`FormatState`] holds.
pub struct FormatStateView {
    pub timestamp_format: Seq<char>,
    pub timestamp_key: Seq<char>,
    pub color_settings: ColorSettings,
    pub pretty: bool,
    pub context: Seq<FieldView>,
}

impl FormatStateView {
    /// No two members of a line can share a name: the context names are
    /// pairwise different, none of them is reserved or names the timestamp,
    /// and the name of the timestamp is not reserved.
    pub open spec fn valid(self) -> bool {
        &&& keys_valid(self.context)
        &&& !is_reserved_name(self.timestamp_key)
        &&& !has_key(self.context, self.timestamp_key)
    }
}

/// The rendering configuration, fixed once the logger is built. The context
/// store is rendered when the state is made and reused for every line.
#[derive(Debug)]
pub struct FormatState {
    timestamp_format: String,
    timestamp_key: String,
    color_settings: ColorSettings,
    pretty: bool,
    context: Arc<ContextStore>,
    context_text: String,
}

impl View for FormatState {
    type V = FormatStateView;

    closed spec fn view(&self) -> FormatStateView {
        FormatStateView {
            timestamp_format: self.timestamp_format@,
            timestamp_key: self.timestamp_key@,
            color_settings: self.color_settings,
            pretty: self.pretty,
            context: (*self.context)@,
        }
    }
}

/// How the severity appears in a line: its name, painted where the sink is
/// an interactive terminal.
pub open spec fn level_text(level: LogLevel, palette: ColorSettings, colored: bool) -> Seq<char> {
    if colored {
        level.colored_name(palette)
    } else {
        level.name()
    }
}

/// What opens the object.
pub open spec fn opening(pretty: bool) -> Seq<char> {
    if pretty {
        "{\n  "@
    } else {
        "{"@
    }
}

/// What closes the object.
pub open spec fn closing(pretty: bool) -> Seq<char> {
    if pretty {
        "\n}"@
    } else {
        "}"@
    }
}

/// The first member: the severity.
pub open spec fn level_member(text: Seq<char>, pretty: bool) -> Seq<char> {
    quoted("level"@) + name_separator(pretty) + "\""@ + text + "\""@
}

/// Whether the payload stands in for the message: the record has no message
/// of its own and its payload is a bare string.
pub open spec fn promoted(record: RecordView) -> bool {
    record.message is None && record.payload is Text
}

/// The member that holds the explicit message, if there is one.
pub open spec fn message_member(record: RecordView, pretty: bool) -> Seq<char> {
    match record.message {
        Some(m) => member_text("message"@, quoted(m), pretty),
        None => Seq::empty(),
    }
}

/// The member that holds the payload: under `message` where it is promoted,
/// under `data` otherwise.
pub open spec fn payload_member(record: RecordView, pretty: bool) -> Seq<char> {
    if promoted(record) {
        member_text("message"@, record.payload.rendered(pretty), pretty)
    } else {
        member_text("data"@, record.payload.rendered(pretty), pretty)
    }
}

/// The line for a record whose timestamp renders as `stamp`.
pub open spec fn line_text(
    record: RecordView,
    stamp: Seq<char>,
    state: FormatStateView,
    colored: bool,
) -> Seq<char> {
    opening(state.pretty) + level_member(
        level_text(record.level, state.color_settings, colored),
        state.pretty,
    ) + member_text(state.timestamp_key, quoted(stamp), state.pretty) + message_member(
        record,
        state.pretty,
    ) + payload_member(record, state.pretty) + rendered_fields(state.context, state.pretty)
        + closing(state.pretty)
}

/// The line for a record, or the reason why there is none.
pub open spec fn formatted(record: RecordView, state: FormatStateView, colored: bool) -> Result<
    Seq<char>,
    FormatError,
> {
    match strftime_text(record.timestamp.secs, record.timestamp.nanos, state.timestamp_format) {
        Some(stamp) => Ok(line_text(record, stamp, state, colored)),
        None => Err(FormatError::Timestamp),
    }
}

/// What a record contributes to the sink: its line and a line break, or
/// nothing where it cannot be rendered.
pub open spec fn written(record: RecordView, state: FormatStateView, colored: bool) -> Seq<char> {
    match formatted(record, state, colored) {
        Ok(line) => line + "\n"@,
        Err(_) => Seq::empty(),
    }
}

/// What a batch contributes to the sink: the lines of its records in order.
pub open spec fn batch_text(records: Seq<RecordView>, state: FormatStateView, colored: bool) -> Seq<
    char,
>
    decreases records.len(),
{
    if records.len() == 0 {
        Seq::empty()
    } else {
        batch_text(records.drop_last(), state, colored) + written(records.last(), state, colored)
    }
}

/// How many records of a batch cannot be rendered.
pub open spec fn batch_failures(records: Seq<RecordView>, state: FormatStateView) -> nat
    decreases records.len(),
{
    if records.len() == 0 {
        0
    } else {
        batch_failures(records.drop_last(), state) + if formatted(records.last(), state, false) is Err {
            1nat
        } else {
            0nat
        }
    }
}

/// What a flush hands to the sink.
pub struct FlushView {
    pub text: Seq<char>,
    pub failed: nat,
}

/// What flushing `records` hands to the sink.
pub open spec fn flushed(records: Seq<RecordView>, state: FormatStateView, colored: bool) -> FlushView {
    FlushView {
        text: batch_text(records, state, colored),
        failed: batch_failures(records, state),
    }
}

impl FormatState {
    #[verifier::type_invariant]
    spec fn inv(self) -> bool {
        &&& self@.valid()
        &&& self.context_text@ == rendered_fields(self@.context, self@.pretty)
    }

    /// Fixes the rendering configuration and renders the context store.
    /// The name of the timestamp member is refused where it is reserved or
    /// names a context value.
    pub fn new(
        timestamp_format: String,
        timestamp_key: String,
        color_settings: ColorSettings,
        pretty: bool,
        context: Arc<ContextStore>,
    ) -> (made: Result<Self, ConfigError>)
        ensures
            (is_reserved_name(timestamp_key@) || has_key((*context)@, timestamp_key@)) ==> made
                == Err::<Self, ConfigError>(ConfigError::TimestampKeyTaken),
            !(is_reserved_name(timestamp_key@) || has_key((*context)@, timestamp_key@)) ==> made is Ok
                && made->Ok_0@ == (FormatStateView {
                timestamp_format: timestamp_format@,
                timestamp_key: timestamp_key@,
                color_settings,
                pretty,
                context: (*context)@,
            }),
            made is Ok ==> made->Ok_0@.valid(),
    {
        if is_reserved_key(timestamp_key.as_str()) || context.contains_key(timestamp_key.as_str()) {
            return Err(ConfigError::TimestampKeyTaken);
        }
        Ok(Self::assemble(timestamp_format, timestamp_key, color_settings, pretty, context))
    }

    /// Renders the context store and puts the state together.
    pub(crate) fn assemble(
        timestamp_format: String,
        timestamp_key: String,
        color_settings: ColorSettings,
        pretty: bool,
        context: Arc<ContextStore>,
    ) -> (made: Self)
        requires
            !is_reserved_name(timestamp_key@),
            !has_key((*context)@, timestamp_key@),
        ensures
            made@ == (FormatStateView {
                timestamp_format: timestamp_format@,
                timestamp_key: timestamp_key@,
                color_settings,
                pretty,
                context: (*context)@,
            }),
            made@.valid(),
    {
        let mut context_text = String::new();
        context.append_to(&mut context_text, pretty);
        FormatState { timestamp_format, timestamp_key, color_settings, pretty, context, context_text }
    }

    /// The strftime-style pattern of the timestamp.
    pub fn timestamp_format(&self) -> (pattern: &str)
        ensures
            pattern@ == self@.timestamp_format,
    {
        self.timestamp_format.as_str()
    }

    /// The name of the timestamp member.
    pub fn timestamp_key(&self) -> (key: &str)
        ensures
            key@ == self@.timestamp_key,
    {
        self.timestamp_key.as_str()
    }

    /// The palette.
    pub fn color_settings(&self) -> (palette: ColorSettings)
        ensures
            palette == self@.color_settings,
    {
        self.color_settings
    }

    /// Whether lines are pretty-printed.
    pub fn pretty(&self) -> (pretty: bool)
        ensures
            pretty == self@.pretty,
    {
        self.pretty
    }

    /// The context store that every line carries.
    pub fn context(&self) -> (store: &Arc<ContextStore>)
        ensures
            (**store)@ == self@.context,
            self@.valid(),
    {
        proof {
            use_type_invariant(self);
        }
        &self.context
    }
}

/// Appends what opens the object and its first member, the severity.
fn append_level(out: &mut String, level: LogLevel, palette: &ColorSettings, pretty: bool, is_tty: bool)
    ensures
        final(out)@ == old(out)@ + opening(pretty) + level_member(
            level_text(level, *palette, is_tty),
            pretty,
        ),
{
    if pretty {
        out.append("{\n  ");
    } else {
        out.append("{");
    }
    let level_name = quote("level");
    out.append(level_name.as_str());
    if pretty {
        out.append(": ");
    } else {
        out.append(":");
    }
    out.append("\"");
    if is_tty {
        let painted = level.get_colored_string(palette);
        out.append(painted.as_str());
    } else {
        out.append(level.as_str());
    }
    out.append("\"");
}

/// Appends the timestamp member.
fn append_stamp(out: &mut String, key: &str, stamp: &str, pretty: bool)
    ensures
        final(out)@ == old(out)@ + member_text(key@, quoted(stamp@), pretty),
{
    append_member_name(out, key, pretty);
    let stamp_text = quote(stamp);
    out.append(stamp_text.as_str());
}

/// Appends the member of the explicit message, if there is one.
fn append_message(out: &mut String, log: &Record, pretty: bool)
    ensures
        final(out)@ == old(out)@ + message_member(log@, pretty),
{
    match &log.message {
        Some(m) => {
            append_member_name(out, "message", pretty);
            let text = quote(m.as_str());
            out.append(text.as_str());
        },
        None => {},
    }
}

/// Appends the member of the payload.
fn append_payload(out: &mut String, log: &Record, pretty: bool)
    ensures
        final(out)@ == old(out)@ + payload_member(log@, pretty),
{
    if log.message.is_none() && log.payload.is_text() {
        append_member(out, "message", &log.payload, pretty);
    } else {
        append_member(out, "data", &log.payload, pretty);
    }
}

/// Renders one record as one line, without a line break at its end.
///
/// The members come in this order: `level`, the timestamp, `message` where
/// the record has one, the payload (under `message` where it is promoted,
/// under `data` otherwise), then the context values in store order.
pub fn format_log_line(log: &Record, state: &FormatState, is_tty: bool) -> (line: Result<
    String,
    FormatError,
>)
    ensures
        line matches Ok(text) ==> formatted(log@, state@, is_tty) == Ok::<Seq<char>, FormatError>(
            text@,
        ),
        line matches Err(e) ==> formatted(log@, state@, is_tty) == Err::<Seq<char>, FormatError>(e),
{
    proof {
        use_type_invariant(state);
    }
    let stamp = match strftime(log.timestamp, state.timestamp_format.as_str()) {
        Some(stamp) => stamp,
        None => {
            return Err(FormatError::Timestamp);
        },
    };
    let pretty = state.pretty;
    let mut out = String::new();
    append_level(&mut out, log.level, &state.color_settings, pretty, is_tty);
    append_stamp(&mut out, state.timestamp_key.as_str(), stamp.as_str(), pretty);
    append_message(&mut out, log, pretty);
    append_payload(&mut out, log, pretty);
    out.append(state.context_text.as_str());
    if pretty {
        out.append("\n}");
    } else {
        out.append("}");
    }
    Ok(out)
}

/// What [`flush_batch`] hands to the sink.
#[derive(Debug)]
pub struct FlushOutput {
    /// The lines of the batch, each ended by a line break, in batch order.
    pub text: String,
    /// How many records could not be rendered and are missing from `text`.
    pub failed: usize,
}

impl View for FlushOutput {
    type V = FlushView;

    open spec fn view(&self) -> FlushView {
        FlushView { text: self.text@, failed: self.failed as nat }
    }
}

/// Appends the line of one record and a line break to `out`. Where the
/// record cannot be rendered, `out` is left as it was.
pub fn write_log_line(out: &mut String, log: &Record, state: &FormatState, is_tty: bool) -> (done:
    Result<(), FormatError>)
    ensures
        final(out)@ == old(out)@ + written(log@, state@, is_tty),
        done matches Err(e) ==> formatted(log@, state@, is_tty) == Err::<Seq<char>, FormatError>(e),
        done is Ok ==> formatted(log@, state@, is_tty) is Ok,
{
    match format_log_line(log, state, is_tty) {
        Ok(line) => {
            out.append(line.as_str());
            out.append("\n");
            Ok(())
        },
        Err(e) => Err(e),
    }
}

/// Renders a whole batch for one acquisition of the sink: the lines of its
/// records in arrival order.
pub fn flush_batch(batch: &Vec<Record>, state: &FormatState, is_tty: bool) -> (output: FlushOutput)
    ensures
        output@ == flushed(record_views(batch@), state@, is_tty),
{
    let mut text = String::new();
    let mut failed: usize = 0;
    let ghost all = record_views(batch@);
    let mut i: usize = 0;
    while i < batch.len()
        invariant
            i <= batch.len(),
            all == record_views(batch@),
            text@ == batch_text(all.take(i as int), state@, is_tty),
            failed == batch_failures(all.take(i as int), state@),
            failed <= i,
        decreases batch.len() - i,
    {
        proof {
            assert(all.take(i + 1).drop_last() =~= all.take(i as int));
            lemma_failure_ignores_color(batch@[i as int]@, state@, is_tty);
        }
        match write_log_line(&mut text, &batch[i], state, is_tty) {
            Ok(()) => {},
            Err(_) => {
                failed += 1;
            },
        }
        i += 1;
    }
    proof {
        assert(all.take(all.len() as int) =~= all);
    }
    FlushOutput { text, failed }
}

/// Whether a record can be rendered does not depend on the colouring.
pub proof fn lemma_failure_ignores_color(record: RecordView, state: FormatStateView, colored: bool)
    ensures
        formatted(record, state, colored) is Err <==> formatted(record, state, false) is Err,
{
}

} // verus!
