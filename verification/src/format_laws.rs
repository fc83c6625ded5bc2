//! What holds of every line and of every flush.

use crate::ansi::{decimal, digit_char, foreground_off, foreground_on, painted};
use crate::context::{is_reserved_name, rendered_fields};
use crate::format::{
    batch_failures, batch_text, closing, level_member, level_text, line_text, message_member,
    opening, payload_member, promoted, FormatStateView,
};
use crate::json::{escaped, escaped_char, hex_digit, quoted};
use crate::levels::LogLevel;
use crate::payload::{member_separator, member_text, name_separator, FieldView, PayloadView};
use crate::record::RecordView;
use vstd::prelude::*;

verus! {

/// Payload promotion: a record without a message whose payload is a bare
/// string shows that string under `message` and has no `data` member.
pub proof fn lemma_promoted_payload_is_the_message(
    record: RecordView,
    stamp: Seq<char>,
    state: FormatStateView,
    colored: bool,
)
    requires
        record.message is None,
        record.payload is Text,
    ensures
        promoted(record),
        line_text(record, stamp, state, colored) == opening(state.pretty) + level_member(
            level_text(record.level, state.color_settings, colored),
            state.pretty,
        ) + member_text(state.timestamp_key, quoted(stamp), state.pretty) + member_text(
            "message"@,
            quoted(record.payload->Text_0),
            state.pretty,
        ) + rendered_fields(state.context, state.pretty) + closing(state.pretty),
{
    let head = opening(state.pretty) + level_member(
        level_text(record.level, state.color_settings, colored),
        state.pretty,
    ) + member_text(state.timestamp_key, quoted(stamp), state.pretty);
    assert(message_member(record, state.pretty) =~= Seq::<char>::empty());
    assert(head + message_member(record, state.pretty) =~= head);
}

/// A record with a message of its own keeps its payload under `data`, after
/// the message, also where the payload is a bare string.
pub proof fn lemma_explicit_message_keeps_data(
    record: RecordView,
    stamp: Seq<char>,
    state: FormatStateView,
    colored: bool,
)
    requires
        record.message is Some,
    ensures
        !promoted(record),
        line_text(record, stamp, state, colored) == opening(state.pretty) + level_member(
            level_text(record.level, state.color_settings, colored),
            state.pretty,
        ) + member_text(state.timestamp_key, quoted(stamp), state.pretty) + member_text(
            "message"@,
            quoted(record.message->Some_0),
            state.pretty,
        ) + member_text("data"@, record.payload.rendered(state.pretty), state.pretty)
            + rendered_fields(state.context, state.pretty) + closing(state.pretty),
{
}

/// The names of the members of a line, in the order in which they appear.
pub open spec fn member_names(record: RecordView, state: FormatStateView) -> Seq<Seq<char>> {
    seq!["level"@, state.timestamp_key] + (if record.message is Some {
        seq!["message"@]
    } else {
        Seq::empty()
    }) + seq![if promoted(record) {
        "message"@
    } else {
        "data"@
    }] + state.context.map_values(|f: FieldView| f.key)
}

/// No two members of a line have the same name.
pub proof fn lemma_member_names_differ(record: RecordView, state: FormatStateView)
    requires
        state.valid(),
    ensures
        member_names(record, state).no_duplicates(),
{
    reveal_strlit("level");
    reveal_strlit("context");
    reveal_strlit("message");
    reveal_strlit("data");
    assert("level"@.len() == 5 && "message"@.len() == 7 && "data"@.len() == 4);
    let names = member_names(record, state);
    let fixed = seq!["level"@, state.timestamp_key] + (if record.message is Some {
        seq!["message"@]
    } else {
        Seq::empty()
    }) + seq![if promoted(record) {
        "message"@
    } else {
        "data"@
    }];
    let keys = state.context.map_values(|f: FieldView| f.key);
    assert(names == fixed + keys);
    assert forall|i: int, j: int| 0 <= i < j < names.len() implies names[i] != names[j] by {
        if j >= fixed.len() {
            let k = j - fixed.len();
            assert(names[j] == state.context[k].key);
            assert(!is_reserved_name(state.context[k].key));
            if i >= fixed.len() {
                assert(names[i] == state.context[i - fixed.len()].key);
            } else {
                assert(is_reserved_name(names[i]) || names[i] == state.timestamp_key);
            }
        } else {
            assert(!is_reserved_name(state.timestamp_key));
        }
    }
}

/// Flushing is additive: the text of two batches written one after the
/// other is the text of their records written as one batch, and so is the
/// count of what could not be rendered.
pub proof fn lemma_batch_text_concat(
    first: Seq<RecordView>,
    second: Seq<RecordView>,
    state: FormatStateView,
    colored: bool,
)
    ensures
        batch_text(first + second, state, colored) == batch_text(first, state, colored) + batch_text(
            second,
            state,
            colored,
        ),
        batch_failures(first + second, state) == batch_failures(first, state) + batch_failures(
            second,
            state,
        ),
    decreases second.len(),
{
    if second.len() == 0 {
        assert(first + second =~= first);
        assert(batch_text(first, state, colored) + batch_text(second, state, colored)
            =~= batch_text(first, state, colored));
    } else {
        lemma_batch_text_concat(first, second.drop_last(), state, colored);
        assert((first + second).drop_last() =~= first + second.drop_last());
        assert((first + second).last() == second.last());
        assert(batch_text(first + second, state, colored) =~= batch_text(first, state, colored)
            + batch_text(second, state, colored));
    }
}

/// A piece of text without a line break in it.
pub open spec fn single_line(text: Seq<char>) -> bool {
    forall|i: int| 0 <= i < text.len() ==> text[i] != '\n'
}

/// A payload whose compact form has no line break in it: a bare string
/// always, other values where their text has none.
pub open spec fn payload_single_line(payload: PayloadView) -> bool {
    match payload {
        PayloadView::Text(_) => true,
        PayloadView::Structured(json) => single_line(json),
    }
}

/// Every context value has a compact form without a line break.
pub open spec fn context_single_line(fields: Seq<FieldView>) -> bool {
    forall|i: int| 0 <= i < fields.len() ==> payload_single_line((#[trigger] fields[i]).value)
}

/// Putting two pieces without a line break together gives one without.
pub proof fn lemma_single_line_concat(a: Seq<char>, b: Seq<char>)
    requires
        single_line(a),
        single_line(b),
    ensures
        single_line(a + b),
{
}

/// A JSON string literal never has a line break in it: line breaks in the
/// string are escaped.
pub proof fn lemma_quoted_single_line(s: Seq<char>)
    ensures
        single_line(escaped(s)),
        single_line(quoted(s)),
    decreases s.len(),
{
    if s.len() > 0 {
        lemma_quoted_single_line(s.drop_last());
        let c = s.last();
        assert(single_line(escaped_char(c))) by {
            let d1 = (c as u32) as int / 16;
            let d2 = (c as u32) as int % 16;
            if (c as u32) < 0x20 {
                assert(0 <= d1 < 2 && 0 <= d2 < 16);
                assert(hex_digit(d1) != '\n');
                assert(hex_digit(d2) != '\n');
            }
        }
        lemma_single_line_concat(escaped(s.drop_last()), escaped_char(c));
    }
}

/// A number in decimal has no line break in it.
pub proof fn lemma_decimal_single_line(n: nat)
    ensures
        single_line(decimal(n)),
    decreases n,
{
    if n >= 10 {
        lemma_decimal_single_line(n / 10);
        assert(digit_char((n % 10) as int) != '\n');
    } else {
        assert(digit_char(n as int) != '\n');
    }
}

/// The severity has no line break in it, painted or not.
pub proof fn lemma_level_single_line(level: LogLevel, state: FormatStateView, colored: bool)
    ensures
        single_line(level_text(level, state.color_settings, colored)),
{
    let color = level.spec_color(state.color_settings);
    lemma_decimal_single_line(color.red as nat);
    lemma_decimal_single_line(color.green as nat);
    lemma_decimal_single_line(color.blue as nat);
    assert(single_line(level.name()));
    assert(single_line(foreground_on(color.red, color.green, color.blue)));
    assert(single_line(foreground_off()));
}

/// A member in the compact layout has no line break in it where its value
/// has none.
pub proof fn lemma_member_single_line(key: Seq<char>, value: Seq<char>)
    requires
        single_line(value),
    ensures
        single_line(member_text(key, value, false)),
{
    reveal_strlit(",");
    reveal_strlit(":");
    lemma_quoted_single_line(key);
    assert(single_line(member_separator(false)));
    assert(single_line(name_separator(false)));
}

/// The context values in the compact layout have no line break in them.
pub proof fn lemma_context_single_line(fields: Seq<FieldView>)
    requires
        context_single_line(fields),
    ensures
        single_line(rendered_fields(fields, false)),
    decreases fields.len(),
{
    if fields.len() > 0 {
        let front = fields.drop_last();
        assert(context_single_line(front)) by {
            assert forall|i: int| 0 <= i < front.len() implies payload_single_line(
                (#[trigger] front[i]).value,
            ) by {
                assert(front[i] == fields[i]);
            }
        }
        lemma_context_single_line(front);
        lemma_payload_single_line(fields.last().value);
        lemma_member_single_line(fields.last().key, fields.last().value.rendered(false));
    }
}

/// The compact form of a payload has no line break in it where the payload
/// is a bare string or its text has none.
pub proof fn lemma_payload_single_line(payload: PayloadView)
    requires
        payload_single_line(payload),
    ensures
        single_line(payload.rendered(false)),
{
    match payload {
        PayloadView::Text(s) => {
            lemma_quoted_single_line(s);
        },
        PayloadView::Structured(_) => {},
    }
}

/// One record, one line: in the compact layout the only line break that a
/// record contributes to the sink is the one that ends its line, as long as
/// the structured values it carries are on one line themselves. This holds
/// whatever the message, the strings and the rendered timestamp contain.
pub proof fn lemma_compact_line_is_one_line(
    record: RecordView,
    stamp: Seq<char>,
    state: FormatStateView,
    colored: bool,
)
    requires
        !state.pretty,
        payload_single_line(record.payload),
        context_single_line(state.context),
    ensures
        single_line(line_text(record, stamp, state, colored)),
{
    reveal_strlit("{");
    reveal_strlit("}");
    reveal_strlit(":");
    reveal_strlit("\"");
    lemma_level_single_line(record.level, state, colored);
    lemma_quoted_single_line("level"@);
    let level = level_member(level_text(record.level, state.color_settings, colored), false);
    assert(single_line(level));
    lemma_quoted_single_line(stamp);
    lemma_member_single_line(state.timestamp_key, quoted(stamp));
    match record.message {
        Some(m) => {
            lemma_quoted_single_line(m);
            lemma_member_single_line("message"@, quoted(m));
        },
        None => {},
    }
    assert(single_line(message_member(record, false)));
    lemma_payload_single_line(record.payload);
    lemma_member_single_line("message"@, record.payload.rendered(false));
    lemma_member_single_line("data"@, record.payload.rendered(false));
    assert(single_line(payload_member(record, false)));
    lemma_context_single_line(state.context);
    assert(single_line(opening(false)));
    assert(single_line(closing(false)));
}

} // verus!
