use crate::format::{Format, FormatKind};
use crate::format_options::FormatOptions;
use crate::json_text::{json_text, render_value_string};
use crate::log_info::{LogInfo, LogModel};
use crate::value::{
    clone_entries, entries_model, lemma_entries_model_index, map_get, map_remove, vget, vremove,
    Entries, ValModel, Value,
};
use vstd::prelude::*;

verus! {

/// The padding for this record: what the `padding` metadata object holds
/// under the record's level, when it is a string.
pub open spec fn padding_of(m: LogModel) -> Seq<char> {
    match vget(m.meta, "padding"@) {
        Some(ValModel::Obj(pm)) => match vget(pm, m.level) {
            Some(ValModel::Str(s)) => s,
            _ => Seq::empty(),
        },
        _ => Seq::empty(),
    }
}

/// The metadata that the simple formatter appends: everything but the
/// `level`, `message`, `splat` and `padding` entries.
pub open spec fn rest_of(m: LogModel) -> crate::value::EntriesModel {
    vremove(vremove(vremove(vremove(m.meta, "level"@), "message"@), "splat"@), "padding"@)
}

/// What the simple formatter writes into the message: `level:padding message`,
/// then the remaining metadata as a JSON object when any remains.
pub open spec fn simple_message(m: LogModel) -> Seq<char> {
    let head = m.level + seq![':'] + padding_of(m) + seq![' '] + m.message;
    if rest_of(m).len() == 0 {
        head
    } else {
        head + seq![' '] + json_text(ValModel::Obj(rest_of(m)))
    }
}

/// What the simple formatter does: the message is rebuilt; level and
/// metadata stay.
pub open spec fn simple_model(m: LogModel) -> LogModel {
    LogModel { level: m.level, message: simple_message(m), meta: m.meta }
}

/// The record's padding text, as a string.
fn padding_text(info: &LogInfo) -> (r: String)
    ensures
        r@ == padding_of(info@),
{
    match map_get(&info.meta, "padding") {
        Some(Value::Obj(pm)) => match map_get(pm, info.level.as_str()) {
            Some(Value::Str(s)) => s.clone(),
            _ => String::new(),
        },
        _ => String::new(),
    }
}

pub(crate) fn apply_simple(info: LogInfo) -> (r: LogInfo)
    ensures
        r@ == simple_model(info@),
{
    let padding = padding_text(&info);
    let mut rest: Entries = clone_entries(&info.meta);
    map_remove(&mut rest, "level");
    map_remove(&mut rest, "message");
    map_remove(&mut rest, "splat");
    map_remove(&mut rest, "padding");
    proof {
        lemma_entries_model_index(rest@);
    }
    let mut msg = String::new();
    msg.append(info.level.as_str());
    msg.append(":");
    msg.append(padding.as_str());
    msg.append(" ");
    msg.append(info.message.as_str());
    if rest.len() > 0 {
        msg.append(" ");
        let rendered = Value::Obj(rest);
        let tail = render_value_string(&rendered);
        msg.append(tail.as_str());
    }
    proof {
        reveal_strlit(":");
        reveal_strlit(" ");
        assert(msg@ =~= simple_message(info@));
    }
    LogInfo { level: info.level, message: msg, meta: info.meta }
}

/// A formatter that rebuilds the message as `level:padding message`, with the
/// remaining metadata appended as a JSON object; the padding comes from the
/// `padding` metadata object, keyed by level.
pub fn simple() -> (f: Format)
    ensures
        f.kind is Simple,
        f.options@ == Seq::<(Seq<char>, ValModel)>::empty(),
{
    Format { kind: FormatKind::Simple, options: FormatOptions::new() }
}

} // verus!
