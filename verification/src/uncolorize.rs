use crate::ansi::{strip_ansi, strip_colors_text};
use crate::format::{Format, FormatKind};
use crate::format_options::FormatOptions;
use crate::log_info::{LogInfo, LogModel};
use crate::value::{vget, EntriesModel, ValModel};
use vstd::prelude::*;

verus! {

/// A field is left alone only when its option is the string "false"; absence
/// means the field is cleaned.
pub open spec fn uncolorize_touches(e: EntriesModel, k: Seq<char>) -> bool {
    vget(e, k) != Some(ValModel::Str("false"@))
}

/// What the uncolorize formatter does: ANSI escape sequences are stripped
/// from the level and from the message, each unless its option says "false".
pub open spec fn uncolorize_model(e: EntriesModel, m: LogModel) -> LogModel {
    LogModel {
        level: if uncolorize_touches(e, "level"@) {
            strip_ansi(m.level)
        } else {
            m.level
        },
        message: if uncolorize_touches(e, "message"@) {
            strip_ansi(m.message)
        } else {
            m.message
        },
        meta: m.meta,
    }
}

/// Whether this option is the string "false".
fn opt_is_false(merged: &FormatOptions, key: &str) -> (r: bool)
    ensures
        r == (vget(merged@, key@) == Some(ValModel::Str("false"@))),
{
    match merged.get(key) {
        Some(crate::value::Value::Str(s)) => crate::strutil::str_eq(s.as_str(), "false"),
        _ => false,
    }
}

pub(crate) fn apply_uncolorize(info: LogInfo, merged: &FormatOptions) -> (r: LogInfo)
    ensures
        r@ == uncolorize_model(merged@, info@),
{
    let level = if !opt_is_false(merged, "level") {
        strip_colors_text(info.level.as_str())
    } else {
        info.level
    };
    let message = if !opt_is_false(merged, "message") {
        strip_colors_text(info.message.as_str())
    } else {
        info.message
    };
    LogInfo { level, message, meta: info.meta }
}

/// A formatter that removes ANSI escape sequences from the level and the
/// message, whichever formatter added them; an option `level` or `message`
/// set to the string "false" leaves that field alone.
pub fn uncolorize() -> (f: Format)
    ensures
        f.kind is Uncolorize,
        f.options@ == Seq::<(Seq<char>, ValModel)>::empty(),
{
    Format { kind: FormatKind::Uncolorize, options: FormatOptions::new() }
}

} // verus!
