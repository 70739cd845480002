use crate::format::{Format, FormatKind};
use crate::format_options::FormatOptions;
use crate::log_info::{LogInfo, LogModel};
use crate::strutil::{lower_of, to_lower, to_upper, upper_of};
use crate::value::{vget, vhas, EntriesModel, ValModel};
use vstd::prelude::*;

verus! {

/// What the volume formatter does: with a `yell` option the message is
/// uppercased, otherwise with a `whisper` option it is lowercased, otherwise
/// it is left alone.
pub open spec fn volume_model(e: EntriesModel, m: LogModel) -> LogModel {
    if vhas(e, "yell"@) {
        LogModel { level: m.level, message: upper_of(m.message), meta: m.meta }
    } else if vhas(e, "whisper"@) {
        LogModel { level: m.level, message: lower_of(m.message), meta: m.meta }
    } else {
        m
    }
}

pub(crate) fn apply_volume(info: LogInfo, merged: &FormatOptions) -> (r: LogInfo)
    ensures
        r@ == volume_model(merged@, info@),
{
    if merged.contains_key("yell") {
        let msg = to_upper(info.message.as_str());
        LogInfo { level: info.level, message: msg, meta: info.meta }
    } else if merged.contains_key("whisper") {
        let msg = to_lower(info.message.as_str());
        LogInfo { level: info.level, message: msg, meta: info.meta }
    } else {
        info
    }
}

/// A formatter that shifts the message's case: a bound or call option `yell`
/// uppercases it, else `whisper` lowercases it.
pub fn volume() -> (f: Format)
    ensures
        f.kind is Volume,
        f.options@ == Seq::<(Seq<char>, ValModel)>::empty(),
{
    Format { kind: FormatKind::Volume, options: FormatOptions::new() }
}

/// The record is marked private: its `private` metadata key holds `true`,
/// either as a boolean or as the string "true".
pub open spec fn private_flagged(m: LogModel) -> bool {
    ||| vget(m.meta, "private"@) == Some(ValModel::Bool(true))
    ||| vget(m.meta, "private"@) == Some(ValModel::Str("true"@))
}

pub(crate) fn apply_ignore_private(info: LogInfo) -> (r: Option<LogInfo>)
    ensures
        private_flagged(info@) ==> r is None,
        !private_flagged(info@) ==> r == Some(info),
{
    let flagged = match info.get_meta("private") {
        Some(crate::value::Value::Bool(b)) => *b,
        Some(crate::value::Value::Str(s)) => crate::strutil::str_eq(s.as_str(), "true"),
        _ => false,
    };
    if flagged {
        None
    } else {
        Some(info)
    }
}

/// A formatter that suppresses any record whose `private` metadata key holds
/// `true` (as a boolean or as the string "true").
pub fn ignore_private() -> (f: Format)
    ensures
        f.kind is IgnorePrivate,
        f.options@ == Seq::<(Seq<char>, ValModel)>::empty(),
{
    Format { kind: FormatKind::IgnorePrivate, options: FormatOptions::new() }
}

} // verus!
