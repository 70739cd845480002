use crate::format::{Format, FormatKind};
use crate::format_options::FormatOptions;
use crate::log_info::{LogInfo, LogModel};
use crate::value::{map_set, vget, vset, EntriesModel, ValModel, Value};
use std::fmt::Write;
use vstd::prelude::*;

verus! {

/// The metadata key the timestamp is written under: the `alias` option when
/// it is a string, else `timestamp`.
pub open spec fn alias_of(e: EntriesModel) -> Seq<char> {
    match vget(e, "alias"@) {
        Some(ValModel::Str(a)) => a,
        _ => "timestamp"@,
    }
}

/// What the timestamp formatter does: some clock text is written under the
/// alias key; level and message stay. Which text depends on the wall clock.
pub open spec fn timestamp_possible(e: EntriesModel, m: LogModel, out: Option<LogModel>) -> bool {
    out matches Some(o) && {
        &&& o.level == m.level
        &&& o.message == m.message
        &&& exists|ts: Seq<char>| o.meta == vset(m.meta, alias_of(e), ValModel::Str(ts))
    }
}

/// Relies on chrono's Utc::now and DateTime::format: the current UTC time
/// written in the given strftime pattern; nothing comes back only when the
/// pattern holds an item chrono cannot format.
#[verifier::external_body]
fn utc_now_text(pattern: &str) -> (r: Option<String>) {
    let mut s = String::new();
    match write!(s, "{}", chrono::Utc::now().format(pattern)) {
        Ok(()) => Some(s),
        Err(_) => None,
    }
}

pub(crate) fn apply_timestamp(info: LogInfo, merged: &FormatOptions) -> (r: LogInfo)
    ensures
        timestamp_possible(merged@, info@, Some(r@)),
{
    let pattern = match merged.get_string("format") {
        Some(s) => s,
        None => String::from_str("%Y-%m-%d %H:%M:%S"),
    };
    let alias = match merged.get_string("alias") {
        Some(s) => s,
        None => String::from_str("timestamp"),
    };
    proof {
        assert(alias@ == alias_of(merged@));
    }
    let ts = match utc_now_text(pattern.as_str()) {
        Some(t) => t,
        // An unformattable pattern degrades to an empty timestamp rather
        // than poisoning the pipeline.
        None => String::new(),
    };
    let ghost galias = alias@;
    let ghost gts = ts@;
    let mut s = info;
    map_set(&mut s.meta, alias, Value::Str(ts));
    proof {
        assert(s@.meta == vset(info@.meta, galias, ValModel::Str(gts)));
    }
    s
}

/// A formatter that writes the current UTC time, in the pattern given by the
/// `format` option, under the metadata key given by the `alias` option
/// (default `timestamp`). It never suppresses a record.
pub fn timestamp() -> (f: Format)
    ensures
        f.kind is Timestamp,
        f.options@ == Seq::<(Seq<char>, ValModel)>::empty(),
{
    Format { kind: FormatKind::Timestamp, options: FormatOptions::new() }
}

} // verus!
