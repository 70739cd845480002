use crate::format::{Format, FormatKind};
use crate::format_options::FormatOptions;
use crate::log_info::{LogInfo, LogModel};
use vstd::prelude::*;

verus! {

/// What the align formatter does: a tab is put before the message.
pub open spec fn align_model(m: LogModel) -> LogModel {
    LogModel { level: m.level, message: seq!['\t'] + m.message, meta: m.meta }
}

pub(crate) fn apply_align(info: LogInfo) -> (r: LogInfo)
    ensures
        r@ == align_model(info@),
{
    let mut msg = String::new();
    msg.append("\t");
    msg.append(info.message.as_str());
    let r = LogInfo { level: info.level, message: msg, meta: info.meta };
    proof {
        reveal_strlit("\t");
        assert(r@.message =~= seq!['\t'] + info@.message);
    }
    r
}

/// A formatter that puts a tab character before the message.
pub fn align() -> (f: Format)
    ensures
        f.kind is Align,
        f.options@ == Seq::<(Seq<char>, crate::value::ValModel)>::empty(),
{
    Format { kind: FormatKind::Align, options: FormatOptions::new() }
}

} // verus!
