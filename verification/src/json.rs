use crate::format::{Format, FormatKind};
use crate::format_options::{vset_all, FormatOptions};
use crate::json_text::{json_text, render_value_string};
use crate::log_info::{LogInfo, LogModel};
use crate::value::{
    clone_value, entries_model, lemma_entries_model_index, map_set, Entries, EntriesModel,
    ValModel, Value,
};
use vstd::prelude::*;

verus! {

/// The two entries every rendered log object starts from.
pub open spec fn base_object(m: LogModel) -> EntriesModel {
    seq![("level"@, ValModel::Str(m.level)), ("message"@, ValModel::Str(m.message))]
}

/// The object a record renders to: level and message first, then the
/// metadata entries, which overwrite on a key collision.
pub open spec fn log_object(m: LogModel) -> EntriesModel {
    vset_all(base_object(m), m.meta)
}

/// What the json formatter writes into the message.
pub open spec fn json_message(m: LogModel) -> Seq<char> {
    json_text(ValModel::Obj(log_object(m)))
}

/// What the json formatter does: the message becomes the record rendered as
/// one JSON object; level and metadata stay.
pub open spec fn json_model(m: LogModel) -> LogModel {
    LogModel { level: m.level, message: json_message(m), meta: m.meta }
}

/// Builds a record's rendered object: level and message entries first, then
/// the given extra entries overlaid, which overwrite on a key collision.
#[verifier::loop_isolation(false)]
pub(crate) fn build_object_from(info: &LogInfo, extra: &Entries) -> (r: Entries)
    ensures
        entries_model(r@) == vset_all(base_object(info@), entries_model(extra@)),
{
    let mut obj: Entries = Vec::new();
    obj.push((String::from_str("level"), Value::Str(info.level.clone())));
    obj.push((String::from_str("message"), Value::Str(info.message.clone())));
    proof {
        lemma_entries_model_index(obj@);
        assert(entries_model(obj@) =~= base_object(info@));
        lemma_entries_model_index(extra@);
        assert(entries_model(extra@).skip(0) =~= entries_model(extra@));
    }
    let ghost meta_m = entries_model(extra@);
    let ghost target = vset_all(base_object(info@), meta_m);
    let mut i: usize = 0;
    while i < extra.len()
        invariant
            0 <= i <= extra@.len(),
            vset_all(entries_model(obj@), meta_m.skip(i as int)) == target,
        decreases extra@.len() - i,
    {
        let pair = &extra[i];
        proof {
            assert(meta_m.skip(i as int)[0] == meta_m[i as int]);
            assert(meta_m.skip(i as int).drop_first() =~= meta_m.skip(i as int + 1));
        }
        let cv = clone_value(&pair.1);
        map_set(&mut obj, pair.0.clone(), cv);
        i += 1;
    }
    proof {
        assert(meta_m.skip(i as int) =~= Seq::<(Seq<char>, ValModel)>::empty());
    }
    obj
}

pub(crate) fn apply_json(info: LogInfo) -> (r: LogInfo)
    ensures
        r@ == json_model(info@),
{
    let obj = build_object_from(&info, &info.meta);
    let rendered = Value::Obj(obj);
    let msg = render_value_string(&rendered);
    LogInfo { level: info.level, message: msg, meta: info.meta }
}

/// A formatter that replaces the message by the whole record rendered as one
/// JSON object: level and message first, then the metadata entries.
pub fn json() -> (f: Format)
    ensures
        f.kind is Json,
        f.options@ == Seq::<(Seq<char>, ValModel)>::empty(),
{
    Format { kind: FormatKind::Json, options: FormatOptions::new() }
}

} // verus!
