use crate::format::{Format, FormatKind};
use crate::format_options::FormatOptions;
use crate::json_text::{json_text, render_value};
use crate::log_info::{LogInfo, LogModel};
use crate::strutil::string_from_chars;
use crate::value::{clone_entries, vget, ValModel, Value};
use vstd::prelude::*;

verus! {

/// One piece of a printf template: literal text, or a field of the record.
pub enum TemplatePart {
    /// Literal text, written as it stands.
    Lit(String),
    /// The record's level.
    Level,
    /// The record's message.
    Message,
    /// The whole metadata map, rendered as a JSON object.
    MetaJson,
    /// The text under this metadata key, or nothing when the key holds no
    /// string.
    MetaText(String),
}

/// What one template part renders to.
pub open spec fn part_text(p: TemplatePart, m: LogModel) -> Seq<char> {
    match p {
        TemplatePart::Lit(s) => s@,
        TemplatePart::Level => m.level,
        TemplatePart::Message => m.message,
        TemplatePart::MetaJson => json_text(ValModel::Obj(m.meta)),
        TemplatePart::MetaText(k) => match vget(m.meta, k@) {
            Some(ValModel::Str(s)) => s,
            _ => Seq::empty(),
        },
    }
}

/// What a whole template renders to: the parts' texts, in order.
pub open spec fn template_text(ps: Seq<TemplatePart>, m: LogModel) -> Seq<char>
    decreases ps.len(),
{
    if ps.len() == 0 {
        Seq::empty()
    } else {
        part_text(ps[0], m) + template_text(ps.drop_first(), m)
    }
}

/// What the printf formatter does: the message is replaced by the template's
/// rendering of the record; level and metadata stay.
pub open spec fn printf_model(ps: Seq<TemplatePart>, m: LogModel) -> LogModel {
    LogModel { level: m.level, message: template_text(ps, m), meta: m.meta }
}

/// A message template: the concatenation of its parts.
pub struct Printf {
    pub template: Vec<TemplatePart>,
}

impl Printf {
    pub fn new(template: Vec<TemplatePart>) -> (r: Self)
        ensures
            r.template@ == template@,
    {
        Printf { template }
    }

    /// Renders one part of the template against a record.
    fn render_part(p: &TemplatePart, info: &LogInfo) -> (r: Vec<char>)
        ensures
            r@ == part_text(*p, info@),
    {
        match p {
            TemplatePart::Lit(s) => crate::strutil::chars_of(s.as_str()),
            TemplatePart::Level => crate::strutil::chars_of(info.level.as_str()),
            TemplatePart::Message => crate::strutil::chars_of(info.message.as_str()),
            TemplatePart::MetaJson => {
                let obj = Value::Obj(clone_entries(&info.meta));
                render_value(&obj)
            },
            TemplatePart::MetaText(k) => {
                match info.get_meta_string(k.as_str()) {
                    Some(s) => crate::strutil::chars_of(s.as_str()),
                    None => Vec::new(),
                }
            },
        }
    }

    /// Renders the template's parts from position `i` on.
    fn render_tail(ps: &Vec<TemplatePart>, info: &LogInfo, i: usize) -> (r: Vec<char>)
        requires
            i <= ps@.len(),
        ensures
            r@ == template_text(ps@.skip(i as int), info@),
        decreases ps@.len() - i,
    {
        if i == ps.len() {
            let out: Vec<char> = Vec::new();
            proof {
                assert(ps@.skip(i as int) =~= Seq::<TemplatePart>::empty());
            }
            out
        } else {
            let mut out = Self::render_part(&ps[i], info);
            let mut rest = Self::render_tail(ps, info, i + 1);
            out.append(&mut rest);
            proof {
                assert(ps@.skip(i as int)[0] == ps@[i as int]);
                assert(ps@.skip(i as int).drop_first() =~= ps@.skip(i as int + 1));
            }
            out
        }
    }

    /// Replaces the record's message by the template's rendering of the
    /// record; call options play no part.
    pub fn transform(&self, info: LogInfo, opts: Option<FormatOptions>) -> (r: Option<LogInfo>)
        ensures
            r matches Some(o) && o@ == printf_model(self.template@, info@),
    {
        let text = Self::render_tail(&self.template, &info, 0);
        proof {
            assert(self.template@.skip(0) =~= self.template@);
        }
        let msg = string_from_chars(&text);
        Some(LogInfo { level: info.level, message: msg, meta: info.meta })
    }
}

/// A formatter that rebuilds the message from a template over the record's
/// level, message and metadata.
pub fn printf(template: Vec<TemplatePart>) -> (f: Format)
    ensures
        f.kind matches FormatKind::Printf(p) && p.template@ == template@,
        f.options@ == Seq::<(Seq<char>, ValModel)>::empty(),
{
    Format { kind: FormatKind::Printf(Printf::new(template)), options: FormatOptions::new() }
}

} // verus!
