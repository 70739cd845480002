use crate::ansi::{paint_color, strip_ansi};
use crate::colorize::flag_on;
use crate::format::{Format, FormatKind};
use crate::format_options::{vset_all, FormatOptions};
use crate::json_text::{int_text, quoted, render_i64, render_quoted};
use crate::json::base_object;
use crate::log_info::{LogInfo, LogModel};
use crate::strutil::string_from_chars;
use crate::value::{
    clone_entries, entries_model, lemma_entries_model_index, lemma_vals_model_index, map_remove,
    val_model, vals_model, vremove, Entries, EntriesModel, ValModel, Value,
};
use vstd::prelude::*;

verus! {

/// The indented rendering of a value; `pad` is the indentation text of the
/// enclosing line, and grows by two spaces for each nesting level.
pub open spec fn pretty_text(v: ValModel, pad: Seq<char>) -> Seq<char>
    decreases v, 0int,
{
    match v {
        ValModel::Null => seq!['n', 'u', 'l', 'l'],
        ValModel::Bool(b) => if b {
            seq!['t', 'r', 'u', 'e']
        } else {
            seq!['f', 'a', 'l', 's', 'e']
        },
        ValModel::Int(i) => int_text(i),
        ValModel::Str(s) => quoted(s),
        ValModel::Arr(items) => if items.len() == 0 {
            seq!['[', ']']
        } else {
            seq!['[', '\n'] + parr_body(items, pad + seq![' ', ' ']) + seq!['\n'] + pad + seq![']']
        },
        ValModel::Obj(entries) => if entries.len() == 0 {
            seq!['{', '}']
        } else {
            seq!['{', '\n'] + pobj_body(entries, pad + seq![' ', ' ']) + seq!['\n'] + pad + seq![
                '}',
            ]
        },
    }
}

/// The lines of an indented array body, without the surrounding brackets.
pub open spec fn parr_body(items: Seq<ValModel>, pad: Seq<char>) -> Seq<char>
    decreases items, items.len(),
{
    if items.len() == 0 {
        Seq::empty()
    } else if items.len() == 1 {
        pad + pretty_text(items[0], pad)
    } else {
        pad + pretty_text(items[0], pad) + seq![',', '\n'] + parr_body(items.drop_first(), pad)
    }
}

/// The lines of an indented object body, without the surrounding braces.
pub open spec fn pobj_body(entries: EntriesModel, pad: Seq<char>) -> Seq<char>
    decreases entries, entries.len(),
{
    if entries.len() == 0 {
        Seq::empty()
    } else if entries.len() == 1 {
        pad + quoted(entries[0].0) + seq![':', ' '] + pretty_text(entries[0].1, pad)
    } else {
        pad + quoted(entries[0].0) + seq![':', ' '] + pretty_text(entries[0].1, pad) + seq![
            ',',
            '\n',
        ] + pobj_body(entries.drop_first(), pad)
    }
}

/// The object the pretty printer renders: level and message first, then the
/// metadata without its `level`, `message` and `splat` entries.
pub open spec fn pretty_object(m: LogModel) -> EntriesModel {
    vset_all(base_object(m), vremove(vremove(vremove(m.meta, "level"@), "message"@), "splat"@))
}

/// What the pretty printer writes into the message when no coloring is asked
/// for.
pub open spec fn pretty_message(m: LogModel) -> Seq<char> {
    pretty_text(ValModel::Obj(pretty_object(m)), Seq::empty())
}

/// What the pretty-print formatter does: the message becomes the indented
/// rendering of the record; with the `colorize` flag on, terminal escape
/// sequences may come in, the stripped text staying the same.
pub open spec fn pretty_possible(e: EntriesModel, m: LogModel, out: Option<LogModel>) -> bool {
    out matches Some(o) && {
        &&& o.level == m.level
        &&& o.meta == m.meta
        &&& if flag_on(e, "colorize"@) {
            strip_ansi(o.message) == strip_ansi(pretty_message(m))
        } else {
            o.message == pretty_message(m)
        }
    }
}

/// Writes the indented rendering of a value.
pub fn render_pretty(v: &Value, pad: &Vec<char>) -> (r: Vec<char>)
    ensures
        r@ == pretty_text(val_model(*v), pad@),
    decreases *v, 0int,
{
    match v {
        Value::Null => {
            let mut out: Vec<char> = Vec::new();
            out.push('n');
            out.push('u');
            out.push('l');
            out.push('l');
            proof {
                assert(out@ =~= pretty_text(val_model(*v), pad@));
            }
            out
        },
        Value::Bool(b) => {
            let mut out: Vec<char> = Vec::new();
            if *b {
                out.push('t');
                out.push('r');
                out.push('u');
                out.push('e');
            } else {
                out.push('f');
                out.push('a');
                out.push('l');
                out.push('s');
                out.push('e');
            }
            proof {
                assert(out@ =~= pretty_text(val_model(*v), pad@));
            }
            out
        },
        Value::Int(i) => render_i64(*i),
        Value::Str(s) => render_quoted(s.as_str()),
        Value::Arr(items) => {
            proof {
                assert(decreases_to!(*v => items));
                lemma_vals_model_index(items@);
            }
            let mut out: Vec<char> = Vec::new();
            if items.len() == 0 {
                out.push('[');
                out.push(']');
                proof {
                    assert(vals_model(items@) =~= Seq::<ValModel>::empty());
                    assert(out@ =~= pretty_text(val_model(*v), pad@));
                }
                out
            } else {
                let mut inner = pad.clone();
                inner.push(' ');
                inner.push(' ');
                proof {
                    assert(inner@ =~= pad@ + seq![' ', ' ']);
                    assert(vals_model(items@).skip(0) =~= vals_model(items@));
                }
                out.push('[');
                out.push('\n');
                let mut body = render_parr_tail(items, &inner, 0);
                out.append(&mut body);
                out.push('\n');
                let mut padc = pad.clone();
                out.append(&mut padc);
                out.push(']');
                proof {
                    assert(vals_model(items@).len() > 0);
                    assert(out@ =~= pretty_text(val_model(*v), pad@));
                }
                out
            }
        },
        Value::Obj(entries) => {
            proof {
                assert(decreases_to!(*v => entries));
                lemma_entries_model_index(entries@);
            }
            let mut out: Vec<char> = Vec::new();
            if entries.len() == 0 {
                out.push('{');
                out.push('}');
                proof {
                    assert(entries_model(entries@) =~= Seq::<(Seq<char>, ValModel)>::empty());
                    assert(out@ =~= pretty_text(val_model(*v), pad@));
                }
                out
            } else {
                let mut inner = pad.clone();
                inner.push(' ');
                inner.push(' ');
                proof {
                    assert(inner@ =~= pad@ + seq![' ', ' ']);
                    assert(entries_model(entries@).skip(0) =~= entries_model(entries@));
                }
                out.push('{');
                out.push('\n');
                let mut body = render_pobj_tail(entries, &inner, 0);
                out.append(&mut body);
                out.push('\n');
                let mut padc = pad.clone();
                out.append(&mut padc);
                out.push('}');
                proof {
                    assert(entries_model(entries@).len() > 0);
                    assert(out@ =~= pretty_text(val_model(*v), pad@));
                }
                out
            }
        },
    }
}

/// Writes the indented lines of the items from position `i` on.
fn render_parr_tail(items: &Vec<Value>, pad: &Vec<char>, i: usize) -> (r: Vec<char>)
    requires
        i <= items@.len(),
    ensures
        r@ == parr_body(vals_model(items@).skip(i as int), pad@),
    decreases items@, items@.len() - i,
{
    proof {
        lemma_vals_model_index(items@);
    }
    let ghost mseq = vals_model(items@);
    if i == items.len() {
        let out: Vec<char> = Vec::new();
        proof {
            assert(mseq.skip(i as int) =~= Seq::<ValModel>::empty());
        }
        out
    } else {
        proof {
            assert(decreases_to!(items@ => items@[i as int]));
            assert(mseq.skip(i as int)[0] == mseq[i as int]);
        }
        let mut out = pad.clone();
        let mut item = render_pretty(&items[i], pad);
        out.append(&mut item);
        if i + 1 < items.len() {
            out.push(',');
            out.push('\n');
            let mut rest = render_parr_tail(items, pad, i + 1);
            out.append(&mut rest);
            proof {
                assert(mseq.skip(i as int).drop_first() =~= mseq.skip(i as int + 1));
                assert(out@ =~= pad@ + pretty_text(mseq[i as int], pad@) + seq![',', '\n']
                    + parr_body(mseq.skip(i as int + 1), pad@));
            }
        } else {
            proof {
                assert(mseq.skip(i as int).len() == 1);
                assert(out@ =~= pad@ + pretty_text(mseq[i as int], pad@));
            }
        }
        out
    }
}

/// Writes the indented lines of the entries from position `i` on.
fn render_pobj_tail(entries: &Entries, pad: &Vec<char>, i: usize) -> (r: Vec<char>)
    requires
        i <= entries@.len(),
    ensures
        r@ == pobj_body(entries_model(entries@).skip(i as int), pad@),
    decreases entries@, entries@.len() - i,
{
    proof {
        lemma_entries_model_index(entries@);
    }
    let ghost mseq = entries_model(entries@);
    if i == entries.len() {
        let out: Vec<char> = Vec::new();
        proof {
            assert(mseq.skip(i as int) =~= Seq::<(Seq<char>, ValModel)>::empty());
        }
        out
    } else {
        proof {
            assert(decreases_to!(entries@ => entries@[i as int]));
            assert(decreases_to!(entries@[i as int] => entries@[i as int].1));
            assert(mseq.skip(i as int)[0] == mseq[i as int]);
        }
        let pair = &entries[i];
        let mut out = pad.clone();
        let mut key = render_quoted(pair.0.as_str());
        out.append(&mut key);
        out.push(':');
        out.push(' ');
        let mut val_text = render_pretty(&pair.1, pad);
        out.append(&mut val_text);
        if i + 1 < entries.len() {
            out.push(',');
            out.push('\n');
            let mut rest = render_pobj_tail(entries, pad, i + 1);
            out.append(&mut rest);
            proof {
                assert(mseq.skip(i as int).drop_first() =~= mseq.skip(i as int + 1));
                assert(out@ =~= pad@ + quoted(mseq[i as int].0) + seq![':', ' '] + pretty_text(
                    mseq[i as int].1,
                    pad@,
                ) + seq![',', '\n'] + pobj_body(mseq.skip(i as int + 1), pad@));
            }
        } else {
            proof {
                assert(mseq.skip(i as int).len() == 1);
                assert(out@ =~= pad@ + quoted(mseq[i as int].0) + seq![':', ' '] + pretty_text(
                    mseq[i as int].1,
                    pad@,
                ));
            }
        }
        out
    }
}

pub(crate) fn apply_pretty(info: LogInfo, merged: &FormatOptions) -> (r: LogInfo)
    ensures
        pretty_possible(merged@, info@, Some(r@)),
{
    let mut rest: Entries = clone_entries(&info.meta);
    map_remove(&mut rest, "level");
    map_remove(&mut rest, "message");
    map_remove(&mut rest, "splat");
    let obj = crate::json::build_object_from(&info, &rest);
    let rendered = Value::Obj(obj);
    let pad: Vec<char> = Vec::new();
    let text = render_pretty(&rendered, &pad);
    proof {
        assert(pad@ =~= Seq::<char>::empty());
    }
    let plain = string_from_chars(&text);
    let colorized = crate::colorize::opt_flag_on(merged, "colorize");
    let message = if colorized {
        paint_color(plain.as_str(), "cyan")
    } else {
        plain
    };
    LogInfo { level: info.level, message, meta: info.meta }
}

/// A formatter that replaces the message by an indented, line-broken
/// rendering of the whole record; the `colorize` flag adds terminal color.
pub fn pretty_print() -> (f: Format)
    ensures
        f.kind is PrettyPrint,
        f.options@ == Seq::<(Seq<char>, ValModel)>::empty(),
{
    Format { kind: FormatKind::PrettyPrint, options: FormatOptions::new() }
}

} // verus!
