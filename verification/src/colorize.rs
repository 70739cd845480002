use crate::ansi::{
    paint_blink, paint_bold, paint_color, paint_dimmed, paint_hidden, paint_italic,
    paint_on_color, paint_reversed, paint_strikethrough, paint_underline, strip_ansi,
};
use crate::format::{Format, FormatKind};
use crate::format_options::{vset_all, FormatOptions};
use crate::log_info::{LogInfo, LogModel};
use crate::strutil::str_eq;
use crate::value::{
    clone_entries, entries_model, lemma_entries_model_index, lemma_vals_model_index, map_get,
    map_set, val_model, vals_model, vget, vset, Entries, EntriesModel, ValModel, Value,
};
use vstd::prelude::*;

verus! {

/// A flag option is on when it holds `true`, as a boolean or as the string
/// "true"; an absent flag is off.
pub open spec fn flag_on(e: EntriesModel, k: Seq<char>) -> bool {
    ||| vget(e, k) == Some(ValModel::Str("true"@))
    ||| vget(e, k) == Some(ValModel::Bool(true))
}

pub(crate) fn opt_flag_on(o: &FormatOptions, k: &str) -> (r: bool)
    ensures
        r == flag_on(o@, k@),
{
    match o.get(k) {
        Some(Value::Bool(b)) => *b,
        Some(Value::Str(s)) => str_eq(s.as_str(), "true"),
        _ => false,
    }
}

/// Whether the colorizer touches the level: the `all` or the `level` flag.
pub open spec fn colorize_level_flag(e: EntriesModel) -> bool {
    flag_on(e, "all"@) || flag_on(e, "level"@)
}

/// Whether the colorizer touches the message: the `all` or the `message`
/// flag.
pub open spec fn colorize_message_flag(e: EntriesModel) -> bool {
    flag_on(e, "all"@) || flag_on(e, "message"@)
}

/// What the colorize formatter does under effective options `e`: metadata
/// stays; a touched field keeps its text up to ANSI escape sequences (which
/// escape sequences come in depends on the terminal); an untouched field
/// stays as it was.
pub open spec fn colorize_possible(e: EntriesModel, m: LogModel, o: LogModel) -> bool {
    &&& o.meta == m.meta
    &&& if colorize_level_flag(e) {
        strip_ansi(o.level) == strip_ansi(m.level)
    } else {
        o.level == m.level
    }
    &&& if colorize_message_flag(e) {
        strip_ansi(o.message) == strip_ansi(m.message)
    } else {
        o.message == m.message
    }
}

/// The color tokens a colors-map value stands for: a string is one token, an
/// array keeps its string items, anything else is no token at all.
pub open spec fn color_list_of(v: ValModel) -> ValModel {
    match v {
        ValModel::Str(s) => ValModel::Arr(seq![ValModel::Str(s)]),
        ValModel::Arr(items) => ValModel::Arr(str_items(items)),
        _ => ValModel::Arr(Seq::empty()),
    }
}

/// The string items of an array, the others dropped.
pub open spec fn str_items(items: Seq<ValModel>) -> Seq<ValModel>
    decreases items.len(),
{
    if items.len() == 0 {
        Seq::empty()
    } else {
        (match items[0] {
            ValModel::Str(s) => seq![ValModel::Str(s)],
            _ => Seq::<ValModel>::empty(),
        }) + str_items(items.drop_first())
    }
}

/// Adds each entry of a colors map, normalised to its token list.
pub open spec fn cadd_all(base: EntriesModel, add: EntriesModel) -> EntriesModel
    decreases add.len(),
{
    if add.len() == 0 {
        base
    } else {
        cadd_all(vset(base, add[0].0, color_list_of(add[0].1)), add.drop_first())
    }
}

/// Applies one color or style token by name; an unknown name leaves the text
/// alone. The token names are the vocabulary of the colors option.
fn apply_one_color(text: &str, name: &str) -> (r: String)
    ensures
        strip_ansi(r@) == strip_ansi(text@),
{
    if str_eq(name, "black") {
        paint_color(text, "black")
    } else if str_eq(name, "red") {
        paint_color(text, "red")
    } else if str_eq(name, "green") {
        paint_color(text, "green")
    } else if str_eq(name, "yellow") {
        paint_color(text, "yellow")
    } else if str_eq(name, "blue") {
        paint_color(text, "blue")
    } else if str_eq(name, "magenta") {
        paint_color(text, "magenta")
    } else if str_eq(name, "cyan") {
        paint_color(text, "cyan")
    } else if str_eq(name, "white") {
        paint_color(text, "white")
    } else if str_eq(name, "bright_black") {
        paint_color(text, "bright black")
    } else if str_eq(name, "bright_red") {
        paint_color(text, "bright red")
    } else if str_eq(name, "bright_green") {
        paint_color(text, "bright green")
    } else if str_eq(name, "bright_yellow") {
        paint_color(text, "bright yellow")
    } else if str_eq(name, "bright_blue") {
        paint_color(text, "bright blue")
    } else if str_eq(name, "bright_magenta") {
        paint_color(text, "bright magenta")
    } else if str_eq(name, "bright_cyan") {
        paint_color(text, "bright cyan")
    } else if str_eq(name, "bright_white") {
        paint_color(text, "bright white")
    } else if str_eq(name, "on_black") {
        paint_on_color(text, "black")
    } else if str_eq(name, "on_red") {
        paint_on_color(text, "red")
    } else if str_eq(name, "on_green") {
        paint_on_color(text, "green")
    } else if str_eq(name, "on_yellow") {
        paint_on_color(text, "yellow")
    } else if str_eq(name, "on_blue") {
        paint_on_color(text, "blue")
    } else if str_eq(name, "on_magenta") {
        paint_on_color(text, "magenta")
    } else if str_eq(name, "on_cyan") {
        paint_on_color(text, "cyan")
    } else if str_eq(name, "on_white") {
        paint_on_color(text, "white")
    } else if str_eq(name, "on_bright_black") {
        paint_on_color(text, "bright black")
    } else if str_eq(name, "on_bright_red") {
        paint_on_color(text, "bright red")
    } else if str_eq(name, "on_bright_green") {
        paint_on_color(text, "bright green")
    } else if str_eq(name, "on_bright_yellow") {
        paint_on_color(text, "bright yellow")
    } else if str_eq(name, "on_bright_blue") {
        paint_on_color(text, "bright blue")
    } else if str_eq(name, "on_bright_magenta") {
        paint_on_color(text, "bright magenta")
    } else if str_eq(name, "on_bright_cyan") {
        paint_on_color(text, "bright cyan")
    } else if str_eq(name, "on_bright_white") {
        paint_on_color(text, "bright white")
    } else if str_eq(name, "bold") {
        paint_bold(text)
    } else if str_eq(name, "underline") {
        paint_underline(text)
    } else if str_eq(name, "italic") {
        paint_italic(text)
    } else if str_eq(name, "dimmed") {
        paint_dimmed(text)
    } else if str_eq(name, "reversed") {
        paint_reversed(text)
    } else if str_eq(name, "blink") {
        paint_blink(text)
    } else if str_eq(name, "hidden") {
        paint_hidden(text)
    } else if str_eq(name, "strikethrough") {
        paint_strikethrough(text)
    } else {
        text.to_owned()
    }
}

/// A level-to-color lookup plus bound options: the colorizing strategy.
pub struct Colorizer {
    all_colors: Entries,
    options: FormatOptions,
}

impl Colorizer {
    /// The level-to-token-list map.
    pub closed spec fn colors(&self) -> EntriesModel {
        entries_model(self.all_colors@)
    }

    /// The bound options.
    pub closed spec fn opts(&self) -> EntriesModel {
        self.options@
    }

    /// A colorizer from bound options: the `colors` option, when it is an
    /// object, seeds the level-to-color map.
    pub fn new(opts: Option<FormatOptions>) -> (r: Self)
        ensures
            r.opts() == match opts {
                Some(o) => o@,
                None => Seq::<(Seq<char>, ValModel)>::empty(),
            },
            r.colors() == match vget(r.opts(), "colors"@) {
                Some(ValModel::Obj(es)) => cadd_all(Seq::empty(), es),
                _ => Seq::<(Seq<char>, ValModel)>::empty(),
            },
    {
        let options = match opts {
            Some(o) => o,
            None => FormatOptions::new(),
        };
        let mut c = Colorizer { all_colors: Vec::new(), options };
        proof {
            assert(c.colors() =~= Seq::<(Seq<char>, ValModel)>::empty());
        }
        let seed = match c.options.get_object("colors") {
            Some(es) => Some(clone_entries(es)),
            None => None,
        };
        if let Some(es) = seed {
            c.add_colors(&es);
        }
        c
    }

    /// Folds a colors map into the level-to-token-list map: a string value
    /// becomes one token, an array keeps its string items, anything else
    /// clears the level's tokens.
    #[verifier::loop_isolation(false)]
    pub fn add_colors(&mut self, colors: &Entries)
        ensures
            final(self).colors() == cadd_all(old(self).colors(), entries_model(colors@)),
            final(self).opts() == old(self).opts(),
    {
        proof {
            lemma_entries_model_index(colors@);
            assert(entries_model(colors@).skip(0) =~= entries_model(colors@));
        }
        let ghost cm = entries_model(colors@);
        let ghost base = self.colors();
        let mut i: usize = 0;
        while i < colors.len()
            invariant
                0 <= i <= colors@.len(),
                self.options == old(self).options,
                cadd_all(self.colors(), cm.skip(i as int)) == cadd_all(base, cm),
            decreases colors@.len() - i,
        {
            let pair = &colors[i];
            proof {
                assert(cm.skip(i as int)[0] == cm[i as int]);
                assert(cm.skip(i as int).drop_first() =~= cm.skip(i as int + 1));
            }
            let list: Vec<Value> = match &pair.1 {
                Value::Str(s) => {
                    let mut one: Vec<Value> = Vec::new();
                    one.push(Value::Str(s.clone()));
                    proof {
                        lemma_vals_model_index(one@);
                        assert(vals_model(one@) =~= seq![ValModel::Str(s@)]);
                    }
                    one
                },
                Value::Arr(items) => filter_strings(items),
                _ => Vec::new(),
            };
            proof {
                assert(val_model(Value::Arr(list)) == color_list_of(cm[i as int].1));
                assert(vals_model(Seq::<Value>::empty()) =~= Seq::<ValModel>::empty());
            }
            map_set(&mut self.all_colors, pair.0.clone(), Value::Arr(list));
            i += 1;
        }
        proof {
            assert(cm.skip(i as int) =~= Seq::<(Seq<char>, ValModel)>::empty());
        }
    }

    /// Colors a text by the tokens bound to this level; a level without
    /// tokens leaves the text unchanged, and in every case the
    /// escape-stripped text is what it was.
    #[verifier::loop_isolation(false)]
    pub fn colorize(&self, level: &str, message: &str) -> (r: String)
        ensures
            strip_ansi(r@) == strip_ansi(message@),
            !(vget(self.colors(), level@) matches Some(ValModel::Arr(_))) ==> r@ == message@,
    {
        match map_get(&self.all_colors, level) {
            Some(Value::Arr(items)) => {
                let mut cur = message.to_owned();
                let mut i: usize = 0;
                while i < items.len()
                    invariant
                        strip_ansi(cur@) == strip_ansi(message@),
                    decreases items@.len() - i,
                {
                    match &items[i] {
                        Value::Str(name) => {
                            cur = apply_one_color(cur.as_str(), name.as_str());
                        },
                        _ => {},
                    }
                    i += 1;
                }
                cur
            },
            _ => message.to_owned(),
        }
    }

    /// Merges call options over the bound ones and, when the merged options
    /// carry a `colors` object, folds it into the color map.
    pub fn merge_options(&mut self, opts: FormatOptions)
        ensures
            final(self).opts() == vset_all(old(self).opts(), opts@),
            final(self).colors() == match vget(vset_all(old(self).opts(), opts@), "colors"@) {
                Some(ValModel::Obj(es)) => cadd_all(old(self).colors(), es),
                _ => old(self).colors(),
            },
    {
        self.options.merge(opts);
        let seed = match self.options.get_object("colors") {
            Some(es) => Some(clone_entries(es)),
            None => None,
        };
        if let Some(es) = seed {
            self.add_colors(&es);
        }
    }

    /// Merges any call options in, then colors the level and the message as
    /// the `all`, `level` and `message` flags of the merged options say.
    pub fn transform(&mut self, info: LogInfo, opts: Option<FormatOptions>) -> (r: Option<
        LogInfo,
    >)
        ensures
            r matches Some(o) && colorize_possible(
                match opts {
                    None => old(self).opts(),
                    Some(c) => vset_all(old(self).opts(), c@),
                },
                info@,
                o@,
            ),
    {
        let ghost e = match &opts {
            None => old(self).opts(),
            Some(c) => vset_all(old(self).opts(), c@),
        };
        if let Some(incoming) = opts {
            self.merge_options(incoming);
        }
        proof {
            assert(self.opts() == e);
        }
        let color_level = opt_flag_on(&self.options, "all") || opt_flag_on(
            &self.options,
            "level",
        );
        let color_message = opt_flag_on(&self.options, "all") || opt_flag_on(
            &self.options,
            "message",
        );
        // The message is colored first, keyed by the still-uncolored level.
        let message = if color_message {
            self.colorize(info.level.as_str(), info.message.as_str())
        } else {
            info.message
        };
        let level = if color_level {
            self.colorize(info.level.as_str(), info.level.as_str())
        } else {
            info.level
        };
        Some(LogInfo { level, message, meta: info.meta })
    }

}

/// A formatter that wraps the level and the message in terminal escape
/// sequences, as the `colors` mapping and the `all`, `level` and `message`
/// flags of the effective options say.
pub fn colorize() -> (f: Format)
    ensures
        f.kind is Colorize,
        f.options@ == Seq::<(Seq<char>, ValModel)>::empty(),
{
    Format { kind: FormatKind::Colorize, options: FormatOptions::new() }
}

/// Keeps the string items of an array of values.
fn filter_strings(items: &Vec<Value>) -> (r: Vec<Value>)
    ensures
        vals_model(r@) == str_items(vals_model(items@)),
{
    proof {
        lemma_vals_model_index(items@);
        assert(vals_model(items@).skip(0) =~= vals_model(items@));
    }
    filter_strings_tail(items, 0)
}

#[verifier::loop_isolation(false)]
fn filter_strings_tail(items: &Vec<Value>, i: usize) -> (r: Vec<Value>)
    requires
        i <= items@.len(),
    ensures
        vals_model(r@) == str_items(vals_model(items@).skip(i as int)),
    decreases items@.len() - i,
{
    proof {
        lemma_vals_model_index(items@);
    }
    let ghost mseq = vals_model(items@);
    if i == items.len() {
        let out: Vec<Value> = Vec::new();
        proof {
            assert(mseq.skip(i as int) =~= Seq::<ValModel>::empty());
            assert(vals_model(out@) =~= Seq::<ValModel>::empty());
        }
        out
    } else {
        let mut rest = filter_strings_tail(items, i + 1);
        proof {
            assert(mseq.skip(i as int)[0] == mseq[i as int]);
            assert(mseq.skip(i as int).drop_first() =~= mseq.skip(i as int + 1));
        }
        match &items[i] {
            Value::Str(s) => {
                let mut out: Vec<Value> = Vec::new();
                out.push(Value::Str(s.clone()));
                let ghost pre = out@;
                proof {
                    lemma_vals_model_index(pre);
                    assert(vals_model(pre) =~= seq![ValModel::Str(s@)]);
                }
                let mut tail = rest;
                let ghost tailv = tail@;
                let ghost tailm = vals_model(tailv);
                out.append(&mut tail);
                proof {
                    lemma_vals_model_index(out@);
                    lemma_vals_model_index(tailv);
                    lemma_vals_model_index(pre);
                    assert(out@ == pre + tailv);
                    assert(vals_model(out@) =~= vals_model(pre) + tailm);
                }
                out
            },
            _ => {
                proof {
                    assert(Seq::<ValModel>::empty() + vals_model(rest@) =~= vals_model(rest@));
                }
                rest
            },
        }
    }
}

} // verus!
