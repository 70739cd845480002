use crate::align::{align_model, apply_align};
use crate::colorize::{colorize_possible, Colorizer};
use crate::custom::{apply_ignore_private, apply_volume, private_flagged, volume_model};
use crate::format_options::{vset_all, FormatOptions};
use crate::json::{apply_json, json_model};
use crate::log_info::{LogInfo, LogModel};
use crate::ms::{apply_ms, ms_possible, ElapsedTimer};
use crate::pretty_print::{apply_pretty, pretty_possible};
use crate::printf::{printf_model, Printf};
use crate::simple::{apply_simple, simple_model};
use crate::timestamp::{apply_timestamp, timestamp_possible};
use crate::uncolorize::{apply_uncolorize, uncolorize_model};
use crate::value::{val_model, vset, EntriesModel, ValModel, Value};
use vstd::prelude::*;

verus! {

/// The strategy a formatter runs: one variant per formatter family, plus the
/// composite pipeline.
pub enum FormatKind {
    /// A tab before the message.
    Align,
    /// Terminal color around level and message.
    Colorize,
    /// Terminal escape sequences removed again.
    Uncolorize,
    /// The wall-clock time into the metadata.
    Timestamp,
    /// The record as one JSON object.
    Json,
    /// `level:padding message {rest}`.
    Simple,
    /// The record as indented JSON.
    PrettyPrint,
    /// The message rebuilt from a template.
    Printf(Printf),
    /// Milliseconds since the previous call into the metadata.
    Ms(ElapsedTimer),
    /// The message upper- or lowercased on demand.
    Volume,
    /// Records marked private are dropped.
    IgnorePrivate,
    /// A pipeline: each member in order, stopping on suppression.
    Combined(Vec<Format>),
}

/// A formatter: a strategy together with its bound options. Call options
/// handed to `transform` overlay the bound ones for that call alone.
pub struct Format {
    pub kind: FormatKind,
    pub options: FormatOptions,
}

/// The model of a transform outcome: the record's model, or suppression.
pub open spec fn out_model(o: Option<LogInfo>) -> Option<LogModel> {
    match o {
        Some(i) => Some(i@),
        None => None,
    }
}

/// The options a call runs under: the bound options, overlaid by the call
/// options when there are any (the call options win on a key collision).
pub open spec fn eff_model(f: Format, call: Option<FormatOptions>) -> EntriesModel {
    match call {
        None => f.options@,
        Some(c) => vset_all(f.options@, c@),
    }
}

/// The shape of one run of a formatter, as ghost evidence: primitive
/// strategies run in one step; a pipeline runs its members in order, each
/// with its own evidence and its outcome, stopping at a suppression.
pub enum RunTrace {
    Prim,
    Pipe(Seq<(RunTrace, Option<LogModel>)>),
}

/// What `transform` may return, along the given run evidence: for the
/// deterministic strategies, exactly one record; for the time- and
/// terminal-dependent ones, the family of records they can produce; for a
/// pipeline, the fold of its members.
pub open spec fn possible_t(
    t: RunTrace,
    f: Format,
    m: LogModel,
    call: Option<FormatOptions>,
    out: Option<LogModel>,
) -> bool
    decreases t,
{
    let e = eff_model(f, call);
    match f.kind {
        FormatKind::Align => out == Some(align_model(m)),
        FormatKind::Colorize => out matches Some(o) && colorize_possible(e, m, o),
        FormatKind::Uncolorize => out == Some(uncolorize_model(e, m)),
        FormatKind::Timestamp => timestamp_possible(e, m, out),
        FormatKind::Json => out == Some(json_model(m)),
        FormatKind::Simple => out == Some(simple_model(m)),
        FormatKind::PrettyPrint => pretty_possible(e, m, out),
        FormatKind::Printf(p) => out == Some(printf_model(p.template@, m)),
        FormatKind::Ms(_) => ms_possible(m, out),
        FormatKind::Volume => out == Some(volume_model(e, m)),
        FormatKind::IgnorePrivate => out == if private_flagged(m) {
            Option::<LogModel>::None
        } else {
            Some(m)
        },
        FormatKind::Combined(members) => t matches RunTrace::Pipe(steps) && chain_t(
            steps,
            members@,
            m,
            out,
        ),
    }
}

/// The pipeline fold along given run evidence: each step carries one
/// member's evidence and its outcome; a suppression ends the fold.
pub open spec fn chain_t(
    steps: Seq<(RunTrace, Option<LogModel>)>,
    fs: Seq<Format>,
    m: LogModel,
    out: Option<LogModel>,
) -> bool
    decreases steps,
{
    if fs.len() == 0 {
        steps.len() == 0 && out == Some(m)
    } else if steps.len() == 0 {
        false
    } else {
        possible_t(steps[0].0, fs[0], m, Option::<FormatOptions>::None, steps[0].1)
            && match steps[0].1 {
            None => out is None,
            Some(mid) => chain_t(steps.drop_first(), fs.drop_first(), mid, out),
        }
    }
}

/// What `transform` may return: some run evidence admits the outcome.
pub open spec fn possible(
    f: Format,
    m: LogModel,
    call: Option<FormatOptions>,
    out: Option<LogModel>,
) -> bool {
    exists|t: RunTrace| possible_t(t, f, m, call, out)
}

/// The pipeline fold: with no members the record passes unchanged; otherwise
/// the members run in order, with no call options, stopping at the first
/// suppression.
pub open spec fn chain(fs: Seq<Format>, m: LogModel, out: Option<LogModel>) -> bool {
    exists|steps: Seq<(RunTrace, Option<LogModel>)>| chain_t(steps, fs, m, out)
}

/// One step of the pipeline fold: a member that produced a record extends
/// any chain of the rest.
pub proof fn lemma_chain_step(fs: Seq<Format>, m: LogModel, mid: LogModel, out: Option<LogModel>)
    requires
        fs.len() > 0,
        possible(fs[0], m, Option::<FormatOptions>::None, Some(mid)),
        chain(fs.drop_first(), mid, out),
    ensures
        chain(fs, m, out),
{
    let t0 = choose|t: RunTrace| possible_t(t, fs[0], m, Option::<FormatOptions>::None, Some(mid));
    let steps2 = choose|s2: Seq<(RunTrace, Option<LogModel>)>|
        chain_t(s2, fs.drop_first(), mid, out);
    let steps = seq![(t0, Some(mid))] + steps2;
    assert(steps[0] == (t0, Some(mid)));
    assert(steps.drop_first() =~= steps2);
    assert(chain_t(steps, fs, m, out));
}

/// One step of the pipeline fold: a member that suppressed ends the chain in
/// suppression.
pub proof fn lemma_chain_stop(fs: Seq<Format>, m: LogModel)
    requires
        fs.len() > 0,
        possible(fs[0], m, Option::<FormatOptions>::None, Option::<LogModel>::None),
    ensures
        chain(fs, m, Option::<LogModel>::None),
{
    let t0 = choose|t: RunTrace|
        possible_t(t, fs[0], m, Option::<FormatOptions>::None, Option::<LogModel>::None);
    let steps = seq![(t0, Option::<LogModel>::None)];
    assert(chain_t(steps, fs, m, Option::<LogModel>::None));
}

/// A pipeline formatter admits an outcome exactly when its members chain to
/// it; the call options play no part in a pipeline.
pub proof fn lemma_combined_possible(
    f: Format,
    m: LogModel,
    call: Option<FormatOptions>,
    out: Option<LogModel>,
)
    requires
        f.kind matches FormatKind::Combined(ms),
    ensures
        possible(f, m, call, out) == chain(f.kind->Combined_0@, m, out),
{
    let ms = f.kind->Combined_0;
    if chain(ms@, m, out) {
        let steps = choose|s: Seq<(RunTrace, Option<LogModel>)>| chain_t(s, ms@, m, out);
        assert(possible_t(RunTrace::Pipe(steps), f, m, call, out));
    }
    if possible(f, m, call, out) {
        let t = choose|t: RunTrace| possible_t(t, f, m, call, out);
        let steps = t->Pipe_0;
        assert(chain_t(steps, ms@, m, out));
    }
}

/// The strategies whose outcome is a function of the record and the options
/// alone: neither the clock (timestamp, ms) nor the terminal (colorize,
/// pretty-print) has a say. A pipeline is deterministic when every member is.
pub open spec fn is_pure(f: Format) -> bool
    decreases f,
{
    match f.kind {
        FormatKind::Align => true,
        FormatKind::Json => true,
        FormatKind::Simple => true,
        FormatKind::Printf(_) => true,
        FormatKind::Volume => true,
        FormatKind::IgnorePrivate => true,
        FormatKind::Uncolorize => true,
        FormatKind::Colorize => false,
        FormatKind::PrettyPrint => false,
        FormatKind::Timestamp => false,
        FormatKind::Ms(_) => false,
        FormatKind::Combined(members) => forall|i: int|
            0 <= i < members@.len() ==> is_pure(#[trigger] members@[i]),
    }
}

impl Format {
    /// A formatter from a strategy and optional bound options.
    pub fn new(kind: FormatKind, options: Option<FormatOptions>) -> (r: Self)
        ensures
            r.kind == kind,
            r.options@ == match options {
                Some(o) => o@,
                None => Seq::<(Seq<char>, ValModel)>::empty(),
            },
    {
        let options = match options {
            Some(o) => o,
            None => FormatOptions::new(),
        };
        Format { kind, options }
    }

    /// Binds one option, the last write to a key winning, and hands the
    /// formatter back.
    pub fn with_option(self, key: &str, value: &str) -> (r: Self)
        ensures
            r.kind == self.kind,
            r.options@ == vset(self.options@, key@, ValModel::Str(value@)),
    {
        let Format { kind, options } = self;
        let options = options.insert(key, Value::string(value));
        Format { kind, options }
    }

    /// Binds one option to a structured value, the last write to a key
    /// winning, and hands the formatter back.
    pub fn with_option_value(self, key: &str, value: Value) -> (r: Self)
        ensures
            r.kind == self.kind,
            r.options@ == vset(self.options@, key@, val_model(value)),
    {
        let Format { kind, options } = self;
        let options = options.insert(key, value);
        Format { kind, options }
    }

    /// Runs the strategy on one record, under the bound options overlaid with
    /// the call options. `None` is suppression: the record is dropped.
    #[verifier::loop_isolation(false)]
    pub fn transform(&self, info: LogInfo, opts: Option<FormatOptions>) -> (r: Option<LogInfo>)
        ensures
            possible(*self, info@, opts, out_model(r)),
            (self.kind matches FormatKind::Combined(ms) && ms@.len() == 0) ==> r == Some(info),
        decreases *self,
    {
        let ghost gcall = opts;
        let mut merged = self.options.duplicate();
        match opts {
            Some(c) => {
                merged.merge(c);
            },
            None => {},
        }
        proof {
            assert(merged@ == eff_model(*self, gcall));
        }
        match &self.kind {
            FormatKind::Align => {
                let r = Some(apply_align(info));
                proof {
                    assert(possible_t(RunTrace::Prim, *self, info@, gcall, out_model(r)));
                }
                r
            },
            FormatKind::Json => {
                let r = Some(apply_json(info));
                proof {
                    assert(possible_t(RunTrace::Prim, *self, info@, gcall, out_model(r)));
                }
                r
            },
            FormatKind::Simple => {
                let r = Some(apply_simple(info));
                proof {
                    assert(possible_t(RunTrace::Prim, *self, info@, gcall, out_model(r)));
                }
                r
            },
            FormatKind::Volume => {
                let r = Some(apply_volume(info, &merged));
                proof {
                    assert(possible_t(RunTrace::Prim, *self, info@, gcall, out_model(r)));
                }
                r
            },
            FormatKind::IgnorePrivate => {
                let r = apply_ignore_private(info);
                proof {
                    assert(possible_t(RunTrace::Prim, *self, info@, gcall, out_model(r)));
                }
                r
            },
            FormatKind::Uncolorize => {
                let r = Some(apply_uncolorize(info, &merged));
                proof {
                    assert(possible_t(RunTrace::Prim, *self, info@, gcall, out_model(r)));
                }
                r
            },
            FormatKind::Printf(p) => {
                let r = p.transform(info, None);
                proof {
                    assert(possible_t(RunTrace::Prim, *self, info@, gcall, out_model(r)));
                }
                r
            },
            FormatKind::Colorize => {
                let mut colorizer = Colorizer::new(Some(merged));
                let r = colorizer.transform(info, None);
                proof {
                    assert(possible_t(RunTrace::Prim, *self, info@, gcall, out_model(r)));
                }
                r
            },
            FormatKind::Timestamp => {
                let r = Some(apply_timestamp(info, &merged));
                proof {
                    assert(possible_t(RunTrace::Prim, *self, info@, gcall, out_model(r)));
                }
                r
            },
            FormatKind::PrettyPrint => {
                let r = Some(apply_pretty(info, &merged));
                proof {
                    assert(possible_t(RunTrace::Prim, *self, info@, gcall, out_model(r)));
                }
                r
            },
            FormatKind::Ms(timer) => {
                let r = Some(apply_ms(info, timer));
                proof {
                    assert(possible_t(RunTrace::Prim, *self, info@, gcall, out_model(r)));
                }
                r
            },
            FormatKind::Combined(members) => {
                let ghost m0 = info@;
                let ghost fs = members@;
                proof {
                    assert(fs.skip(0) =~= fs);
                }
                let mut cur = info;
                let mut i: usize = 0;
                while i < members.len()
                    invariant
                        0 <= i <= fs.len(),
                        i == 0 ==> cur == info,
                        forall|out: Option<LogModel>|
                            chain(fs.skip(i as int), cur@, out) ==> chain(fs, m0, out),
                    decreases fs.len() - i,
                {
                    let ghost gcur = cur@;
                    proof {
                        assert(fs.skip(i as int)[0] == fs[i as int]);
                        assert(fs.skip(i as int).drop_first() =~= fs.skip(i as int + 1));
                        assert(decreases_to!(*self => self.kind));
                        assert(decreases_to!(self.kind => self.kind->Combined_0));
                        assert(self.kind->Combined_0 == *members);
                        assert(decreases_to!(*members => members@));
                        assert(decreases_to!(members@ => members@[i as int]));
                    }
                    let res = members[i].transform(cur, None);
                    match res {
                        None => {
                            proof {
                                lemma_chain_stop(fs.skip(i as int), gcur);
                                assert(chain(fs, m0, Option::<LogModel>::None));
                                lemma_combined_possible(
                                    *self,
                                    info@,
                                    gcall,
                                    Option::<LogModel>::None,
                                );
                            }
                            return None;
                        },
                        Some(next) => {
                            proof {
                                assert forall|out: Option<LogModel>|
                                    chain(fs.skip(i as int + 1), next@, out) implies chain(
                                    fs,
                                    m0,
                                    out,
                                ) by {
                                    lemma_chain_step(fs.skip(i as int), gcur, next@, out);
                                };
                            }
                            cur = next;
                            i += 1;
                        },
                    }
                }
                proof {
                    assert(fs.skip(i as int) =~= Seq::<Format>::empty());
                    assert(chain_t(
                        Seq::<(RunTrace, Option<LogModel>)>::empty(),
                        fs.skip(i as int),
                        cur@,
                        Some(cur@),
                    ));
                    assert(chain(fs.skip(i as int), cur@, Some(cur@)));
                    assert(chain(fs, m0, Some(cur@)));
                    lemma_combined_possible(*self, info@, gcall, Some(cur@));
                }
                Some(cur)
            },
        }
    }
}

/// The formatter interface: one transformation of a record, with optional
/// call options, returning the new record or suppression.
pub trait LogFormat {
    fn transform(&self, info: LogInfo, opts: Option<FormatOptions>) -> Option<LogInfo>;
}

impl LogFormat for Format {
    fn transform(&self, info: LogInfo, opts: Option<FormatOptions>) -> Option<LogInfo> {
        Format::transform(self, info, opts)
    }
}

/// A formatter from a strategy and optional bound options, under the
/// factory-function name.
pub fn create_format(kind: FormatKind, options: Option<FormatOptions>) -> (r: Format)
    ensures
        r.kind == kind,
        r.options@ == match options {
            Some(o) => o@,
            None => Seq::<(Seq<char>, ValModel)>::empty(),
        },
{
    Format::new(kind, options)
}

} // verus!
