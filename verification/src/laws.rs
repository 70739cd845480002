use crate::ansi::{lemma_strip_no_esc, no_esc, strip_ansi};
use crate::colorize::colorize_possible;
use crate::format::{
    chain, chain_t, is_pure, possible, possible_t, Format, FormatKind, RunTrace,
};
use crate::format_options::FormatOptions;
use crate::log_info::LogModel;
use crate::uncolorize::{uncolorize_model, uncolorize_touches};
use vstd::prelude::*;

verus! {

/// A deterministic formatter run twice on one record, under one set of call
/// options, can only return one outcome, whichever run evidence admits it.
proof fn lemma_possible_det(
    t1: RunTrace,
    t2: RunTrace,
    f: Format,
    m: LogModel,
    call: Option<FormatOptions>,
    o1: Option<LogModel>,
    o2: Option<LogModel>,
)
    requires
        is_pure(f),
        possible_t(t1, f, m, call, o1),
        possible_t(t2, f, m, call, o2),
    ensures
        o1 == o2,
    decreases t1,
{
    match f.kind {
        FormatKind::Combined(members) => {
            let steps1 = t1->Pipe_0;
            let steps2 = t2->Pipe_0;
            lemma_chain_det(steps1, steps2, members@, m, o1, o2);
        },
        _ => {},
    }
}

/// A pipeline of deterministic members chains to only one outcome.
proof fn lemma_chain_det(
    steps1: Seq<(RunTrace, Option<LogModel>)>,
    steps2: Seq<(RunTrace, Option<LogModel>)>,
    fs: Seq<Format>,
    m: LogModel,
    o1: Option<LogModel>,
    o2: Option<LogModel>,
)
    requires
        forall|i: int| 0 <= i < fs.len() ==> is_pure(#[trigger] fs[i]),
        chain_t(steps1, fs, m, o1),
        chain_t(steps2, fs, m, o2),
    ensures
        o1 == o2,
    decreases steps1,
{
    if fs.len() == 0 {
    } else {
        lemma_possible_det(
            steps1[0].0,
            steps2[0].0,
            fs[0],
            m,
            Option::<FormatOptions>::None,
            steps1[0].1,
            steps2[0].1,
        );
        match steps1[0].1 {
            None => {},
            Some(mid) => {
                assert forall|i: int| 0 <= i < fs.drop_first().len() implies is_pure(
                    #[trigger] fs.drop_first()[i],
                ) by {
                    assert(is_pure(fs[i + 1]));
                }
                lemma_chain_det(
                    steps1.drop_first(),
                    steps2.drop_first(),
                    fs.drop_first(),
                    mid,
                    o1,
                    o2,
                );
            },
        }
    }
}

/// Referential transparency: a formatter that is deterministic — neither the
/// clock nor the terminal has a say in it, nor in any member of it — returns
/// exactly one outcome for a given record and given call options, so two
/// calls on equal inputs agree.
pub proof fn lemma_pure_deterministic(
    f: Format,
    m: LogModel,
    call: Option<FormatOptions>,
    o1: Option<LogModel>,
    o2: Option<LogModel>,
)
    requires
        is_pure(f),
        possible(f, m, call, o1),
        possible(f, m, call, o2),
    ensures
        o1 == o2,
{
    let t1 = choose|t: RunTrace| possible_t(t, f, m, call, o1);
    let t2 = choose|t: RunTrace| possible_t(t, f, m, call, o2);
    lemma_possible_det(t1, t2, f, m, call, o1, o2);
}

/// The empty pipeline is the identity formatter: it can only hand the record
/// back unchanged.
pub proof fn lemma_combine_empty(m: LogModel, out: Option<LogModel>)
    ensures
        chain(Seq::<Format>::empty(), m, out) <==> out == Some(m),
{
    if chain(Seq::<Format>::empty(), m, out) {
        let steps = choose|s: Seq<(RunTrace, Option<LogModel>)>|
            chain_t(s, Seq::<Format>::empty(), m, out);
        assert(out == Some(m));
    }
    if out == Some(m) {
        assert(chain_t(
            Seq::<(RunTrace, Option<LogModel>)>::empty(),
            Seq::<Format>::empty(),
            m,
            out,
        ));
    }
}

/// A two-member pipeline behaves as the second formatter run on the first's
/// output: when the first hands a record on, the pipeline's outcome is the
/// second's outcome on that record; when the first suppresses, the pipeline
/// suppresses without consulting the second.
pub proof fn lemma_combine_pair(f1: Format, f2: Format, m: LogModel, out: Option<LogModel>)
    ensures
        chain(seq![f1, f2], m, out) <==> {
            ||| (exists|mid: LogModel|
                possible(f1, m, Option::<FormatOptions>::None, Some(mid)) && #[trigger] possible(
                    f2,
                    mid,
                    Option::<FormatOptions>::None,
                    out,
                ))
            ||| (possible(f1, m, Option::<FormatOptions>::None, Option::<LogModel>::None) && out
                is None)
        },
{
    let fs = seq![f1, f2];
    assert(fs.drop_first() =~= seq![f2]);
    assert(seq![f2].drop_first() =~= Seq::<Format>::empty());
    if chain(fs, m, out) {
        let steps = choose|s: Seq<(RunTrace, Option<LogModel>)>| chain_t(s, fs, m, out);
        assert(possible_t(steps[0].0, f1, m, Option::<FormatOptions>::None, steps[0].1));
        match steps[0].1 {
            None => {
                assert(possible(f1, m, Option::<FormatOptions>::None, Option::<LogModel>::None));
            },
            Some(mid) => {
                assert(possible(f1, m, Option::<FormatOptions>::None, Some(mid)));
                let rest = steps.drop_first();
                assert(chain_t(rest, seq![f2], mid, out));
                assert(possible_t(rest[0].0, f2, mid, Option::<FormatOptions>::None, rest[0].1));
                match rest[0].1 {
                    None => {
                        assert(out is None);
                        assert(possible(f2, mid, Option::<FormatOptions>::None, out));
                    },
                    Some(mid2) => {
                        assert(chain_t(rest.drop_first(), Seq::<Format>::empty(), mid2, out));
                        assert(out == Some(mid2));
                        assert(possible(f2, mid, Option::<FormatOptions>::None, out));
                    },
                }
            },
        }
    }
    if possible(f1, m, Option::<FormatOptions>::None, Option::<LogModel>::None) && out is None {
        let t1 = choose|t: RunTrace|
            possible_t(t, f1, m, Option::<FormatOptions>::None, Option::<LogModel>::None);
        let steps = seq![(t1, Option::<LogModel>::None)];
        assert(chain_t(steps, fs, m, out));
        assert(chain(fs, m, out));
    }
    if exists|mid: LogModel|
        possible(f1, m, Option::<FormatOptions>::None, Some(mid)) && #[trigger] possible(
            f2,
            mid,
            Option::<FormatOptions>::None,
            out,
        ) {
        let mid = choose|mid: LogModel|
            possible(f1, m, Option::<FormatOptions>::None, Some(mid)) && #[trigger] possible(
                f2,
                mid,
                Option::<FormatOptions>::None,
                out,
            );
        let t1 = choose|t: RunTrace| possible_t(t, f1, m, Option::<FormatOptions>::None, Some(mid));
        let t2 = choose|t: RunTrace| possible_t(t, f2, mid, Option::<FormatOptions>::None, out);
        let steps = seq![(t1, Some(mid)), (t2, out)];
        assert(steps.drop_first() =~= seq![(t2, out)]);
        assert(seq![(t2, out)].drop_first() =~= Seq::<(RunTrace, Option<LogModel>)>::empty());
        match out {
            None => {
                assert(chain_t(seq![(t2, out)], seq![f2], mid, out));
                assert(chain_t(steps, fs, m, out));
            },
            Some(o) => {
                assert(chain_t(
                    Seq::<(RunTrace, Option<LogModel>)>::empty(),
                    Seq::<Format>::empty(),
                    o,
                    out,
                ));
                assert(chain_t(seq![(t2, out)], seq![f2], mid, out));
                assert(chain_t(steps, fs, m, out));
            },
        }
        assert(chain(fs, m, out));
    }
}

/// The colorize and uncolorize formatters are mutual inverses on the level
/// and message texts: for a record free of escape characters, colorizing
/// (under any options) and then uncolorizing (with neither field opted out)
/// hands the starting level and message back unchanged.
pub proof fn lemma_colorize_uncolorize_roundtrip(
    fc: Format,
    fu: Format,
    m: LogModel,
    o1: LogModel,
    o2: LogModel,
)
    requires
        fc.kind is Colorize,
        fu.kind is Uncolorize,
        uncolorize_touches(fu.options@, "level"@),
        uncolorize_touches(fu.options@, "message"@),
        no_esc(m.level),
        no_esc(m.message),
        possible(fc, m, Option::<FormatOptions>::None, Some(o1)),
        possible(fu, o1, Option::<FormatOptions>::None, Some(o2)),
    ensures
        o2.level == m.level,
        o2.message == m.message,
{
    let t1 = choose|t: RunTrace| possible_t(t, fc, m, Option::<FormatOptions>::None, Some(o1));
    let t2 = choose|t: RunTrace| possible_t(t, fu, o1, Option::<FormatOptions>::None, Some(o2));
    assert(colorize_possible(fc.options@, m, o1));
    assert(o2 == uncolorize_model(fu.options@, o1));
    lemma_strip_no_esc(m.level);
    lemma_strip_no_esc(m.message);
    assert(strip_ansi(o1.level) == m.level);
    assert(strip_ansi(o1.message) == m.message);
}

} // verus!
