use vstd::prelude::*;

verus! {

/// A dynamically-typed value, as carried by log-record metadata and by
/// formatter options: null, boolean, integer, string, array or object.
/// Object entries keep insertion order; keys are unique when the value is
/// well formed (see `val_wf`).
pub enum Value {
    Null,
    Bool(bool),
    Int(i64),
    Str(String),
    Arr(Vec<Value>),
    Obj(Vec<(String, Value)>),
}

/// The mathematical model of a `Value`: strings as character sequences,
/// integers as unbounded integers.
pub enum ValModel {
    Null,
    Bool(bool),
    Int(int),
    Str(Seq<char>),
    Arr(Seq<ValModel>),
    Obj(Seq<(Seq<char>, ValModel)>),
}

/// The entries of an object or of a metadata map: an association list from
/// string keys to values, in insertion order.
pub type Entries = Vec<(String, Value)>;

/// The model of a list of entries.
pub type EntriesModel = Seq<(Seq<char>, ValModel)>;

pub open spec fn val_model(v: Value) -> ValModel
    decreases v,
{
    match v {
        Value::Null => ValModel::Null,
        Value::Bool(b) => ValModel::Bool(b),
        Value::Int(i) => ValModel::Int(i as int),
        Value::Str(s) => ValModel::Str(s@),
        Value::Arr(items) => ValModel::Arr(vals_model(items@)),
        Value::Obj(entries) => ValModel::Obj(entries_model(entries@)),
    }
}

pub open spec fn vals_model(s: Seq<Value>) -> Seq<ValModel>
    decreases s,
{
    if s.len() == 0 {
        Seq::empty()
    } else {
        seq![val_model(s[0])] + vals_model(s.drop_first())
    }
}

pub open spec fn entries_model(s: Seq<(String, Value)>) -> EntriesModel
    decreases s,
{
    if s.len() == 0 {
        Seq::empty()
    } else {
        seq![(s[0].0@, val_model(s[0].1))] + entries_model(s.drop_first())
    }
}

pub broadcast proof fn lemma_vals_model_index(s: Seq<Value>)
    ensures
        (#[trigger] vals_model(s)).len() == s.len(),
        forall|i: int| 0 <= i < s.len() ==> vals_model(s)[i] == val_model(s[i]),
    decreases s,
{
    if s.len() > 0 {
        lemma_vals_model_index(s.drop_first());
    }
}

pub broadcast proof fn lemma_entries_model_index(s: Seq<(String, Value)>)
    ensures
        (#[trigger] entries_model(s)).len() == s.len(),
        forall|i: int|
            0 <= i < s.len() ==> entries_model(s)[i] == (s[i].0@, val_model(s[i].1)),
    decreases s,
{
    if s.len() > 0 {
        lemma_entries_model_index(s.drop_first());
    }
}

/// Looks a key up: the value of the first entry whose key has these
/// characters.
pub open spec fn vget(m: EntriesModel, k: Seq<char>) -> Option<ValModel>
    decreases m.len(),
{
    if m.len() == 0 {
        None
    } else if m[0].0 == k {
        Some(m[0].1)
    } else {
        vget(m.drop_first(), k)
    }
}

pub open spec fn vhas(m: EntriesModel, k: Seq<char>) -> bool {
    vget(m, k) is Some
}

/// Binds a key to a value: replaces the first entry with that key in place,
/// or appends a new entry at the end.
pub open spec fn vset(m: EntriesModel, k: Seq<char>, v: ValModel) -> EntriesModel
    decreases m.len(),
{
    if m.len() == 0 {
        seq![(k, v)]
    } else if m[0].0 == k {
        seq![(k, v)] + m.drop_first()
    } else {
        seq![m[0]] + vset(m.drop_first(), k, v)
    }
}

/// Removes the first entry with this key, if any.
pub open spec fn vremove(m: EntriesModel, k: Seq<char>) -> EntriesModel
    decreases m.len(),
{
    if m.len() == 0 {
        m
    } else if m[0].0 == k {
        m.drop_first()
    } else {
        seq![m[0]] + vremove(m.drop_first(), k)
    }
}

/// Keys are pairwise distinct.
pub open spec fn vwf(m: EntriesModel) -> bool {
    forall|i: int, j: int| 0 <= i < j < m.len() ==> m[i].0 != m[j].0
}

/// Keys of every object reachable inside the value are unique.
pub open spec fn val_wf(v: ValModel) -> bool
    decreases v,
{
    match v {
        ValModel::Null => true,
        ValModel::Bool(_) => true,
        ValModel::Int(_) => true,
        ValModel::Str(_) => true,
        ValModel::Arr(items) => forall|i: int|
            0 <= i < items.len() ==> val_wf(#[trigger] items[i]),
        ValModel::Obj(entries) => {
            &&& forall|i: int| 0 <= i < entries.len() ==> val_wf((#[trigger] entries[i]).1)
            &&& vwf(entries)
        },
    }
}

impl Value {
    /// Builds a string value from a string slice.
    pub fn string(s: &str) -> (r: Value)
        ensures
            val_model(r) == ValModel::Str(s@),
    {
        Value::Str(s.to_owned())
    }
}

/// Looks a key up in an association list, returning a reference to the value
/// of the first entry whose key matches.
#[verifier::loop_isolation(false)]
pub fn map_get<'a>(m: &'a Entries, k: &str) -> (r: Option<&'a Value>)
    ensures
        match r {
            Some(v) => vget(entries_model(m@), k@) == Some(val_model(*v)),
            None => vget(entries_model(m@), k@) is None,
        },
{
    proof {
        lemma_entries_model_index(m@);
    }
    let ghost mo = entries_model(m@);
    proof {
        assert(mo.skip(0) =~= mo);
    }
    let mut i: usize = 0;
    while i < m.len()
        invariant
            mo == entries_model(m@),
            mo.len() == m@.len(),
            forall|j: int| 0 <= j < m@.len() ==> mo[j] == (m@[j].0@, val_model(m@[j].1)),
            0 <= i <= m@.len(),
            vget(mo, k@) == vget(mo.skip(i as int), k@),
        decreases m@.len() - i,
    {
        let pair = &m[i];
        proof {
            assert(mo.skip(i as int)[0] == mo[i as int]);
            assert(mo.skip(i as int).drop_first() =~= mo.skip(i as int + 1));
        }
        if crate::strutil::str_eq(pair.0.as_str(), k) {
            return Some(&pair.1);
        }
        i += 1;
    }
    proof {
        assert(mo.skip(i as int) =~= Seq::<(Seq<char>, ValModel)>::empty());
    }
    None
}

pub fn map_has(m: &Entries, k: &str) -> (r: bool)
    ensures
        r == vhas(entries_model(m@), k@),
{
    match map_get(m, k) {
        Some(_) => true,
        None => false,
    }
}

/// Where the first entry with key `k` sits, if anywhere.
spec fn first_key_index(m: EntriesModel, k: Seq<char>) -> int
    decreases m.len(),
{
    if m.len() == 0 {
        0
    } else if m[0].0 == k {
        0
    } else {
        1 + first_key_index(m.drop_first(), k)
    }
}

proof fn lemma_vset_shape(m: EntriesModel, k: Seq<char>, v: ValModel)
    ensures
        vhas(m, k) ==> {
            let i = first_key_index(m, k);
            &&& 0 <= i < m.len()
            &&& m[i].0 == k
            &&& (forall|j: int| 0 <= j < i ==> m[j].0 != k)
            &&& vset(m, k, v) == m.subrange(0, i) + seq![(k, v)] + m.subrange(
                i + 1,
                m.len() as int,
            )
        },
        !vhas(m, k) ==> vset(m, k, v) == m.push((k, v)),
    decreases m.len(),
{
    if m.len() == 0 {
        assert(vset(m, k, v) =~= m.push((k, v)));
    } else if m[0].0 == k {
        assert(vset(m, k, v) =~= m.subrange(0, 0) + seq![(k, v)] + m.subrange(1, m.len() as int));
    } else {
        lemma_vset_shape(m.drop_first(), k, v);
        if vhas(m.drop_first(), k) {
            let i = first_key_index(m.drop_first(), k);
            assert(m[i + 1].0 == k);
            assert forall|j: int| 0 <= j < i + 1 implies m[j].0 != k by {
                if j > 0 {
                    assert(m.drop_first()[j - 1].0 != k);
                }
            }
            assert(vset(m, k, v) =~= m.subrange(0, i + 1) + seq![(k, v)] + m.subrange(
                i + 2,
                m.len() as int,
            ));
        } else {
            assert(vset(m, k, v) =~= m.push((k, v)));
        }
    }
}

proof fn lemma_first_key_index_unique(m: EntriesModel, k: Seq<char>, i: int)
    requires
        0 <= i < m.len(),
        m[i].0 == k,
        forall|j: int| 0 <= j < i ==> m[j].0 != k,
    ensures
        first_key_index(m, k) == i,
    decreases m.len(),
{
    if m[0].0 == k {
    } else {
        assert forall|j: int| 0 <= j < i - 1 implies m.drop_first()[j].0 != k by {
            assert(m[j + 1].0 != k);
        }
        lemma_first_key_index_unique(m.drop_first(), k, i - 1);
    }
}

/// Binds a key to a value in an association list: replaces the first entry
/// with that key, or appends a new entry.
#[verifier::loop_isolation(false)]
pub fn map_set(m: &mut Entries, k: String, v: Value)
    ensures
        entries_model(final(m)@) == vset(entries_model(old(m)@), k@, val_model(v)),
{
    let ghost orig = m@;
    let ghost mo = entries_model(m@);
    let ghost gk = k@;
    let ghost gv = val_model(v);
    proof {
        assert(orig == old(m)@);
        lemma_entries_model_index(orig);
        lemma_vset_shape(mo, gk, gv);
    }
    proof {
        assert(mo.skip(0) =~= mo);
    }
    let mut i: usize = 0;
    while i < m.len()
        invariant
            m@ == orig,
            mo == entries_model(orig),
            mo.len() == orig.len(),
            forall|j: int| 0 <= j < orig.len() ==> mo[j] == (orig[j].0@, val_model(orig[j].1)),
            0 <= i <= orig.len(),
            forall|j: int| 0 <= j < i ==> mo[j].0 != gk,
            vget(mo, gk) == vget(mo.skip(i as int), gk),
        decreases orig.len() - i,
    {
        let hit = crate::strutil::str_eq(m[i].0.as_str(), k.as_str());
        proof {
            assert(mo.skip(i as int)[0] == mo[i as int]);
            assert(mo.skip(i as int).drop_first() =~= mo.skip(i as int + 1));
        }
        if hit {
            proof {
                assert(vhas(mo, gk));
                lemma_first_key_index_unique(mo, gk, i as int);
            }
            m.remove(i);
            m.insert(i, (k, v));
            proof {
                lemma_entries_model_index(m@);
                assert(entries_model(m@) =~= mo.subrange(0, i as int) + seq![
                    (gk, gv),
                ] + mo.subrange(i as int + 1, mo.len() as int));
                assert(entries_model(m@) == vset(mo, gk, gv));
            }
            return ;
        }
        i += 1;
    }
    proof {
        assert(mo.skip(i as int) =~= Seq::<(Seq<char>, ValModel)>::empty());
        assert(!vhas(mo, gk));
    }
    m.push((k, v));
    proof {
        lemma_entries_model_index(m@);
        assert(entries_model(m@) =~= mo.push((gk, gv)));
    }
}

/// Removes the first entry with this key from an association list.
#[verifier::loop_isolation(false)]
pub fn map_remove(m: &mut Entries, k: &str)
    ensures
        entries_model(final(m)@) == vremove(entries_model(old(m)@), k@),
{
    let ghost orig = m@;
    let ghost mo = entries_model(m@);
    proof {
        assert(orig == old(m)@);
        lemma_entries_model_index(orig);
        lemma_vremove_shape(mo, k@);
    }
    proof {
        assert(mo.skip(0) =~= mo);
    }
    let mut i: usize = 0;
    while i < m.len()
        invariant
            m@ == orig,
            mo == entries_model(orig),
            mo.len() == orig.len(),
            forall|j: int| 0 <= j < orig.len() ==> mo[j] == (orig[j].0@, val_model(orig[j].1)),
            0 <= i <= orig.len(),
            forall|j: int| 0 <= j < i ==> mo[j].0 != k@,
            vget(mo, k@) == vget(mo.skip(i as int), k@),
        decreases orig.len() - i,
    {
        let hit = crate::strutil::str_eq(m[i].0.as_str(), k);
        proof {
            assert(mo.skip(i as int)[0] == mo[i as int]);
            assert(mo.skip(i as int).drop_first() =~= mo.skip(i as int + 1));
        }
        if hit {
            proof {
                assert(vhas(mo, k@));
                lemma_first_key_index_unique(mo, k@, i as int);
            }
            m.remove(i);
            proof {
                lemma_entries_model_index(m@);
                assert(entries_model(m@) =~= mo.subrange(0, i as int) + mo.subrange(
                    i as int + 1,
                    mo.len() as int,
                ));
            }
            return ;
        }
        i += 1;
    }
    proof {
        assert(mo.skip(i as int) =~= Seq::<(Seq<char>, ValModel)>::empty());
        assert(!vhas(mo, k@));
    }
}

proof fn lemma_vremove_shape(m: EntriesModel, k: Seq<char>)
    ensures
        vhas(m, k) ==> {
            let i = first_key_index(m, k);
            &&& 0 <= i < m.len()
            &&& vremove(m, k) == m.subrange(0, i) + m.subrange(i + 1, m.len() as int)
        },
        !vhas(m, k) ==> vremove(m, k) == m,
    decreases m.len(),
{
    if m.len() == 0 {
    } else if m[0].0 == k {
        assert(vremove(m, k) =~= m.subrange(0, 0) + m.subrange(1, m.len() as int));
    } else {
        lemma_vremove_shape(m.drop_first(), k);
        if vhas(m.drop_first(), k) {
            let i = first_key_index(m.drop_first(), k);
            assert(vremove(m, k) =~= m.subrange(0, i + 1) + m.subrange(i + 2, m.len() as int));
        } else {
            assert(vremove(m, k) =~= m);
        }
    }
}

/// What `vget` returns after `vset`: the new value under the written key, and
/// the old ones elsewhere.
pub proof fn lemma_vget_vset(m: EntriesModel, k: Seq<char>, v: ValModel, k2: Seq<char>)
    ensures
        vget(vset(m, k, v), k2) == if k2 == k {
            Some(v)
        } else {
            vget(m, k2)
        },
    decreases m.len(),
{
    let m2 = vset(m, k, v);
    if m.len() == 0 {
        assert(m2 == seq![(k, v)]);
        assert(m2[0] == (k, v));
        if k2 != k {
            assert(m2.drop_first() =~= Seq::<(Seq<char>, ValModel)>::empty());
            assert(vget(m2.drop_first(), k2) is None);
        }
    } else if m[0].0 == k {
        assert(m2 == seq![(k, v)] + m.drop_first());
        assert(m2[0] == (k, v));
        if k2 != k {
            assert(m2.drop_first() =~= m.drop_first());
            assert(vget(m2, k2) == vget(m.drop_first(), k2));
            assert(vget(m, k2) == vget(m.drop_first(), k2));
        }
    } else {
        lemma_vget_vset(m.drop_first(), k, v, k2);
        assert(m2 == seq![m[0]] + vset(m.drop_first(), k, v));
        assert(m2[0] == m[0]);
        assert(m2.len() > 0);
        assert(m2.drop_first() =~= vset(m.drop_first(), k, v));
        if k2 == m[0].0 {
            assert(vget(m2, k2) == Some(m[0].1));
            assert(vget(m, k2) == Some(m[0].1));
        } else {
            assert(vget(m2, k2) == vget(m2.drop_first(), k2));
            assert(vget(m, k2) == vget(m.drop_first(), k2));
        }
    }
}

/// Structural copy of a value.
pub fn clone_value(v: &Value) -> (r: Value)
    ensures
        val_model(r) == val_model(*v),
    decreases *v,
{
    match v {
        Value::Null => Value::Null,
        Value::Bool(b) => Value::Bool(*b),
        Value::Int(i) => Value::Int(*i),
        Value::Str(s) => Value::Str(s.clone()),
        Value::Arr(items) => {
            let out = clone_values(items);
            Value::Arr(out)
        },
        Value::Obj(entries) => {
            let out = clone_entries(entries);
            Value::Obj(out)
        },
    }
}

/// Structural copy of a list of values.
#[verifier::loop_isolation(false)]
pub fn clone_values(items: &Vec<Value>) -> (r: Vec<Value>)
    ensures
        vals_model(r@) == vals_model(items@),
    decreases items@,
{
    proof {
        lemma_vals_model_index(items@);
    }
    let mut out: Vec<Value> = Vec::new();
    let mut i: usize = 0;
    while i < items.len()
        invariant
            0 <= i <= items@.len(),
            out@.len() == i,
            forall|j: int| 0 <= j < i ==> val_model(out@[j]) == val_model(items@[j]),
        decreases items@.len() - i,
    {
        proof {
            assert(decreases_to!(items@ => items@[i as int]));
        }
        let c = clone_value(&items[i]);
        out.push(c);
        i += 1;
    }
    proof {
        lemma_vals_model_index(out@);
        assert(vals_model(out@) =~= vals_model(items@));
    }
    out
}

/// Structural copy of an association list.
#[verifier::loop_isolation(false)]
pub fn clone_entries(entries: &Entries) -> (r: Entries)
    ensures
        entries_model(r@) == entries_model(entries@),
    decreases entries@,
{
    proof {
        lemma_entries_model_index(entries@);
    }
    let mut out: Entries = Vec::new();
    let mut i: usize = 0;
    while i < entries.len()
        invariant
            0 <= i <= entries@.len(),
            out@.len() == i,
            forall|j: int|
                0 <= j < i ==> out@[j].0@ == entries@[j].0@ && val_model(out@[j].1) == val_model(
                    entries@[j].1,
                ),
        decreases entries@.len() - i,
    {
        let pair = &entries[i];
        proof {
            assert(decreases_to!(entries@ => entries@[i as int]));
            assert(decreases_to!(entries@[i as int] => entries@[i as int].1));
        }
        let cv = clone_value(&pair.1);
        out.push((pair.0.clone(), cv));
        i += 1;
    }
    proof {
        lemma_entries_model_index(out@);
        assert(entries_model(out@) =~= entries_model(entries@));
    }
    out
}

} // verus!
