use crate::value::{
    clone_entries, entries_model, lemma_entries_model_index, lemma_vget_vset, map_get, map_has,
    map_set, val_model, vget, vhas, vset, vwf, Entries, EntriesModel, ValModel, Value,
};
use vstd::prelude::*;

verus! {

/// A configuration map from option names to values, in insertion order with
/// unique keys. Bound options live on a formatter; call options are handed to
/// a single `transform` invocation.
pub struct FormatOptions {
    entries: Entries,
}

impl View for FormatOptions {
    type V = EntriesModel;

    closed spec fn view(&self) -> EntriesModel {
        entries_model(self.entries@)
    }
}

/// Overlays `add` onto `base`, key by key and left to right: on a key
/// collision the later binding wins.
pub open spec fn vset_all(base: EntriesModel, add: EntriesModel) -> EntriesModel
    decreases add.len(),
{
    if add.len() == 0 {
        base
    } else {
        vset_all(vset(base, add[0].0, add[0].1), add.drop_first())
    }
}

impl FormatOptions {
    pub fn new() -> (r: Self)
        ensures
            r@ == Seq::<(Seq<char>, ValModel)>::empty(),
    {
        let r = FormatOptions { entries: Vec::new() };
        proof {
            assert(r@ =~= Seq::<(Seq<char>, ValModel)>::empty());
        }
        r
    }

    /// Binds an option, returning the updated map; the last write to a key
    /// wins.
    pub fn insert(self, key: &str, value: Value) -> (r: Self)
        ensures
            r@ == vset(self@, key@, val_model(value)),
    {
        let mut s = self;
        map_set(&mut s.entries, key.to_owned(), value);
        s
    }

    pub fn get<'a>(&'a self, key: &str) -> (r: Option<&'a Value>)
        ensures
            match r {
                Some(v) => vget(self@, key@) == Some(val_model(*v)),
                None => vget(self@, key@) is None,
            },
    {
        map_get(&self.entries, key)
    }

    /// The boolean under this key, if the key holds a boolean.
    pub fn get_bool(&self, key: &str) -> (r: Option<bool>)
        ensures
            r == (match vget(self@, key@) {
                Some(ValModel::Bool(b)) => Some(b),
                _ => None::<bool>,
            }),
    {
        match map_get(&self.entries, key) {
            Some(Value::Bool(b)) => Some(*b),
            _ => None,
        }
    }

    /// The text under this key, if the key holds a string.
    pub fn get_string(&self, key: &str) -> (r: Option<String>)
        ensures
            match r {
                Some(s) => vget(self@, key@) == Some(ValModel::Str(s@)),
                None => !(vget(self@, key@) matches Some(ValModel::Str(_))),
            },
    {
        match map_get(&self.entries, key) {
            Some(Value::Str(s)) => Some(s.clone()),
            _ => None,
        }
    }

    /// The integer under this key, if the key holds a number.
    pub fn get_number(&self, key: &str) -> (r: Option<i64>)
        ensures
            r == (match vget(self@, key@) {
                Some(ValModel::Int(i)) => Some(i as i64),
                _ => None::<i64>,
            }),
    {
        match map_get(&self.entries, key) {
            Some(Value::Int(i)) => Some(*i),
            _ => None,
        }
    }

    /// The entries under this key, if the key holds an object.
    pub fn get_object<'a>(&'a self, key: &str) -> (r: Option<&'a Entries>)
        ensures
            match r {
                Some(es) => vget(self@, key@) == Some(ValModel::Obj(entries_model(es@))),
                None => !(vget(self@, key@) matches Some(ValModel::Obj(_))),
            },
    {
        match map_get(&self.entries, key) {
            Some(Value::Obj(es)) => Some(es),
            _ => None,
        }
    }

    /// The items under this key, if the key holds an array.
    pub fn get_array<'a>(&'a self, key: &str) -> (r: Option<&'a Vec<Value>>)
        ensures
            match r {
                Some(items) => vget(self@, key@) == Some(
                    ValModel::Arr(crate::value::vals_model(items@)),
                ),
                None => !(vget(self@, key@) matches Some(ValModel::Arr(_))),
            },
    {
        match map_get(&self.entries, key) {
            Some(Value::Arr(items)) => Some(items),
            _ => None,
        }
    }

    pub fn contains_key(&self, key: &str) -> (r: bool)
        ensures
            r == vhas(self@, key@),
    {
        map_has(&self.entries, key)
    }

    /// Overlays the other map onto this one: on a key collision the other
    /// map's binding wins.
    #[verifier::loop_isolation(false)]
    pub fn merge(&mut self, other: FormatOptions)
        ensures
            final(self)@ == vset_all(old(self)@, other@),
    {
        let ghost base = self@;
        let ghost add = other@;
        let mut rest = other.entries;
        proof {
            lemma_entries_model_index(rest@);
            assert(entries_model(rest@) == add);
        }
        while rest.len() > 0
            invariant
                vset_all(self@, entries_model(rest@)) == vset_all(base, add),
            decreases rest@.len(),
        {
            let ghost before = entries_model(rest@);
            proof {
                lemma_entries_model_index(rest@);
            }
            let pair = rest.remove(0);
            proof {
                lemma_entries_model_index(rest@);
                assert(entries_model(rest@) =~= before.drop_first());
                assert(before[0] == (pair.0@, val_model(pair.1)));
            }
            map_set(&mut self.entries, pair.0, pair.1);
        }
        proof {
            assert(entries_model(rest@) =~= Seq::<(Seq<char>, ValModel)>::empty());
        }
    }

    /// A structural copy of this map.
    pub fn duplicate(&self) -> (r: Self)
        ensures
            r@ == self@,
    {
        FormatOptions { entries: clone_entries(&self.entries) }
    }
}

/// Merge precedence: after overlaying call options onto bound options, a key
/// bound in the call options carries the call options' value, and any other
/// key carries the bound options' value.
pub proof fn lemma_merge_precedence(base: EntriesModel, add: EntriesModel, k: Seq<char>)
    requires
        vwf(add),
    ensures
        vget(vset_all(base, add), k) == if vhas(add, k) {
            vget(add, k)
        } else {
            vget(base, k)
        },
    decreases add.len(),
{
    if add.len() == 0 {
    } else {
        let head = add[0];
        let tail = add.drop_first();
        assert forall|i: int, j: int| 0 <= i < j < tail.len() implies tail[i].0 != tail[j].0 by {
            assert(add[i + 1].0 != add[j + 1].0);
        }
        lemma_merge_precedence(vset(base, head.0, head.1), tail, k);
        lemma_vget_vset(base, head.0, head.1, k);
        if k == head.0 {
            assert forall|j: int| 0 <= j < tail.len() implies tail[j].0 != k by {
                assert(add[0].0 != add[j + 1].0);
            }
            lemma_vget_not_in(tail, k);
        }
    }
}

/// A key that no entry carries is not found.
proof fn lemma_vget_not_in(m: EntriesModel, k: Seq<char>)
    requires
        forall|j: int| 0 <= j < m.len() ==> m[j].0 != k,
    ensures
        vget(m, k) is None,
    decreases m.len(),
{
    if m.len() > 0 {
        lemma_vget_not_in(m.drop_first(), k);
    }
}

} // verus!
