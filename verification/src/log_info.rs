use crate::value::{
    clone_entries, entries_model, lemma_entries_model_index, map_get, map_remove, map_set,
    val_model, vget, vremove, vset, Entries, EntriesModel, ValModel, Value,
};
use vstd::prelude::*;

verus! {

/// A log record: a severity label, the message text, and a metadata map from
/// string keys to dynamically-typed values.
pub struct LogInfo {
    pub level: String,
    pub message: String,
    pub meta: Entries,
}

/// The mathematical model of a log record.
pub struct LogModel {
    pub level: Seq<char>,
    pub message: Seq<char>,
    pub meta: EntriesModel,
}

impl View for LogInfo {
    type V = LogModel;

    open spec fn view(&self) -> LogModel {
        LogModel { level: self.level@, message: self.message@, meta: entries_model(self.meta@) }
    }
}

impl LogInfo {
    /// A record with this level and message, and no metadata yet.
    pub fn new(level: &str, message: &str) -> (r: Self)
        ensures
            r@.level == level@,
            r@.message == message@,
            r@.meta == Seq::<(Seq<char>, ValModel)>::empty(),
    {
        let r = LogInfo { level: level.to_owned(), message: message.to_owned(), meta: Vec::new() };
        proof {
            assert(r@.meta =~= Seq::<(Seq<char>, ValModel)>::empty());
        }
        r
    }

    /// Binds a metadata key, returning the updated record; the last write to
    /// a key wins.
    pub fn add_meta(self, key: &str, value: Value) -> (r: Self)
        ensures
            r@.level == self@.level,
            r@.message == self@.message,
            r@.meta == vset(self@.meta, key@, val_model(value)),
    {
        let mut s = self;
        map_set(&mut s.meta, key.to_owned(), value);
        s
    }

    /// Removes a metadata key, returning the updated record.
    pub fn remove_meta(self, key: &str) -> (r: Self)
        ensures
            r@.level == self@.level,
            r@.message == self@.message,
            r@.meta == vremove(self@.meta, key@),
    {
        let mut s = self;
        map_remove(&mut s.meta, key);
        s
    }

    pub fn get_meta<'a>(&'a self, key: &str) -> (r: Option<&'a Value>)
        ensures
            match r {
                Some(v) => vget(self@.meta, key@) == Some(val_model(*v)),
                None => vget(self@.meta, key@) is None,
            },
    {
        map_get(&self.meta, key)
    }

    /// The text under this metadata key, if it holds a string.
    pub fn get_meta_string(&self, key: &str) -> (r: Option<String>)
        ensures
            match r {
                Some(s) => vget(self@.meta, key@) == Some(ValModel::Str(s@)),
                None => !(vget(self@.meta, key@) matches Some(ValModel::Str(_))),
            },
    {
        match map_get(&self.meta, key) {
            Some(Value::Str(s)) => Some(s.clone()),
            _ => None,
        }
    }

    /// The boolean under this metadata key, if it holds a boolean.
    pub fn get_meta_bool(&self, key: &str) -> (r: Option<bool>)
        ensures
            r == (match vget(self@.meta, key@) {
                Some(ValModel::Bool(b)) => Some(b),
                _ => None::<bool>,
            }),
    {
        match map_get(&self.meta, key) {
            Some(Value::Bool(b)) => Some(*b),
            _ => None,
        }
    }

    /// The integer under this metadata key, if it holds a number.
    pub fn get_meta_number(&self, key: &str) -> (r: Option<i64>)
        ensures
            r == (match vget(self@.meta, key@) {
                Some(ValModel::Int(i)) => Some(i as i64),
                _ => None::<i64>,
            }),
    {
        match map_get(&self.meta, key) {
            Some(Value::Int(i)) => Some(*i),
            _ => None,
        }
    }

    /// The entries under this metadata key, if it holds an object.
    pub fn get_meta_object<'a>(&'a self, key: &str) -> (r: Option<&'a Entries>)
        ensures
            match r {
                Some(es) => vget(self@.meta, key@) == Some(ValModel::Obj(entries_model(es@))),
                None => !(vget(self@.meta, key@) matches Some(ValModel::Obj(_))),
            },
    {
        match map_get(&self.meta, key) {
            Some(Value::Obj(es)) => Some(es),
            _ => None,
        }
    }

    /// The items under this metadata key, if it holds an array.
    pub fn get_meta_array<'a>(&'a self, key: &str) -> (r: Option<&'a Vec<Value>>)
        ensures
            match r {
                Some(items) => vget(self@.meta, key@) == Some(
                    ValModel::Arr(crate::value::vals_model(items@)),
                ),
                None => !(vget(self@.meta, key@) matches Some(ValModel::Arr(_))),
            },
    {
        match map_get(&self.meta, key) {
            Some(Value::Arr(items)) => Some(items),
            _ => None,
        }
    }

    /// A structural copy of this record.
    pub fn duplicate(&self) -> (r: Self)
        ensures
            r@ == self@,
    {
        let r = LogInfo {
            level: self.level.clone(),
            message: self.message.clone(),
            meta: clone_entries(&self.meta),
        };
        proof {
            lemma_entries_model_index(self.meta@);
        }
        r
    }
}

} // verus!
