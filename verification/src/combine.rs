use crate::format::{Format, FormatKind};
use crate::format_options::FormatOptions;
use crate::value::ValModel;
use vstd::prelude::*;

verus! {

/// Composes an ordered sequence of formatters into one: its `transform`
/// folds the record through each member in order, with no call options, and
/// stops at the first suppression. With no members it is the identity
/// formatter. The composite binds no options of its own.
pub fn combine(formats: Vec<Format>) -> (f: Format)
    ensures
        f.kind matches FormatKind::Combined(ms) && ms@ == formats@,
        f.options@ == Seq::<(Seq<char>, ValModel)>::empty(),
{
    Format { kind: FormatKind::Combined(formats), options: FormatOptions::new() }
}

} // verus!
