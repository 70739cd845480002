use crate::value::{
    lemma_entries_model_index, lemma_vals_model_index, val_model, vals_model, entries_model,
    Entries, EntriesModel, ValModel, Value,
};
use vstd::prelude::*;

verus! {

/// The decimal digit for `d`, which must lie under 10.
pub open spec fn dec_digit(d: int) -> char {
    if d == 0 {
        '0'
    } else if d == 1 {
        '1'
    } else if d == 2 {
        '2'
    } else if d == 3 {
        '3'
    } else if d == 4 {
        '4'
    } else if d == 5 {
        '5'
    } else if d == 6 {
        '6'
    } else if d == 7 {
        '7'
    } else if d == 8 {
        '8'
    } else {
        '9'
    }
}

/// The lower-case hexadecimal digit for `d`, which must lie under 16.
pub open spec fn hex_digit(d: int) -> char {
    if d < 10 {
        dec_digit(d)
    } else if d == 10 {
        'a'
    } else if d == 11 {
        'b'
    } else if d == 12 {
        'c'
    } else if d == 13 {
        'd'
    } else if d == 14 {
        'e'
    } else {
        'f'
    }
}

/// The decimal digits of a natural number, most significant first.
pub open spec fn dec_nat(n: nat) -> Seq<char>
    decreases n,
{
    if n < 10 {
        seq![dec_digit(n as int)]
    } else {
        dec_nat(n / 10).push(dec_digit((n % 10) as int))
    }
}

/// The decimal text of an integer: a minus sign for negative numbers.
pub open spec fn int_text(i: int) -> Seq<char> {
    if i < 0 {
        seq!['-'] + dec_nat((-i) as nat)
    } else {
        dec_nat(i as nat)
    }
}

/// How one character is written inside a JSON string literal.
pub open spec fn esc_char(c: char) -> Seq<char> {
    if c == '"' {
        seq!['\\', '"']
    } else if c == '\\' {
        seq!['\\', '\\']
    } else if c == '\n' {
        seq!['\\', 'n']
    } else if c == '\r' {
        seq!['\\', 'r']
    } else if c == '\t' {
        seq!['\\', 't']
    } else if (c as u32) < 32 {
        seq!['\\', 'u', '0', '0', hex_digit(c as u32 as int / 16), hex_digit(c as u32 as int % 16)]
    } else {
        seq![c]
    }
}

/// How a whole string is written inside a JSON string literal.
pub open spec fn esc_text(s: Seq<char>) -> Seq<char>
    decreases s.len(),
{
    if s.len() == 0 {
        Seq::empty()
    } else {
        esc_char(s[0]) + esc_text(s.drop_first())
    }
}

/// A JSON string literal: the escaped text between double quotes.
pub open spec fn quoted(s: Seq<char>) -> Seq<char> {
    seq!['"'] + esc_text(s) + seq!['"']
}

/// The JSON rendering of a value.
pub open spec fn json_text(v: ValModel) -> Seq<char>
    decreases v, 0int,
{
    match v {
        ValModel::Null => seq!['n', 'u', 'l', 'l'],
        ValModel::Bool(b) => if b {
            seq!['t', 'r', 'u', 'e']
        } else {
            seq!['f', 'a', 'l', 's', 'e']
        },
        ValModel::Int(i) => int_text(i),
        ValModel::Str(s) => quoted(s),
        ValModel::Arr(items) => seq!['['] + arr_body(items) + seq![']'],
        ValModel::Obj(entries) => seq!['{'] + obj_body(entries) + seq!['}'],
    }
}

/// What stands between the brackets of a JSON array: the items' renderings,
/// joined by commas.
pub open spec fn arr_body(items: Seq<ValModel>) -> Seq<char>
    decreases items, items.len(),
{
    if items.len() == 0 {
        Seq::empty()
    } else if items.len() == 1 {
        json_text(items[0])
    } else {
        json_text(items[0]) + seq![','] + arr_body(items.drop_first())
    }
}

/// What stands between the braces of a JSON object: `"key":value` pairs,
/// joined by commas.
pub open spec fn obj_body(entries: EntriesModel) -> Seq<char>
    decreases entries, entries.len(),
{
    if entries.len() == 0 {
        Seq::empty()
    } else if entries.len() == 1 {
        quoted(entries[0].0) + seq![':'] + json_text(entries[0].1)
    } else {
        quoted(entries[0].0) + seq![':'] + json_text(entries[0].1) + seq![','] + obj_body(
            entries.drop_first(),
        )
    }
}

/// The decimal digit characters.
pub fn dec_digit_char(d: u64) -> (r: char)
    requires
        d < 10,
    ensures
        r == dec_digit(d as int),
{
    if d == 0 {
        '0'
    } else if d == 1 {
        '1'
    } else if d == 2 {
        '2'
    } else if d == 3 {
        '3'
    } else if d == 4 {
        '4'
    } else if d == 5 {
        '5'
    } else if d == 6 {
        '6'
    } else if d == 7 {
        '7'
    } else if d == 8 {
        '8'
    } else {
        '9'
    }
}

/// The lower-case hexadecimal digit characters.
pub fn hex_digit_char(d: u32) -> (r: char)
    requires
        d < 16,
    ensures
        r == hex_digit(d as int),
{
    if d < 10 {
        dec_digit_char(d as u64)
    } else if d == 10 {
        'a'
    } else if d == 11 {
        'b'
    } else if d == 12 {
        'c'
    } else if d == 13 {
        'd'
    } else if d == 14 {
        'e'
    } else {
        'f'
    }
}

/// Writes a natural number in decimal.
pub fn render_u64(n: u64) -> (r: Vec<char>)
    ensures
        r@ == dec_nat(n as nat),
    decreases n,
{
    if n < 10 {
        let mut out: Vec<char> = Vec::new();
        out.push(dec_digit_char(n));
        proof {
            assert(out@ =~= seq![dec_digit(n as int)]);
        }
        out
    } else {
        let mut out = render_u64(n / 10);
        out.push(dec_digit_char(n % 10));
        out
    }
}

/// Writes an integer in decimal, with a minus sign if negative.
pub fn render_i64(n: i64) -> (r: Vec<char>)
    ensures
        r@ == int_text(n as int),
{
    if n >= 0 {
        render_u64(n as u64)
    } else {
        let m: u64 = (-(n + 1)) as u64 + 1;
        proof {
            assert(m as nat == (-(n as int)) as nat);
        }
        let digits = render_u64(m);
        let mut out: Vec<char> = Vec::new();
        out.push('-');
        let mut rest = digits;
        out.append(&mut rest);
        proof {
            assert(out@ =~= seq!['-'] + dec_nat((-(n as int)) as nat));
        }
        out
    }
}

/// Writes one character as it stands inside a JSON string literal.
pub fn render_esc_char(c: char) -> (r: Vec<char>)
    ensures
        r@ == esc_char(c),
{
    let mut out: Vec<char> = Vec::new();
    if c == '"' {
        out.push('\\');
        out.push('"');
        proof {
            assert(out@ =~= esc_char(c));
        }
    } else if c == '\\' {
        out.push('\\');
        out.push('\\');
        proof {
            assert(out@ =~= esc_char(c));
        }
    } else if c == '\n' {
        out.push('\\');
        out.push('n');
        proof {
            assert(out@ =~= esc_char(c));
        }
    } else if c == '\r' {
        out.push('\\');
        out.push('r');
        proof {
            assert(out@ =~= esc_char(c));
        }
    } else if c == '\t' {
        out.push('\\');
        out.push('t');
        proof {
            assert(out@ =~= esc_char(c));
        }
    } else if (c as u32) < 32 {
        let code = c as u32;
        out.push('\\');
        out.push('u');
        out.push('0');
        out.push('0');
        out.push(hex_digit_char(code / 16));
        out.push(hex_digit_char(code % 16));
        proof {
            assert(out@ =~= esc_char(c));
        }
    } else {
        out.push(c);
        proof {
            assert(out@ =~= esc_char(c));
        }
    }
    out
}

/// Writes the characters of a string as they stand inside a JSON string
/// literal, from position `i` on.
#[verifier::loop_isolation(false)]
pub fn render_esc_tail(cs: &Vec<char>, i: usize) -> (r: Vec<char>)
    requires
        i <= cs@.len(),
    ensures
        r@ == esc_text(cs@.skip(i as int)),
    decreases cs@.len() - i,
{
    if i == cs.len() {
        let out: Vec<char> = Vec::new();
        proof {
            assert(cs@.skip(i as int) =~= Seq::<char>::empty());
        }
        out
    } else {
        let mut out = render_esc_char(cs[i]);
        let mut rest = render_esc_tail(cs, i + 1);
        out.append(&mut rest);
        proof {
            assert(cs@.skip(i as int)[0] == cs@[i as int]);
            assert(cs@.skip(i as int).drop_first() =~= cs@.skip(i as int + 1));
        }
        out
    }
}

/// Writes a JSON string literal.
pub fn render_quoted(s: &str) -> (r: Vec<char>)
    ensures
        r@ == quoted(s@),
{
    let cs = crate::strutil::chars_of(s);
    let mut out: Vec<char> = Vec::new();
    out.push('"');
    proof {
        assert(cs@.skip(0) =~= cs@);
    }
    let mut body = render_esc_tail(&cs, 0);
    out.append(&mut body);
    out.push('"');
    proof {
        assert(out@ =~= quoted(s@));
    }
    out
}

/// Writes the JSON rendering of a value.
pub fn render_value(v: &Value) -> (r: Vec<char>)
    ensures
        r@ == json_text(val_model(*v)),
    decreases *v, 0int,
{
    match v {
        Value::Null => {
            let mut out: Vec<char> = Vec::new();
            out.push('n');
            out.push('u');
            out.push('l');
            out.push('l');
            proof {
                assert(out@ =~= json_text(val_model(*v)));
            }
            out
        },
        Value::Bool(b) => {
            let mut out: Vec<char> = Vec::new();
            if *b {
                out.push('t');
                out.push('r');
                out.push('u');
                out.push('e');
            } else {
                out.push('f');
                out.push('a');
                out.push('l');
                out.push('s');
                out.push('e');
            }
            proof {
                assert(out@ =~= json_text(val_model(*v)));
            }
            out
        },
        Value::Int(i) => render_i64(*i),
        Value::Str(s) => render_quoted(s.as_str()),
        Value::Arr(items) => {
            proof {
                assert(decreases_to!(*v => items));
                lemma_vals_model_index(items@);
                assert(vals_model(items@).skip(0) =~= vals_model(items@));
            }
            let mut out: Vec<char> = Vec::new();
            out.push('[');
            let mut body = render_arr_tail(items, 0);
            out.append(&mut body);
            out.push(']');
            proof {
                assert(out@ =~= json_text(val_model(*v)));
            }
            out
        },
        Value::Obj(entries) => {
            proof {
                assert(decreases_to!(*v => entries));
                lemma_entries_model_index(entries@);
                assert(entries_model(entries@).skip(0) =~= entries_model(entries@));
            }
            let mut out: Vec<char> = Vec::new();
            out.push('{');
            let mut body = render_obj_tail(entries, 0);
            out.append(&mut body);
            out.push('}');
            proof {
                assert(out@ =~= json_text(val_model(*v)));
            }
            out
        },
    }
}

/// Writes the comma-joined renderings of the items from position `i` on.
pub fn render_arr_tail(items: &Vec<Value>, i: usize) -> (r: Vec<char>)
    requires
        i <= items@.len(),
    ensures
        r@ == arr_body(vals_model(items@).skip(i as int)),
    decreases items@, items@.len() - i,
{
    proof {
        lemma_vals_model_index(items@);
    }
    let ghost mseq = vals_model(items@);
    if i == items.len() {
        let out: Vec<char> = Vec::new();
        proof {
            assert(mseq.skip(i as int) =~= Seq::<ValModel>::empty());
        }
        out
    } else {
        proof {
            assert(decreases_to!(items@ => items@[i as int]));
            assert(mseq.skip(i as int)[0] == mseq[i as int]);
        }
        let mut out = render_value(&items[i]);
        if i + 1 < items.len() {
            out.push(',');
            let mut rest = render_arr_tail(items, i + 1);
            out.append(&mut rest);
            proof {
                assert(mseq.skip(i as int).drop_first() =~= mseq.skip(i as int + 1));
            }
        } else {
            proof {
                assert(mseq.skip(i as int).len() == 1);
            }
        }
        out
    }
}

/// Writes the comma-joined `"key":value` pairs from position `i` on.
pub fn render_obj_tail(entries: &Entries, i: usize) -> (r: Vec<char>)
    requires
        i <= entries@.len(),
    ensures
        r@ == obj_body(entries_model(entries@).skip(i as int)),
    decreases entries@, entries@.len() - i,
{
    proof {
        lemma_entries_model_index(entries@);
    }
    let ghost mseq = entries_model(entries@);
    if i == entries.len() {
        let out: Vec<char> = Vec::new();
        proof {
            assert(mseq.skip(i as int) =~= Seq::<(Seq<char>, ValModel)>::empty());
        }
        out
    } else {
        proof {
            assert(decreases_to!(entries@ => entries@[i as int]));
            assert(decreases_to!(entries@[i as int] => entries@[i as int].1));
            assert(mseq.skip(i as int)[0] == mseq[i as int]);
        }
        let pair = &entries[i];
        let mut out = render_quoted(pair.0.as_str());
        out.push(':');
        let mut val_text = render_value(&pair.1);
        out.append(&mut val_text);
        if i + 1 < entries.len() {
            out.push(',');
            let mut rest = render_obj_tail(entries, i + 1);
            out.append(&mut rest);
            proof {
                assert(mseq.skip(i as int).drop_first() =~= mseq.skip(i as int + 1));
                assert(out@ =~= quoted(mseq[i as int].0) + seq![':'] + json_text(
                    mseq[i as int].1,
                ) + seq![','] + obj_body(mseq.skip(i as int + 1)));
            }
        } else {
            proof {
                assert(mseq.skip(i as int).len() == 1);
                assert(out@ =~= quoted(mseq[i as int].0) + seq![':'] + json_text(
                    mseq[i as int].1,
                ));
            }
        }
        out
    }
}

/// Writes the JSON rendering of a value into a string.
pub fn render_value_string(v: &Value) -> (r: String)
    ensures
        r@ == json_text(val_model(*v)),
{
    let cs = render_value(v);
    crate::strutil::string_from_chars(&cs)
}

} // verus!
