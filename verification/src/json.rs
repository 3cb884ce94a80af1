//! A small JSON document model.
//!
//! Stream chunks and rule-endpoint responses arrive as JSON text. The text
//! is turned into a [`Json`] tree (see `chunk.rs` for the trusted boundary),
//! and everything that reads or builds such trees — schema extraction,
//! payload building, emitting — is verified against the ghost model
//! [`JsonVal`].

use vstd::prelude::*;

verus! {

broadcast use vstd::seq::group_seq_axioms, vstd::std_specs::vec::group_vec_axioms;

/// One JSON document. Numbers that are unsigned 64-bit integers are kept
/// as integers; any other numeric token keeps its text form.
#[derive(Debug, PartialEq)]
pub enum Json {
    Null,
    Bool(bool),
    UInt(u64),
    Number(String),
    Str(String),
    Arr(Vec<Json>),
    Obj(Vec<(String, Json)>),
}

/// The mathematical value of a [`Json`] tree.
#[verifier::ext_equal]
pub ghost enum JsonVal {
    Null,
    Bool(bool),
    UInt(u64),
    Number(Seq<char>),
    Str(Seq<char>),
    Arr(Seq<JsonVal>),
    Obj(Seq<(Seq<char>, JsonVal)>),
}

pub open spec fn json_view(j: Json) -> JsonVal
    decreases j,
{
    match j {
        Json::Null => JsonVal::Null,
        Json::Bool(b) => JsonVal::Bool(b),
        Json::UInt(u) => JsonVal::UInt(u),
        Json::Number(s) => JsonVal::Number(s@),
        Json::Str(s) => JsonVal::Str(s@),
        Json::Arr(v) => JsonVal::Arr(arr_view(v@)),
        Json::Obj(v) => JsonVal::Obj(obj_view(v@)),
    }
}

pub open spec fn arr_view(s: Seq<Json>) -> Seq<JsonVal>
    decreases s,
{
    if s.len() == 0 {
        Seq::empty()
    } else {
        seq![json_view(s[0])] + arr_view(s.drop_first())
    }
}

pub open spec fn obj_view(s: Seq<(String, Json)>) -> Seq<(Seq<char>, JsonVal)>
    decreases s,
{
    if s.len() == 0 {
        Seq::empty()
    } else {
        seq![(s[0].0@, json_view(s[0].1))] + obj_view(s.drop_first())
    }
}

impl View for Json {
    type V = JsonVal;

    open spec fn view(&self) -> JsonVal {
        json_view(*self)
    }
}

pub broadcast proof fn lemma_arr_view_len(s: Seq<Json>)
    ensures
        (#[trigger] arr_view(s)).len() == s.len(),
    decreases s,
{
    if s.len() > 0 {
        lemma_arr_view_len(s.drop_first());
    }
}

pub broadcast proof fn lemma_arr_view_index(s: Seq<Json>, i: int)
    requires
        0 <= i < s.len(),
    ensures
        #[trigger] arr_view(s)[i] == json_view(s[i]),
    decreases s,
{
    lemma_arr_view_len(s);
    if i > 0 {
        lemma_arr_view_index(s.drop_first(), i - 1);
    }
}

pub broadcast proof fn lemma_obj_view_len(s: Seq<(String, Json)>)
    ensures
        (#[trigger] obj_view(s)).len() == s.len(),
    decreases s,
{
    if s.len() > 0 {
        lemma_obj_view_len(s.drop_first());
    }
}

pub broadcast proof fn lemma_obj_view_index(s: Seq<(String, Json)>, i: int)
    requires
        0 <= i < s.len(),
    ensures
        #[trigger] obj_view(s)[i] == (s[i].0@, json_view(s[i].1)),
    decreases s,
{
    lemma_obj_view_len(s);
    if i > 0 {
        lemma_obj_view_index(s.drop_first(), i - 1);
    }
}

/// First binding of `key` among the fields of a JSON object, if any.
pub open spec fn obj_get(fields: Seq<(Seq<char>, JsonVal)>, key: Seq<char>) -> Option<JsonVal>
    decreases fields,
{
    if fields.len() == 0 {
        None
    } else if fields[0].0 == key {
        Some(fields[0].1)
    } else {
        obj_get(fields.drop_first(), key)
    }
}

/// Character-for-character string comparison.
pub fn str_eq(a: &str, b: &str) -> (r: bool)
    ensures
        r == (a@ == b@),
{
    let alen = a.unicode_len();
    let blen = b.unicode_len();
    if alen != blen {
        return false;
    }
    let mut i: usize = 0;
    while i < alen
        invariant
            i <= alen,
            alen == a@.len(),
            alen == b@.len(),
            forall|k: int| 0 <= k < i ==> a@[k] == b@[k],
        decreases alen - i,
    {
        if a.get_char(i) != b.get_char(i) {
            return false;
        }
        i += 1;
    }
    proof {
        assert(a@ =~= b@);
    }
    true
}

/// Looks `key` up among an object's fields; first binding wins.
pub fn obj_lookup<'a>(fields: &'a Vec<(String, Json)>, key: &str) -> (r: Option<&'a Json>)
    ensures
        match r {
            Some(j) => obj_get(obj_view(fields@), key@) == Some(json_view(*j)),
            None => obj_get(obj_view(fields@), key@) is None,
        },
{
    let ghost all = obj_view(fields@);
    proof {
        lemma_obj_view_len(fields@);
        assert(all.skip(0int) =~= all);
    }
    let mut i: usize = 0;
    while i < fields.len()
        invariant
            i <= fields@.len(),
            all == obj_view(fields@),
            all.len() == fields@.len(),
            obj_get(all, key@) == obj_get(all.skip(i as int), key@),
        decreases fields@.len() - i,
    {
        proof {
            lemma_obj_view_index(fields@, i as int);
            assert(all.skip(i as int)[0] == all[i as int]);
        }
        if str_eq(fields[i].0.as_str(), key) {
            return Some(&fields[i].1);
        }
        proof {
            assert(all.skip(i as int).drop_first() =~= all.skip(i + 1));
        }
        i += 1;
    }
    proof {
        assert(all.skip(fields@.len() as int) =~= Seq::<(Seq<char>, JsonVal)>::empty());
    }
    None
}

/// Relies on `String`'s `FromIterator<char>` implementation: collecting
/// characters yields the string made of exactly those characters in order.
#[verifier::external_body]
pub(crate) fn chars_to_string(v: Vec<char>) -> (r: String)
    ensures
        r@ == v@,
{
    v.into_iter().collect()
}

/// Appends every character of `s` to `out`.
pub fn push_str_chars(out: &mut Vec<char>, s: &str)
    ensures
        final(out)@ == old(out)@ + s@,
{
    let n = s.unicode_len();
    let mut i: usize = 0;
    while i < n
        invariant
            i <= n,
            n == s@.len(),
            out@ == old(out)@ + s@.take(i as int),
        decreases n - i,
    {
        out.push(s.get_char(i));
        proof {
            assert(s@.take(i + 1) =~= s@.take(i as int).push(s@[i as int]));
        }
        i += 1;
    }
    proof {
        assert(s@.take(n as int) =~= s@);
    }
}

/// The character of one decimal digit.
pub open spec fn digit_char(d: nat) -> char
    recommends
        d < 10,
{
    ((48 + d) as u8) as char
}

/// The decimal digits of `n`, most significant first, no leading zeros.
pub open spec fn dec_digits(n: nat) -> Seq<char>
    decreases n,
{
    if n < 10 {
        seq![digit_char(n)]
    } else {
        dec_digits(n / 10).push(digit_char(n % 10))
    }
}

/// The character of one hexadecimal digit, lower case.
pub open spec fn hex_digit_char(d: nat) -> char
    recommends
        d < 16,
{
    if d < 10 {
        ((48 + d) as u8) as char
    } else {
        ((87 + d) as u8) as char
    }
}

/// How one character appears inside a JSON string literal.
pub open spec fn escape_char(c: char) -> Seq<char> {
    if c == '"' {
        seq!['\\', '"']
    } else if c == '\\' {
        seq!['\\', '\\']
    } else if c == '\n' {
        seq!['\\', 'n']
    } else if c == '\r' {
        seq!['\\', 'r']
    } else if c == '\t' {
        seq!['\\', 't']
    } else if (c as u32) < 32 {
        seq!['\\', 'u', '0', '0', hex_digit_char((c as u32 / 16) as nat), hex_digit_char(
            (c as u32 % 16) as nat,
        )]
    } else {
        seq![c]
    }
}

/// The body of a JSON string literal for the text `s`.
pub open spec fn escape_str(s: Seq<char>) -> Seq<char>
    decreases s,
{
    if s.len() == 0 {
        Seq::empty()
    } else {
        escape_str(s.drop_last()) + escape_char(s.last())
    }
}

/// The text of a JSON document.
pub open spec fn emit_json(v: JsonVal) -> Seq<char>
    decreases v,
{
    match v {
        JsonVal::Null => seq!['n', 'u', 'l', 'l'],
        JsonVal::Bool(b) => if b {
            seq!['t', 'r', 'u', 'e']
        } else {
            seq!['f', 'a', 'l', 's', 'e']
        },
        JsonVal::UInt(u) => dec_digits(u as nat),
        JsonVal::Number(s) => s,
        JsonVal::Str(s) => seq!['"'] + escape_str(s) + seq!['"'],
        JsonVal::Arr(items) => seq!['['] + emit_items(items) + seq![']'],
        JsonVal::Obj(fields) => seq!['{'] + emit_fields(fields) + seq!['}'],
    }
}

/// The comma-separated texts of an array's items.
pub open spec fn emit_items(items: Seq<JsonVal>) -> Seq<char>
    decreases items,
{
    if items.len() == 0 {
        Seq::empty()
    } else if items.len() == 1 {
        emit_json(items[0])
    } else {
        emit_items(items.drop_last()) + seq![','] + emit_json(items.last())
    }
}

/// The text of one `"key":value` field.
pub open spec fn emit_field(f: (Seq<char>, JsonVal)) -> Seq<char>
    decreases f,
{
    seq!['"'] + escape_str(f.0) + seq!['"', ':'] + emit_json(f.1)
}

/// The comma-separated texts of an object's fields.
pub open spec fn emit_fields(fields: Seq<(Seq<char>, JsonVal)>) -> Seq<char>
    decreases fields,
{
    if fields.len() == 0 {
        Seq::empty()
    } else if fields.len() == 1 {
        emit_field(fields[0])
    } else {
        emit_fields(fields.drop_last()) + seq![','] + emit_field(fields.last())
    }
}

/// Appends the decimal digits of `n` to `out`.
pub fn push_u64_digits(out: &mut Vec<char>, n: u64)
    ensures
        final(out)@ == old(out)@ + dec_digits(n as nat),
    decreases n,
{
    if n >= 10 {
        push_u64_digits(out, n / 10);
    }
    let d: u8 = (48 + (n % 10) as u8);
    out.push(d as char);
}

fn hex_digit(d: u32) -> (r: char)
    requires
        d < 16,
    ensures
        r == hex_digit_char(d as nat),
{
    if d < 10 {
        ((48 + d) as u8) as char
    } else {
        ((87 + d) as u8) as char
    }
}

/// Appends the JSON string-literal body of `s` to `out`.
pub fn push_escaped(out: &mut Vec<char>, s: &str)
    ensures
        final(out)@ == old(out)@ + escape_str(s@),
{
    let n = s.unicode_len();
    let mut i: usize = 0;
    while i < n
        invariant
            i <= n,
            n == s@.len(),
            out@ == old(out)@ + escape_str(s@.take(i as int)),
        decreases n - i,
    {
        let c = s.get_char(i);
        if c == '"' {
            out.push('\\');
            out.push('"');
        } else if c == '\\' {
            out.push('\\');
            out.push('\\');
        } else if c == '\n' {
            out.push('\\');
            out.push('n');
        } else if c == '\r' {
            out.push('\\');
            out.push('r');
        } else if c == '\t' {
            out.push('\\');
            out.push('t');
        } else if (c as u32) < 32 {
            out.push('\\');
            out.push('u');
            out.push('0');
            out.push('0');
            out.push(hex_digit((c as u32) / 16));
            out.push(hex_digit((c as u32) % 16));
        } else {
            out.push(c);
        }
        proof {
            assert(s@.take(i + 1).drop_last() =~= s@.take(i as int));
            assert(s@.take(i + 1).last() == s@[i as int]);
        }
        i += 1;
    }
    proof {
        assert(s@.take(n as int) =~= s@);
    }
}

/// Appends the text of the document `j` to `out`.
pub fn push_json(j: &Json, out: &mut Vec<char>)
    ensures
        final(out)@ == old(out)@ + emit_json(j@),
    decreases *j,
{
    match j {
        Json::Null => {
            out.push('n');
            out.push('u');
            out.push('l');
            out.push('l');
            proof {
                assert(old(out)@ + emit_json(j@) =~= out@);
            }
        },
        Json::Bool(b) => {
            if *b {
                out.push('t');
                out.push('r');
                out.push('u');
                out.push('e');
            } else {
                out.push('f');
                out.push('a');
                out.push('l');
                out.push('s');
                out.push('e');
            }
            proof {
                assert(old(out)@ + emit_json(j@) =~= out@);
            }
        },
        Json::UInt(u) => {
            push_u64_digits(out, *u);
        },
        Json::Number(s) => {
            push_str_chars(out, s.as_str());
        },
        Json::Str(s) => {
            out.push('"');
            push_escaped(out, s.as_str());
            out.push('"');
            proof {
                assert(old(out)@ + emit_json(j@) =~= out@);
            }
        },
        Json::Arr(v) => {
            let ghost items = arr_view(v@);
            proof {
                lemma_arr_view_len(v@);
            }
            out.push('[');
            let mut i: usize = 0;
            while i < v.len()
                invariant
                    i <= v@.len(),
                    items == arr_view(v@),
                    items.len() == v@.len(),
                    out@ == old(out)@ + seq!['['] + emit_items(items.take(i as int)),
                    *j == Json::Arr(*v),
                decreases v@.len() - i,
            {
                if i > 0 {
                    out.push(',');
                }
                proof {
                    assert(decreases_to!(*j => (*j)->Arr_0));
                    assert(decreases_to!((*j)->Arr_0 => (*j)->Arr_0[i as int]));
                }
                push_json(&v[i], out);
                proof {
                    lemma_arr_view_index(v@, i as int);
                    if i == 0 {
                        assert(items.take(1int) =~= seq![items[0]]);
                        assert(emit_items(items.take(1int)) == emit_json(items[0]));
                    } else {
                        assert(items.take(i + 1).drop_last() =~= items.take(i as int));
                        assert(items.take(i + 1).last() == items[i as int]);
                    }
                    assert(out@ =~= old(out)@ + seq!['['] + emit_items(items.take(i + 1)));
                }
                i += 1;
            }
            out.push(']');
            proof {
                assert(items.take(v@.len() as int) =~= items);
                assert(old(out)@ + emit_json(j@) =~= out@);
            }
        },
        Json::Obj(v) => {
            let ghost fields = obj_view(v@);
            proof {
                lemma_obj_view_len(v@);
            }
            out.push('{');
            let mut i: usize = 0;
            while i < v.len()
                invariant
                    i <= v@.len(),
                    fields == obj_view(v@),
                    fields.len() == v@.len(),
                    out@ == old(out)@ + seq!['{'] + emit_fields(fields.take(i as int)),
                    *j == Json::Obj(*v),
                decreases v@.len() - i,
            {
                if i > 0 {
                    out.push(',');
                }
                out.push('"');
                push_escaped(out, v[i].0.as_str());
                out.push('"');
                out.push(':');
                proof {
                    assert(decreases_to!(*j => (*j)->Obj_0));
                    assert(decreases_to!((*j)->Obj_0 => (*j)->Obj_0[i as int]));
                    assert(decreases_to!((*j)->Obj_0[i as int] => (*j)->Obj_0[i as int].1));
                }
                push_json(&v[i].1, out);
                proof {
                    lemma_obj_view_index(v@, i as int);
                    let ghost f_i = obj_view(v@)[i as int];
                    assert(emit_field(f_i) == seq!['"'] + escape_str(f_i.0) + seq!['"', ':']
                        + emit_json(f_i.1));
                    if i == 0 {
                        assert(fields.take(1int) =~= seq![fields[0]]);
                        assert(emit_fields(fields.take(1int)) == emit_field(fields[0]));
                    } else {
                        assert(fields.take(i + 1).drop_last() =~= fields.take(i as int));
                        assert(fields.take(i + 1).last() == fields[i as int]);
                    }
                    assert(out@ =~= old(out)@ + seq!['{'] + emit_fields(fields.take(i + 1)));
                }
                i += 1;
            }
            out.push('}');
            proof {
                assert(fields.take(v@.len() as int) =~= fields);
                assert(old(out)@ + emit_json(j@) =~= out@);
            }
        },
    }
}

/// The text of the document `j`, as a string.
pub fn json_to_string(j: &Json) -> (r: String)
    ensures
        r@ == emit_json(j@),
{
    let mut out: Vec<char> = Vec::new();
    push_json(j, &mut out);
    chars_to_string(out)
}

} // verus!
