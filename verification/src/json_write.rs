//! Serialization of a [`JsonValue`] to wire text, against an exact
//! character-level specification.
//!
//! The emitted form is canonical: no whitespace, object entries in stored
//! order, strings escaped the minimal way (quote, backslash, and control
//! characters only).

use vstd::prelude::*;

use crate::chars::{dec_digits, digit_char, int_text, push_u64_dec};
use crate::json::{arr_rep, obj_rep, rep, JObj, JsonRep, JsonValue};

verus! {

broadcast use vstd::std_specs::vec::axiom_vec_index_decreases;

/// The hexadecimal digit character for a value below sixteen.
pub open spec fn hex_char(d: int) -> char {
    if d < 10 {
        digit_char(d)
    } else {
        (('a' as int + d - 10) as char)
    }
}

/// How one character appears inside a JSON string literal.
pub open spec fn escape_char(c: char) -> Seq<char> {
    if c == '"' {
        seq!['\\', '"']
    } else if c == '\\' {
        seq!['\\', '\\']
    } else if c == '\n' {
        seq!['\\', 'n']
    } else if c == '\r' {
        seq!['\\', 'r']
    } else if c == '\t' {
        seq!['\\', 't']
    } else if c as int == 8 {
        seq!['\\', 'b']
    } else if c as int == 12 {
        seq!['\\', 'f']
    } else if (c as int) < 32 {
        seq!['\\', 'u', '0', '0', hex_char(c as int / 16), hex_char(c as int % 16)]
    } else {
        seq![c]
    }
}

/// The escaped body of a string literal, from position `i` on.
pub open spec fn str_text(s: Seq<char>, i: int) -> Seq<char>
    decreases s.len() - i,
{
    if i < 0 || i >= s.len() {
        Seq::empty()
    } else {
        escape_char(s[i]) + str_text(s, i + 1)
    }
}

/// A quoted, escaped JSON string literal.
pub open spec fn quoted_text(s: Seq<char>) -> Seq<char> {
    seq!['"'] + str_text(s, 0) + seq!['"']
}

/// The canonical wire text of a JSON value.
pub open spec fn json_text(j: JsonRep) -> Seq<char>
    decreases j, 0int,
{
    match j {
        JsonRep::Null => seq!['n', 'u', 'l', 'l'],
        JsonRep::Bool(b) => if b {
            seq!['t', 'r', 'u', 'e']
        } else {
            seq!['f', 'a', 'l', 's', 'e']
        },
        JsonRep::Int(n) => int_text(n),
        JsonRep::Str(s) => quoted_text(s),
        JsonRep::Array(l) => seq!['['] + arr_text(l, 0) + seq![']'],
        JsonRep::Object(o) => seq!['{'] + obj_text(o, 0) + seq!['}'],
    }
}

/// Comma-separated element texts, from position `i` on.
pub open spec fn arr_text(l: Seq<JsonRep>, i: int) -> Seq<char>
    decreases l, l.len() - i,
{
    if i < 0 || i >= l.len() {
        Seq::empty()
    } else if i == l.len() - 1 {
        json_text(l[i])
    } else {
        json_text(l[i]) + seq![','] + arr_text(l, i + 1)
    }
}

/// Comma-separated `"key":value` entry texts, from position `i` on.
pub open spec fn obj_text(o: JObj, i: int) -> Seq<char>
    decreases o, o.len() - i,
{
    if i < 0 || i >= o.len() {
        Seq::empty()
    } else {
        let entry = quoted_text(o[i].0) + seq![':'] + json_text(o[i].1);
        if i == o.len() - 1 {
            entry
        } else {
            entry + seq![','] + obj_text(o, i + 1)
        }
    }
}

/// Appends the two-character (or six-character) escape of `c`.
fn push_escaped_char(c: char, out: &mut Vec<char>)
    ensures
        final(out)@ == old(out)@ + escape_char(c),
{
    if c == '"' {
        out.push('\\');
        out.push('"');
    } else if c == '\\' {
        out.push('\\');
        out.push('\\');
    } else if c == '\n' {
        out.push('\\');
        out.push('n');
    } else if c == '\r' {
        out.push('\\');
        out.push('r');
    } else if c == '\t' {
        out.push('\\');
        out.push('t');
    } else if c as u32 == 8 {
        out.push('\\');
        out.push('b');
    } else if c as u32 == 12 {
        out.push('\\');
        out.push('f');
    } else if (c as u32) < 32 {
        out.push('\\');
        out.push('u');
        out.push('0');
        out.push('0');
        let hi = ((c as u32) / 16) as u8;
        let lo = ((c as u32) % 16) as u8;
        out.push(if hi < 10 {
            (48u8 + hi) as char
        } else {
            (97u8 + (hi - 10)) as char
        });
        out.push(if lo < 10 {
            (48u8 + lo) as char
        } else {
            (97u8 + (lo - 10)) as char
        });
    } else {
        out.push(c);
    }
    proof {
        assert(out@ =~= old(out)@ + escape_char(c));
    }
}

/// Appends the quoted, escaped literal of `s`.
fn push_quoted(s: &str, out: &mut Vec<char>)
    ensures
        final(out)@ == old(out)@ + quoted_text(s@),
{
    let chars = crate::chars::str_to_chars(s);
    out.push('"');
    let ghost opened = out@;
    let mut i: usize = 0;
    while i < chars.len()
        invariant
            i <= chars@.len(),
            chars@ == s@,
            opened == old(out)@ + seq!['"'],
            out@ + str_text(s@, i as int) == opened + str_text(s@, 0),
        decreases chars@.len() - i,
    {
        push_escaped_char(chars[i], out);
        i += 1;
    }
    out.push('"');
    proof {
        assert(out@ =~= old(out)@ + quoted_text(s@));
    }
}

/// Appends the decimal text of a signed integer.
fn push_i64_dec(n: i64, out: &mut Vec<char>)
    ensures
        final(out)@ == old(out)@ + int_text(n as int),
{
    if n < 0 {
        out.push('-');
        let m: u64 = ((-(n + 1)) as u64) + 1;
        proof {
            assert(m as int == -(n as int));
        }
        push_u64_dec(m, out);
        proof {
            assert(out@ =~= old(out)@ + int_text(n as int));
        }
    } else {
        push_u64_dec(n as u64, out);
    }
}

/// Appends the canonical wire text of `v`.
pub fn write_json(v: &JsonValue, out: &mut Vec<char>)
    ensures
        final(out)@ == old(out)@ + json_text(rep(*v)),
    decreases *v,
{
    match v {
        JsonValue::Null => {
            out.push('n');
            out.push('u');
            out.push('l');
            out.push('l');
            proof {
                assert(out@ =~= old(out)@ + json_text(rep(*v)));
            }
        },
        JsonValue::Bool(b) => {
            if *b {
                out.push('t');
                out.push('r');
                out.push('u');
                out.push('e');
            } else {
                out.push('f');
                out.push('a');
                out.push('l');
                out.push('s');
                out.push('e');
            }
            proof {
                assert(out@ =~= old(out)@ + json_text(rep(*v)));
            }
        },
        JsonValue::Int(i) => {
            push_i64_dec(*i, out);
        },
        JsonValue::Uint(u) => {
            push_u64_dec(*u, out);
            proof {
                assert(dec_digits(*u as nat) == int_text(*u as int));
            }
        },
        JsonValue::Str(s) => {
            push_quoted(s.as_str(), out);
        },
        JsonValue::Array(items) => {
            out.push('[');
            let ghost l = arr_rep(*items, 0);
            proof {
                crate::json::lemma_arr_rep_len(*items, 0);
            }
            let ghost opened = out@;
            let mut i: usize = 0;
            while i < items.len()
                invariant
                    *v == JsonValue::Array(*items),
                    i <= items@.len(),
                    l == arr_rep(*items, 0),
                    l.len() == items@.len(),
                    forall|j: int| 0 <= j < items@.len() ==> l[j] == rep(#[trigger] items@[j]),
                    opened == old(out)@ + seq!['['],
                    out@ + arr_text(l, i as int) == opened + arr_text(l, 0),
                decreases items@.len() - i,
            {
                proof {
                    assert(decreases_to!(*v => (*v)->Array_0));
                    assert(decreases_to!(*items => items@));
                    assert(decreases_to!(items@ => items@[i as int]));
                }
                write_json(&items[i], out);
                if i + 1 < items.len() {
                    out.push(',');
                }
                i += 1;
            }
            out.push(']');
            proof {
                assert(out@ =~= old(out)@ + json_text(rep(*v)));
            }
        },
        JsonValue::Object(entries) => {
            out.push('{');
            let ghost o = obj_rep(*entries, 0);
            proof {
                crate::json::lemma_obj_rep_len(*entries, 0);
            }
            let ghost opened = out@;
            let mut i: usize = 0;
            while i < entries.len()
                invariant
                    *v == JsonValue::Object(*entries),
                    i <= entries@.len(),
                    o == obj_rep(*entries, 0),
                    o.len() == entries@.len(),
                    forall|j: int|
                        0 <= j < entries@.len() ==> o[j] == (
                        #[trigger] entries@[j].0@,
                        rep(entries@[j].1),
                        ),
                    opened == old(out)@ + seq!['{'],
                    out@ + obj_text(o, i as int) == opened + obj_text(o, 0),
                decreases entries@.len() - i,
            {
                push_quoted(entries[i].0.as_str(), out);
                out.push(':');
                proof {
                    assert(decreases_to!(*v => (*v)->Object_0));
                    assert(decreases_to!(*entries => entries@));
                    assert(decreases_to!(entries@ => entries@[i as int]));
                    assert(decreases_to!(entries@[i as int] => entries@[i as int].1));
                }
                write_json(&entries[i].1, out);
                if i + 1 < entries.len() {
                    out.push(',');
                }
                i += 1;
            }
            out.push('}');
            proof {
                assert(out@ =~= old(out)@ + json_text(rep(*v)));
            }
        },
    }
}

/// The canonical wire text of `v`, as a string.
pub fn json_to_string(v: &JsonValue) -> (r: String)
    ensures
        r@ == json_text(rep(*v)),
{
    let mut out: Vec<char> = Vec::new();
    write_json(v, &mut out);
    crate::chars::chars_to_string(&out)
}

} // verus!
