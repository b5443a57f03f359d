//! Parsing wire text into a [`JsonValue`].
//!
//! The grammar is standard JSON with one deliberate restriction: numbers
//! must be integers (no fraction or exponent). No frame of this protocol
//! carries a fractional number, so a frame holding one is rejected as
//! malformed — even where it sits in an undeclared field that a lenient
//! shape would otherwise ignore. Nesting is bounded to keep the recursion
//! depth fixed.

use vstd::prelude::*;

use crate::chars::{all_digits, char_from_u32, chars_to_string, parse_u64_digits, str_to_chars};
use crate::errors::Error;
use crate::json::{arr_rep, obj_rep, rep, JsonRep, JsonValue};

verus! {

/// How many levels of arrays and objects may nest.
pub const MAX_DEPTH: u32 = 128;

pub open spec fn is_ws_char(c: char) -> bool {
    c == ' ' || c == '\t' || c == '\n' || c == '\r'
}

/// The first position at or after `i` that does not hold whitespace.
pub open spec fn ws_end(s: Seq<char>, i: int) -> int
    decreases s.len() - i,
{
    if 0 <= i < s.len() && is_ws_char(s[i]) {
        ws_end(s, i + 1)
    } else {
        i
    }
}

pub open spec fn hex_val_spec(c: char) -> Option<u32> {
    if '0' <= c && c <= '9' {
        Some((c as int - '0' as int) as u32)
    } else if 'a' <= c && c <= 'f' {
        Some((c as int - 'a' as int + 10) as u32)
    } else if 'A' <= c && c <= 'F' {
        Some((c as int - 'A' as int + 10) as u32)
    } else {
        None
    }
}

/// Four hexadecimal digits starting at `i`.
pub open spec fn hex4_spec(s: Seq<char>, i: int) -> Option<u32> {
    if i < 0 || i + 4 > s.len() {
        None
    } else {
        match (hex_val_spec(s[i]), hex_val_spec(s[i + 1]), hex_val_spec(s[i + 2]), hex_val_spec(
            s[i + 3],
        )) {
            (Some(d0), Some(d1), Some(d2), Some(d3)) => Some(
                (d0 * 4096 + d1 * 256 + d2 * 16 + d3) as u32,
            ),
            _ => None,
        }
    }
}

/// The body of a string literal from position `i` (past the opening quote),
/// with the characters read so far: the unescaped text and the position
/// just past the closing quote.
pub open spec fn string_body_spec(s: Seq<char>, i: int, acc: Seq<char>) -> Option<
    (Seq<char>, int),
>
    decreases s.len() - i,
{
    if i < 0 || i >= s.len() {
        None
    } else {
        let c = s[i];
        if c == '"' {
            Some((acc, i + 1))
        } else if c == '\\' {
            if i + 1 >= s.len() {
                None
            } else {
                let e = s[i + 1];
                if e == '"' || e == '\\' || e == '/' {
                    string_body_spec(s, i + 2, acc.push(e))
                } else if e == 'n' {
                    string_body_spec(s, i + 2, acc.push('\n'))
                } else if e == 't' {
                    string_body_spec(s, i + 2, acc.push('\t'))
                } else if e == 'r' {
                    string_body_spec(s, i + 2, acc.push('\r'))
                } else if e == 'b' {
                    string_body_spec(s, i + 2, acc.push(8 as char))
                } else if e == 'f' {
                    string_body_spec(s, i + 2, acc.push(12 as char))
                } else if e == 'u' {
                    match hex4_spec(s, i + 2) {
                        None => None,
                        Some(hi) => if 0xD800 <= hi < 0xDC00 {
                            if i + 8 > s.len() || s[i + 6] != '\\' || s[i + 7] != 'u' {
                                None
                            } else {
                                match hex4_spec(s, i + 8) {
                                    None => None,
                                    Some(lo) => if !(0xDC00 <= lo < 0xE000) {
                                        None
                                    } else {
                                        let code = 0x10000 + (hi - 0xD800) * 0x400 + (lo
                                            - 0xDC00);
                                        string_body_spec(s, i + 12, acc.push(code as char))
                                    },
                                }
                            }
                        } else if 0xDC00 <= hi < 0xE000 {
                            None
                        } else {
                            string_body_spec(s, i + 6, acc.push(hi as char))
                        },
                    }
                } else {
                    None
                }
            }
        } else if ' ' > c {
            None
        } else {
            string_body_spec(s, i + 1, acc.push(c))
        }
    }
}

/// A string literal at `i`: the opening quote, its body, the closing quote.
pub open spec fn parse_string_spec(s: Seq<char>, i: int) -> Option<(Seq<char>, int)> {
    if 0 <= i < s.len() && s[i] == '"' {
        string_body_spec(s, i + 1, Seq::empty())
    } else {
        None
    }
}

/// The first position at or after `i` that does not hold a decimal digit.
pub open spec fn digits_end(s: Seq<char>, i: int) -> int
    decreases s.len() - i,
{
    if 0 <= i < s.len() && crate::chars::is_digit_char(s[i]) {
        digits_end(s, i + 1)
    } else {
        i
    }
}

/// An integer numeral at `i`: optional sign, a digit run with no leading
/// zero, no fraction or exponent, and a value the codec's integers can hold.
pub open spec fn parse_number_spec(s: Seq<char>, i: int) -> Option<(JsonRep, int)> {
    if i < 0 || i >= s.len() {
        None
    } else {
        let neg = s[i] == '-';
        let dstart = if neg {
            i + 1
        } else {
            i
        };
        let dend = digits_end(s, dstart);
        let val = crate::chars::dec_val(s.subrange(dstart, dend));
        if dend == dstart {
            None
        } else if dend > dstart + 1 && s[dstart] == '0' {
            None
        } else if dend < s.len() && (s[dend] == '.' || s[dend] == 'e' || s[dend] == 'E') {
            None
        } else if !neg {
            if val > u64::MAX {
                None
            } else {
                Some((JsonRep::Int(val), dend))
            }
        } else {
            if val > 0x8000000000000000 {
                None
            } else {
                Some((JsonRep::Int(-val), dend))
            }
        }
    }
}

/// One JSON value at `i`, with the nesting budget left: the parsed value
/// and the position just past it. This is the parser's meaning; the
/// executable functions below are proved to return exactly this.
pub open spec fn parse_value_spec(s: Seq<char>, i: int, depth: nat) -> Option<(JsonRep, int)>
    decreases s.len() - i, 0int,
{
    if depth == 0 {
        None
    } else if i < 0 || i >= s.len() {
        None
    } else {
        let c = s[i];
        if c == 'n' {
            if i + 4 <= s.len() && s[i + 1] == 'u' && s[i + 2] == 'l' && s[i + 3] == 'l' {
                Some((JsonRep::Null, i + 4))
            } else {
                None
            }
        } else if c == 't' {
            if i + 4 <= s.len() && s[i + 1] == 'r' && s[i + 2] == 'u' && s[i + 3] == 'e' {
                Some((JsonRep::Bool(true), i + 4))
            } else {
                None
            }
        } else if c == 'f' {
            if i + 5 <= s.len() && s[i + 1] == 'a' && s[i + 2] == 'l' && s[i + 3] == 's' && s[i
                + 4] == 'e' {
                Some((JsonRep::Bool(false), i + 5))
            } else {
                None
            }
        } else if c == '"' {
            match parse_string_spec(s, i) {
                Some((st, j)) => Some((JsonRep::Str(st), j)),
                None => None,
            }
        } else if c == '-' || crate::chars::is_digit_char(c) {
            parse_number_spec(s, i)
        } else if c == '[' {
            let i2 = ws_end(s, i + 1);
            if i2 < s.len() && s[i2] == ']' {
                Some((JsonRep::Array(Seq::empty()), i2 + 1))
            } else if i2 <= i || i2 > s.len() {
                None
            } else {
                arr_elems_spec(s, i2, (depth - 1) as nat, Seq::empty())
            }
        } else if c == '{' {
            let i2 = ws_end(s, i + 1);
            if i2 < s.len() && s[i2] == '}' {
                Some((JsonRep::Object(Seq::empty()), i2 + 1))
            } else if i2 <= i || i2 > s.len() {
                None
            } else {
                obj_members_spec(s, i2, (depth - 1) as nat, Seq::empty())
            }
        } else {
            None
        }
    }
}

/// The elements of an array from position `i` on, each parsed with budget
/// `d`, with the elements read so far.
pub open spec fn arr_elems_spec(s: Seq<char>, i: int, d: nat, acc: Seq<JsonRep>) -> Option<
    (JsonRep, int),
>
    decreases s.len() - i, 1int,
{
    match parse_value_spec(s, i, d) {
        None => None,
        Some((v, j)) => {
            let j1 = ws_end(s, j);
            if j1 < s.len() && s[j1] == ',' {
                let j2 = ws_end(s, j1 + 1);
                if j2 <= i || j2 > s.len() {
                    None
                } else {
                    arr_elems_spec(s, j2, d, acc.push(v))
                }
            } else if j1 < s.len() && s[j1] == ']' {
                Some((JsonRep::Array(acc.push(v)), j1 + 1))
            } else {
                None
            }
        },
    }
}

/// The members of an object from position `i` on, each value parsed with
/// budget `d`, with the entries read so far.
pub open spec fn obj_members_spec(
    s: Seq<char>,
    i: int,
    d: nat,
    acc: Seq<(Seq<char>, JsonRep)>,
) -> Option<(JsonRep, int)>
    decreases s.len() - i, 1int,
{
    if i < 0 || i >= s.len() {
        None
    } else {
        match parse_string_spec(s, i) {
            None => None,
            Some((k, j)) => {
                let j1 = ws_end(s, j);
                if j1 >= s.len() || s[j1] != ':' {
                    None
                } else {
                    let j2 = ws_end(s, j1 + 1);
                    if j2 < i || j2 > s.len() {
                        None
                    } else {
                        match parse_value_spec(s, j2, d) {
                            None => None,
                            Some((v, j3)) => {
                                let j4 = ws_end(s, j3);
                                if j4 < s.len() && s[j4] == ',' {
                                    let j5 = ws_end(s, j4 + 1);
                                    if j5 <= i || j5 > s.len() {
                                        None
                                    } else {
                                        obj_members_spec(s, j5, d, acc.push((k, v)))
                                    }
                                } else if j4 < s.len() && s[j4] == '}' {
                                    Some((JsonRep::Object(acc.push((k, v))), j4 + 1))
                                } else {
                                    None
                                }
                            },
                        }
                    }
                }
            },
        }
    }
}

/// A complete document: optional whitespace, one value, optional
/// whitespace, end of text.
pub open spec fn json_parse_spec(s: Seq<char>) -> Option<JsonRep> {
    let i0 = ws_end(s, 0);
    match parse_value_spec(s, i0, MAX_DEPTH as nat) {
        None => None,
        Some((v, j)) => if ws_end(s, j) == s.len() {
            Some(v)
        } else {
            None
        },
    }
}

fn ws_at(s: &Vec<char>, i: usize) -> (r: bool)
    requires
        i < s@.len(),
    ensures
        r == is_ws_char(s@[i as int]),
{
    let c = s[i];
    c == ' ' || c == '\t' || c == '\n' || c == '\r'
}

fn digit_at(s: &Vec<char>, i: usize) -> (r: bool)
    requires
        i < s@.len(),
    ensures
        r == crate::chars::is_digit_char(s@[i as int]),
{
    let c = s[i];
    c >= '0' && c <= '9'
}

fn skip_ws(s: &Vec<char>, pos: &mut usize)
    requires
        *old(pos) <= s@.len(),
    ensures
        *old(pos) <= *final(pos) <= s@.len(),
        *final(pos) == ws_end(s@, *old(pos) as int),
{
    while *pos < s.len() && ws_at(s, *pos)
        invariant
            *old(pos) <= *pos <= s@.len(),
            ws_end(s@, *old(pos) as int) == ws_end(s@, *pos as int),
        decreases s@.len() - *pos,
    {
        *pos = *pos + 1;
    }
}

fn hex_val(c: char) -> (r: Option<u32>)
    ensures
        r == hex_val_spec(c),
        r matches Some(d) ==> d < 16,
{
    if c >= '0' && c <= '9' {
        Some(c as u32 - '0' as u32)
    } else if c >= 'a' && c <= 'f' {
        Some(c as u32 - 'a' as u32 + 10)
    } else if c >= 'A' && c <= 'F' {
        Some(c as u32 - 'A' as u32 + 10)
    } else {
        None
    }
}

/// Reads four hexadecimal digits.
fn parse_hex4(s: &Vec<char>, pos: &mut usize) -> (r: Result<u32, Error>)
    requires
        *old(pos) <= s@.len(),
    ensures
        *old(pos) <= *final(pos) <= s@.len(),
        match r {
            Ok(x) => hex4_spec(s@, *old(pos) as int) == Some(x) && *final(pos) == *old(pos) + 4
                && x < 0x10000,
            Err(_) => hex4_spec(s@, *old(pos) as int) is None && *final(pos) == *old(pos),
        },
{
    let n = s.len();
    if n - *pos < 4 {
        return Err(Error::MalformedJson);
    }
    let d0 = match hex_val(s[*pos]) {
        Some(d) => d,
        None => return Err(Error::MalformedJson),
    };
    let d1 = match hex_val(s[*pos + 1]) {
        Some(d) => d,
        None => return Err(Error::MalformedJson),
    };
    let d2 = match hex_val(s[*pos + 2]) {
        Some(d) => d,
        None => return Err(Error::MalformedJson),
    };
    let d3 = match hex_val(s[*pos + 3]) {
        Some(d) => d,
        None => return Err(Error::MalformedJson),
    };
    *pos = *pos + 4;
    Ok(d0 * 4096 + d1 * 256 + d2 * 16 + d3)
}

/// Reads a string literal; `pos` stands on the opening quote.
#[verifier::rlimit(100)]
fn parse_string(s: &Vec<char>, pos: &mut usize) -> (r: Result<String, Error>)
    requires
        *old(pos) <= s@.len(),
    ensures
        *old(pos) <= *final(pos) <= s@.len(),
        match r {
            Ok(st) => *old(pos) < *final(pos) && parse_string_spec(s@, *old(pos) as int) == Some(
                (st@, *final(pos) as int),
            ),
            Err(_) => parse_string_spec(s@, *old(pos) as int) is None,
        },
{
    let n = s.len();
    if *pos >= n || s[*pos] != '"' {
        return Err(Error::MalformedJson);
    }
    *pos = *pos + 1;
    let mut out: Vec<char> = Vec::new();
    while *pos < s.len()
        invariant
            *old(pos) < *pos <= s@.len(),
            *old(pos) < s@.len(),
            s@[*old(pos) as int] == '"',
            string_body_spec(s@, *old(pos) + 1, Seq::empty()) == string_body_spec(
                s@,
                *pos as int,
                out@,
            ),
        decreases s@.len() - *pos,
    {
        let ghost i0 = *pos as int;
        let ghost out0 = out@;
        let c = s[*pos];
        if c == '"' {
            *pos = *pos + 1;
            return Ok(chars_to_string(&out));
        } else if c == '\\' {
            *pos = *pos + 1;
            if *pos >= s.len() {
                return Err(Error::MalformedJson);
            }
            let e = s[*pos];
            if e == '"' || e == '\\' || e == '/' {
                out.push(e);
                *pos = *pos + 1;
            } else if e == 'n' {
                out.push('\n');
                *pos = *pos + 1;
            } else if e == 't' {
                out.push('\t');
                *pos = *pos + 1;
            } else if e == 'r' {
                out.push('\r');
                *pos = *pos + 1;
            } else if e == 'b' {
                match char_from_u32(8) {
                    Some(b) => out.push(b),
                    None => {
                        proof {
                            assert(false);
                        }
                        return Err(Error::MalformedJson);
                    },
                }
                *pos = *pos + 1;
                proof {
                    crate::chars::lemma_char_code(out[out.len() - 1], 8);
                    assert(out@ == out0.push(8 as char));
                }
            } else if e == 'f' {
                match char_from_u32(12) {
                    Some(b) => out.push(b),
                    None => {
                        proof {
                            assert(false);
                        }
                        return Err(Error::MalformedJson);
                    },
                }
                *pos = *pos + 1;
                proof {
                    crate::chars::lemma_char_code(out[out.len() - 1], 12);
                    assert(out@ == out0.push(12 as char));
                }
            } else if e == 'u' {
                *pos = *pos + 1;
                let hi = parse_hex4(s, pos)?;
                let code: u32 = if 0xD800 <= hi && hi < 0xDC00 {
                    // A leading surrogate must be followed by a trailing one.
                    if s.len() - *pos < 2 || s[*pos] != '\\' || s[*pos + 1] != 'u' {
                        return Err(Error::MalformedJson);
                    }
                    *pos = *pos + 2;
                    let lo = parse_hex4(s, pos)?;
                    if !(0xDC00 <= lo && lo < 0xE000) {
                        return Err(Error::MalformedJson);
                    }
                    0x10000 + ((hi - 0xD800) * 0x400) + (lo - 0xDC00)
                } else if 0xDC00 <= hi && hi < 0xE000 {
                    return Err(Error::MalformedJson);
                } else {
                    hi
                };
                match char_from_u32(code) {
                    Some(b) => {
                        out.push(b);
                        proof {
                            crate::chars::lemma_char_code(b, code);
                            assert(out@ == out0.push(code as char));
                        }
                    },
                    None => {
                        proof {
                            assert(code <= 0x10FFFF);
                            assert(false);
                        }
                        return Err(Error::MalformedJson);
                    },
                }
            } else {
                return Err(Error::MalformedJson);
            }
        } else if ' ' > c {
            // Raw control characters may not appear inside a string literal.
            return Err(Error::MalformedJson);
        } else {
            out.push(c);
            *pos = *pos + 1;
        }
        proof {
            assert(string_body_spec(s@, *old(pos) + 1, Seq::empty()) == string_body_spec(
                s@,
                *pos as int,
                out@,
            ));
        }
    }
    Err(Error::MalformedJson)
}

/// Reads an integer; `pos` stands on `-` or the first digit.
#[verifier::rlimit(100)]
fn parse_number(s: &Vec<char>, pos: &mut usize) -> (r: Result<JsonValue, Error>)
    requires
        *old(pos) <= s@.len(),
    ensures
        *old(pos) <= *final(pos) <= s@.len(),
        match r {
            Ok(v) => *old(pos) < *final(pos) && parse_number_spec(s@, *old(pos) as int) == Some(
                (rep(v), *final(pos) as int),
            ),
            Err(_) => parse_number_spec(s@, *old(pos) as int) is None,
        },
{
    let n = s.len();
    if *pos >= n {
        return Err(Error::MalformedJson);
    }
    let mut neg = false;
    if s[*pos] == '-' {
        neg = true;
        *pos = *pos + 1;
    }
    let dstart = *pos;
    while *pos < s.len() && digit_at(s, *pos)
        invariant
            dstart <= *pos <= s@.len(),
            dstart >= *old(pos),
            *old(pos) < s@.len(),
            neg == (s@[*old(pos) as int] == '-'),
            dstart == if neg {
                *old(pos) + 1
            } else {
                *old(pos) as int
            },
            all_digits(s@.subrange(dstart as int, *pos as int)),
            digits_end(s@, dstart as int) == digits_end(s@, *pos as int),
        decreases s@.len() - *pos,
    {
        proof {
            assert(s@.subrange(dstart as int, *pos + 1).drop_last() =~= s@.subrange(
                dstart as int,
                *pos as int,
            ));
        }
        *pos = *pos + 1;
    }
    proof {
        assert(digits_end(s@, dstart as int) == *pos as int);
    }
    if *pos == dstart {
        return Err(Error::MalformedJson);
    }
    if *pos > dstart + 1 && s[dstart] == '0' {
        // JSON forbids leading zeros.
        return Err(Error::MalformedJson);
    }
    if *pos < s.len() {
        let c = s[*pos];
        if c == '.' || c == 'e' || c == 'E' {
            // Fractional numbers are outside the protocol's integer grammar.
            return Err(Error::MalformedJson);
        }
    }
    let m = match parse_u64_digits(s, dstart, *pos) {
        Some(m) => m,
        None => return Err(Error::MalformedJson),
    };
    if neg {
        if m > 9223372036854775808u64 {
            return Err(Error::MalformedJson);
        }
        if m == 9223372036854775808u64 {
            Ok(JsonValue::Int(i64::MIN))
        } else if m == 0 {
            Ok(JsonValue::Uint(0))
        } else {
            Ok(JsonValue::Int(-(m as i64)))
        }
    } else {
        Ok(JsonValue::Uint(m))
    }
}

/// Reads one JSON value; `pos` stands on its first character.
#[verifier::rlimit(100)]
fn parse_value(s: &Vec<char>, pos: &mut usize, depth: u32) -> (r: Result<JsonValue, Error>)
    requires
        *old(pos) <= s@.len(),
    ensures
        *old(pos) <= *final(pos) <= s@.len(),
        match r {
            Ok(v) => *old(pos) < *final(pos) && parse_value_spec(
                s@,
                *old(pos) as int,
                depth as nat,
            ) == Some((rep(v), *final(pos) as int)),
            Err(_) => parse_value_spec(s@, *old(pos) as int, depth as nat) is None,
        },
    decreases s@.len() - *old(pos),
{
    if depth == 0 {
        return Err(Error::MalformedJson);
    }
    if *pos >= s.len() {
        return Err(Error::MalformedJson);
    }
    let c = s[*pos];
    if c == 'n' {
        if s.len() - *pos >= 4 && s[*pos + 1] == 'u' && s[*pos + 2] == 'l' && s[*pos + 3] == 'l' {
            *pos = *pos + 4;
            Ok(JsonValue::Null)
        } else {
            Err(Error::MalformedJson)
        }
    } else if c == 't' {
        if s.len() - *pos >= 4 && s[*pos + 1] == 'r' && s[*pos + 2] == 'u' && s[*pos + 3] == 'e' {
            *pos = *pos + 4;
            Ok(JsonValue::Bool(true))
        } else {
            Err(Error::MalformedJson)
        }
    } else if c == 'f' {
        if s.len() - *pos >= 5 && s[*pos + 1] == 'a' && s[*pos + 2] == 'l' && s[*pos + 3] == 's'
            && s[*pos + 4] == 'e' {
            *pos = *pos + 5;
            Ok(JsonValue::Bool(false))
        } else {
            Err(Error::MalformedJson)
        }
    } else if c == '"' {
        let st = parse_string(s, pos)?;
        Ok(JsonValue::Str(st))
    } else if c == '-' || (c >= '0' && c <= '9') {
        parse_number(s, pos)
    } else if c == '[' {
        let ghost i0 = *pos as int;
        *pos = *pos + 1;
        let mut items: Vec<JsonValue> = Vec::new();
        skip_ws(s, pos);
        if *pos < s.len() && s[*pos] == ']' {
            *pos = *pos + 1;
            proof {
                assert(arr_rep(items, 0) =~= Seq::<JsonRep>::empty());
            }
            return Ok(JsonValue::Array(items));
        }
        proof {
            assert(parse_value_spec(s@, i0, depth as nat) == arr_elems_spec(
                s@,
                *pos as int,
                (depth - 1) as nat,
                Seq::empty(),
            ));
            assert(arr_rep(items, 0) =~= Seq::<JsonRep>::empty());
        }
        loop
            invariant
                *old(pos) < *pos <= s@.len(),
                depth >= 1,
                parse_value_spec(s@, *old(pos) as int, depth as nat) == arr_elems_spec(
                    s@,
                    *pos as int,
                    (depth - 1) as nat,
                    arr_rep(items, 0),
                ),
            decreases s@.len() - *pos,
        {
            let ghost e0 = *pos as int;
            let ghost acc0 = arr_rep(items, 0);
            let v = parse_value(s, pos, depth - 1)?;
            let ghost gold = items;
            items.push(v);
            proof {
                crate::json::lemma_arr_rep_points(gold);
                crate::json::lemma_arr_rep_points(items);
                assert(arr_rep(items, 0) =~= acc0.push(rep(v)));
            }
            skip_ws(s, pos);
            if *pos < s.len() && s[*pos] == ',' {
                *pos = *pos + 1;
                skip_ws(s, pos);
            } else if *pos < s.len() && s[*pos] == ']' {
                *pos = *pos + 1;
                return Ok(JsonValue::Array(items));
            } else {
                return Err(Error::MalformedJson);
            }
        }
    } else if c == '{' {
        let ghost i0 = *pos as int;
        *pos = *pos + 1;
        let mut entries: Vec<(String, JsonValue)> = Vec::new();
        skip_ws(s, pos);
        if *pos < s.len() && s[*pos] == '}' {
            *pos = *pos + 1;
            proof {
                assert(obj_rep(entries, 0) =~= Seq::<(Seq<char>, JsonRep)>::empty());
            }
            return Ok(JsonValue::Object(entries));
        }
        proof {
            assert(parse_value_spec(s@, i0, depth as nat) == obj_members_spec(
                s@,
                *pos as int,
                (depth - 1) as nat,
                Seq::empty(),
            ));
            assert(obj_rep(entries, 0) =~= Seq::<(Seq<char>, JsonRep)>::empty());
        }
        loop
            invariant
                *old(pos) < *pos <= s@.len(),
                depth >= 1,
                parse_value_spec(s@, *old(pos) as int, depth as nat) == obj_members_spec(
                    s@,
                    *pos as int,
                    (depth - 1) as nat,
                    obj_rep(entries, 0),
                ),
            decreases s@.len() - *pos,
        {
            let ghost e0 = *pos as int;
            let ghost acc0 = obj_rep(entries, 0);
            if *pos >= s.len() {
                return Err(Error::MalformedJson);
            }
            let key = parse_string(s, pos)?;
            skip_ws(s, pos);
            if *pos >= s.len() || s[*pos] != ':' {
                return Err(Error::MalformedJson);
            }
            *pos = *pos + 1;
            skip_ws(s, pos);
            let v = parse_value(s, pos, depth - 1)?;
            let ghost gold = entries;
            entries.push((key, v));
            proof {
                crate::json::lemma_obj_rep_points(gold);
                crate::json::lemma_obj_rep_points(entries);
                assert(obj_rep(entries, 0) =~= acc0.push((key@, rep(v))));
            }
            skip_ws(s, pos);
            if *pos < s.len() && s[*pos] == ',' {
                *pos = *pos + 1;
                skip_ws(s, pos);
            } else if *pos < s.len() && s[*pos] == '}' {
                *pos = *pos + 1;
                return Ok(JsonValue::Object(entries));
            } else {
                return Err(Error::MalformedJson);
            }
        }
    } else {
        Err(Error::MalformedJson)
    }
}

/// Parses a complete JSON document; trailing non-whitespace is rejected.
pub fn parse_json_text(s: &str) -> (r: Result<JsonValue, Error>)
    ensures
        match r {
            Ok(v) => json_parse_spec(s@) == Some(rep(v)),
            Err(e) => e == Error::MalformedJson && json_parse_spec(s@) is None,
        },
{
    let chars = str_to_chars(s);
    let mut pos: usize = 0;
    skip_ws(&chars, &mut pos);
    let v = match parse_value(&chars, &mut pos, MAX_DEPTH) {
        Ok(v) => v,
        Err(_) => {
            return Err(Error::MalformedJson);
        },
    };
    skip_ws(&chars, &mut pos);
    if pos != chars.len() {
        return Err(Error::MalformedJson);
    }
    Ok(v)
}

} // verus!
