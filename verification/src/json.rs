//! An in-memory JSON value, its mathematical model, and field lookup helpers.
//!
//! Numbers are restricted to the integers of the protocol's wire shapes:
//! non-negative values up to `u64::MAX` and negative values down to
//! `i64::MIN`. Fractional numbers are not part of any frame the codec
//! handles and are rejected by the text parser.

use vstd::prelude::*;

verus! {

broadcast use vstd::std_specs::vec::axiom_vec_index_decreases;

/// A parsed JSON value. Object entries keep their wire order.
#[derive(Debug, PartialEq, Eq)]
pub enum JsonValue {
    Null,
    Bool(bool),
    /// A negative integer.
    Int(i64),
    /// A non-negative integer.
    Uint(u64),
    Str(String),
    Array(Vec<JsonValue>),
    Object(Vec<(String, JsonValue)>),
}

/// The mathematical value of a [`JsonValue`]: strings become character
/// sequences and both integer variants collapse into `int`.
#[verifier::ext_equal]
pub enum JsonRep {
    Null,
    Bool(bool),
    Int(int),
    Str(Seq<char>),
    Array(Seq<JsonRep>),
    Object(Seq<(Seq<char>, JsonRep)>),
}

pub open spec fn rep(v: JsonValue) -> JsonRep
    decreases v, 0int,
{
    match v {
        JsonValue::Null => JsonRep::Null,
        JsonValue::Bool(b) => JsonRep::Bool(b),
        JsonValue::Int(i) => JsonRep::Int(i as int),
        JsonValue::Uint(u) => JsonRep::Int(u as int),
        JsonValue::Str(s) => JsonRep::Str(s@),
        JsonValue::Array(items) => JsonRep::Array(arr_rep(items, 0)),
        JsonValue::Object(entries) => JsonRep::Object(obj_rep(entries, 0)),
    }
}

pub open spec fn arr_rep(items: Vec<JsonValue>, i: int) -> Seq<JsonRep>
    decreases items, items@.len() - i,
{
    if i < 0 || i >= items@.len() {
        Seq::empty()
    } else {
        seq![rep(items[i])] + arr_rep(items, i + 1)
    }
}

pub open spec fn obj_rep(entries: Vec<(String, JsonValue)>, i: int) -> Seq<(Seq<char>, JsonRep)>
    decreases entries, entries@.len() - i,
{
    if i < 0 || i >= entries@.len() {
        Seq::empty()
    } else {
        seq![(entries[i].0@, rep(entries[i].1))] + obj_rep(entries, i + 1)
    }
}

pub proof fn lemma_arr_rep_len(items: Vec<JsonValue>, i: int)
    requires
        0 <= i <= items@.len(),
    ensures
        arr_rep(items, i).len() == items@.len() - i,
        forall|j: int|
            i <= j < items@.len() ==> arr_rep(items, i)[j - i] == rep(#[trigger] items[j]),
    decreases items@.len() - i,
{
    if i < items@.len() {
        lemma_arr_rep_len(items, i + 1);
    }
}

/// The model of a JSON object: its entries, in wire order.
pub type JObj = Seq<(Seq<char>, JsonRep)>;

/// The value under the first occurrence of key `k`, if any.
pub open spec fn jlookup(o: JObj, k: Seq<char>) -> Option<JsonRep>
    decreases o.len(),
{
    if o.len() == 0 {
        None
    } else if o[0].0 == k {
        Some(o[0].1)
    } else {
        jlookup(o.drop_first(), k)
    }
}

pub open spec fn distinct_keys(o: JObj) -> bool {
    forall|i: int, j: int| 0 <= i < j < o.len() ==> (#[trigger] o[i].0) != (#[trigger] o[j].0)
}

pub open spec fn keys_in(o: JObj, allowed: Seq<Seq<char>>) -> bool {
    forall|i: int| 0 <= i < o.len() ==> allowed.contains(#[trigger] o[i].0)
}

/// A shape accepts an object only if its keys are distinct and all declared.
pub open spec fn keys_ok(o: JObj, allowed: Seq<Seq<char>>) -> bool {
    distinct_keys(o) && keys_in(o, allowed)
}

pub open spec fn str_field(o: JObj, k: Seq<char>) -> Option<Seq<char>> {
    match jlookup(o, k) {
        Some(JsonRep::Str(s)) => Some(s),
        _ => None,
    }
}

pub open spec fn int_field(o: JObj, k: Seq<char>) -> Option<int> {
    match jlookup(o, k) {
        Some(JsonRep::Int(n)) => Some(n),
        _ => None,
    }
}

pub open spec fn bool_field(o: JObj, k: Seq<char>) -> Option<bool> {
    match jlookup(o, k) {
        Some(JsonRep::Bool(b)) => Some(b),
        _ => None,
    }
}

pub open spec fn obj_field(o: JObj, k: Seq<char>) -> Option<JObj> {
    match jlookup(o, k) {
        Some(JsonRep::Object(e)) => Some(e),
        _ => None,
    }
}

pub open spec fn arr_field(o: JObj, k: Seq<char>) -> Option<Seq<JsonRep>> {
    match jlookup(o, k) {
        Some(JsonRep::Array(items)) => Some(items),
        _ => None,
    }
}

/// An optional field counts as absent when the key is missing or bound to
/// `null`.
pub open spec fn absent(o: JObj, k: Seq<char>) -> bool {
    jlookup(o, k) is None || jlookup(o, k) == Some(JsonRep::Null)
}

/// The views of a list of field names.
pub open spec fn strs_view(allowed: Seq<&str>) -> Seq<Seq<char>> {
    Seq::new(allowed.len(), |i: int| allowed[i]@)
}

pub proof fn lemma_obj_rep_len(entries: Vec<(String, JsonValue)>, i: int)
    requires
        0 <= i <= entries@.len(),
    ensures
        obj_rep(entries, i).len() == entries@.len() - i,
        forall|j: int|
            i <= j < entries@.len() ==> obj_rep(entries, i)[j - i] == (
            #[trigger] entries[j].0@,
            rep(entries[j].1),
            ),
    decreases entries@.len() - i,
{
    if i < entries@.len() {
        lemma_obj_rep_len(entries, i + 1);
    }
}

pub proof fn lemma_obj_rep_points(entries: Vec<(String, JsonValue)>)
    ensures
        obj_rep(entries, 0).len() == entries@.len(),
        forall|j: int|
            0 <= j < entries@.len() ==> #[trigger] obj_rep(entries, 0)[j] == (
            entries[j].0@,
            rep(entries[j].1),
            ),
{
    lemma_obj_rep_len(entries, 0);
    assert forall|j: int| 0 <= j < entries@.len() implies #[trigger] obj_rep(entries, 0)[j] == (
        entries[j].0@,
        rep(entries[j].1),
    ) by {
        let ghost x = entries[j].0@;
    }
}

pub proof fn lemma_arr_rep_points(items: Vec<JsonValue>)
    ensures
        arr_rep(items, 0).len() == items@.len(),
        forall|j: int|
            0 <= j < items@.len() ==> #[trigger] arr_rep(items, 0)[j] == rep(items[j]),
{
    lemma_arr_rep_len(items, 0);
    assert forall|j: int| 0 <= j < items@.len() implies #[trigger] arr_rep(items, 0)[j] == rep(
        items[j],
    ) by {
        let ghost x = rep(items[j]);
    }
}

/// The value under the first occurrence of `k`, by reference.
pub fn obj_get<'a>(entries: &'a Vec<(String, JsonValue)>, k: &str) -> (r: Option<&'a JsonValue>)
    ensures
        match r {
            Some(v) => jlookup(obj_rep(*entries, 0), k@) == Some(rep(*v)),
            None => jlookup(obj_rep(*entries, 0), k@) is None,
        },
{
    let mut i: usize = 0;
    while i < entries.len()
        invariant
            i <= entries@.len(),
            jlookup(obj_rep(*entries, 0), k@) == jlookup(obj_rep(*entries, i as int), k@),
        decreases entries@.len() - i,
    {
        let e = &entries[i];
        if crate::chars::str_eq_str(e.0.as_str(), k) {
            return Some(&e.1);
        }
        proof {
            assert(obj_rep(*entries, i as int).drop_first() =~= obj_rep(*entries, i + 1));
        }
        i += 1;
    }
    None
}

/// A required string field.
pub fn get_str<'a>(entries: &'a Vec<(String, JsonValue)>, k: &str) -> (r: Option<&'a String>)
    ensures
        match r {
            Some(s) => str_field(obj_rep(*entries, 0), k@) == Some(s@),
            None => str_field(obj_rep(*entries, 0), k@) is None,
        },
{
    match obj_get(entries, k) {
        Some(JsonValue::Str(s)) => Some(s),
        _ => None,
    }
}

/// A required boolean field.
pub fn get_bool(entries: &Vec<(String, JsonValue)>, k: &str) -> (r: Option<bool>)
    ensures
        match r {
            Some(b) => bool_field(obj_rep(*entries, 0), k@) == Some(b),
            None => bool_field(obj_rep(*entries, 0), k@) is None,
        },
{
    match obj_get(entries, k) {
        Some(JsonValue::Bool(b)) => Some(*b),
        _ => None,
    }
}

/// A required object field.
pub fn get_obj<'a>(entries: &'a Vec<(String, JsonValue)>, k: &str) -> (r: Option<
    &'a Vec<(String, JsonValue)>,
>)
    ensures
        match r {
            Some(e) => obj_field(obj_rep(*entries, 0), k@) == Some(obj_rep(*e, 0)),
            None => obj_field(obj_rep(*entries, 0), k@) is None,
        },
{
    match obj_get(entries, k) {
        Some(JsonValue::Object(e)) => Some(e),
        _ => None,
    }
}

/// A required array field.
pub fn get_arr<'a>(entries: &'a Vec<(String, JsonValue)>, k: &str) -> (r: Option<&'a Vec<
    JsonValue,
>>)
    ensures
        match r {
            Some(items) => arr_field(obj_rep(*entries, 0), k@) == Some(arr_rep(*items, 0)),
            None => arr_field(obj_rep(*entries, 0), k@) is None,
        },
{
    match obj_get(entries, k) {
        Some(JsonValue::Array(items)) => Some(items),
        _ => None,
    }
}

/// A required integer field that must fit in `u32`.
pub fn get_u32(entries: &Vec<(String, JsonValue)>, k: &str) -> (r: Option<u32>)
    ensures
        match r {
            Some(v) => int_field(obj_rep(*entries, 0), k@) == Some(v as int),
            None => match int_field(obj_rep(*entries, 0), k@) {
                Some(n) => !(0 <= n <= u32::MAX),
                None => true,
            },
        },
{
    match obj_get(entries, k) {
        Some(JsonValue::Uint(u)) => if *u <= u32::MAX as u64 {
            Some(*u as u32)
        } else {
            None
        },
        Some(JsonValue::Int(i)) => if 0 <= *i && *i <= u32::MAX as i64 {
            Some(*i as u32)
        } else {
            None
        },
        _ => None,
    }
}

/// A required integer field that must fit in `i32`.
pub fn get_i32(entries: &Vec<(String, JsonValue)>, k: &str) -> (r: Option<i32>)
    ensures
        match r {
            Some(v) => int_field(obj_rep(*entries, 0), k@) == Some(v as int),
            None => match int_field(obj_rep(*entries, 0), k@) {
                Some(n) => !(i32::MIN <= n <= i32::MAX),
                None => true,
            },
        },
{
    match obj_get(entries, k) {
        Some(JsonValue::Uint(u)) => if *u <= i32::MAX as u64 {
            Some(*u as i32)
        } else {
            None
        },
        Some(JsonValue::Int(i)) => if i32::MIN as i64 <= *i && *i <= i32::MAX as i64 {
            Some(*i as i32)
        } else {
            None
        },
        _ => None,
    }
}

/// A required integer field that must fit in `u64`.
pub fn get_u64(entries: &Vec<(String, JsonValue)>, k: &str) -> (r: Option<u64>)
    ensures
        match r {
            Some(v) => int_field(obj_rep(*entries, 0), k@) == Some(v as int),
            None => match int_field(obj_rep(*entries, 0), k@) {
                Some(n) => !(0 <= n <= u64::MAX),
                None => true,
            },
        },
{
    match obj_get(entries, k) {
        Some(JsonValue::Uint(u)) => Some(*u),
        Some(JsonValue::Int(i)) => if 0 <= *i {
            Some(*i as u64)
        } else {
            None
        },
        _ => None,
    }
}

/// A successful lookup means some entry carries the key.
pub proof fn lemma_jlookup_some_key(o: JObj, k: Seq<char>)
    requires
        jlookup(o, k) is Some,
    ensures
        exists|i: int| 0 <= i < o.len() && (#[trigger] o[i].0) == k,
    decreases o.len(),
{
    if o.len() > 0 && o[0].0 != k {
        lemma_jlookup_some_key(o.drop_first(), k);
        let i = choose|i: int|
            0 <= i < o.drop_first().len() && (#[trigger] o.drop_first()[i].0) == k;
        assert(o[i + 1].0 == k);
    }
}

/// A signed integer as a JSON value.
pub fn int_json(x: i64) -> (r: JsonValue)
    ensures
        rep(r) == JsonRep::Int(x as int),
{
    if x < 0 {
        JsonValue::Int(x)
    } else {
        JsonValue::Uint(x as u64)
    }
}

/// An unsigned integer as a JSON value.
pub fn uint_json(x: u64) -> (r: JsonValue)
    ensures
        rep(r) == JsonRep::Int(x as int),
{
    JsonValue::Uint(x)
}

/// Every element is a string.
pub open spec fn str_list_ok(items: Seq<JsonRep>) -> bool {
    forall|i: int| 0 <= i < items.len() ==> (#[trigger] items[i]) is Str
}

/// The decoded strings are exactly the elements.
pub open spec fn str_list_models(v: Seq<String>, items: Seq<JsonRep>) -> bool {
    &&& v.len() == items.len()
    &&& forall|i: int| 0 <= i < items.len() ==> (#[trigger] items[i]) == JsonRep::Str(v[i]@)
}

/// The array a list of strings encodes to.
pub open spec fn str_list_rep(v: Seq<String>) -> Seq<JsonRep> {
    Seq::new(v.len(), |i: int| JsonRep::Str(v[i]@))
}

/// Decodes an array of strings.
pub fn decode_str_list(items: &Vec<JsonValue>) -> (r: Option<Vec<String>>)
    ensures
        match r {
            Some(v) => str_list_models(v@, arr_rep(*items, 0)),
            None => !str_list_ok(arr_rep(*items, 0)),
        },
{
    proof {
        lemma_arr_rep_points(*items);
    }
    let ghost l = arr_rep(*items, 0);
    let mut out: Vec<String> = Vec::new();
    let mut i: usize = 0;
    while i < items.len()
        invariant
            i <= items@.len(),
            l == arr_rep(*items, 0),
            l.len() == items@.len(),
            forall|j: int| 0 <= j < items@.len() ==> #[trigger] l[j] == rep(items@[j]),
            out@.len() == i,
            forall|j: int| 0 <= j < i ==> (#[trigger] l[j]) == JsonRep::Str(out@[j]@),
        decreases items@.len() - i,
    {
        match &items[i] {
            JsonValue::Str(s) => out.push(s.clone()),
            _ => {
                proof {
                    assert(l[i as int] == rep(items@[i as int]));
                    assert(!str_list_ok(l)) by {
                        if str_list_ok(l) {
                            assert((l[i as int]) is Str);
                        }
                    }
                }
                return None;
            },
        }
        i += 1;
    }
    Some(out)
}

/// Encodes a list of strings as an array.
pub fn encode_str_list(v: &Vec<String>) -> (r: Vec<JsonValue>)
    ensures
        arr_rep(r, 0) == str_list_rep(v@),
{
    let mut out: Vec<JsonValue> = Vec::new();
    let mut i: usize = 0;
    while i < v.len()
        invariant
            i <= v@.len(),
            out@.len() == i,
            forall|j: int| 0 <= j < i ==> #[trigger] rep(out@[j]) == JsonRep::Str(v@[j]@),
        decreases v@.len() - i,
    {
        out.push(JsonValue::Str(v[i].clone()));
        i += 1;
    }
    proof {
        lemma_arr_rep_points(out);
        assert(arr_rep(out, 0) =~~= str_list_rep(v@));
    }
    out
}

/// Every entry's value is a string.
pub open spec fn str_map_ok(o: JObj) -> bool {
    forall|i: int| 0 <= i < o.len() ==> (#[trigger] o[i].1) is Str
}

/// The decoded pairs are exactly the entries, in wire order.
pub open spec fn str_map_models(m: Seq<(String, String)>, o: JObj) -> bool {
    &&& m.len() == o.len()
    &&& forall|i: int|
        0 <= i < o.len() ==> (#[trigger] o[i]) == (m[i].0@, JsonRep::Str(m[i].1@))
}

/// The object a list of string pairs encodes to.
pub open spec fn str_map_rep(m: Seq<(String, String)>) -> JObj {
    Seq::new(m.len(), |i: int| (m[i].0@, JsonRep::Str(m[i].1@)))
}

/// Decodes an object whose values are all strings. Unlike a sorted-unique
/// map, the pairs keep their wire order and duplicate keys are kept as they
/// came; encoding writes them back the same way.
pub fn decode_str_map(entries: &Vec<(String, JsonValue)>) -> (r: Option<Vec<(String, String)>>)
    ensures
        match r {
            Some(m) => str_map_models(m@, obj_rep(*entries, 0)),
            None => !str_map_ok(obj_rep(*entries, 0)),
        },
{
    proof {
        lemma_obj_rep_points(*entries);
    }
    let ghost o = obj_rep(*entries, 0);
    let mut out: Vec<(String, String)> = Vec::new();
    let mut i: usize = 0;
    while i < entries.len()
        invariant
            i <= entries@.len(),
            o == obj_rep(*entries, 0),
            o.len() == entries@.len(),
            forall|j: int|
                0 <= j < entries@.len() ==> #[trigger] o[j] == (
                entries@[j].0@,
                rep(entries@[j].1),
                ),
            out@.len() == i,
            forall|j: int|
                0 <= j < i ==> (#[trigger] o[j]) == (out@[j].0@, JsonRep::Str(out@[j].1@)),
        decreases entries@.len() - i,
    {
        match &entries[i].1 {
            JsonValue::Str(s) => out.push((entries[i].0.clone(), s.clone())),
            _ => {
                proof {
                    assert(o[i as int] == (entries@[i as int].0@, rep(entries@[i as int].1)));
                    assert(!str_map_ok(o)) by {
                        if str_map_ok(o) {
                            assert((o[i as int].1) is Str);
                        }
                    }
                }
                return None;
            },
        }
        i += 1;
    }
    Some(out)
}

/// Encodes a list of string pairs as an object, in stored order (not
/// sorted, and without collapsing duplicate keys).
pub fn encode_str_map(m: &Vec<(String, String)>) -> (r: Vec<(String, JsonValue)>)
    ensures
        obj_rep(r, 0) == str_map_rep(m@),
{
    let mut out: Vec<(String, JsonValue)> = Vec::new();
    let mut i: usize = 0;
    while i < m.len()
        invariant
            i <= m@.len(),
            out@.len() == i,
            forall|j: int|
                0 <= j < i ==> (#[trigger] out@[j].0@) == m@[j].0@ && rep(out@[j].1)
                    == JsonRep::Str(m@[j].1@),
        decreases m@.len() - i,
    {
        out.push((m[i].0.clone(), JsonValue::Str(m[i].1.clone())));
        i += 1;
    }
    proof {
        lemma_obj_rep_points(out);
        assert(obj_rep(out, 0) =~~= str_map_rep(m@));
    }
    out
}

/// Whether the field is missing or bound to `null`.
pub fn field_absent(entries: &Vec<(String, JsonValue)>, k: &str) -> (r: bool)
    ensures
        r == absent(obj_rep(*entries, 0), k@),
{
    match obj_get(entries, k) {
        None => true,
        Some(JsonValue::Null) => true,
        Some(_) => false,
    }
}

/// The entry a present optional field contributes, or nothing.
pub open spec fn opt_entry(k: Seq<char>, v: Option<JsonRep>) -> JObj {
    match v {
        Some(j) => seq![(k, j)],
        None => Seq::empty(),
    }
}

/// A lenient shape ignores keys it does not declare, but no declared key may
/// appear twice.
pub open spec fn no_dup_known(o: JObj, known: Seq<Seq<char>>) -> bool {
    forall|i: int, j: int|
        0 <= i < j < o.len() && (#[trigger] o[i].0) == (#[trigger] o[j].0) ==> !known.contains(
            o[i].0,
        )
}

/// Checks the lenient-shape rule: no declared key appears twice.
pub fn check_no_dup_known(entries: &Vec<(String, JsonValue)>, known: &Vec<&str>) -> (r: bool)
    ensures
        r == no_dup_known(obj_rep(*entries, 0), strs_view(known@)),
{
    proof {
        lemma_obj_rep_len(*entries, 0);
    }
    let ghost o = obj_rep(*entries, 0);
    let ghost kv = strs_view(known@);
    let mut i: usize = 0;
    while i < entries.len()
        invariant
            i <= entries@.len(),
            o == obj_rep(*entries, 0),
            kv == strs_view(known@),
            o.len() == entries@.len(),
            forall|j: int| 0 <= j < entries@.len() ==> (#[trigger] o[j]).0 == entries@[j].0@,
            forall|j1: int, j2: int|
                0 <= j1 < j2 < entries@.len() && j1 < i && (#[trigger] o[j1].0) == (
                #[trigger] o[j2].0) ==> !kv.contains(o[j1].0),
        decreases entries@.len() - i,
    {
        let mut j: usize = i + 1;
        while j < entries.len()
            invariant
                i < j <= entries@.len(),
                o == obj_rep(*entries, 0),
                kv == strs_view(known@),
                o.len() == entries@.len(),
                forall|p: int| 0 <= p < entries@.len() ==> (#[trigger] o[p]).0 == entries@[p].0@,
                forall|j2: int|
                    i < j2 < j && o[i as int].0 == (#[trigger] o[j2].0) ==> !kv.contains(
                        o[i as int].0,
                    ),
            decreases entries@.len() - j,
        {
            if crate::chars::str_eq_str(entries[i].0.as_str(), entries[j].0.as_str()) {
                let mut a: usize = 0;
                while a < known.len()
                    invariant
                        a <= known@.len(),
                        o == obj_rep(*entries, 0),
                        kv == strs_view(known@),
                        o.len() == entries@.len(),
                        i < j < entries@.len(),
                        o[i as int].0 == o[j as int].0,
                        forall|p: int|
                            0 <= p < entries@.len() ==> (#[trigger] o[p]).0 == entries@[p].0@,
                        forall|b: int|
                            0 <= b < a ==> entries@[i as int].0@ != (#[trigger] known@[b])@,
                    decreases known@.len() - a,
                {
                    if crate::chars::str_eq_str(entries[i].0.as_str(), known[a]) {
                        proof {
                            assert(kv[a as int] == entries@[i as int].0@);
                            assert(kv.contains(o[i as int].0));
                            assert(!no_dup_known(o, kv)) by {
                                if no_dup_known(o, kv) {
                                    assert(!kv.contains(o[i as int].0));
                                }
                            }
                        }
                        return false;
                    }
                    a += 1;
                }
                proof {
                    assert forall|b: int| 0 <= b < kv.len() implies kv[b] != o[i as int].0 by {
                        assert(entries@[i as int].0@ != known@[b]@);
                    }
                    assert(!kv.contains(o[i as int].0));
                }
            }
            j += 1;
        }
        i += 1;
    }
    true
}

/// Checks the strictness rule of a shape: every key must be declared in
/// `allowed` and no key may repeat. Returns an offending key if one exists.
pub fn check_keys<'a>(entries: &'a Vec<(String, JsonValue)>, allowed: &Vec<&str>) -> (r: Option<
    &'a String,
>)
    ensures
        r is None <==> keys_ok(obj_rep(*entries, 0), strs_view(allowed@)),
{
    proof {
        lemma_obj_rep_len(*entries, 0);
    }
    let ghost o = obj_rep(*entries, 0);
    let mut i: usize = 0;
    while i < entries.len()
        invariant
            i <= entries@.len(),
            o == obj_rep(*entries, 0),
            o.len() == entries@.len(),
            forall|j: int| 0 <= j < entries@.len() ==> (#[trigger] o[j]).0 == entries@[j].0@,
            forall|j: int| 0 <= j < i ==> strs_view(allowed@).contains(#[trigger] o[j].0),
            forall|j1: int, j2: int| 0 <= j1 < j2 < i ==> (#[trigger] o[j1].0) != (#[trigger] o[j2].0),
        decreases entries@.len() - i,
    {
        let key = &entries[i].0;
        let mut found = false;
        let mut a: usize = 0;
        while a < allowed.len()
            invariant
                a <= allowed@.len(),
                i < entries@.len(),
                o == obj_rep(*entries, 0),
                o.len() == entries@.len(),
                forall|j: int| 0 <= j < entries@.len() ==> (#[trigger] o[j]).0 == entries@[j].0@,
                key == &entries@[i as int].0,
                found <==> exists|j: int| 0 <= j < a && key@ == (#[trigger] allowed@[j])@,
            decreases allowed@.len() - a,
        {
            if !found && crate::chars::str_eq_str(key.as_str(), allowed[a]) {
                found = true;
            }
            a += 1;
        }
        if !found {
            proof {
                assert(!strs_view(allowed@).contains(o[i as int].0));
            }
            return Some(key);
        }
        let mut p: usize = 0;
        while p < i
            invariant
                p <= i,
                i < entries@.len(),
                o == obj_rep(*entries, 0),
                o.len() == entries@.len(),
                forall|j: int| 0 <= j < entries@.len() ==> (#[trigger] o[j]).0 == entries@[j].0@,
                key == &entries@[i as int].0,
                forall|j: int| 0 <= j < p ==> (#[trigger] o[j].0) != o[i as int].0,
            decreases i - p,
        {
            if crate::chars::str_eq_str(entries[p].0.as_str(), key.as_str()) {
                proof {
                    assert(o[p as int].0 == o[i as int].0);
                    assert(!distinct_keys(o));
                }
                return Some(key);
            }
            p += 1;
        }
        proof {
            let ghost sv = strs_view(allowed@);
            let j = choose|j: int| 0 <= j < allowed@.len() && key@ == (#[trigger] allowed@[j])@;
            assert(sv[j] == key@);
            assert(sv.contains(o[i as int].0));
        }
        i += 1;
    }
    None
}

} // verus!
