//! Shared data types carried inside payloads, and the timestamp codec.

use vstd::prelude::*;

use crate::chars::{char_digit, digit_char, is_digit_char, str_to_chars};
use crate::json::{
    absent, arr_field, arr_rep, bool_field, check_no_dup_known, field_absent, get_bool, get_str,
    no_dup_known, obj_rep, opt_entry, rep, str_field, strs_view, JObj, JsonRep, JsonValue,
};
use crate::v16::enums::{
    HashAlgorithm, Location, Measurand, ParsedGenericStatus, Phase, ReadingContext, UnitOfMeasure,
    ValueFormat,
};

verus! {

use vstd::string::StringExecFns;

/// A timestamp held as plain calendar and clock fields, to millisecond
/// precision, always in UTC. On the wire it is the text
/// `YYYY-MM-DDTHH:MM:SS[.mmm]Z`; the fraction is written only when the
/// millisecond field is not zero.
#[derive(Debug, PartialEq, Eq, Clone, Copy, Default)]
pub struct DateTimeWrapper {
    pub year: u16,
    pub month: u8,
    pub day: u8,
    pub hour: u8,
    pub minute: u8,
    pub second: u8,
    pub millisecond: u16,
}

pub open spec fn leap_year(y: int) -> bool {
    y % 4 == 0 && (y % 100 != 0 || y % 400 == 0)
}

pub open spec fn days_in_month(y: int, m: int) -> int {
    if m == 2 {
        if leap_year(y) {
            29
        } else {
            28
        }
    } else if m == 4 || m == 6 || m == 9 || m == 11 {
        30
    } else {
        31
    }
}

impl DateTimeWrapper {
    pub open spec fn valid(&self) -> bool {
        &&& self.year <= 9999
        &&& 1 <= self.month <= 12
        &&& 1 <= self.day <= days_in_month(self.year as int, self.month as int)
        &&& self.hour < 24
        &&& self.minute < 60
        &&& self.second < 60
        &&& self.millisecond < 1000
    }

    pub fn new(
        year: u16,
        month: u8,
        day: u8,
        hour: u8,
        minute: u8,
        second: u8,
        millisecond: u16,
    ) -> (r: DateTimeWrapper)
        ensures
            r == (DateTimeWrapper { year, month, day, hour, minute, second, millisecond }),
    {
        DateTimeWrapper { year, month, day, hour, minute, second, millisecond }
    }

    /// The date-and-time part of the wire text, without fraction or zone.
    pub open spec fn base_text(&self) -> Seq<char> {
        let y = self.year as int;
        let mo = self.month as int;
        let d = self.day as int;
        let h = self.hour as int;
        let mi = self.minute as int;
        let se = self.second as int;
        seq![
            digit_char(y / 1000 % 10),
            digit_char(y / 100 % 10),
            digit_char(y / 10 % 10),
            digit_char(y % 10),
            '-',
            digit_char(mo / 10 % 10),
            digit_char(mo % 10),
            '-',
            digit_char(d / 10 % 10),
            digit_char(d % 10),
            'T',
            digit_char(h / 10 % 10),
            digit_char(h % 10),
            ':',
            digit_char(mi / 10 % 10),
            digit_char(mi % 10),
            ':',
            digit_char(se / 10 % 10),
            digit_char(se % 10),
        ]
    }

    /// The wire text of this timestamp.
    pub open spec fn text(&self) -> Seq<char> {
        let ms = self.millisecond as int;
        if ms == 0 {
            self.base_text() + seq!['Z']
        } else {
            self.base_text() + seq!['.', digit_char(ms / 100 % 10), digit_char(ms / 10 % 10), digit_char(ms % 10), 'Z']
        }
    }

    /// The timestamp a wire text stands for: the fixed-position grammar
    /// `YYYY-MM-DDTHH:MM:SS[.mmm]Z`, with every field in calendar range.
    pub open spec fn parse_spec(s: Seq<char>) -> Option<DateTimeWrapper> {
        if s.len() != 20 && s.len() != 24 {
            None
        } else if !(is_digit_char(s[0]) && is_digit_char(s[1]) && is_digit_char(s[2])
            && is_digit_char(s[3]) && s[4] == '-' && is_digit_char(s[5]) && is_digit_char(s[6])
            && s[7] == '-' && is_digit_char(s[8]) && is_digit_char(s[9]) && s[10] == 'T'
            && is_digit_char(s[11]) && is_digit_char(s[12]) && s[13] == ':' && is_digit_char(s[14])
            && is_digit_char(s[15]) && s[16] == ':' && is_digit_char(s[17]) && is_digit_char(
            s[18],
        )) {
            None
        } else if s.len() == 20 && s[19] != 'Z' {
            None
        } else if s.len() == 24 && !(s[19] == '.' && is_digit_char(s[20]) && is_digit_char(s[21])
            && is_digit_char(s[22]) && s[23] == 'Z') {
            None
        } else {
            let dt = DateTimeWrapper {
                year: (char_digit(s[0]) * 1000 + char_digit(s[1]) * 100 + char_digit(s[2]) * 10
                    + char_digit(s[3])) as u16,
                month: (char_digit(s[5]) * 10 + char_digit(s[6])) as u8,
                day: (char_digit(s[8]) * 10 + char_digit(s[9])) as u8,
                hour: (char_digit(s[11]) * 10 + char_digit(s[12])) as u8,
                minute: (char_digit(s[14]) * 10 + char_digit(s[15])) as u8,
                second: (char_digit(s[17]) * 10 + char_digit(s[18])) as u8,
                millisecond: if s.len() == 24 {
                    (char_digit(s[20]) * 100 + char_digit(s[21]) * 10 + char_digit(s[22])) as u16
                } else {
                    0
                },
            };
            if dt.valid() {
                Some(dt)
            } else {
                None
            }
        }
    }

    /// Formats this timestamp for the wire.
    #[verifier::rlimit(100)]
    pub fn to_iso8601(&self) -> (r: String)
        ensures
            r@ == self.text(),
    {
        let mut out: Vec<char> = Vec::new();
        push_dig(self.year / 1000 % 10, &mut out);
        push_dig(self.year / 100 % 10, &mut out);
        push_dig(self.year / 10 % 10, &mut out);
        push_dig(self.year % 10, &mut out);
        out.push('-');
        push_dig(self.month as u16 / 10 % 10, &mut out);
        push_dig(self.month as u16 % 10, &mut out);
        out.push('-');
        push_dig(self.day as u16 / 10 % 10, &mut out);
        push_dig(self.day as u16 % 10, &mut out);
        out.push('T');
        push_dig(self.hour as u16 / 10 % 10, &mut out);
        push_dig(self.hour as u16 % 10, &mut out);
        out.push(':');
        push_dig(self.minute as u16 / 10 % 10, &mut out);
        push_dig(self.minute as u16 % 10, &mut out);
        out.push(':');
        push_dig(self.second as u16 / 10 % 10, &mut out);
        push_dig(self.second as u16 % 10, &mut out);
        proof {
            assert(out@ =~= self.base_text());
        }
        if self.millisecond != 0 {
            out.push('.');
            push_dig(self.millisecond / 100 % 10, &mut out);
            push_dig(self.millisecond / 10 % 10, &mut out);
            push_dig(self.millisecond % 10, &mut out);
        }
        out.push('Z');
        proof {
            assert(out@ =~= self.text());
        }
        crate::chars::chars_to_string(&out)
    }

    /// Reads a wire timestamp.
    pub fn parse_iso8601(s: &str) -> (r: Option<DateTimeWrapper>)
        ensures
            r == Self::parse_spec(s@),
    {
        let cs = str_to_chars(s);
        let n = cs.len();
        if n != 20 && n != 24 {
            return None;
        }
        if !(dig(&cs, 0) && dig(&cs, 1) && dig(&cs, 2) && dig(&cs, 3) && cs[4] == '-'
            && dig(&cs, 5) && dig(&cs, 6) && cs[7] == '-' && dig(&cs, 8) && dig(&cs, 9)
            && cs[10] == 'T' && dig(&cs, 11) && dig(&cs, 12) && cs[13] == ':' && dig(&cs, 14)
            && dig(&cs, 15) && cs[16] == ':' && dig(&cs, 17) && dig(&cs, 18)) {
            return None;
        }
        if n == 20 && cs[19] != 'Z' {
            return None;
        }
        if n == 24 && !(cs[19] == '.' && dig(&cs, 20) && dig(&cs, 21) && dig(&cs, 22) && cs[23]
            == 'Z') {
            return None;
        }
        let dt = DateTimeWrapper {
            year: dval(&cs, 0) * 1000 + dval(&cs, 1) * 100 + dval(&cs, 2) * 10 + dval(&cs, 3),
            month: (dval(&cs, 5) * 10 + dval(&cs, 6)) as u8,
            day: (dval(&cs, 8) * 10 + dval(&cs, 9)) as u8,
            hour: (dval(&cs, 11) * 10 + dval(&cs, 12)) as u8,
            minute: (dval(&cs, 14) * 10 + dval(&cs, 15)) as u8,
            second: (dval(&cs, 17) * 10 + dval(&cs, 18)) as u8,
            millisecond: if n == 24 {
                dval(&cs, 20) * 100 + dval(&cs, 21) * 10 + dval(&cs, 22)
            } else {
                0
            },
        };
        if dt.is_valid() {
            Some(dt)
        } else {
            None
        }
    }

    /// Runtime check of [`DateTimeWrapper::valid`].
    pub fn is_valid(&self) -> (r: bool)
        ensures
            r == self.valid(),
    {
        let dim: u8 = if self.month == 2 {
            let y = self.year;
            if y % 4 == 0 && (y % 100 != 0 || y % 400 == 0) {
                29
            } else {
                28
            }
        } else if self.month == 4 || self.month == 6 || self.month == 9 || self.month == 11 {
            30
        } else {
            31
        };
        self.year <= 9999 && 1 <= self.month && self.month <= 12 && 1 <= self.day && self.day
            <= dim && self.hour < 24 && self.minute < 60 && self.second < 60 && self.millisecond
            < 1000
    }
}

fn push_dig(d: u16, out: &mut Vec<char>)
    requires
        d < 10,
    ensures
        final(out)@ == old(out)@.push(digit_char(d as int)),
{
    out.push((48u8 + (d as u8)) as char);
}

fn dig(cs: &Vec<char>, i: usize) -> (r: bool)
    requires
        i < cs@.len(),
    ensures
        r == is_digit_char(cs@[i as int]),
{
    let c = cs[i];
    c >= '0' && c <= '9'
}

fn dval(cs: &Vec<char>, i: usize) -> (r: u16)
    requires
        i < cs@.len(),
        is_digit_char(cs@[i as int]),
    ensures
        r as int == char_digit(cs@[i as int]),
        r < 10,
{
    let c = cs[i];
    (c as u32 - '0' as u32) as u16
}

/// Formatting a valid timestamp and reading it back yields the same value.
#[verifier::rlimit(100)]
pub proof fn lemma_datetime_round_trip(dt: DateTimeWrapper)
    requires
        dt.valid(),
    ensures
        DateTimeWrapper::parse_spec(dt.text()) == Some(dt),
{
    let s = dt.text();
    lemma_digit_char_val(dt.year as int / 1000 % 10);
    lemma_digit_char_val(dt.year as int / 100 % 10);
    lemma_digit_char_val(dt.year as int / 10 % 10);
    lemma_digit_char_val(dt.year as int % 10);
    lemma_digit_char_val(dt.month as int / 10 % 10);
    lemma_digit_char_val(dt.month as int % 10);
    lemma_digit_char_val(dt.day as int / 10 % 10);
    lemma_digit_char_val(dt.day as int % 10);
    lemma_digit_char_val(dt.hour as int / 10 % 10);
    lemma_digit_char_val(dt.hour as int % 10);
    lemma_digit_char_val(dt.minute as int / 10 % 10);
    lemma_digit_char_val(dt.minute as int % 10);
    lemma_digit_char_val(dt.second as int / 10 % 10);
    lemma_digit_char_val(dt.second as int % 10);
    lemma_digit_char_val(dt.millisecond as int / 100 % 10);
    lemma_digit_char_val(dt.millisecond as int / 10 % 10);
    lemma_digit_char_val(dt.millisecond as int % 10);
    lemma_recompose4(dt.year as int);
    lemma_recompose2(dt.month as int);
    lemma_recompose2(dt.day as int);
    lemma_recompose2(dt.hour as int);
    lemma_recompose2(dt.minute as int);
    lemma_recompose2(dt.second as int);
    lemma_recompose3(dt.millisecond as int);
}

/// A digit character reads back as its value.
proof fn lemma_digit_char_val(d: int)
    requires
        0 <= d <= 9,
    ensures
        is_digit_char(digit_char(d)),
        char_digit(digit_char(d)) == d,
{
}

proof fn lemma_recompose2(n: int)
    requires
        0 <= n <= 99,
    ensures
        (n / 10 % 10) * 10 + n % 10 == n,
{
    assert((n / 10 % 10) * 10 + n % 10 == n) by (nonlinear_arith)
        requires
            0 <= n <= 99,
    ;
}

proof fn lemma_recompose3(n: int)
    requires
        0 <= n <= 999,
    ensures
        (n / 100 % 10) * 100 + (n / 10 % 10) * 10 + n % 10 == n,
{
    assert((n / 100 % 10) * 100 + (n / 10 % 10) * 10 + n % 10 == n) by (nonlinear_arith)
        requires
            0 <= n <= 999,
    ;
}

proof fn lemma_recompose4(n: int)
    requires
        0 <= n <= 9999,
    ensures
        (n / 1000 % 10) * 1000 + (n / 100 % 10) * 100 + (n / 10 % 10) * 10 + n % 10 == n,
{
    assert((n / 1000 % 10) * 1000 + (n / 100 % 10) * 100 + (n / 10 % 10) * 10 + n % 10 == n)
        by (nonlinear_arith)
        requires
            0 <= n <= 9999,
    ;
}

/// Authorization outcome for an identification tag.
#[derive(Debug, PartialEq, Eq, Clone, Default)]
pub struct IdTagInfo {
    pub expiry_date: Option<DateTimeWrapper>,
    pub parent_id_tag: Option<String>,
    pub status: ParsedGenericStatus,
}

impl IdTagInfo {
    /// The keys this shape declares, in the order they are written.
    pub open spec fn known_keys() -> Seq<Seq<char>> {
        seq!["expiryDate"@, "parentIdTag"@, "status"@]
    }

    /// Structural match: which objects decode into this shape. The shape is
    /// lenient: undeclared keys are ignored.
    pub open spec fn shape_ok(o: JObj) -> bool {
        &&& no_dup_known(o, Self::known_keys())
        &&& (absent(o, "expiryDate"@) || (str_field(o, "expiryDate"@) matches Some(s)
            && DateTimeWrapper::parse_spec(s) is Some))
        &&& (absent(o, "parentIdTag"@) || str_field(o, "parentIdTag"@) is Some)
        &&& (str_field(o, "status"@) matches Some(s) && ParsedGenericStatus::from_wire_spec(s)
            is Some)
    }

    /// This value is exactly what decoding `o` yields.
    pub open spec fn models(&self, o: JObj) -> bool {
        &&& Self::shape_ok(o)
        &&& match self.expiry_date {
            Some(d) => str_field(o, "expiryDate"@) matches Some(s) && DateTimeWrapper::parse_spec(
                s,
            ) == Some(d),
            None => absent(o, "expiryDate"@),
        }
        &&& match self.parent_id_tag {
            Some(p) => str_field(o, "parentIdTag"@) == Some(p@),
            None => absent(o, "parentIdTag"@),
        }
        &&& (str_field(o, "status"@) matches Some(s) && ParsedGenericStatus::from_wire_spec(s)
            == Some(self.status))
    }

    /// The object this value encodes to.
    pub open spec fn entries_spec(&self) -> JObj {
        opt_entry(
            "expiryDate"@,
            match self.expiry_date {
                Some(d) => Some(JsonRep::Str(d.text())),
                None => None,
            },
        ) + opt_entry(
            "parentIdTag"@,
            match self.parent_id_tag {
                Some(p) => Some(JsonRep::Str(p@)),
                None => None,
            },
        ) + seq![("status"@, JsonRep::Str(self.status.wire_spec()))]
    }

    pub fn decode(entries: &Vec<(String, JsonValue)>) -> (r: Option<IdTagInfo>)
        ensures
            match r {
                Some(v) => v.models(obj_rep(*entries, 0)),
                None => !Self::shape_ok(obj_rep(*entries, 0)),
            },
    {
        let known: Vec<&str> = vec!["expiryDate", "parentIdTag", "status"];
        proof {
            assert(strs_view(known@) =~= Self::known_keys());
        }
        if !check_no_dup_known(entries, &known) {
            return None;
        }
        let expiry_date = if field_absent(entries, "expiryDate") {
            None
        } else {
            match get_str(entries, "expiryDate") {
                Some(s) => match DateTimeWrapper::parse_iso8601(s.as_str()) {
                    Some(d) => Some(d),
                    None => {
                        return None;
                    },
                },
                None => {
                    return None;
                },
            }
        };
        let parent_id_tag = if field_absent(entries, "parentIdTag") {
            None
        } else {
            match get_str(entries, "parentIdTag") {
                Some(s) => Some(s.clone()),
                None => {
                    return None;
                },
            }
        };
        let status = match get_str(entries, "status") {
            Some(s) => match ParsedGenericStatus::from_wire(s.as_str()) {
                Some(st) => st,
                None => {
                    return None;
                },
            },
            None => {
                return None;
            },
        };
        Some(IdTagInfo { expiry_date, parent_id_tag, status })
    }

    pub fn encode(&self) -> (r: JsonValue)
        ensures
            rep(r) == JsonRep::Object(self.entries_spec()),
    {
        let mut e: Vec<(String, JsonValue)> = Vec::new();
        match &self.expiry_date {
            Some(d) => e.push((String::from_str("expiryDate"), JsonValue::Str(d.to_iso8601()))),
            None => (),
        }
        match &self.parent_id_tag {
            Some(p) => e.push((String::from_str("parentIdTag"), JsonValue::Str(p.clone()))),
            None => (),
        }
        e.push((String::from_str("status"), JsonValue::Str(self.status.wire_name())));
        let ghost ge = e;
        let r = JsonValue::Object(e);
        proof {
            crate::json::lemma_obj_rep_points(ge);
            assert(obj_rep(ge, 0) =~= self.entries_spec());
            assert(rep(r) =~~= JsonRep::Object(self.entries_spec()));
        }
        r
    }
}

/// One entry of a local authorization list.
#[derive(Debug, PartialEq, Eq, Clone)]
pub struct AuthorizationData {
    pub id_tag: String,
    pub id_tag_info: Option<IdTagInfo>,
}

/// One configuration key with its value.
#[derive(Debug, PartialEq, Eq, Clone)]
pub struct KeyValue {
    pub key: String,
    pub readonly: bool,
    pub value: Option<String>,
}

impl KeyValue {
    pub open spec fn known_keys() -> Seq<Seq<char>> {
        seq!["key"@, "readonly"@, "value"@]
    }

    /// Structural match; the shape is lenient about undeclared keys.
    pub open spec fn shape_ok(o: JObj) -> bool {
        &&& no_dup_known(o, Self::known_keys())
        &&& str_field(o, "key"@) is Some
        &&& bool_field(o, "readonly"@) is Some
        &&& (absent(o, "value"@) || str_field(o, "value"@) is Some)
    }

    /// This value is exactly what decoding `o` yields.
    pub open spec fn models(&self, o: JObj) -> bool {
        &&& Self::shape_ok(o)
        &&& str_field(o, "key"@) == Some(self.key@)
        &&& bool_field(o, "readonly"@) == Some(self.readonly)
        &&& match self.value {
            Some(v) => str_field(o, "value"@) == Some(v@),
            None => absent(o, "value"@),
        }
    }

    /// The object this value encodes to.
    pub open spec fn entries_spec(&self) -> JObj {
        seq![("key"@, JsonRep::Str(self.key@)), ("readonly"@, JsonRep::Bool(self.readonly))]
            + opt_entry(
            "value"@,
            match self.value {
                Some(v) => Some(JsonRep::Str(v@)),
                None => None,
            },
        )
    }

    pub fn decode(entries: &Vec<(String, JsonValue)>) -> (r: Option<KeyValue>)
        ensures
            match r {
                Some(v) => v.models(obj_rep(*entries, 0)),
                None => !Self::shape_ok(obj_rep(*entries, 0)),
            },
    {
        let known: Vec<&str> = vec!["key", "readonly", "value"];
        proof {
            assert(strs_view(known@) =~= Self::known_keys());
        }
        if !check_no_dup_known(entries, &known) {
            return None;
        }
        let key = match get_str(entries, "key") {
            Some(s) => s.clone(),
            None => {
                return None;
            },
        };
        let readonly = match get_bool(entries, "readonly") {
            Some(b) => b,
            None => {
                return None;
            },
        };
        let value = if field_absent(entries, "value") {
            None
        } else {
            match get_str(entries, "value") {
                Some(s) => Some(s.clone()),
                None => {
                    return None;
                },
            }
        };
        Some(KeyValue { key, readonly, value })
    }

    pub fn encode(&self) -> (r: JsonValue)
        ensures
            rep(r) == JsonRep::Object(self.entries_spec()),
    {
        let mut e: Vec<(String, JsonValue)> = Vec::new();
        e.push((String::from_str("key"), JsonValue::Str(self.key.clone())));
        e.push((String::from_str("readonly"), JsonValue::Bool(self.readonly)));
        match &self.value {
            Some(v) => e.push((String::from_str("value"), JsonValue::Str(v.clone()))),
            None => (),
        }
        let ghost ge = e;
        let r = JsonValue::Object(e);
        proof {
            crate::json::lemma_obj_rep_points(ge);
            assert(obj_rep(ge, 0) =~= self.entries_spec());
        }
        r
    }
}

/// Every element is an object matching the key-value shape.
pub open spec fn kv_list_shape_ok(items: Seq<JsonRep>) -> bool {
    forall|i: int|
        0 <= i < items.len() ==> ((#[trigger] items[i]) matches JsonRep::Object(e)
            && KeyValue::shape_ok(e))
}

/// The decoded list is exactly what decoding each element yields.
pub open spec fn kv_list_models(kvs: Seq<KeyValue>, items: Seq<JsonRep>) -> bool {
    &&& kvs.len() == items.len()
    &&& forall|i: int|
        0 <= i < items.len() ==> ((#[trigger] items[i]) matches JsonRep::Object(e)
            && kvs[i].models(e))
}

/// The array a list of key-value entries encodes to.
pub open spec fn kv_list_rep(kvs: Seq<KeyValue>) -> Seq<JsonRep> {
    Seq::new(kvs.len(), |i: int| JsonRep::Object(kvs[i].entries_spec()))
}

/// Decodes each element of a key-value array.
pub fn decode_kv_list(items: &Vec<JsonValue>) -> (r: Option<Vec<KeyValue>>)
    ensures
        match r {
            Some(kvs) => kv_list_models(kvs@, arr_rep(*items, 0)),
            None => !kv_list_shape_ok(arr_rep(*items, 0)),
        },
{
    proof {
        crate::json::lemma_arr_rep_points(*items);
    }
    let ghost l = arr_rep(*items, 0);
    let mut out: Vec<KeyValue> = Vec::new();
    let mut i: usize = 0;
    while i < items.len()
        invariant
            i <= items@.len(),
            l == arr_rep(*items, 0),
            l.len() == items@.len(),
            forall|j: int| 0 <= j < items@.len() ==> #[trigger] l[j] == rep(items@[j]),
            out@.len() == i,
            forall|j: int|
                0 <= j < i ==> ((#[trigger] l[j]) matches JsonRep::Object(e)
                    && out@[j].models(e)),
        decreases items@.len() - i,
    {
        match &items[i] {
            JsonValue::Object(e) => {
                match KeyValue::decode(e) {
                    Some(kv) => out.push(kv),
                    None => {
                        proof {
                            assert(l[i as int] == rep(items@[i as int]));
                            assert(!kv_list_shape_ok(l)) by {
                                if kv_list_shape_ok(l) {
                                    assert((l[i as int]) matches JsonRep::Object(e2)
                                        && KeyValue::shape_ok(e2));
                                }
                            }
                        }
                        return None;
                    },
                }
            },
            _ => {
                proof {
                    assert(l[i as int] == rep(items@[i as int]));
                    assert(!kv_list_shape_ok(l)) by {
                        if kv_list_shape_ok(l) {
                            assert((l[i as int]) matches JsonRep::Object(e2)
                                && KeyValue::shape_ok(e2));
                        }
                    }
                }
                return None;
            },
        }
        i += 1;
    }
    Some(out)
}

/// Encodes each element of a list of key-value entries.
pub fn encode_kv_list(kvs: &Vec<KeyValue>) -> (r: Vec<JsonValue>)
    ensures
        arr_rep(r, 0) == kv_list_rep(kvs@),
{
    let mut out: Vec<JsonValue> = Vec::new();
    let mut i: usize = 0;
    while i < kvs.len()
        invariant
            i <= kvs@.len(),
            out@.len() == i,
            forall|j: int| 0 <= j < i ==> #[trigger] rep(out@[j]) == JsonRep::Object(
                kvs@[j].entries_spec(),
            ),
        decreases kvs@.len() - i,
    {
        out.push(kvs[i].encode());
        i += 1;
    }
    proof {
        crate::json::lemma_arr_rep_points(out);
        assert(arr_rep(out, 0) =~= kv_list_rep(kvs@));
    }
    out
}

/// One measured value inside a meter reading.
#[derive(Debug, PartialEq, Eq, Clone)]
pub struct SampledValue {
    pub value: String,
    pub context: Option<ReadingContext>,
    pub format: Option<ValueFormat>,
    pub measurand: Option<Measurand>,
    pub phase: Option<Phase>,
    pub location: Option<Location>,
    pub unit: Option<UnitOfMeasure>,
}

impl SampledValue {
    pub open spec fn known_keys() -> Seq<Seq<char>> {
        seq!["value"@, "context"@, "format"@, "measurand"@, "phase"@, "location"@, "unit"@]
    }

    /// Structural match; the shape is lenient about undeclared keys.
    pub open spec fn shape_ok(o: JObj) -> bool {
        &&& no_dup_known(o, Self::known_keys())
        &&& str_field(o, "value"@) is Some
        &&& (absent(o, "context"@) || (str_field(o, "context"@) matches Some(s)
            && ReadingContext::from_wire_spec(s) is Some))
        &&& (absent(o, "format"@) || (str_field(o, "format"@) matches Some(s)
            && ValueFormat::from_wire_spec(s) is Some))
        &&& (absent(o, "measurand"@) || (str_field(o, "measurand"@) matches Some(s)
            && Measurand::from_wire_spec(s) is Some))
        &&& (absent(o, "phase"@) || (str_field(o, "phase"@) matches Some(s)
            && Phase::from_wire_spec(s) is Some))
        &&& (absent(o, "location"@) || (str_field(o, "location"@) matches Some(s)
            && Location::from_wire_spec(s) is Some))
        &&& (absent(o, "unit"@) || (str_field(o, "unit"@) matches Some(s)
            && UnitOfMeasure::from_wire_spec(s) is Some))
    }

    /// This value is exactly what decoding `o` yields.
    pub open spec fn models(&self, o: JObj) -> bool {
        &&& Self::shape_ok(o)
        &&& str_field(o, "value"@) == Some(self.value@)
        &&& match self.context {
            Some(c) => str_field(o, "context"@) matches Some(s)
                && ReadingContext::from_wire_spec(s) == Some(c),
            None => absent(o, "context"@),
        }
        &&& match self.format {
            Some(c) => str_field(o, "format"@) matches Some(s) && ValueFormat::from_wire_spec(s)
                == Some(c),
            None => absent(o, "format"@),
        }
        &&& match self.measurand {
            Some(c) => str_field(o, "measurand"@) matches Some(s) && Measurand::from_wire_spec(s)
                == Some(c),
            None => absent(o, "measurand"@),
        }
        &&& match self.phase {
            Some(c) => str_field(o, "phase"@) matches Some(s) && Phase::from_wire_spec(s) == Some(
                c,
            ),
            None => absent(o, "phase"@),
        }
        &&& match self.location {
            Some(c) => str_field(o, "location"@) matches Some(s) && Location::from_wire_spec(s)
                == Some(c),
            None => absent(o, "location"@),
        }
        &&& match self.unit {
            Some(c) => str_field(o, "unit"@) matches Some(s) && UnitOfMeasure::from_wire_spec(s)
                == Some(c),
            None => absent(o, "unit"@),
        }
    }

    /// The object this value encodes to.
    pub open spec fn entries_spec(&self) -> JObj {
        seq![("value"@, JsonRep::Str(self.value@))] + opt_entry(
            "context"@,
            match self.context {
                Some(c) => Some(JsonRep::Str(c.wire_spec())),
                None => None,
            },
        ) + opt_entry(
            "format"@,
            match self.format {
                Some(c) => Some(JsonRep::Str(c.wire_spec())),
                None => None,
            },
        ) + opt_entry(
            "measurand"@,
            match self.measurand {
                Some(c) => Some(JsonRep::Str(c.wire_spec())),
                None => None,
            },
        ) + opt_entry(
            "phase"@,
            match self.phase {
                Some(c) => Some(JsonRep::Str(c.wire_spec())),
                None => None,
            },
        ) + opt_entry(
            "location"@,
            match self.location {
                Some(c) => Some(JsonRep::Str(c.wire_spec())),
                None => None,
            },
        ) + opt_entry(
            "unit"@,
            match self.unit {
                Some(c) => Some(JsonRep::Str(c.wire_spec())),
                None => None,
            },
        )
    }

    pub fn decode(entries: &Vec<(String, JsonValue)>) -> (r: Option<SampledValue>)
        ensures
            match r {
                Some(v) => v.models(obj_rep(*entries, 0)),
                None => !Self::shape_ok(obj_rep(*entries, 0)),
            },
    {
        let known: Vec<&str> = vec![
            "value",
            "context",
            "format",
            "measurand",
            "phase",
            "location",
            "unit",
        ];
        proof {
            assert(strs_view(known@) =~= Self::known_keys());
        }
        if !check_no_dup_known(entries, &known) {
            return None;
        }
        let value = match get_str(entries, "value") {
            Some(s) => s.clone(),
            None => {
                return None;
            },
        };
        let context = if field_absent(entries, "context") {
            None
        } else {
            match get_str(entries, "context") {
                Some(s) => match ReadingContext::from_wire(s.as_str()) {
                    Some(c) => Some(c),
                    None => {
                        return None;
                    },
                },
                None => {
                    return None;
                },
            }
        };
        let format = if field_absent(entries, "format") {
            None
        } else {
            match get_str(entries, "format") {
                Some(s) => match ValueFormat::from_wire(s.as_str()) {
                    Some(c) => Some(c),
                    None => {
                        return None;
                    },
                },
                None => {
                    return None;
                },
            }
        };
        let measurand = if field_absent(entries, "measurand") {
            None
        } else {
            match get_str(entries, "measurand") {
                Some(s) => match Measurand::from_wire(s.as_str()) {
                    Some(c) => Some(c),
                    None => {
                        return None;
                    },
                },
                None => {
                    return None;
                },
            }
        };
        let phase = if field_absent(entries, "phase") {
            None
        } else {
            match get_str(entries, "phase") {
                Some(s) => match Phase::from_wire(s.as_str()) {
                    Some(c) => Some(c),
                    None => {
                        return None;
                    },
                },
                None => {
                    return None;
                },
            }
        };
        let location = if field_absent(entries, "location") {
            None
        } else {
            match get_str(entries, "location") {
                Some(s) => match Location::from_wire(s.as_str()) {
                    Some(c) => Some(c),
                    None => {
                        return None;
                    },
                },
                None => {
                    return None;
                },
            }
        };
        let unit = if field_absent(entries, "unit") {
            None
        } else {
            match get_str(entries, "unit") {
                Some(s) => match UnitOfMeasure::from_wire(s.as_str()) {
                    Some(c) => Some(c),
                    None => {
                        return None;
                    },
                },
                None => {
                    return None;
                },
            }
        };
        Some(SampledValue { value, context, format, measurand, phase, location, unit })
    }

    #[verifier::rlimit(100)]
    pub fn encode(&self) -> (r: JsonValue)
        ensures
            rep(r) == JsonRep::Object(self.entries_spec()),
    {
        let mut e: Vec<(String, JsonValue)> = Vec::new();
        e.push((String::from_str("value"), JsonValue::Str(self.value.clone())));
        match &self.context {
            Some(c) => e.push((String::from_str("context"), JsonValue::Str(c.wire_name()))),
            None => (),
        }
        match &self.format {
            Some(c) => e.push((String::from_str("format"), JsonValue::Str(c.wire_name()))),
            None => (),
        }
        match &self.measurand {
            Some(c) => e.push((String::from_str("measurand"), JsonValue::Str(c.wire_name()))),
            None => (),
        }
        match &self.phase {
            Some(c) => e.push((String::from_str("phase"), JsonValue::Str(c.wire_name()))),
            None => (),
        }
        match &self.location {
            Some(c) => e.push((String::from_str("location"), JsonValue::Str(c.wire_name()))),
            None => (),
        }
        match &self.unit {
            Some(c) => e.push((String::from_str("unit"), JsonValue::Str(c.wire_name()))),
            None => (),
        }
        let ghost ge = e;
        let r = JsonValue::Object(e);
        proof {
            crate::json::lemma_obj_rep_points(ge);
            assert(obj_rep(ge, 0) =~= self.entries_spec());
        }
        r
    }
}

/// A timestamped group of sampled values.
#[derive(Debug, PartialEq, Eq, Clone)]
pub struct MeterValue {
    pub timestamp: DateTimeWrapper,
    pub sampled_value: Vec<SampledValue>,
}

/// Every element is an object matching the sampled-value shape.
pub open spec fn sv_list_shape_ok(items: Seq<JsonRep>) -> bool {
    forall|i: int|
        0 <= i < items.len() ==> ((#[trigger] items[i]) matches JsonRep::Object(e)
            && SampledValue::shape_ok(e))
}

/// The decoded list is exactly what decoding each element yields.
pub open spec fn sv_list_models(svs: Seq<SampledValue>, items: Seq<JsonRep>) -> bool {
    &&& svs.len() == items.len()
    &&& forall|i: int|
        0 <= i < items.len() ==> ((#[trigger] items[i]) matches JsonRep::Object(e) && svs[i].models(
            e,
        ))
}

/// The array a list of sampled values encodes to.
pub open spec fn sv_list_rep(svs: Seq<SampledValue>) -> Seq<JsonRep> {
    Seq::new(svs.len(), |i: int| JsonRep::Object(svs[i].entries_spec()))
}

/// Decodes each element of a sampled-value array.
pub fn decode_sv_list(items: &Vec<JsonValue>) -> (r: Option<Vec<SampledValue>>)
    ensures
        match r {
            Some(svs) => sv_list_models(svs@, arr_rep(*items, 0)),
            None => !sv_list_shape_ok(arr_rep(*items, 0)),
        },
{
    proof {
        crate::json::lemma_arr_rep_points(*items);
    }
    let ghost l = arr_rep(*items, 0);
    let mut out: Vec<SampledValue> = Vec::new();
    let mut i: usize = 0;
    while i < items.len()
        invariant
            i <= items@.len(),
            l == arr_rep(*items, 0),
            l.len() == items@.len(),
            forall|j: int| 0 <= j < items@.len() ==> #[trigger] l[j] == rep(items@[j]),
            out@.len() == i,
            forall|j: int|
                0 <= j < i ==> ((#[trigger] l[j]) matches JsonRep::Object(e)
                    && out@[j].models(e)),
        decreases items@.len() - i,
    {
        match &items[i] {
            JsonValue::Object(e) => {
                match SampledValue::decode(e) {
                    Some(sv) => out.push(sv),
                    None => {
                        proof {
                            assert(l[i as int] == rep(items@[i as int]));
                            assert(!sv_list_shape_ok(l)) by {
                                if sv_list_shape_ok(l) {
                                    assert((l[i as int]) matches JsonRep::Object(e2)
                                        && SampledValue::shape_ok(e2));
                                }
                            }
                        }
                        return None;
                    },
                }
            },
            _ => {
                proof {
                    assert(l[i as int] == rep(items@[i as int]));
                    assert(!sv_list_shape_ok(l)) by {
                        if sv_list_shape_ok(l) {
                            assert((l[i as int]) matches JsonRep::Object(e2)
                                && SampledValue::shape_ok(e2));
                        }
                    }
                }
                return None;
            },
        }
        i += 1;
    }
    Some(out)
}

/// Encodes each element of a list of sampled values.
pub fn encode_sv_list(svs: &Vec<SampledValue>) -> (r: Vec<JsonValue>)
    ensures
        arr_rep(r, 0) == sv_list_rep(svs@),
{
    let mut out: Vec<JsonValue> = Vec::new();
    let mut i: usize = 0;
    while i < svs.len()
        invariant
            i <= svs@.len(),
            out@.len() == i,
            forall|j: int| 0 <= j < i ==> #[trigger] rep(out@[j]) == JsonRep::Object(
                svs@[j].entries_spec(),
            ),
        decreases svs@.len() - i,
    {
        out.push(svs[i].encode());
        i += 1;
    }
    proof {
        crate::json::lemma_arr_rep_points(out);
        assert(arr_rep(out, 0) =~= sv_list_rep(svs@));
    }
    out
}

impl MeterValue {
    pub open spec fn known_keys() -> Seq<Seq<char>> {
        seq!["timestamp"@, "sampledValue"@]
    }

    /// Structural match; the shape is lenient about undeclared keys.
    pub open spec fn shape_ok(o: JObj) -> bool {
        &&& no_dup_known(o, Self::known_keys())
        &&& (str_field(o, "timestamp"@) matches Some(s) && DateTimeWrapper::parse_spec(s) is Some)
        &&& (arr_field(o, "sampledValue"@) matches Some(items) && sv_list_shape_ok(items))
    }

    /// This value is exactly what decoding `o` yields.
    pub open spec fn models(&self, o: JObj) -> bool {
        &&& Self::shape_ok(o)
        &&& (str_field(o, "timestamp"@) matches Some(s) && DateTimeWrapper::parse_spec(s) == Some(
            self.timestamp,
        ))
        &&& (arr_field(o, "sampledValue"@) matches Some(items) && sv_list_models(
            self.sampled_value@,
            items,
        ))
    }

    /// The object this value encodes to.
    pub open spec fn entries_spec(&self) -> JObj {
        seq![
            ("timestamp"@, JsonRep::Str(self.timestamp.text())),
            ("sampledValue"@, JsonRep::Array(sv_list_rep(self.sampled_value@))),
        ]
    }

    pub fn decode(entries: &Vec<(String, JsonValue)>) -> (r: Option<MeterValue>)
        ensures
            match r {
                Some(v) => v.models(obj_rep(*entries, 0)),
                None => !Self::shape_ok(obj_rep(*entries, 0)),
            },
    {
        let known: Vec<&str> = vec!["timestamp", "sampledValue"];
        proof {
            assert(strs_view(known@) =~= Self::known_keys());
        }
        if !check_no_dup_known(entries, &known) {
            return None;
        }
        let timestamp = match get_str(entries, "timestamp") {
            Some(s) => match DateTimeWrapper::parse_iso8601(s.as_str()) {
                Some(d) => d,
                None => {
                    return None;
                },
            },
            None => {
                return None;
            },
        };
        let sampled_value = match crate::json::get_arr(entries, "sampledValue") {
            Some(items) => match decode_sv_list(items) {
                Some(svs) => svs,
                None => {
                    return None;
                },
            },
            None => {
                return None;
            },
        };
        Some(MeterValue { timestamp, sampled_value })
    }

    pub fn encode(&self) -> (r: JsonValue)
        ensures
            rep(r) == JsonRep::Object(self.entries_spec()),
    {
        let mut e: Vec<(String, JsonValue)> = Vec::new();
        e.push((String::from_str("timestamp"), JsonValue::Str(self.timestamp.to_iso8601())));
        e.push(
            (
                String::from_str("sampledValue"),
                JsonValue::Array(encode_sv_list(&self.sampled_value)),
            ),
        );
        let ghost ge = e;
        let r = JsonValue::Object(e);
        proof {
            crate::json::lemma_obj_rep_points(ge);
            assert(obj_rep(ge, 0) =~= self.entries_spec());
        }
        r
    }
}

/// Every element is an object matching the meter-value shape.
pub open spec fn mv_list_shape_ok(items: Seq<JsonRep>) -> bool {
    forall|i: int|
        0 <= i < items.len() ==> ((#[trigger] items[i]) matches JsonRep::Object(e)
            && MeterValue::shape_ok(e))
}

/// The decoded list is exactly what decoding each element yields.
pub open spec fn mv_list_models(mvs: Seq<MeterValue>, items: Seq<JsonRep>) -> bool {
    &&& mvs.len() == items.len()
    &&& forall|i: int|
        0 <= i < items.len() ==> ((#[trigger] items[i]) matches JsonRep::Object(e)
            && mvs[i].models(e))
}

/// The array a list of meter values encodes to.
pub open spec fn mv_list_rep(mvs: Seq<MeterValue>) -> Seq<JsonRep> {
    Seq::new(mvs.len(), |i: int| JsonRep::Object(mvs[i].entries_spec()))
}

/// Decodes each element of a meter-value array.
pub fn decode_mv_list(items: &Vec<JsonValue>) -> (r: Option<Vec<MeterValue>>)
    ensures
        match r {
            Some(mvs) => mv_list_models(mvs@, arr_rep(*items, 0)),
            None => !mv_list_shape_ok(arr_rep(*items, 0)),
        },
{
    proof {
        crate::json::lemma_arr_rep_points(*items);
    }
    let ghost l = arr_rep(*items, 0);
    let mut out: Vec<MeterValue> = Vec::new();
    let mut i: usize = 0;
    while i < items.len()
        invariant
            i <= items@.len(),
            l == arr_rep(*items, 0),
            l.len() == items@.len(),
            forall|j: int| 0 <= j < items@.len() ==> #[trigger] l[j] == rep(items@[j]),
            out@.len() == i,
            forall|j: int|
                0 <= j < i ==> ((#[trigger] l[j]) matches JsonRep::Object(e)
                    && out@[j].models(e)),
        decreases items@.len() - i,
    {
        match &items[i] {
            JsonValue::Object(e) => {
                match MeterValue::decode(e) {
                    Some(mv) => out.push(mv),
                    None => {
                        proof {
                            assert(l[i as int] == rep(items@[i as int]));
                            assert(!mv_list_shape_ok(l)) by {
                                if mv_list_shape_ok(l) {
                                    assert((l[i as int]) matches JsonRep::Object(e2)
                                        && MeterValue::shape_ok(e2));
                                }
                            }
                        }
                        return None;
                    },
                }
            },
            _ => {
                proof {
                    assert(l[i as int] == rep(items@[i as int]));
                    assert(!mv_list_shape_ok(l)) by {
                        if mv_list_shape_ok(l) {
                            assert((l[i as int]) matches JsonRep::Object(e2)
                                && MeterValue::shape_ok(e2));
                        }
                    }
                }
                return None;
            },
        }
        i += 1;
    }
    Some(out)
}

/// Encodes each element of a list of meter values.
pub fn encode_mv_list(mvs: &Vec<MeterValue>) -> (r: Vec<JsonValue>)
    ensures
        arr_rep(r, 0) == mv_list_rep(mvs@),
{
    let mut out: Vec<JsonValue> = Vec::new();
    let mut i: usize = 0;
    while i < mvs.len()
        invariant
            i <= mvs@.len(),
            out@.len() == i,
            forall|j: int| 0 <= j < i ==> #[trigger] rep(out@[j]) == JsonRep::Object(
                mvs@[j].entries_spec(),
            ),
        decreases mvs@.len() - i,
    {
        out.push(mvs[i].encode());
        i += 1;
    }
    proof {
        crate::json::lemma_arr_rep_points(out);
        assert(arr_rep(out, 0) =~= mv_list_rep(mvs@));
    }
    out
}

/// Identification of a certificate by its hashes.
#[derive(Debug, PartialEq, Eq, Clone)]
pub struct CertificateHashData {
    pub hash_algorithm: HashAlgorithm,
    pub issuer_name_hash: String,
    pub issuer_key_hash: String,
    pub serial_number: String,
}

/// A signed firmware image to retrieve and install.
#[derive(Debug, PartialEq, Eq, Clone)]
pub struct Firmware {
    pub location: String,
    pub retrieve_date_time: DateTimeWrapper,
    pub install_date_time: Option<DateTimeWrapper>,
    pub signing_certificate: Option<String>,
    pub signature: Option<String>,
}

/// Where and which span of a log to upload.
#[derive(Debug, Clone)]
pub struct LogParameters {
    pub remote_location: String,
    pub oldest_timestamp: Option<DateTimeWrapper>,
    pub latest_timestamp: Option<DateTimeWrapper>,
}

} // verus!
