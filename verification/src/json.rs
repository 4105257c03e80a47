use vstd::prelude::*;

use crate::numbers::{i64_dec_str, u64_dec_str};
use crate::text::{chars_to_string, push_str_chars, str_eq, str_to_chars};

verus! {

#[verifier::external_type_specification]
#[verifier::external_body]
pub struct ExSerdeJsonValue(serde_json::Value);

#[verifier::external_type_specification]
#[verifier::external_body]
pub struct ExSerdeJsonError(serde_json::Error);

/// A JSON number: an unsigned or signed integer, or the textual rendering
/// of any other (non-integral) number.
pub enum JsonNum {
    UInt(u64),
    Int(i64),
    Raw(String),
}

/// A JSON document, as the wire gives it: object members keep the order in
/// which the parser hands them over.
pub enum Json {
    Null,
    Bool(bool),
    Num(JsonNum),
    Str(String),
    Arr(Vec<Json>),
    Obj(Vec<(String, Json)>),
}

pub enum JsonNumV {
    UInt(u64),
    Int(i64),
    Raw(Seq<char>),
}

/// The mathematical shape of a JSON document.
pub enum JsonV {
    Null,
    Bool(bool),
    Num(JsonNumV),
    Str(Seq<char>),
    Arr(Seq<JsonV>),
    Obj(Seq<(Seq<char>, JsonV)>),
}

impl View for JsonNum {
    type V = JsonNumV;

    open spec fn view(&self) -> JsonNumV {
        match self {
            JsonNum::UInt(n) => JsonNumV::UInt(*n),
            JsonNum::Int(n) => JsonNumV::Int(*n),
            JsonNum::Raw(s) => JsonNumV::Raw(s@),
        }
    }
}

pub open spec fn json_view(j: Json) -> JsonV
    decreases j,
    via json_view_dec
{
    match j {
        Json::Null => JsonV::Null,
        Json::Bool(b) => JsonV::Bool(b),
        Json::Num(n) => JsonV::Num(n@),
        Json::Str(s) => JsonV::Str(s@),
        Json::Arr(items) => JsonV::Arr(
            Seq::new(
                items@.len(),
                |i: int|
                    if 0 <= i < items@.len() {
                        json_view(items@[i])
                    } else {
                        JsonV::Null
                    },
            ),
        ),
        Json::Obj(members) => JsonV::Obj(
            Seq::new(
                members@.len(),
                |i: int|
                    if 0 <= i < members@.len() {
                        (members@[i].0@, json_view(members@[i].1))
                    } else {
                        (Seq::empty(), JsonV::Null)
                    },
            ),
        ),
    }
}

#[via_fn]
proof fn json_view_dec(j: Json) {
    broadcast use vstd::std_specs::vec::group_vec_axioms;
    broadcast use vstd::seq::axiom_seq_index_decreases;

}

impl View for Json {
    type V = JsonV;

    open spec fn view(&self) -> JsonV {
        json_view(*self)
    }
}

/// What serde_json's parser makes of a text: the parsed document, or
/// nothing when the text is not well-formed JSON. Object members stand in
/// the order in which the parser's map iterates them.
pub uninterp spec fn parsed_json(s: Seq<char>) -> Option<JsonV>;

/// Relies on serde_json::from_str::<serde_json::Value>: whether the text
/// parses, and what it parses to, depend on the text alone.
#[verifier::external_body]
pub fn parse_json(s: &str) -> (r: Result<Json, serde_json::Error>)
    ensures
        r is Ok <==> parsed_json(s@) is Some,
        r matches Ok(j) ==> parsed_json(s@) matches Some(v) && j@ == v,
{
    serde_json::from_str::<serde_json::Value>(s).map(value_to_json)
}

/// Relies on the serde_json::Value accessors; rebuilds the value with one
/// arm for each of its variants, moving the contents over.
#[verifier::external_body]
fn value_to_json(v: serde_json::Value) -> Json {
    match v {
        serde_json::Value::Null => Json::Null,
        serde_json::Value::Bool(b) => Json::Bool(b),
        serde_json::Value::Number(n) => Json::Num(match (n.as_u64(), n.as_i64()) {
            (Some(u), _) => JsonNum::UInt(u),
            (None, Some(i)) => JsonNum::Int(i),
            _ => JsonNum::Raw(n.to_string()),
        }),
        serde_json::Value::String(s) => Json::Str(s),
        serde_json::Value::Array(a) => Json::Arr(a.into_iter().map(value_to_json).collect()),
        serde_json::Value::Object(m) => Json::Obj(m.into_iter().map(|(k, w)| (k, value_to_json(w))).collect()),
    }
}

/// Relies on serde::de::Error::custom: an error value carrying the given
/// message, for a body whose JSON shape is not the expected one.
#[verifier::external_body]
pub fn json_shape_error(message: &str) -> serde_json::Error {
    serde::de::Error::custom(message)
}

// ---------------------------------------------------------------------------
// Object lookup
// ---------------------------------------------------------------------------
/// The value under the first member with the given key.
pub open spec fn members_lookup(members: Seq<(Seq<char>, JsonV)>, key: Seq<char>) -> Option<JsonV>
    decreases members.len(),
{
    if members.len() == 0 {
        None
    } else if members[0].0 == key {
        Some(members[0].1)
    } else {
        members_lookup(members.drop_first(), key)
    }
}

/// The value under a key of an object; nothing for other shapes.
pub open spec fn json_lookup(v: JsonV, key: Seq<char>) -> Option<JsonV> {
    match v {
        JsonV::Obj(members) => members_lookup(members, key),
        _ => None,
    }
}

proof fn lemma_members_lookup_at(members: Seq<(Seq<char>, JsonV)>, key: Seq<char>, k: int)
    requires
        0 <= k < members.len(),
        members[k].0 == key,
        forall|j: int| 0 <= j < k ==> members[j].0 != key,
    ensures
        members_lookup(members, key) == Some(members[k].1),
    decreases k,
{
    if k > 0 {
        lemma_members_lookup_at(members.drop_first(), key, k - 1);
    }
}

proof fn lemma_members_lookup_none(members: Seq<(Seq<char>, JsonV)>, key: Seq<char>)
    requires
        forall|j: int| 0 <= j < members.len() ==> members[j].0 != key,
    ensures
        members_lookup(members, key) is None,
    decreases members.len(),
{
    if members.len() > 0 {
        lemma_members_lookup_none(members.drop_first(), key);
    }
}

impl Json {
    /// The value under the first member of an object with the given key.
    pub fn get<'a>(&'a self, key: &str) -> (r: Option<&'a Json>)
        ensures
            match json_lookup(self@, key@) {
                Some(v) => r matches Some(x) && x@ == v,
                None => r is None,
            },
    {
        match self {
            Json::Obj(members) => {
                let ghost ms = self@->Obj_0;
                let mut i: usize = 0;
                while i < members.len()
                    invariant
                        0 <= i <= members@.len(),
                        *self == Json::Obj(*members),
                        ms == self@->Obj_0,
                        ms.len() == members@.len(),
                        forall|k: int|
                            0 <= k < members@.len() ==> ms[k] == (
                            members@[k].0@,
                            json_view(members@[k].1),
                            ),
                        forall|k: int| 0 <= k < i ==> ms[k].0 != key@,
                    decreases members@.len() - i,
                {
                    if str_eq(members[i].0.as_str(), key) {
                        proof {
                            lemma_members_lookup_at(ms, key@, i as int);
                        }
                        return Some(&members[i].1);
                    }
                    i += 1;
                }
                proof {
                    lemma_members_lookup_none(ms, key@);
                }
                None
            },
            _ => None,
        }
    }
}

// ---------------------------------------------------------------------------
// Typed field access
// ---------------------------------------------------------------------------
/// A required string member: its text, or a fault for any other shape.
pub open spec fn req_str_field(v: JsonV, key: Seq<char>) -> Result<Seq<char>, ()> {
    match json_lookup(v, key) {
        Some(JsonV::Str(t)) => Ok(t),
        _ => Err(()),
    }
}

/// An optional string member: absent and null both mean nothing; any other
/// non-string shape is a fault.
pub open spec fn opt_str_field(v: JsonV, key: Seq<char>) -> Result<Option<Seq<char>>, ()> {
    match json_lookup(v, key) {
        None => Ok(None),
        Some(JsonV::Null) => Ok(None),
        Some(JsonV::Str(t)) => Ok(Some(t)),
        Some(_) => Err(()),
    }
}

/// A required boolean member.
pub open spec fn req_bool_field(v: JsonV, key: Seq<char>) -> Result<bool, ()> {
    match json_lookup(v, key) {
        Some(JsonV::Bool(b)) => Ok(b),
        _ => Err(()),
    }
}

/// A required unsigned-integer member.
pub open spec fn req_u64_field(v: JsonV, key: Seq<char>) -> Result<u64, ()> {
    match json_lookup(v, key) {
        Some(JsonV::Num(JsonNumV::UInt(n))) => Ok(n),
        _ => Err(()),
    }
}

impl Json {
    /// The text of a required string member.
    pub fn req_str(&self, key: &str) -> (r: Result<String, ()>)
        ensures
            match req_str_field(self@, key@) {
                Ok(t) => r matches Ok(x) && x@ == t,
                Err(()) => r is Err,
            },
    {
        match self.get(key) {
            Some(Json::Str(t)) => Ok(t.clone()),
            _ => Err(()),
        }
    }

    /// The text of an optional string member; absent and null both give
    /// nothing.
    pub fn opt_str(&self, key: &str) -> (r: Result<Option<String>, ()>)
        ensures
            match opt_str_field(self@, key@) {
                Ok(Some(t)) => r matches Ok(Some(x)) && x@ == t,
                Ok(None) => r matches Ok(None),
                Err(()) => r is Err,
            },
    {
        match self.get(key) {
            None => Ok(None),
            Some(Json::Null) => Ok(None),
            Some(Json::Str(t)) => Ok(Some(t.clone())),
            Some(_) => Err(()),
        }
    }

    /// The value of a required boolean member.
    pub fn req_bool(&self, key: &str) -> (r: Result<bool, ()>)
        ensures
            match req_bool_field(self@, key@) {
                Ok(b) => r matches Ok(x) && x == b,
                Err(()) => r is Err,
            },
    {
        match self.get(key) {
            Some(Json::Bool(b)) => Ok(*b),
            _ => Err(()),
        }
    }

    /// The value of a required unsigned-integer member.
    pub fn req_u64(&self, key: &str) -> (r: Result<u64, ()>)
        ensures
            match req_u64_field(self@, key@) {
                Ok(n) => r matches Ok(x) && x == n,
                Err(()) => r is Err,
            },
    {
        match self.get(key) {
            Some(Json::Num(JsonNum::UInt(n))) => Ok(*n),
            _ => Err(()),
        }
    }
}

// ---------------------------------------------------------------------------
// Rendering (compact, as serde_json renders)
// ---------------------------------------------------------------------------
pub open spec fn hex_digit_char(d: int) -> char {
    if d == 10 {
        'a'
    } else if d == 11 {
        'b'
    } else if d == 12 {
        'c'
    } else if d == 13 {
        'd'
    } else if d == 14 {
        'e'
    } else if d == 15 {
        'f'
    } else {
        crate::numbers::digit_char(d)
    }
}

/// How one character appears inside a rendered JSON string.
pub open spec fn escape_char(c: char) -> Seq<char> {
    if c == '"' {
        seq!['\\', '"']
    } else if c == '\\' {
        seq!['\\', '\\']
    } else if c as u32 == 8 {
        seq!['\\', 'b']
    } else if c as u32 == 12 {
        seq!['\\', 'f']
    } else if c == '\n' {
        seq!['\\', 'n']
    } else if c == '\r' {
        seq!['\\', 'r']
    } else if c == '\t' {
        seq!['\\', 't']
    } else if (c as u32) < 32 {
        seq!['\\', 'u', '0', '0', hex_digit_char(((c as u32) / 16) as int), hex_digit_char(((c as u32) % 16) as int)]
    } else {
        seq![c]
    }
}

pub open spec fn escape_string(s: Seq<char>) -> Seq<char>
    decreases s.len(),
{
    if s.len() == 0 {
        Seq::empty()
    } else {
        escape_string(s.drop_last()) + escape_char(s.last())
    }
}

/// A string as it is rendered: quoted and escaped.
pub open spec fn quoted(s: Seq<char>) -> Seq<char> {
    seq!['"'] + escape_string(s) + seq!['"']
}

pub open spec fn render_num(n: JsonNumV) -> Seq<char> {
    match n {
        JsonNumV::UInt(u) => u64_dec_str(u as int),
        JsonNumV::Int(i) => i64_dec_str(i as int),
        JsonNumV::Raw(t) => t,
    }
}

/// The compact rendering of a JSON document, with members and items in
/// order, separated by commas, and no added spacing.
pub open spec fn render_json(v: JsonV) -> Seq<char>
    decreases v, 1int,
{
    match v {
        JsonV::Null => "null"@,
        JsonV::Bool(b) => if b {
            "true"@
        } else {
            "false"@
        },
        JsonV::Num(n) => render_num(n),
        JsonV::Str(s) => quoted(s),
        JsonV::Arr(items) => seq!['['] + render_items(items) + seq![']'],
        JsonV::Obj(members) => seq!['{'] + render_members(members) + seq!['}'],
    }
}

pub open spec fn render_items(items: Seq<JsonV>) -> Seq<char>
    decreases items, 0int,
{
    if items.len() == 0 {
        Seq::empty()
    } else if items.len() == 1 {
        render_json(items[0])
    } else {
        render_items(items.drop_last()) + seq![','] + render_json(items.last())
    }
}

pub open spec fn render_members(members: Seq<(Seq<char>, JsonV)>) -> Seq<char>
    decreases members, 0int,
{
    if members.len() == 0 {
        Seq::empty()
    } else if members.len() == 1 {
        quoted(members[0].0) + seq![':'] + render_json(members[0].1)
    } else {
        render_members(members.drop_last()) + seq![','] + quoted(members.last().0) + seq![':']
            + render_json(members.last().1)
    }
}

fn hex_digit_char_exec(d: u32) -> (r: char)
    requires
        d < 16,
    ensures
        r == hex_digit_char(d as int),
{
    if d == 10 {
        'a'
    } else if d == 11 {
        'b'
    } else if d == 12 {
        'c'
    } else if d == 13 {
        'd'
    } else if d == 14 {
        'e'
    } else if d == 15 {
        'f'
    } else {
        crate::numbers::digit_char_exec32(d)
    }
}

/// Appends the escaped form of the characters of `s` to `out`.
#[verifier::loop_isolation(false)]
pub fn push_escaped(out: &mut Vec<char>, s: &str)
    ensures
        final(out)@ == old(out)@ + escape_string(s@),
{
    let chars = str_to_chars(s);
    let mut i: usize = 0;
    while i < chars.len()
        invariant
            0 <= i <= chars@.len(),
            out@ == old(out)@ + escape_string(s@.subrange(0, i as int)),
        decreases chars@.len() - i,
    {
        let c = chars[i];
        let code = c as u32;
        if c == '"' {
            out.push('\\');
            out.push('"');
        } else if c == '\\' {
            out.push('\\');
            out.push('\\');
        } else if code == 8 {
            out.push('\\');
            out.push('b');
        } else if code == 12 {
            out.push('\\');
            out.push('f');
        } else if c == '\n' {
            out.push('\\');
            out.push('n');
        } else if c == '\r' {
            out.push('\\');
            out.push('r');
        } else if c == '\t' {
            out.push('\\');
            out.push('t');
        } else if code < 32 {
            out.push('\\');
            out.push('u');
            out.push('0');
            out.push('0');
            out.push(hex_digit_char_exec(code / 16));
            out.push(hex_digit_char_exec(code % 16));
        } else {
            out.push(c);
        }
        i += 1;
        proof {
            let pre = s@.subrange(0, i - 1);
            let cur = s@.subrange(0, i as int);
            assert(cur.drop_last() =~= pre);
            assert(cur.last() == c);
            assert(out@ =~= old(out)@ + escape_string(cur));
        }
    }
    proof {
        assert(s@.subrange(0, s@.len() as int) =~= s@);
    }
}

/// Appends the quoted, escaped form of `s` to `out`.
pub fn push_quoted(out: &mut Vec<char>, s: &str)
    ensures
        final(out)@ == old(out)@ + quoted(s@),
{
    out.push('"');
    push_escaped(out, s);
    out.push('"');
    proof {
        assert(final(out)@ =~= old(out)@ + quoted(s@));
    }
}

/// Appends the compact rendering of `j` to `out`.
#[verifier::loop_isolation(false)]
pub fn render_to(j: &Json, out: &mut Vec<char>)
    ensures
        final(out)@ == old(out)@ + render_json(j@),
    decreases *j,
{
    proof {
        broadcast use vstd::std_specs::vec::group_vec_axioms;
        broadcast use vstd::seq::axiom_seq_index_decreases;

    }
    match j {
        Json::Null => {
            push_str_chars(out, "null");
        },
        Json::Bool(b) => {
            if *b {
                push_str_chars(out, "true");
            } else {
                push_str_chars(out, "false");
            }
        },
        Json::Num(n) => {
            match n {
                JsonNum::UInt(u) => {
                    let digits = crate::numbers::fmt_u64(*u);
                    crate::text::push_chars(out, &digits);
                },
                JsonNum::Int(i) => {
                    let rendered = crate::numbers::i64_to_string(*i);
                    push_str_chars(out, rendered.as_str());
                },
                JsonNum::Raw(t) => {
                    push_str_chars(out, t.as_str());
                },
            }
        },
        Json::Str(s) => {
            push_quoted(out, s.as_str());
        },
        Json::Arr(items) => {
            let ghost vs = j@->Arr_0;
            out.push('[');
            let mut i: usize = 0;
            while i < items.len()
                invariant
                    0 <= i <= items@.len(),
                    vs.len() == items@.len(),
                    forall|k: int| 0 <= k < items@.len() ==> vs[k] == json_view(items@[k]),
                    out@ == old(out)@ + seq!['['] + render_items(vs.subrange(0, i as int)),
                decreases items@.len() - i,
            {
                if i > 0 {
                    out.push(',');
                }
                render_to(&items[i], out);
                i += 1;
                proof {
                    let pre = vs.subrange(0, i - 1);
                    let cur = vs.subrange(0, i as int);
                    assert(cur.drop_last() =~= pre);
                    assert(cur.last() == vs[i - 1]);
                    assert(out@ =~= old(out)@ + seq!['['] + render_items(cur));
                }
            }
            out.push(']');
            proof {
                assert(vs.subrange(0, vs.len() as int) =~= vs);
                assert(out@ =~= old(out)@ + render_json(j@));
            }
        },
        Json::Obj(members) => {
            let ghost ms = j@->Obj_0;
            out.push('{');
            let mut i: usize = 0;
            while i < members.len()
                invariant
                    0 <= i <= members@.len(),
                    ms.len() == members@.len(),
                    forall|k: int|
                        0 <= k < members@.len() ==> ms[k] == (
                        members@[k].0@,
                        json_view(members@[k].1),
                        ),
                    out@ == old(out)@ + seq!['{'] + render_members(ms.subrange(0, i as int)),
                decreases members@.len() - i,
            {
                if i > 0 {
                    out.push(',');
                }
                push_quoted(out, members[i].0.as_str());
                out.push(':');
                render_to(&members[i].1, out);
                i += 1;
                proof {
                    let pre = ms.subrange(0, i - 1);
                    let cur = ms.subrange(0, i as int);
                    assert(cur.drop_last() =~= pre);
                    assert(cur.last() == ms[i - 1]);
                    assert(out@ =~= old(out)@ + seq!['{'] + render_members(cur));
                }
            }
            out.push('}');
            proof {
                assert(ms.subrange(0, ms.len() as int) =~= ms);
                assert(out@ =~= old(out)@ + render_json(j@));
            }
        },
    }
}

/// The compact rendering of `j` as a string.
pub fn render_json_string(j: &Json) -> (r: String)
    ensures
        r@ == render_json(j@),
{
    let mut out: Vec<char> = Vec::new();
    render_to(j, &mut out);
    chars_to_string(&out)
}

} // verus!
