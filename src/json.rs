//! JSON values as this library holds them, their compact text, and the
//! field accessors that request handling reads them with.

use vstd::prelude::*;
use crate::text::{
    decimal, digit, digit_char, push_char, push_decimal, push_signed_decimal, chars_of,
    signed_decimal,
};

verus! {

/// A JSON number, classified as a JSON reader classifies it.
#[derive(Debug, Clone, PartialEq, Eq)]
pub enum JsonNumber {
    /// A non-negative integer.
    PosInt(u64),
    /// A negative integer.
    NegInt(i64),
    /// Any other number, held as the text that writes it.
    Float(String),
}

/// A JSON value. An object keeps its members in order.
#[derive(Debug, PartialEq, Eq)]
pub enum JsonValue {
    Null,
    Bool(bool),
    Number(JsonNumber),
    String(String),
    Array(Vec<JsonValue>),
    Object(Vec<(String, JsonValue)>),
}

/// The text of a number.
pub open spec fn number_text(n: JsonNumber) -> Seq<char> {
    match n {
        JsonNumber::PosInt(u) => decimal(u as nat),
        JsonNumber::NegInt(i) => signed_decimal(i as int),
        JsonNumber::Float(t) => t@,
    }
}

/// How one character is written inside a JSON string literal: quote and
/// backslash escaped, the usual short escapes for backspace, tab, line
/// feed, form feed and carriage return, `\u00XX` (lower-case hex) for the
/// other control characters, and every other character as it is.
pub open spec fn escape_char(c: char) -> Seq<char> {
    if c == '"' {
        seq!['\\', '"']
    } else if c == '\\' {
        seq!['\\', '\\']
    } else if c == '\u{8}' {
        seq!['\\', 'b']
    } else if c == '\t' {
        seq!['\\', 't']
    } else if c == '\n' {
        seq!['\\', 'n']
    } else if c == '\u{c}' {
        seq!['\\', 'f']
    } else if c == '\r' {
        seq!['\\', 'r']
    } else if (c as u32) < 0x20 {
        seq!['\\', 'u', '0', '0', digit_char((c as u32) as int / 16), digit_char((c as u32) as int % 16)]
    } else {
        seq![c]
    }
}

/// The escaped form of a run of characters.
pub open spec fn escaped(s: Seq<char>) -> Seq<char>
    decreases s.len(),
{
    if s.len() == 0 {
        Seq::empty()
    } else {
        escaped(s.drop_last()) + escape_char(s.last())
    }
}

/// A JSON string literal.
pub open spec fn string_text(s: Seq<char>) -> Seq<char> {
    seq!['"'] + escaped(s) + seq!['"']
}

/// The compact JSON text of a value: no whitespace, members in the order
/// they are held.
pub open spec fn json_text(v: JsonValue) -> Seq<char>
    decreases v,
{
    match v {
        JsonValue::Null => seq!['n', 'u', 'l', 'l'],
        JsonValue::Bool(b) => if b {
            seq!['t', 'r', 'u', 'e']
        } else {
            seq!['f', 'a', 'l', 's', 'e']
        },
        JsonValue::Number(n) => number_text(n),
        JsonValue::String(s) => string_text(s@),
        JsonValue::Array(items) => seq!['['] + items_text(items@) + seq![']'],
        JsonValue::Object(members) => seq!['{'] + members_text(members@) + seq!['}'],
    }
}

/// Array elements, separated by commas.
pub open spec fn items_text(items: Seq<JsonValue>) -> Seq<char>
    decreases items,
{
    if items.len() == 0 {
        Seq::empty()
    } else if items.len() == 1 {
        json_text(items[0])
    } else {
        items_text(items.subrange(0, items.len() - 1)) + seq![','] + json_text(
            items[items.len() - 1],
        )
    }
}

/// One object member: its key, a colon, its value.
pub open spec fn member_text(m: (String, JsonValue)) -> Seq<char>
    decreases m,
{
    string_text(m.0@) + seq![':'] + json_text(m.1)
}

/// Object members, separated by commas.
pub open spec fn members_text(members: Seq<(String, JsonValue)>) -> Seq<char>
    decreases members,
{
    if members.len() == 0 {
        Seq::empty()
    } else if members.len() == 1 {
        member_text(members[0])
    } else {
        members_text(members.subrange(0, members.len() - 1)) + seq![','] + member_text(
            members[members.len() - 1],
        )
    }
}

/// Appends the escaped form of one character.
fn push_escaped_char(out: &mut String, c: char)
    ensures
        final(out)@ == old(out)@ + escape_char(c),
{
    let ghost start = out@;
    if c == '"' {
        push_char(out, '\\');
        push_char(out, '"');
    } else if c == '\\' {
        push_char(out, '\\');
        push_char(out, '\\');
    } else if c == '\u{8}' {
        push_char(out, '\\');
        push_char(out, 'b');
    } else if c == '\t' {
        push_char(out, '\\');
        push_char(out, 't');
    } else if c == '\n' {
        push_char(out, '\\');
        push_char(out, 'n');
    } else if c == '\u{c}' {
        push_char(out, '\\');
        push_char(out, 'f');
    } else if c == '\r' {
        push_char(out, '\\');
        push_char(out, 'r');
    } else if (c as u32) < 0x20 {
        let code: u32 = c as u32;
        push_char(out, '\\');
        push_char(out, 'u');
        push_char(out, '0');
        push_char(out, '0');
        push_char(out, digit(code / 16));
        push_char(out, digit(code % 16));
    } else {
        push_char(out, c);
    }
    assert(out@ =~= start + escape_char(c));
}

/// Appends `s` as a JSON string literal.
pub fn push_string_literal(out: &mut String, s: &str)
    ensures
        final(out)@ == old(out)@ + string_text(s@),
{
    push_char(out, '"');
    let cs = chars_of(s);
    let mut i: usize = 0;
    while i < cs.len()
        invariant
            i <= cs@.len(),
            cs@ == s@,
            out@ == old(out)@ + seq!['"'] + escaped(s@.subrange(0, i as int)),
        decreases cs@.len() - i,
    {
        push_escaped_char(out, cs[i]);
        proof {
            let next = s@.subrange(0, i as int + 1);
            assert(next.drop_last() =~= s@.subrange(0, i as int));
            assert(next.last() == s@[i as int]);
            assert(out@ =~= old(out)@ + seq!['"'] + escaped(next));
        }
        i = i + 1;
    }
    push_char(out, '"');
    proof {
        assert(s@.subrange(0, s@.len() as int) =~= s@);
        assert(out@ =~= old(out)@ + string_text(s@));
    }
}

/// Appends the text of a number.
fn push_number(out: &mut String, n: &JsonNumber)
    ensures
        final(out)@ == old(out)@ + number_text(*n),
{
    match n {
        JsonNumber::PosInt(u) => push_decimal(out, *u),
        JsonNumber::NegInt(i) => push_signed_decimal(out, *i),
        JsonNumber::Float(t) => out.append(t.as_str()),
    }
}

/// Appends the compact JSON text of `v`.
pub fn push_json(out: &mut String, v: &JsonValue)
    ensures
        final(out)@ == old(out)@ + json_text(*v),
    decreases v,
{
    let ghost start = out@;
    match v {
        JsonValue::Null => {
            push_char(out, 'n');
            push_char(out, 'u');
            push_char(out, 'l');
            push_char(out, 'l');
            assert(out@ =~= start + json_text(*v));
        },
        JsonValue::Bool(b) => {
            if *b {
                push_char(out, 't');
                push_char(out, 'r');
                push_char(out, 'u');
                push_char(out, 'e');
            } else {
                push_char(out, 'f');
                push_char(out, 'a');
                push_char(out, 'l');
                push_char(out, 's');
                push_char(out, 'e');
            }
            assert(out@ =~= start + json_text(*v));
        },
        JsonValue::Number(n) => {
            push_number(out, n);
        },
        JsonValue::String(s) => {
            push_string_literal(out, s.as_str());
        },
        JsonValue::Array(items) => {
            push_char(out, '[');
            let mut i: usize = 0;
            while i < items.len()
                invariant
                    i <= items@.len(),
                    *v == JsonValue::Array(*items),
                    out@ == start + seq!['['] + items_text(items@.subrange(0, i as int)),
                decreases items@.len() - i,
            {
                if i > 0 {
                    push_char(out, ',');
                }
                proof {
                    assert(decreases_to!(v => v->Array_0));
                    assert(decreases_to!(*items => items@));
                    assert(decreases_to!(items@ => items@[i as int]));
                }
                push_json(out, &items[i]);
                proof {
                    let next = items@.subrange(0, i as int + 1);
                    assert(next.subrange(0, i as int) =~= items@.subrange(0, i as int));
                    assert(next[i as int] == items@[i as int]);
                    assert(out@ =~= start + seq!['['] + items_text(next));
                }
                i = i + 1;
            }
            push_char(out, ']');
            proof {
                assert(items@.subrange(0, items@.len() as int) =~= items@);
                assert(out@ =~= start + json_text(*v));
            }
        },
        JsonValue::Object(members) => {
            push_char(out, '{');
            let mut i: usize = 0;
            while i < members.len()
                invariant
                    i <= members@.len(),
                    *v == JsonValue::Object(*members),
                    out@ == start + seq!['{'] + members_text(members@.subrange(0, i as int)),
                decreases members@.len() - i,
            {
                if i > 0 {
                    push_char(out, ',');
                }
                let member = &members[i];
                push_string_literal(out, member.0.as_str());
                push_char(out, ':');
                proof {
                    assert(decreases_to!(v => v->Object_0));
                    assert(decreases_to!(*members => members@));
                    assert(decreases_to!(members@ => members@[i as int]));
                    assert(decreases_to!(members@[i as int] => members@[i as int].1));
                }
                push_json(out, &member.1);
                proof {
                    assert(member_text(members@[i as int]) == string_text(member.0@) + seq![':']
                        + json_text(member.1));
                    let next = members@.subrange(0, i as int + 1);
                    assert(next.subrange(0, i as int) =~= members@.subrange(0, i as int));
                    assert(next[i as int] == members@[i as int]);
                    assert(out@ =~= start + seq!['{'] + members_text(next));
                }
                i = i + 1;
            }
            push_char(out, '}');
            proof {
                assert(members@.subrange(0, members@.len() as int) =~= members@);
                assert(out@ =~= start + json_text(*v));
            }
        },
    }
}

/// The compact JSON text of `v`.
pub fn to_json_text(v: &JsonValue) -> (r: String)
    ensures
        r@ == json_text(*v),
{
    let mut out = String::new();
    push_json(&mut out, v);
    proof {
        assert(out@ =~= json_text(*v));
    }
    out
}

/// The value of the first member whose key is `key`.
pub open spec fn lookup(members: Seq<(String, JsonValue)>, key: Seq<char>) -> Option<JsonValue>
    decreases members.len(),
{
    if members.len() == 0 {
        None
    } else if members[0].0@ == key {
        Some(members[0].1)
    } else {
        lookup(members.drop_first(), key)
    }
}

/// The member `key` of an object; nothing for a value of another kind.
pub open spec fn field(v: JsonValue, key: Seq<char>) -> Option<JsonValue> {
    match v {
        JsonValue::Object(members) => lookup(members@, key),
        _ => None,
    }
}

/// The characters of a string value, or `default` for anything else.
pub open spec fn text_or(v: Option<JsonValue>, default: Seq<char>) -> Seq<char> {
    match v {
        Some(JsonValue::String(s)) => s@,
        _ => default,
    }
}

/// A non-negative integer value, or zero for anything else.
pub open spec fn unsigned_or_zero(v: Option<JsonValue>) -> u64 {
    match v {
        Some(JsonValue::Number(JsonNumber::PosInt(u))) => u,
        _ => 0,
    }
}

/// The member `key` of `v`, when `v` is an object that has one.
pub fn get<'a>(v: &'a JsonValue, key: &str) -> (r: Option<&'a JsonValue>)
    ensures
        match r {
            Some(x) => field(*v, key@) == Some(*x),
            None => field(*v, key@) is None,
        },
{
    match v {
        JsonValue::Object(members) => {
            let wanted = String::from_str(key);
            let mut i: usize = 0;
            assert(members@.subrange(0, members@.len() as int) =~= members@);
            while i < members.len()
                invariant
                    i <= members@.len(),
                    wanted@ == key@,
                    *v == JsonValue::Object(*members),
                    lookup(members@, key@) == lookup(members@.subrange(i as int, members@.len() as int), key@),
                decreases members@.len() - i,
            {
                let ghost rest = members@.subrange(i as int, members@.len() as int);
                if members[i].0 == wanted {
                    return Some(&members[i].1);
                }
                assert(rest.drop_first() =~= members@.subrange(i as int + 1, members@.len() as int));
                i = i + 1;
            }
            None
        },
        _ => None,
    }
}

/// The characters of the string member `key`, or `default`.
pub fn text_field_or(v: &JsonValue, key: &str, default: &str) -> (r: String)
    ensures
        r@ == text_or(field(*v, key@), default@),
{
    match get(v, key) {
        Some(JsonValue::String(s)) => s.clone(),
        _ => String::from_str(default),
    }
}

/// The non-negative integer member `key`, or zero.
pub fn unsigned_field_or_zero(v: &JsonValue, key: &str) -> (r: u64)
    ensures
        r == unsigned_or_zero(field(*v, key@)),
{
    match get(v, key) {
        Some(JsonValue::Number(JsonNumber::PosInt(u))) => *u,
        _ => 0,
    }
}

} // verus!
