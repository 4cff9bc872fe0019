//! The bridge from JSON payloads to the key-value pairs that a plugin's
//! typed interface takes.

use vstd::prelude::*;
use crate::json::{JsonNumber, JsonValue, field, get, json_text, text_or, to_json_text};

verus! {

/// A value handed to a plugin. Every value crosses as a string.
#[derive(Debug, Clone, PartialEq, Eq)]
pub enum KvValue {
    Str(String),
}

/// One key-value pair of a plugin's input.
#[derive(Debug, Clone, PartialEq, Eq)]
pub struct KvPair {
    pub key: String,
    pub value: KvValue,
}

/// A pair as key characters and value characters.
pub open spec fn pair_view(p: KvPair) -> (Seq<char>, Seq<char>) {
    match p.value {
        KvValue::Str(s) => (p.key@, s@),
    }
}

/// A list of pairs as key and value characters.
pub open spec fn pairs_view(ps: Seq<KvPair>) -> Seq<(Seq<char>, Seq<char>)> {
    ps.map_values(|p: KvPair| pair_view(p))
}

/// The string form of an object member's value: a string as its
/// characters; a number, a boolean, `null`, an array or an object as its
/// JSON text.
pub open spec fn scalar_text(v: JsonValue) -> Seq<char> {
    match v {
        JsonValue::String(s) => s@,
        _ => json_text(v),
    }
}

/// The pairs of an array: one for each element that is an object with both
/// a `key` and a `value` member, each side the member's string or else
/// empty.
pub open spec fn array_pairs(items: Seq<JsonValue>) -> Seq<(Seq<char>, Seq<char>)>
    decreases items.len(),
{
    if items.len() == 0 {
        Seq::empty()
    } else {
        let rest = array_pairs(items.drop_last());
        let item = items.last();
        if field(item, "key"@) is Some && field(item, "value"@) is Some {
            rest.push(
                (text_or(field(item, "key"@), Seq::empty()), text_or(field(item, "value"@), Seq::empty())),
            )
        } else {
            rest
        }
    }
}

/// The pairs of an object: one per member, in order.
pub open spec fn object_pairs(members: Seq<(String, JsonValue)>) -> Seq<(Seq<char>, Seq<char>)> {
    members.map_values(|m: (String, JsonValue)| (m.0@, scalar_text(m.1)))
}

/// The pairs that a JSON value converts to; none for a value that is
/// neither an array nor an object.
pub open spec fn kv_pairs_of(v: JsonValue) -> Seq<(Seq<char>, Seq<char>)> {
    match v {
        JsonValue::Array(items) => array_pairs(items@),
        JsonValue::Object(members) => object_pairs(members@),
        _ => Seq::empty(),
    }
}

/// The string member `key` of `v`, or the empty string.
fn text_or_empty(v: &JsonValue, key: &str) -> (r: String)
    ensures
        r@ == text_or(field(*v, key@), Seq::empty()),
{
    match get(v, key) {
        Some(JsonValue::String(s)) => s.clone(),
        _ => String::new(),
    }
}

/// The string form of a member's value.
fn scalar_string(v: &JsonValue) -> (r: String)
    ensures
        r@ == scalar_text(*v),
{
    match v {
        JsonValue::String(s) => s.clone(),
        _ => to_json_text(v),
    }
}

/// Converts a JSON payload into key-value pairs.
pub fn json_to_kvpairs(params: &JsonValue) -> (r: Vec<KvPair>)
    ensures
        pairs_view(r@) == kv_pairs_of(*params),
{
    let mut pairs: Vec<KvPair> = Vec::new();
    match params {
        JsonValue::Array(items) => {
            let mut i: usize = 0;
            while i < items.len()
                invariant
                    i <= items@.len(),
                    *params == JsonValue::Array(*items),
                    pairs_view(pairs@) == array_pairs(items@.subrange(0, i as int)),
                decreases items@.len() - i,
            {
                let item = &items[i];
                let ghost before = pairs@;
                if get(item, "key").is_some() && get(item, "value").is_some() {
                    let key = text_or_empty(item, "key");
                    let value = text_or_empty(item, "value");
                    pairs.push(KvPair { key, value: KvValue::Str(value) });
                    assert(pairs_view(pairs@) =~= pairs_view(before).push(pair_view(pairs@.last())));
                }
                proof {
                    let next = items@.subrange(0, i as int + 1);
                    assert(next.drop_last() =~= items@.subrange(0, i as int));
                }
                i = i + 1;
            }
            assert(items@.subrange(0, items@.len() as int) =~= items@);
        },
        JsonValue::Object(members) => {
            let mut i: usize = 0;
            while i < members.len()
                invariant
                    i <= members@.len(),
                    *params == JsonValue::Object(*members),
                    pairs_view(pairs@) == object_pairs(members@.subrange(0, i as int)),
                decreases members@.len() - i,
            {
                let member = &members[i];
                let ghost before = pairs@;
                let value = scalar_string(&member.1);
                pairs.push(KvPair { key: member.0.clone(), value: KvValue::Str(value) });
                proof {
                    let prefix = members@.subrange(0, i as int);
                    let next = members@.subrange(0, i as int + 1);
                    assert(next =~= prefix.push(members@[i as int]));
                    assert(object_pairs(next) =~= object_pairs(prefix).push(
                        (members@[i as int].0@, scalar_text(members@[i as int].1)),
                    ));
                    assert(pairs_view(pairs@) =~= pairs_view(before).push(pair_view(pairs@.last())));
                }
                i = i + 1;
            }
            assert(members@.subrange(0, members@.len() as int) =~= members@);
        },
        _ => {
            assert(pairs_view(pairs@) =~= Seq::empty());
        },
    }
    pairs
}

/// An object member holding a non-negative integer becomes a pair whose
/// value is the integer's decimal notation.
pub proof fn lemma_numbers_become_decimal(members: Seq<(String, JsonValue)>, i: int, n: u64)
    requires
        0 <= i < members.len(),
        members[i].1 == JsonValue::Number(JsonNumber::PosInt(n)),
    ensures
        object_pairs(members)[i] == (members[i].0@, crate::text::decimal(n as nat)),
{
}

} // verus!
