//! A structured value: the tree of objects, arrays and scalars that a
//! decoded response body forms. Numbers are kept as their decimal
//! rendering, so the tree carries no numeric type of its own.

use vstd::prelude::*;

verus! {

/// One node of a structured value tree.
#[derive(Debug, PartialEq)]
pub enum JsonValue {
    Null,
    Bool(bool),
    Number(String),
    Text(String),
    Array(Vec<JsonValue>),
    Object(Vec<(String, JsonValue)>),
}

/// The value under the first pair whose key reads `key`, if any.
pub open spec fn pairs_lookup(pairs: Seq<(String, JsonValue)>, key: Seq<char>) -> Option<
    JsonValue,
>
    decreases pairs.len(),
{
    if pairs.len() == 0 {
        None
    } else if pairs[0].0@ == key {
        Some(pairs[0].1)
    } else {
        pairs_lookup(pairs.drop_first(), key)
    }
}

/// The value under `key` when `v` is an object that has it; `None` when the
/// key is absent or `v` is no object.
pub open spec fn key_of(v: JsonValue, key: Seq<char>) -> Option<JsonValue> {
    match v {
        JsonValue::Object(pairs) => pairs_lookup(pairs@, key),
        _ => None,
    }
}

/// The first element when `v` is a non-empty array; `None` otherwise.
pub open spec fn first_of(v: JsonValue) -> Option<JsonValue> {
    match v {
        JsonValue::Array(items) => if items@.len() > 0 {
            Some(items@[0])
        } else {
            None
        },
        _ => None,
    }
}

/// The characters of `v` when it is a text node; `None` otherwise.
pub open spec fn text_of(v: JsonValue) -> Option<Seq<char>> {
    match v {
        JsonValue::Text(s) => Some(s@),
        _ => None,
    }
}

/// Find `key` in `v`, an object or anything else.
pub fn get_key<'a>(v: &'a JsonValue, key: &String) -> (r: Option<&'a JsonValue>)
    ensures
        match key_of(*v, key@) {
            Some(w) => r matches Some(x) && *x == w,
            None => r is None,
        },
{
    match v {
        JsonValue::Object(pairs) => {
            let n = pairs.len();
            let mut i: usize = 0;
            proof {
                assert(pairs@.skip(0) =~= pairs@);
            }
            while i < n
                invariant
                    i <= n == pairs@.len(),
                    key_of(*v, key@) == pairs_lookup(pairs@, key@),
                    pairs_lookup(pairs@, key@) == pairs_lookup(pairs@.skip(i as int), key@),
                decreases n - i,
            {
                if pairs[i].0 == *key {
                    proof {
                        assert(pairs@.skip(i as int)[0] == pairs@[i as int]);
                        assert(pairs_lookup(pairs@.skip(i as int), key@) == Some(
                            pairs@[i as int].1,
                        ));
                    }
                    return Some(&pairs[i].1);
                }
                proof {
                    assert(pairs@.skip(i as int)[0] == pairs@[i as int]);
                    assert(pairs@.skip(i as int).drop_first() =~= pairs@.skip(i + 1));
                }
                i = i + 1;
            }
            proof {
                assert(pairs@.skip(n as int) =~= Seq::<(String, JsonValue)>::empty());
            }
            None
        },
        _ => None,
    }
}

/// The first element of `v`, an array or anything else.
pub fn get_first<'a>(v: &'a JsonValue) -> (r: Option<&'a JsonValue>)
    ensures
        match first_of(*v) {
            Some(w) => r matches Some(x) && *x == w,
            None => r is None,
        },
{
    match v {
        JsonValue::Array(items) => {
            if items.len() > 0 {
                Some(&items[0])
            } else {
                None
            }
        },
        _ => None,
    }
}

/// The text held by `v`, a text node or anything else.
pub fn get_text<'a>(v: &'a JsonValue) -> (r: Option<&'a String>)
    ensures
        match text_of(*v) {
            Some(s) => r matches Some(x) && x@ == s,
            None => r is None,
        },
{
    match v {
        JsonValue::Text(s) => Some(s),
        _ => None,
    }
}

} // verus!
