//! Reading and rewriting Cursor's `storage.json`: a JSON object whose members the library
//! reads and replaces by key.
use vstd::prelude::*;

use crate::deps::{
    json_error_text, json_get_str, json_is_object, json_member, json_members, json_parsed, json_nesting, json_parse,
    json_pretty_text, json_reading, json_remove, json_set_str, json_to_pretty, member_text,
};

verus! {

/// Why a storage text could not be processed.
pub enum StorageError {
    /// The text is not JSON; the parser's message.
    Parse(String),
    /// The updated document could not be written out; the serializer's message.
    Serialize(String),
}

impl StorageError {
    /// The message carried by the error.
    pub fn message(&self) -> (res: String)
        ensures
            res@ == match self {
                StorageError::Parse(m) => m@,
                StorageError::Serialize(m) => m@,
            },
    {
        match self {
            StorageError::Parse(m) => m.clone(),
            StorageError::Serialize(m) => m.clone(),
        }
    }
}

/// Parses a storage text.
pub fn parse_storage(content: &str) -> (res: Result<serde_json::Value, StorageError>)
    ensures
        res is Ok <==> json_reading(content@) is Some,
        res matches Ok(v) ==> json_parsed(content@) == Some(v),
        res matches Ok(v) ==> json_reading(content@) == Some((json_is_object(v), json_members(v)))
            && json_nesting(v) < 128,
        res is Err ==> res matches Err(StorageError::Parse(_)),
{
    match json_parse(content) {
        Ok(v) => Ok(v),
        Err(e) => Err(StorageError::Parse(json_error_text(&e))),
    }
}

/// Writes a document out as pretty JSON.
pub fn render_storage(v: &serde_json::Value) -> (res: Result<String, StorageError>)
    ensures
        res matches Ok(t) && json_pretty_text(*v) == Some(t@),
        res matches Ok(t) ==> json_nesting(*v) < 128 ==> json_reading(t@) == Some(
            (json_is_object(*v), json_members(*v)),
        ),
        res is Err ==> res matches Err(StorageError::Serialize(_)),
{
    match json_to_pretty(v) {
        Ok(t) => Ok(t),
        Err(e) => Err(StorageError::Serialize(json_error_text(&e))),
    }
}

/// The text of member `key`, or `default` when it is missing or not a string.
pub fn member_text_or(v: &serde_json::Value, key: &str, default: &String) -> (res: String)
    ensures
        res@ == match member_text(json_members(*v), key@) {
            Some(t) => t,
            None => default@,
        },
{
    match json_get_str(v, key) {
        Some(t) => t,
        None => default.clone(),
    }
}

/// The members after setting each `(key, text)` pair in turn (objects only).
pub open spec fn with_texts(
    m: Map<Seq<char>, Option<Seq<char>>>,
    pairs: Seq<(Seq<char>, Seq<char>)>,
) -> Map<Seq<char>, Option<Seq<char>>>
    decreases pairs.len(),
{
    if pairs.len() == 0 {
        m
    } else {
        with_texts(m, pairs.drop_last()).insert(pairs.last().0, Some(pairs.last().1))
    }
}

/// The members after removing each key in turn.
pub open spec fn without_keys(m: Map<Seq<char>, Option<Seq<char>>>, keys: Seq<Seq<char>>) -> Map<
    Seq<char>,
    Option<Seq<char>>,
>
    decreases keys.len(),
{
    if keys.len() == 0 {
        m
    } else {
        without_keys(m, keys.drop_last()).remove(keys.last())
    }
}

/// How many of `keys` are present while removing them in turn.
pub open spec fn removed_count(m: Map<Seq<char>, Option<Seq<char>>>, keys: Seq<Seq<char>>) -> nat
    decreases keys.len(),
{
    if keys.len() == 0 {
        0
    } else {
        removed_count(m, keys.drop_last()) + if without_keys(m, keys.drop_last()).contains_key(
            keys.last(),
        ) {
            1nat
        } else {
            0nat
        }
    }
}

/// The keys of a list of `(key, text)` pairs.
pub open spec fn pair_keys(pairs: Seq<(Seq<char>, Seq<char>)>) -> Seq<Seq<char>> {
    pairs.map_values(|p: (Seq<char>, Seq<char>)| p.0)
}

/// Every member of `after` whose key is not among `keys` is the member of `before` under
/// that key (the whole JSON value, whatever its kind), and a key missing from one is missing
/// from the other.
pub open spec fn keeps_members_except(
    before: serde_json::Value,
    after: serde_json::Value,
    keys: Seq<Seq<char>>,
) -> bool {
    forall|k: Seq<char>| !keys.contains(k) ==> #[trigger] json_member(after, k) == json_member(before, k)
}

/// `text` is the pretty JSON of a value of the same kind as the one `content` holds, whose
/// members other than `keys` are those of `content`'s value, unchanged.
pub open spec fn written_keeping(content: Seq<char>, text: Seq<char>, keys: Seq<Seq<char>>) -> bool {
    exists|w: serde_json::Value|
        {
            &&& #[trigger] json_pretty_text(w) == Some(text)
            &&& json_parsed(content) is Some
            &&& json_is_object(w) == json_is_object(json_parsed(content)->0)
            &&& keeps_members_except(json_parsed(content)->0, w, keys)
        }
}

/// Sets each `(key, text)` pair, in order, as a string member of the document.
pub fn set_texts(v: &mut serde_json::Value, pairs: &Vec<(String, String)>)
    ensures
        json_is_object(*final(v)) == json_is_object(*old(v)),
        json_is_object(*old(v)) ==> json_members(*final(v)) == with_texts(
            json_members(*old(v)),
            pairs@.map_values(|p: (String, String)| (p.0@, p.1@)),
        ) && json_nesting(*final(v)) <= json_nesting(*old(v)),
        keeps_members_except(*old(v), *final(v), pair_keys(pairs@.map_values(|p: (String, String)| (p.0@, p.1@)))),
        !json_is_object(*old(v)) ==> *final(v) == *old(v),
{
    let ghost pv = pairs@.map_values(|p: (String, String)| (p.0@, p.1@));
    let mut i: usize = 0;
    while i < pairs.len()
        invariant
            i <= pairs.len(),
            pv == pairs@.map_values(|p: (String, String)| (p.0@, p.1@)),
            json_is_object(*v) == json_is_object(*old(v)),
            json_is_object(*old(v)) ==> json_members(*v) == with_texts(
                json_members(*old(v)),
                pv.take(i as int),
            ) && json_nesting(*v) <= json_nesting(*old(v)),
            keeps_members_except(*old(v), *v, pair_keys(pv.take(i as int))),
            !json_is_object(*old(v)) ==> *v == *old(v),
        decreases pairs.len() - i,
    {
        let ghost before = *v;
        json_set_str(v, pairs[i].0.as_str(), pairs[i].1.as_str());
        assert(pv.take(i + 1).drop_last() =~= pv.take(i as int));
        assert(pair_keys(pv.take(i + 1)) =~= pair_keys(pv.take(i as int)).push(pairs@[i as int].0@));
        assert forall|k: Seq<char>| !pair_keys(pv.take(i + 1)).contains(k) implies #[trigger] json_member(*v, k)
            == json_member(*old(v), k) by {
            assert(k != pairs@[i as int].0@) by {
                assert(pair_keys(pv.take(i + 1))[i as int] == pairs@[i as int].0@);
            }
            if pair_keys(pv.take(i as int)).contains(k) {
                let j = choose|j: int| 0 <= j < pair_keys(pv.take(i as int)).len() && pair_keys(pv.take(i as int))[j] == k;
                assert(pair_keys(pv.take(i + 1))[j] == k);
            }
            assert(json_member(*v, k) == json_member(before, k));
        }
        i += 1;
    }
    assert(pv.take(pairs.len() as int) =~= pv);
}

/// Removes each key, in order; answers how many were present.
pub fn remove_keys(v: &mut serde_json::Value, keys: &Vec<String>) -> (res: usize)
    ensures
        json_is_object(*final(v)) == json_is_object(*old(v)),
        json_members(*final(v)) == without_keys(
            json_members(*old(v)),
            keys@.map_values(|k: String| k@),
        ),
        json_nesting(*final(v)) <= json_nesting(*old(v)),
        keeps_members_except(*old(v), *final(v), keys@.map_values(|k: String| k@)),
        res == if json_is_object(*old(v)) {
            removed_count(json_members(*old(v)), keys@.map_values(|k: String| k@))
        } else {
            0
        },
{
    let ghost kv = keys@.map_values(|k: String| k@);
    let mut count: usize = 0;
    let mut i: usize = 0;
    while i < keys.len()
        invariant
            i <= keys.len(),
            kv == keys@.map_values(|k: String| k@),
            json_is_object(*v) == json_is_object(*old(v)),
            json_members(*v) == without_keys(json_members(*old(v)), kv.take(i as int)),
            json_nesting(*v) <= json_nesting(*old(v)),
            keeps_members_except(*old(v), *v, kv.take(i as int)),
            count == if json_is_object(*old(v)) {
                removed_count(json_members(*old(v)), kv.take(i as int))
            } else {
                0
            },
            count <= i,
        decreases keys.len() - i,
    {
        assert(kv.take(i + 1).drop_last() =~= kv.take(i as int));
        let ghost before = *v;
        if json_remove(v, keys[i].as_str()) {
            count += 1;
        }
        assert forall|k: Seq<char>| !kv.take(i + 1).contains(k) implies #[trigger] json_member(*v, k)
            == json_member(*old(v), k) by {
            assert(kv.take(i + 1)[i as int] == keys@[i as int]@);
            if kv.take(i as int).contains(k) {
                let j = choose|j: int| 0 <= j < kv.take(i as int).len() && kv.take(i as int)[j] == k;
                assert(kv.take(i + 1)[j] == k);
            }
            assert(json_member(*v, k) == json_member(before, k));
        }
        i += 1;
    }
    assert(kv.take(keys.len() as int) =~= kv);
    count
}

} // verus!
