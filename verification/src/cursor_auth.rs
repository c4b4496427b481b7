//! Cursor's sign-in data: tokens, the signed-in email, and the members of storage.json and
//! of the SQLite store that hold them.
use vstd::prelude::*;

use crate::deps::{
    json_get_str, json_is_object, json_member_list, json_members, json_parse, json_pretty_text, json_reading,
    lowercase_of, member_text, to_lowercase,
};
use crate::storage::{
    StorageError, pair_keys, parse_storage, remove_keys, removed_count, render_storage, set_texts,
    with_texts, without_keys, written_keeping,
};
use vstd::utf8::encode_utf8;

use crate::text::{
    chars_of, contains, contains_spec, lemma_lex_order, lex_lt, opt_view, split_second,
    split_second_spec, string_of,
};

verus! {

/// The URL-encoded separator between user id and token.
pub open spec fn encoded_separator() -> Seq<char> {
    seq!['%', '3', 'A', '%', '3', 'A']
}

/// The plain separator between user id and token.
pub open spec fn colon_separator() -> Seq<char> {
    seq![':', ':']
}

/// The token to store: for `user_id%3A%3Atoken` or `user_id::token` the part after the
/// separator (up to any next separator), otherwise the token as given.
pub open spec fn processed_token_spec(token: Seq<char>) -> Seq<char> {
    if contains_spec(token, encoded_separator()) {
        split_second_spec(token, encoded_separator()).unwrap()
    } else if contains_spec(token, colon_separator()) {
        split_second_spec(token, colon_separator()).unwrap()
    } else {
        token
    }
}

/// The token to store for a given session token.
pub fn process_token(token: &str) -> (res: String)
    ensures
        res@ == processed_token_spec(token@),
{
    let t = chars_of(token);
    let mut enc: Vec<char> = Vec::new();
    enc.push('%');
    enc.push('3');
    enc.push('A');
    enc.push('%');
    enc.push('3');
    enc.push('A');
    let mut colons: Vec<char> = Vec::new();
    colons.push(':');
    colons.push(':');
    assert(enc@ =~= encoded_separator());
    assert(colons@ =~= colon_separator());
    if contains(&t, &enc) {
        match split_second(&t, &enc) {
            Some(p) => string_of(&p),
            None => String::from_str(token),
        }
    } else if contains(&t, &colons) {
        match split_second(&t, &colons) {
            Some(p) => string_of(&p),
            None => String::from_str(token),
        }
    } else {
        String::from_str(token)
    }
}

/// Member keys of Cursor's sign-in data.
pub open spec fn cached_email_key() -> Seq<char> {
    "cursorAuth/cachedEmail"@
}

pub open spec fn access_token_key() -> Seq<char> {
    "cursorAuth/accessToken"@
}

pub open spec fn refresh_token_key() -> Seq<char> {
    "cursorAuth/refreshToken"@
}

pub open spec fn sign_up_type_key() -> Seq<char> {
    "cursorAuth/cachedSignUpType"@
}

pub open spec fn cursor_email_key() -> Seq<char> {
    "cursor.email"@
}

pub open spec fn cursor_access_token_key() -> Seq<char> {
    "cursor.accessToken"@
}

/// The sign-in members written to storage.json on a switch, in order.
pub open spec fn storage_auth_pairs(email: Seq<char>, token: Seq<char>) -> Seq<(Seq<char>, Seq<char>)> {
    seq![
        (cached_email_key(), email),
        (access_token_key(), token),
        (refresh_token_key(), token),
        (sign_up_type_key(), "Auth_0"@),
        (cursor_email_key(), email),
        (cursor_access_token_key(), token),
    ]
}

/// The sign-in members removed from storage.json on sign-out, in order.
pub open spec fn storage_auth_keys() -> Seq<Seq<char>> {
    seq![
        cached_email_key(),
        access_token_key(),
        refresh_token_key(),
        sign_up_type_key(),
        cursor_email_key(),
        cursor_access_token_key(),
    ]
}

/// The six sign-in keys are distinct.
pub proof fn lemma_auth_keys_distinct()
    ensures
        forall|i: int, j: int|
            0 <= i < 6 && 0 <= j < 6 && i != j ==> #[trigger] storage_auth_keys()[i]
                != #[trigger] storage_auth_keys()[j],
{
    reveal_strlit("cursorAuth/cachedEmail");
    reveal_strlit("cursorAuth/accessToken");
    reveal_strlit("cursorAuth/refreshToken");
    reveal_strlit("cursorAuth/cachedSignUpType");
    reveal_strlit("cursor.email");
    reveal_strlit("cursor.accessToken");
    let k = storage_auth_keys();
    assert(k[0][11] != k[1][11] && k[0][11] != k[2][11] && k[0][17] != k[3][17]);
    assert(k[1][11] != k[2][11] && k[1][11] != k[3][11] && k[2][11] != k[3][11]);
    assert(k[4][7] != k[5][7]);
    assert forall|i: int, j: int| 0 <= i < 4 && 4 <= j < 6 implies k[i] != k[j] by {
        assert(k[i][6] != k[j][6]);
    }
}

/// A key whose lowercase form mentions "email" holding a string with an `@`.
pub open spec fn is_email_member(m: Map<Seq<char>, Option<Seq<char>>>, key: Seq<char>) -> bool {
    &&& contains_spec(lowercase_of(key), seq!['e', 'm', 'a', 'i', 'l'])
    &&& member_text(m, key) matches Some(t) && contains_spec(t, seq!['@'])
}

/// Whether `s` contains an `@`.
pub fn has_at_sign(s: &str) -> (res: bool)
    ensures
        res == contains_spec(s@, seq!['@']),
{
    let mut at: Vec<char> = Vec::new();
    at.push('@');
    assert(at@ =~= seq!['@']);
    contains(&chars_of(s), &at)
}

/// The signed-in email found in storage.json's text: `cursorAuth/cachedEmail` when it holds
/// an `@`, otherwise the first member, in key order, whose lowercase key mentions "email"
/// and whose text holds an `@`. `None` for text that is not JSON.
pub fn storage_email(content: &str) -> (res: Option<String>)
    ensures
        json_reading(content@) is None ==> res is None,
        json_reading(content@) matches Some((_, m)) ==> {
            &&& (member_text(m, cached_email_key()) matches Some(c) && contains_spec(c, seq!['@']))
                ==> opt_view(res) == member_text(m, cached_email_key())
            &&& !(member_text(m, cached_email_key()) matches Some(c) && contains_spec(c, seq!['@']))
                ==> {
                &&& res matches Some(e) ==> exists|k: Seq<char>|
                    is_email_member(m, k) && member_text(m, k) == Some(e@) && forall|k2: Seq<char>|
                        is_email_member(m, k2) ==> !lex_lt(k2, k)
                &&& res is None ==> forall|k: Seq<char>| !is_email_member(m, k)
            }
        },
{
    let v = match json_parse(content) {
        Ok(v) => v,
        Err(_) => {
            return None;
        },
    };
    let ghost m = json_members(v);
    match json_get_str(&v, "cursorAuth/cachedEmail") {
        Some(c) => {
            if has_at_sign(c.as_str()) {
                return Some(c);
            }
        },
        None => {},
    }
    let list = json_member_list(&v);
    let mut word: Vec<char> = Vec::new();
    word.push('e');
    word.push('m');
    word.push('a');
    word.push('i');
    word.push('l');
    assert(word@ =~= seq!['e', 'm', 'a', 'i', 'l']);
    let mut i: usize = 0;
    while i < list.len()
        invariant
            i <= list.len(),
            word@ == seq!['e', 'm', 'a', 'i', 'l'],
            m == json_members(v),
            json_reading(content@) == Some((json_is_object(v), json_members(v))),
            !(member_text(m, cached_email_key()) matches Some(c) && contains_spec(c, seq!['@'])),
            forall|j: int|
                0 <= j < list@.len() ==> json_members(v).contains_key((#[trigger] list@[j]).0@)
                    && json_members(v)[list@[j].0@] == opt_view(list@[j].1),
            forall|j: int| 0 <= j < i ==> !is_email_member(m, (#[trigger] list@[j]).0@),
            forall|a: int, b: int|
                0 <= a < b < list@.len() ==> lex_lt((#[trigger] list@[a]).0@, (#[trigger] list@[b]).0@),
            forall|k: Seq<char>|
                json_members(v).contains_key(k) ==> exists|j: int|
                    0 <= j < list@.len() && (#[trigger] list@[j]).0@ == k,
        decreases list.len() - i,
    {
        let key = &list[i].0;
        let lower = to_lowercase(key.as_str());
        if contains(&chars_of(lower.as_str()), &word) {
            match &list[i].1 {
                Some(t) => {
                    if has_at_sign(t.as_str()) {
                        proof {
                            assert(member_text(m, key@) == Some(t@));
                            assert(is_email_member(m, key@));
                            assert forall|k2: Seq<char>| is_email_member(m, k2) implies !lex_lt(
                                k2,
                                key@,
                            ) by {
                                let j = choose|j: int|
                                    0 <= j < list@.len() && (#[trigger] list@[j]).0@ == k2;
                                lemma_lex_order(k2, key@, key@);
                                if j > i {
                                    assert(lex_lt(list@[i as int].0@, list@[j].0@));
                                } else if j == i {
                                } else {
                                    assert(!is_email_member(m, list@[j].0@));
                                }
                            }
                        }
                        return Some(t.clone());
                    }
                },
                None => {},
            }
        }
        i += 1;
    }
    proof {
        assert forall|k: Seq<char>| !is_email_member(m, k) by {
            if is_email_member(m, k) {
                let j = choose|j: int| 0 <= j < list@.len() && (#[trigger] list@[j]).0@ == k;
                assert(!is_email_member(m, list@[j].0@));
            }
        }
    }
    None
}

} // verus!

verus! {

/// The email a single SQLite value yields: the value itself when it holds an `@` and is
/// between 6 and 99 bytes long; otherwise, when it is a JSON object, its `email` member, or
/// else its `cachedEmail` member (string members only).
pub open spec fn sqlite_value_email(v: Seq<char>) -> Option<Seq<char>> {
    if contains_spec(v, seq!['@']) && 5 < (encode_utf8(v).len() as usize) && (encode_utf8(v).len() as usize) < 100 {
        Some(v)
    } else {
        match json_reading(v) {
            Some((_, m)) => {
                if member_text(m, "email"@) is Some {
                    member_text(m, "email"@)
                } else {
                    member_text(m, "cachedEmail"@)
                }
            },
            None => None,
        }
    }
}

/// The email the first yielding value gives, scanning values in order.
pub open spec fn first_sqlite_email(values: Seq<Seq<char>>) -> Option<Seq<char>>
    decreases values.len(),
{
    if values.len() == 0 {
        None
    } else {
        match sqlite_value_email(values[0]) {
            Some(e) => Some(e),
            None => first_sqlite_email(values.drop_first()),
        }
    }
}

/// The signed-in email found among the SQLite values read for the email and sign-in keys.
pub fn sqlite_email(values: &Vec<String>) -> (res: Option<String>)
    ensures
        opt_view(res) == first_sqlite_email(values@.map_values(|s: String| s@)),
{
    let ghost vs = values@.map_values(|s: String| s@);
    let mut i: usize = 0;
    assert(vs.skip(0) =~= vs);
    while i < values.len()
        invariant
            i <= values.len(),
            vs == values@.map_values(|s: String| s@),
            first_sqlite_email(vs) == first_sqlite_email(vs.skip(i as int)),
        decreases values.len() - i,
    {
        let value = &values[i];
        let ghost rest = vs.skip(i as int);
        assert(rest[0] == value@);
        assert(rest.drop_first() =~= vs.skip(i + 1));
        let vstr = value.as_str();
        let len = vstr.len();
        assert(len == (encode_utf8(value@).len() as usize));
        if has_at_sign(vstr) && len > 5 && len < 100 {
            assert(sqlite_value_email(rest[0]) == Some(value@));
            assert(first_sqlite_email(rest) == Some(value@));
            return Some(value.clone());
        }
        match json_parse(value.as_str()) {
            Ok(doc) => {
                match json_get_str(&doc, "email") {
                    Some(e) => {
                        return Some(e);
                    },
                    None => {},
                }
                match json_get_str(&doc, "cachedEmail") {
                    Some(e) => {
                        return Some(e);
                    },
                    None => {},
                }
            },
            Err(_) => {},
        }
        i += 1;
    }
    None
}

/// storage.json's text with the sign-in members for `email` and `token` written into it (a
/// document that is not an object is written back unchanged). The token is processed first.
pub fn storage_with_auth(content: &str, email: &str, token: &str) -> (res: Result<String, StorageError>)
    ensures
        res is Ok <==> json_reading(content@) is Some,
        json_reading(content@) is None ==> res matches Err(StorageError::Parse(_)),
        res matches Ok(t) ==> json_reading(content@) matches Some((is_obj, m)) && json_reading(t@)
            == Some(
            (is_obj, if is_obj {
                with_texts(m, storage_auth_pairs(email@, processed_token_spec(token@)))
            } else {
                m
            }),
        ),
        res matches Ok(t) ==> written_keeping(content@, t@, storage_auth_keys()),
{
    let mut v = parse_storage(content)?;
    let pt = process_token(token);
    let mut pairs: Vec<(String, String)> = Vec::new();
    pairs.push((String::from_str("cursorAuth/cachedEmail"), String::from_str(email)));
    pairs.push((String::from_str("cursorAuth/accessToken"), pt.clone()));
    pairs.push((String::from_str("cursorAuth/refreshToken"), pt.clone()));
    pairs.push((String::from_str("cursorAuth/cachedSignUpType"), String::from_str("Auth_0")));
    pairs.push((String::from_str("cursor.email"), String::from_str(email)));
    pairs.push((String::from_str("cursor.accessToken"), pt.clone()));
    proof {
        assert(pairs@.map_values(|p: (String, String)| (p.0@, p.1@)) =~= storage_auth_pairs(
            email@,
            pt@,
        ));
        assert(pair_keys(storage_auth_pairs(email@, pt@)) =~= storage_auth_keys());
    }
    let ghost v0 = v;
    set_texts(&mut v, &pairs);
    let res = render_storage(&v);
    proof {
        if res is Ok {
            let t = res->Ok_0;
            assert(json_pretty_text(v) == Some(t@));
            assert(written_keeping(content@, t@, storage_auth_keys()));
        }
    }
    res
}

/// storage.json's text without its sign-in members, and how many were present.
pub fn storage_without_auth(content: &str) -> (res: Result<(String, usize), StorageError>)
    ensures
        res is Ok <==> json_reading(content@) is Some,
        json_reading(content@) is None ==> res matches Err(StorageError::Parse(_)),
        res matches Ok((t, n)) ==> json_reading(content@) matches Some((is_obj, m)) && json_reading(
            t@,
        ) == Some((is_obj, without_keys(m, storage_auth_keys()))) && n == if is_obj {
            removed_count(m, storage_auth_keys())
        } else {
            0
        },
        res matches Ok((t, _)) ==> written_keeping(content@, t@, storage_auth_keys()),
{
    let mut v = parse_storage(content)?;
    let mut keys: Vec<String> = Vec::new();
    keys.push(String::from_str("cursorAuth/cachedEmail"));
    keys.push(String::from_str("cursorAuth/accessToken"));
    keys.push(String::from_str("cursorAuth/refreshToken"));
    keys.push(String::from_str("cursorAuth/cachedSignUpType"));
    keys.push(String::from_str("cursor.email"));
    keys.push(String::from_str("cursor.accessToken"));
    proof {
        assert(keys@.map_values(|k: String| k@) =~= storage_auth_keys());
    }
    let n = remove_keys(&mut v, &keys);
    let t = render_storage(&v)?;
    assert(json_pretty_text(v) == Some(t@));
    assert(written_keeping(content@, t@, storage_auth_keys()));
    Ok((t, n))
}

} // verus!

verus! {

/// The SQLite rows written to record the signed-in email, in order.
pub fn sqlite_email_fields(email: &str) -> (res: Vec<(String, String)>)
    ensures
        res@.map_values(|p: (String, String)| (p.0@, p.1@)) == seq![
            (cached_email_key(), email@),
            (cursor_email_key(), email@),
        ],
{
    let mut res: Vec<(String, String)> = Vec::new();
    res.push((String::from_str("cursorAuth/cachedEmail"), String::from_str(email)));
    res.push((String::from_str("cursor.email"), String::from_str(email)));
    assert(res@.map_values(|p: (String, String)| (p.0@, p.1@)) =~= seq![
        (cached_email_key(), email@),
        (cursor_email_key(), email@),
    ]);
    res
}

/// The SQLite rows written to record the session token (processed) and the sign-up type,
/// in order.
pub fn sqlite_auth_fields(token: &str, auth_type: &str) -> (res: Vec<(String, String)>)
    ensures
        res@.map_values(|p: (String, String)| (p.0@, p.1@)) == seq![
            (access_token_key(), processed_token_spec(token@)),
            (refresh_token_key(), processed_token_spec(token@)),
            (cursor_access_token_key(), processed_token_spec(token@)),
            (sign_up_type_key(), auth_type@),
        ],
{
    let pt = process_token(token);
    let mut res: Vec<(String, String)> = Vec::new();
    res.push((String::from_str("cursorAuth/accessToken"), pt.clone()));
    res.push((String::from_str("cursorAuth/refreshToken"), pt.clone()));
    res.push((String::from_str("cursor.accessToken"), pt.clone()));
    res.push((String::from_str("cursorAuth/cachedSignUpType"), String::from_str(auth_type)));
    assert(res@.map_values(|p: (String, String)| (p.0@, p.1@)) =~= seq![
        (access_token_key(), processed_token_spec(token@)),
        (refresh_token_key(), processed_token_spec(token@)),
        (cursor_access_token_key(), processed_token_spec(token@)),
        (sign_up_type_key(), auth_type@),
    ]);
    res
}

/// The SQLite keys deleted on sign-out, in order.
pub fn sqlite_auth_keys() -> (res: Vec<String>)
    ensures
        res@.map_values(|k: String| k@) == seq![
            access_token_key(),
            refresh_token_key(),
            cached_email_key(),
            sign_up_type_key(),
            cursor_email_key(),
            cursor_access_token_key(),
        ],
{
    let mut res: Vec<String> = Vec::new();
    res.push(String::from_str("cursorAuth/accessToken"));
    res.push(String::from_str("cursorAuth/refreshToken"));
    res.push(String::from_str("cursorAuth/cachedEmail"));
    res.push(String::from_str("cursorAuth/cachedSignUpType"));
    res.push(String::from_str("cursor.email"));
    res.push(String::from_str("cursor.accessToken"));
    assert(res@.map_values(|k: String| k@) =~= seq![
        access_token_key(),
        refresh_token_key(),
        cached_email_key(),
        sign_up_type_key(),
        cursor_email_key(),
        cursor_access_token_key(),
    ]);
    res
}

/// A switch writes the email, the token and the sign-up type where a read looks for them.
pub proof fn law_switch_writes_sign_in(
    m: Map<Seq<char>, Option<Seq<char>>>,
    email: Seq<char>,
    token: Seq<char>,
)
    ensures
        ({
            let after = with_texts(m, storage_auth_pairs(email, token));
            &&& member_text(after, cached_email_key()) == Some(email)
            &&& member_text(after, cursor_email_key()) == Some(email)
            &&& member_text(after, access_token_key()) == Some(token)
            &&& member_text(after, refresh_token_key()) == Some(token)
            &&& member_text(after, cursor_access_token_key()) == Some(token)
            &&& member_text(after, sign_up_type_key()) == Some("Auth_0"@)
        }),
{
    lemma_auth_keys_distinct();
    let k = storage_auth_keys();
    assert(k[0] != k[1] && k[0] != k[2] && k[0] != k[3] && k[0] != k[4] && k[0] != k[5]);
    assert(k[1] != k[2] && k[1] != k[3] && k[1] != k[4] && k[1] != k[5]);
    assert(k[2] != k[3] && k[2] != k[4] && k[2] != k[5]);
    assert(k[3] != k[4] && k[3] != k[5] && k[4] != k[5]);
    reveal_with_fuel(with_texts, 7);
    let p = storage_auth_pairs(email, token);
    assert(p.drop_last().drop_last().drop_last().drop_last().drop_last().drop_last() =~= Seq::<
        (Seq<char>, Seq<char>),
    >::empty());
}

/// Signing out after a switch leaves storage.json as signing out without the switch would,
/// and no sign-in member is left.
pub proof fn law_sign_out_undoes_switch(
    m: Map<Seq<char>, Option<Seq<char>>>,
    email: Seq<char>,
    token: Seq<char>,
)
    ensures
        without_keys(with_texts(m, storage_auth_pairs(email, token)), storage_auth_keys())
            == without_keys(m, storage_auth_keys()),
        forall|i: int|
            0 <= i < 6 ==> !without_keys(m, storage_auth_keys()).contains_key(
                #[trigger] storage_auth_keys()[i],
            ),
{
    reveal_with_fuel(with_texts, 7);
    reveal_with_fuel(without_keys, 7);
    let p = storage_auth_pairs(email, token);
    let k = storage_auth_keys();
    assert(p.drop_last().drop_last().drop_last().drop_last().drop_last().drop_last() =~= Seq::<
        (Seq<char>, Seq<char>),
    >::empty());
    assert(k.drop_last().drop_last().drop_last().drop_last().drop_last().drop_last() =~= Seq::<
        Seq<char>,
    >::empty());
    assert(without_keys(with_texts(m, p), k) =~= without_keys(m, k));
}

} // verus!
