//! Calls into other crates, each behind a contract that Verus takes on trust.
use vstd::prelude::*;

use base64::Engine;
use rand::Rng;
use sha2::Digest;

use crate::text::{decimal_spec, lex_lt, opt_view};

verus! {

/// `chrono::Local::now()` formatted with `"%Y-%m-%d %H:%M:%S"`. The result depends on the
/// clock and the machine's time zone, so nothing is stated of it.
#[verifier::external_body]
pub(crate) fn local_now_seconds_text() -> String {
    chrono::Local::now().format("%Y-%m-%d %H:%M:%S").to_string()
}

} // verus!

verus! {

#[verifier::external_type_specification]
#[verifier::external_body]
pub struct ExJsonValue(serde_json::Value);

#[verifier::external_type_specification]
#[verifier::external_body]
pub struct ExJsonError(serde_json::Error);

/// The members of a JSON value that is an object: each key, with the member's text when the
/// member is a JSON string and `None` when it is any other kind of value. For a value that
/// is not an object, the empty map.
pub uninterp spec fn json_members(v: serde_json::Value) -> Map<Seq<char>, Option<Seq<char>>>;

/// Whether a JSON value is an object.
pub uninterp spec fn json_is_object(v: serde_json::Value) -> bool;

/// How deeply arrays and objects nest in a JSON value (0 for a scalar, one more than the
/// deepest member for an array or object).
pub uninterp spec fn json_nesting(v: serde_json::Value) -> nat;

/// What `serde_json::from_str::<serde_json::Value>` reads from a text: `None` when the text
/// is rejected.
pub uninterp spec fn json_parsed(text: Seq<char>) -> Option<serde_json::Value>;

/// Whether the value read from a text is an object, and its members as `json_members`
/// describes them; `None` when the text is rejected.
pub open spec fn json_reading(text: Seq<char>) -> Option<(bool, Map<Seq<char>, Option<Seq<char>>>)> {
    match json_parsed(text) {
        Some(v) => Some((json_is_object(v), json_members(v))),
        None => None,
    }
}

/// What `str::to_lowercase` returns for a text.
pub uninterp spec fn lowercase_of(s: Seq<char>) -> Seq<char>;

/// A member's text: `Some` when the key is present and its value is a string.
pub open spec fn member_text(m: Map<Seq<char>, Option<Seq<char>>>, key: Seq<char>) -> Option<Seq<char>> {
    if m.contains_key(key) {
        m[key]
    } else {
        None
    }
}

/// `serde_json::from_str::<serde_json::Value>`. Claimed: the result is `json_parsed` of the
/// text; a value it accepts nests fewer than 128 levels deep (its recursion limit).
#[verifier::external_body]
pub(crate) fn json_parse(text: &str) -> (res: Result<serde_json::Value, serde_json::Error>)
    ensures
        res is Ok <==> json_parsed(text@) is Some,
        res matches Ok(v) ==> json_parsed(text@) == Some(v) && json_nesting(v) < 128,
{
    serde_json::from_str::<serde_json::Value>(text)
}

/// `Value::get(key)` followed by `Value::as_str`. Claimed: the text of the member `key` when
/// the value is an object holding a string there, else `None`.
#[verifier::external_body]
pub(crate) fn json_get_str(v: &serde_json::Value, key: &str) -> (res: Option<String>)
    ensures
        opt_view(res) == member_text(json_members(*v), key@),
{
    v.get(key).and_then(|x| x.as_str()).map(|s| s.to_string())
}

/// `Map::insert(key, Value::String(text))` on the object of `v` (`as_object_mut`). Claimed:
/// an object gains or replaces the member `key` with the string `text`, every other member is
/// kept as it was, and the nesting does not grow (it shrinks when the replaced member was the
/// deepest); any other value is left as it was.
#[verifier::external_body]
pub(crate) fn json_set_str(v: &mut serde_json::Value, key: &str, text: &str)
    ensures
        json_is_object(*final(v)) == json_is_object(*old(v)),
        json_is_object(*old(v)) ==> json_members(*final(v)) == json_members(*old(v)).insert(
            key@,
            Some(text@),
        ) && json_nesting(*final(v)) <= json_nesting(*old(v)),
        forall|k: Seq<char>| k != key@ ==> #[trigger] json_member(*final(v), k) == json_member(*old(v), k),
        !json_is_object(*old(v)) ==> *final(v) == *old(v),
{
    if let Some(obj) = v.as_object_mut() {
        obj.insert(key.to_string(), serde_json::Value::String(text.to_string()));
    }
}

/// `Map::remove(key)` on the object of `v` (`as_object_mut`). Claimed: answers whether an
/// object had the member `key`; the member is gone afterwards, every other member is kept as
/// it was, and nesting does not grow; any other value is left as it was.
#[verifier::external_body]
pub(crate) fn json_remove(v: &mut serde_json::Value, key: &str) -> (res: bool)
    ensures
        res == (json_is_object(*old(v)) && json_members(*old(v)).contains_key(key@)),
        json_is_object(*final(v)) == json_is_object(*old(v)),
        json_members(*final(v)) == json_members(*old(v)).remove(key@),
        json_nesting(*final(v)) <= json_nesting(*old(v)),
        json_member(*final(v), key@) is None,
        forall|k: Seq<char>| k != key@ ==> #[trigger] json_member(*final(v), k) == json_member(*old(v), k),
        !json_is_object(*old(v)) ==> *final(v) == *old(v),
{
    match v.as_object_mut() {
        Some(obj) => obj.remove(key).is_some(),
        None => false,
    }
}

/// The members of an object as `Map::iter` hands them out (`as_object`), each value mapped to
/// its text when it is a string. Claimed: without the `preserve_order` feature the map is a
/// `BTreeMap`, so keys come in ascending order, each once; the pairs are exactly the members.
#[verifier::external_body]
pub(crate) fn json_member_list(v: &serde_json::Value) -> (res: Vec<(String, Option<String>)>)
    ensures
        forall|i: int, j: int|
            0 <= i < j < res@.len() ==> lex_lt((#[trigger] res@[i]).0@, (#[trigger] res@[j]).0@),
        forall|i: int|
            0 <= i < res@.len() ==> json_members(*v).contains_key((#[trigger] res@[i]).0@)
                && json_members(*v)[res@[i].0@] == opt_view(res@[i].1),
        forall|k: Seq<char>|
            json_members(*v).contains_key(k) ==> exists|i: int|
                0 <= i < res@.len() && (#[trigger] res@[i]).0@ == k,
{
    match v.as_object() {
        Some(obj) => obj.iter().map(|(k, x)| (k.clone(), x.as_str().map(|s| s.to_string()))).collect(),
        None => Vec::new(),
    }
}

/// What `serde_json::to_string_pretty` gives for a value: `None` when it fails.
pub uninterp spec fn json_pretty_text(v: serde_json::Value) -> Option<Seq<char>>;

/// `serde_json::to_string_pretty` of a value. Claimed: it succeeds (the crate writes into a
/// `Vec`, which never fails, and `Value`'s `Serialize` raises no error of its own: its map
/// keys are strings and its numbers are finite), and the result is `json_pretty_text`; when
/// the value nests fewer than 128 levels, `serde_json::from_str` reads the text back as a
/// value of the same kind with the same members.
#[verifier::external_body]
pub(crate) fn json_to_pretty(v: &serde_json::Value) -> (res: Result<String, serde_json::Error>)
    ensures
        res is Ok,
        res is Ok <==> json_pretty_text(*v) is Some,
        res matches Ok(t) ==> json_pretty_text(*v) == Some(t@),
        res matches Ok(t) ==> json_nesting(*v) < 128 ==> json_reading(t@) == Some(
            (json_is_object(*v), json_members(*v)),
        ),
{
    serde_json::to_string_pretty(v)
}

/// The items of the member `key` when the value is an object whose member `key` is an array;
/// `None` otherwise.
pub uninterp spec fn json_array_member(v: serde_json::Value, key: Seq<char>) -> Option<Seq<serde_json::Value>>;

/// `Value::get(key)` followed by `Value::as_array`, the items cloned. Claimed: the result is
/// `json_array_member`, and each item nests less deeply than the value holding it.
#[verifier::external_body]
pub(crate) fn json_get_array(v: &serde_json::Value, key: &str) -> (res: Option<Vec<serde_json::Value>>)
    ensures
        res is Some <==> json_array_member(*v, key@) is Some,
        res matches Some(items) ==> json_array_member(*v, key@) == Some(items@)
            && forall|i: int| 0 <= i < items@.len() ==> json_nesting(#[trigger] items@[i]) < json_nesting(*v),
{
    v.get(key).and_then(|x| x.as_array()).map(|a| a.clone())
}

/// The member `key` of a value that is an object holding it; `None` otherwise.
pub uninterp spec fn json_member(v: serde_json::Value, key: Seq<char>) -> Option<serde_json::Value>;

/// `Value::get(key)`, the member cloned. Claimed: the result is `json_member`.
#[verifier::external_body]
pub(crate) fn json_get(v: &serde_json::Value, key: &str) -> (res: Option<serde_json::Value>)
    ensures
        res == json_member(*v, key@),
{
    v.get(key).map(|x| x.clone())
}

/// A character that `serde_json` writes inside a string as it is, without an escape.
pub open spec fn json_plain_char(c: char) -> bool {
    c != '"' && c != '\\' && c >= ' '
}

/// `serde_json::to_string` of an object with the one member `key` holding the number `n`.
/// Claimed: the compact text `{"key":n}` with `n` in decimal, when no character of the key
/// needs an escape (the crate's `ESCAPE` table escapes `"`, `\` and the control characters
/// below a space); writing a value never fails.
#[verifier::external_body]
pub(crate) fn json_number_object_text(key: &str, n: u32) -> (res: String)
    requires
        forall|i: int| 0 <= i < key@.len() ==> json_plain_char(#[trigger] key@[i]),
    ensures
        res@ == "{\""@ + key@ + "\":"@ + decimal_spec(n as nat) + "}"@,
{
    let mut map = serde_json::Map::new();
    map.insert(key.to_string(), serde_json::Value::from(n));
    serde_json::to_string(&serde_json::Value::Object(map)).unwrap_or_default()
}

/// The `Display` text of a `serde_json::Error`; nothing is stated of it.
#[verifier::external_body]
pub(crate) fn json_error_text(e: &serde_json::Error) -> String {
    e.to_string()
}

/// `str::to_lowercase`. Claimed: the result is `lowercase_of` the text.
#[verifier::external_body]
pub(crate) fn to_lowercase(s: &str) -> (res: String)
    ensures
        res@ == lowercase_of(s@),
{
    s.to_lowercase()
}

} // verus!

verus! {

/// What `format!("{:?}", s)` gives for a string: the quoted, escaped form.
pub uninterp spec fn debug_form(s: Seq<char>) -> Seq<char>;

/// `<str as Debug>::fmt` through `format!("{:?}", s)`. Claimed: the result is `debug_form`.
#[verifier::external_body]
pub(crate) fn debug_text(s: &str) -> (res: String)
    ensures
        res@ == debug_form(s@),
{
    format!("{:?}", s)
}

} // verus!

verus! {

/// A lowercase hexadecimal digit.
pub open spec fn is_lower_hex_char(c: char) -> bool {
    ('0' <= c && c <= '9') || ('a' <= c && c <= 'f')
}

/// The text of a version-4 UUID as `Uuid::to_string` writes it: 36 characters, hyphens at
/// 8, 13, 18 and 23, lowercase hexadecimal digits elsewhere, the version digit `4` at 14 and
/// a variant digit among `8`, `9`, `a`, `b` at 19.
pub open spec fn is_uuid_v4_text(s: Seq<char>) -> bool {
    &&& s.len() == 36
    &&& forall|i: int|
        0 <= i < 36 ==> if i == 8 || i == 13 || i == 18 || i == 23 {
            s[i] == '-'
        } else {
            is_lower_hex_char(#[trigger] s[i])
        }
    &&& s[14] == '4'
    &&& (s[19] == '8' || s[19] == '9' || s[19] == 'a' || s[19] == 'b')
}

/// `uuid::Uuid::new_v4().to_string()`. Claimed: the text has the shape of a version-4 UUID
/// (`format_hyphenated` over the masked random value in the crate's source). The value itself
/// is random.
#[verifier::external_body]
pub(crate) fn new_uuid_v4_text() -> (res: String)
    ensures
        is_uuid_v4_text(res@),
{
    uuid::Uuid::new_v4().to_string()
}

/// `rand::thread_rng().fill` on `n` bytes. Claimed: `n` bytes come back; their values are
/// random.
#[verifier::external_body]
pub(crate) fn random_bytes(n: usize) -> (res: Vec<u8>)
    ensures
        res@.len() == n,
{
    let mut buf = vec![0u8; n];
    rand::thread_rng().fill(&mut buf[..]);
    buf
}

/// The SHA-256 digest of a byte sequence (32 bytes).
pub uninterp spec fn sha256_of(data: Seq<u8>) -> Seq<u8>;

/// The SHA-512 digest of a byte sequence (64 bytes).
pub uninterp spec fn sha512_of(data: Seq<u8>) -> Seq<u8>;

/// `sha2::Sha256::digest`. Claimed: the digest is `sha256_of` the data, 32 bytes long.
#[verifier::external_body]
pub(crate) fn sha256_digest(data: &Vec<u8>) -> (res: Vec<u8>)
    ensures
        res@ == sha256_of(data@),
        res@.len() == 32,
{
    sha2::Sha256::digest(data.as_slice()).to_vec()
}

/// `sha2::Sha512::digest`. Claimed: the digest is `sha512_of` the data, 64 bytes long.
#[verifier::external_body]
pub(crate) fn sha512_digest(data: &Vec<u8>) -> (res: Vec<u8>)
    ensures
        res@ == sha512_of(data@),
        res@.len() == 64,
{
    sha2::Sha512::digest(data.as_slice()).to_vec()
}

/// An ASCII letter or digit.
pub open spec fn is_ascii_alnum(c: char) -> bool {
    ('A' <= c && c <= 'Z') || ('a' <= c && c <= 'z') || ('0' <= c && c <= '9')
}

/// `rand::thread_rng().sample(Alphanumeric)` as a character. Claimed: one of the 62 ASCII
/// letters and digits of the crate's charset; which one is random.
#[verifier::external_body]
pub(crate) fn random_alphanumeric() -> (res: char)
    ensures
        is_ascii_alnum(res),
{
    char::from(rand::thread_rng().sample(rand::distributions::Alphanumeric))
}

/// `rand::thread_rng().gen_range(lo..=hi)`. Claimed: a value from `lo` to `hi`; which one is
/// random. The crate panics on an empty range, which `requires` rules out.
#[verifier::external_body]
pub(crate) fn random_in_range(lo: u32, hi: u32) -> (res: u32)
    requires
        lo <= hi,
    ensures
        lo <= res <= hi,
{
    rand::thread_rng().gen_range(lo..=hi)
}

/// `rand::random::<u32>()`: any value, at random.
#[verifier::external_body]
pub(crate) fn random_u32() -> u32 {
    rand::random::<u32>()
}

/// The JSON boolean in the member `key` of a value that is an object holding one; `None`
/// otherwise.
pub uninterp spec fn json_flag(v: serde_json::Value, key: Seq<char>) -> Option<bool>;

/// `Value::get(key)` followed by `Value::as_bool`. Claimed: the result is `json_flag`.
#[verifier::external_body]
pub(crate) fn json_get_bool(v: &serde_json::Value, key: &str) -> (res: Option<bool>)
    ensures
        res == json_flag(*v, key@),
{
    v.get(key).and_then(|x| x.as_bool())
}

} // verus!

verus! {

/// A byte `urlencoding` leaves as it is: an ASCII letter or digit, `-`, `.`, `_` or `~`.
pub open spec fn url_safe_byte(b: u8) -> bool {
    (48 <= b <= 57) || (65 <= b <= 90) || (97 <= b <= 122) || b == 45 || b == 46 || b == 95 || b == 126
}

/// An uppercase hexadecimal digit.
pub open spec fn upper_hex_digit(d: int) -> char {
    if d < 10 {
        (48 + d) as char
    } else {
        (55 + d) as char
    }
}

/// The encoded form of bytes: each safe byte as its character, each other byte as `%` and
/// two uppercase hexadecimal digits.
pub open spec fn percent_encoded(bytes: Seq<u8>) -> Seq<char>
    decreases bytes.len(),
{
    if bytes.len() == 0 {
        Seq::empty()
    } else {
        let b = bytes.last();
        percent_encoded(bytes.drop_last()) + if url_safe_byte(b) {
            seq![b as char]
        } else {
            seq!['%', upper_hex_digit(b as int / 16), upper_hex_digit(b as int % 16)]
        }
    }
}

/// What `urlencoding::encode` gives for a text: its UTF-8 bytes, percent-encoded.
pub open spec fn url_encoded_of(text: Seq<char>) -> Seq<char> {
    percent_encoded(vstd::utf8::encode_utf8(text))
}

/// `urlencoding::encode`. Claimed: the result is `url_encoded_of` the text (the crate's
/// `encode_into` keeps the safe bytes and writes `%` and `to_hex_digit` of each half of
/// any other byte).
#[verifier::external_body]
pub(crate) fn url_encode(text: &str) -> (res: String)
    ensures
        res@ == url_encoded_of(text@),
{
    urlencoding::encode(text).into_owned()
}

} // verus!

verus! {

/// What parsing a text with `chrono::NaiveDateTime::parse_from_str(_, "%Y%m%d_%H%M%S")` and
/// formatting the result with `"%Y-%m-%d %H:%M:%S"` gives: `None` when the parse fails.
pub uninterp spec fn reformatted_backup_time(ts: Seq<char>) -> Option<Seq<char>>;

/// `NaiveDateTime::parse_from_str` then `format(..).to_string()`. Claimed: the result is
/// `reformatted_backup_time` of the text.
#[verifier::external_body]
pub(crate) fn reformat_backup_time(ts: &str) -> (res: Option<String>)
    ensures
        opt_view(res) == reformatted_backup_time(ts@),
{
    match chrono::NaiveDateTime::parse_from_str(ts, "%Y%m%d_%H%M%S") {
        Ok(dt) => Some(dt.format("%Y-%m-%d %H:%M:%S").to_string()),
        Err(_) => None,
    }
}

/// A text ending in a compact time stamp: eight digits (the last four of the year, then
/// month and day), `_`, and six digits (hour, minute, second).
pub open spec fn is_compact_stamp(s: Seq<char>) -> bool {
    &&& s.len() >= 15
    &&& forall|i: int|
        0 <= i < 15 ==> if i == 8 {
            s[s.len() - 15 + i] == '_'
        } else {
            '0' <= #[trigger] s[s.len() - 15 + i] <= '9'
        }
}

/// `chrono::Local::now()` formatted with `"%Y%m%d_%H%M%S"`. Which time it names depends on
/// the clock and the machine's time zone; claimed is only its shape, from chrono's
/// documentation of the specifiers: `%Y` is the year zero-padded to at least four digits
/// (with a sign only outside 0 to 9999), and `%m`, `%d`, `%H`, `%M`, `%S` are two digits
/// each.
#[verifier::external_body]
pub(crate) fn local_now_compact_text() -> (res: String)
    ensures
        is_compact_stamp(res@),
{
    chrono::Local::now().format("%Y%m%d_%H%M%S").to_string()
}

} // verus!

verus! {

/// What `Regex::new(pattern)` then `replace_all(text, replacement)` gives: `None` when the
/// pattern does not compile.
pub uninterp spec fn regex_replaced(pattern: Seq<char>, text: Seq<char>, replacement: Seq<char>) -> Option<Seq<char>>;

/// `regex::Regex::new(pattern)` then `Regex::replace_all(text, replacement)`. Claimed: `Ok`
/// exactly when `regex_replaced` is `Some`, with that text; the error carries the regex
/// error's message.
#[verifier::external_body]
pub(crate) fn regex_replace_all(pattern: &str, text: &str, replacement: &str) -> (res: Result<String, String>)
    ensures
        res is Ok <==> regex_replaced(pattern@, text@, replacement@) is Some,
        res matches Ok(t) ==> regex_replaced(pattern@, text@, replacement@) == Some(t@),
{
    match regex::Regex::new(pattern) {
        Ok(re) => Ok(re.replace_all(text, replacement).to_string()),
        Err(e) => Err(e.to_string()),
    }
}

} // verus!

verus! {

/// The character of a six-bit value in the standard base64 alphabet (`A`-`Z`, `a`-`z`,
/// `0`-`9`, `+`, `/`).
pub open spec fn base64_char(v: int) -> char {
    if v < 26 {
        (65 + v) as char
    } else if v < 52 {
        (71 + v) as char
    } else if v < 62 {
        (v - 4) as char
    } else if v == 62 {
        '+'
    } else {
        '/'
    }
}

/// Standard base64 with padding: each group of three bytes as four characters, a final
/// group of one or two bytes as two or three characters padded with `=` to four.
pub open spec fn base64_of_bytes(b: Seq<u8>) -> Seq<char>
    decreases b.len(),
{
    if b.len() == 0 {
        Seq::empty()
    } else {
        let x = b[0] as int;
        let y = if b.len() > 1 { b[1] as int } else { 0 };
        let z = if b.len() > 2 { b[2] as int } else { 0 };
        if b.len() == 1 {
            seq![base64_char(x / 4), base64_char((x % 4) * 16), '=', '=']
        } else if b.len() == 2 {
            seq![base64_char(x / 4), base64_char((x % 4) * 16 + y / 16), base64_char((y % 16) * 4), '=']
        } else {
            seq![
                base64_char(x / 4),
                base64_char((x % 4) * 16 + y / 16),
                base64_char((y % 16) * 4 + z / 64),
                base64_char(z % 64),
            ] + base64_of_bytes(b.skip(3))
        }
    }
}

/// What `base64::engine::general_purpose::STANDARD.encode` gives for a text: the standard
/// base64 of its UTF-8 bytes, with padding.
pub open spec fn base64_standard_of(text: Seq<char>) -> Seq<char> {
    base64_of_bytes(vstd::utf8::encode_utf8(text))
}

/// `STANDARD.encode(text)`. Claimed: the result is `base64_standard_of` the text (the
/// `STANDARD` engine uses the standard alphabet and pads with `=`).
#[verifier::external_body]
pub(crate) fn base64_standard(text: &str) -> (res: String)
    ensures
        res@ == base64_standard_of(text@),
{
    base64::engine::general_purpose::STANDARD.encode(text)
}

/// What `Regex::new(pattern)` then `captures(text)` and `get(1)` give: `None` when the
/// pattern does not compile, `Some(None)` when nothing matches or the first group took no
/// part, else the text of the first group in the leftmost match.
pub uninterp spec fn regex_first_group(pattern: Seq<char>, text: Seq<char>) -> Option<Option<Seq<char>>>;

/// `regex::Regex::new(pattern)`, `Regex::captures(text)` and `Captures::get(1)`. Claimed: the
/// result follows `regex_first_group`; the error carries the regex error's message.
#[verifier::external_body]
pub(crate) fn regex_capture_first(pattern: &str, text: &str) -> (res: Result<Option<String>, String>)
    ensures
        res is Err <==> regex_first_group(pattern@, text@) is None,
        res matches Ok(g) ==> regex_first_group(pattern@, text@) == Some(opt_view(g)),
{
    match regex::Regex::new(pattern) {
        Ok(re) => Ok(re.captures(text).and_then(|c| c.get(1)).map(|m| m.as_str().to_string())),
        Err(e) => Err(e.to_string()),
    }
}

} // verus!

verus! {

/// What `Path::new(base).join(part)` gives, as text. The separator is that of the target
/// the crate is built for (`/`, or `\` on Windows), so the name stands for one fixed
/// function per build.
pub uninterp spec fn path_joined(base: Seq<char>, part: Seq<char>) -> Seq<char>;

/// `Path::join`, the result read back as UTF-8 text (`to_string_lossy`). Claimed: the result
/// is `path_joined` of the two texts.
#[verifier::external_body]
pub(crate) fn path_join(base: &str, part: &str) -> (res: String)
    ensures
        res@ == path_joined(base@, part@),
{
    std::path::Path::new(base).join(part).to_string_lossy().into_owned()
}

/// What `Path::new(p).parent()` gives, as text: `None` for a path without a parent. Which
/// characters separate components is fixed by the target the crate is built for.
pub uninterp spec fn path_parent_of(p: Seq<char>) -> Option<Seq<char>>;

/// `Path::parent`, the result read back as UTF-8 text. Claimed: the result is
/// `path_parent_of` the path.
#[verifier::external_body]
pub(crate) fn path_parent(p: &str) -> (res: Option<String>)
    ensures
        opt_view(res) == path_parent_of(p@),
{
    std::path::Path::new(p).parent().map(|q| q.to_string_lossy().into_owned())
}

/// `chrono::Local::now()` formatted with `"%Y-%m-%d %H:%M:%S%.3f"`. The result depends on
/// the clock and the machine's time zone, so nothing is stated of it.
#[verifier::external_body]
pub(crate) fn local_now_millis_text() -> String {
    chrono::Local::now().format("%Y-%m-%d %H:%M:%S%.3f").to_string()
}

} // verus!
