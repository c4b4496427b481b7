//! Verified text utilities over character sequences.
use vstd::prelude::*;

verus! {

/// `true` when `needle` occurs in `hay` starting at character index `i`.
pub open spec fn occurs_at(hay: Seq<char>, needle: Seq<char>, i: int) -> bool {
    0 <= i && i + needle.len() <= hay.len() && hay.subrange(i, i + needle.len()) == needle
}

/// Checks whether `needle` occurs in `hay` at index `i`.
pub fn matches_at(hay: &Vec<char>, needle: &Vec<char>, i: usize) -> (res: bool)
    ensures
        res == occurs_at(hay@, needle@, i as int),
{
    if i > hay.len() || needle.len() > hay.len() - i {
        return false;
    }
    let mut k: usize = 0;
    while k < needle.len()
        invariant
            i + needle.len() <= hay.len(),
            k <= needle.len(),
            forall|j: int| 0 <= j < k ==> hay@[i + j] == needle@[j],
        decreases needle.len() - k,
    {
        if hay[i + k] != needle[k] {
            assert(hay@.subrange(i as int, i + needle.len())[k as int] != needle@[k as int]);
            return false;
        }
        k += 1;
    }
    assert(hay@.subrange(i as int, i + needle.len()) =~= needle@);
    true
}

} // verus!

verus! {

/// Appends one character to a string (`String::push`).
#[verifier::external_body]
pub(crate) fn push_char(s: &mut String, c: char)
    ensures
        final(s)@ == old(s)@.push(c),
{
    s.push(c);
}

/// The characters of `s`, in order.
pub fn chars_of(s: &str) -> (res: Vec<char>)
    ensures
        res@ == s@,
{
    let mut res: Vec<char> = Vec::new();
    for c in it: s.chars()
        invariant
            res@ == it.seq().take(it.index() as int),
            it.seq() == s@,
    {
        res.push(c);
    }
    res
}

/// The string made of the characters in `v`.
pub fn string_of(v: &Vec<char>) -> (res: String)
    ensures
        res@ == v@,
{
    let mut res = String::new();
    let mut i: usize = 0;
    while i < v.len()
        invariant
            i <= v.len(),
            res@ == v@.take(i as int),
        decreases v.len() - i,
    {
        push_char(&mut res, v[i]);
        assert(v@.take(i as int).push(v@[i as int]) =~= v@.take(i + 1));
        i += 1;
    }
    assert(v@.take(v.len() as int) =~= v@);
    res
}

} // verus!

verus! {

/// The first index `i >= start` at which `needle` occurs in `hay`, if any.
pub open spec fn find_spec(hay: Seq<char>, needle: Seq<char>, start: int) -> Option<int>
    decreases hay.len() + 1 - start,
{
    if start < 0 || start + needle.len() > hay.len() {
        None
    } else if occurs_at(hay, needle, start) {
        Some(start)
    } else {
        find_spec(hay, needle, start + 1)
    }
}

/// `needle` occurs somewhere in `hay`.
pub open spec fn contains_spec(hay: Seq<char>, needle: Seq<char>) -> bool {
    find_spec(hay, needle, 0) is Some
}

/// What `find_spec` returns is an occurrence, and no earlier one exists.
pub proof fn lemma_find_spec(hay: Seq<char>, needle: Seq<char>, start: int)
    requires
        0 <= start,
    ensures
        find_spec(hay, needle, start) matches Some(i) ==> start <= i && occurs_at(hay, needle, i)
            && forall|j: int| start <= j < i ==> !occurs_at(hay, needle, j),
        find_spec(hay, needle, start) is None ==> forall|j: int|
            start <= j ==> !occurs_at(hay, needle, j),
    decreases hay.len() + 1 - start,
{
    if start + needle.len() > hay.len() {
    } else if occurs_at(hay, needle, start) {
    } else {
        lemma_find_spec(hay, needle, start + 1);
    }
}

/// The first occurrence of `needle` in `hay` at or after `start`.
pub fn find_from(hay: &Vec<char>, needle: &Vec<char>, start: usize) -> (res: Option<usize>)
    ensures
        res matches Some(i) ==> find_spec(hay@, needle@, start as int) == Some(i as int),
        res is None ==> find_spec(hay@, needle@, start as int) is None,
{
    let mut i = start;
    while i <= hay.len() && needle.len() <= hay.len() - i
        invariant
            start <= i,
            find_spec(hay@, needle@, start as int) == find_spec(hay@, needle@, i as int),
        decreases hay.len() + 1 - i,
    {
        if matches_at(hay, needle, i) {
            return Some(i);
        }
        if i == hay.len() {
            assert(needle.len() > 0) by {
                if needle.len() == 0 {
                    assert(hay@.subrange(i as int, i as int) =~= needle@);
                }
            }
            return None;
        }
        i += 1;
    }
    None
}

/// Whether `needle` occurs in `hay`.
pub fn contains(hay: &Vec<char>, needle: &Vec<char>) -> (res: bool)
    ensures
        res == contains_spec(hay@, needle@),
{
    find_from(hay, needle, 0).is_some()
}

/// `true` when `hay` begins with `prefix`.
pub open spec fn starts_with_spec(hay: Seq<char>, prefix: Seq<char>) -> bool {
    occurs_at(hay, prefix, 0)
}

/// Whether `hay` begins with `prefix`.
pub fn starts_with(hay: &Vec<char>, prefix: &Vec<char>) -> (res: bool)
    ensures
        res == starts_with_spec(hay@, prefix@),
{
    matches_at(hay, prefix, 0)
}

/// `hay` with every non-overlapping occurrence of the non-empty `pat`, scanning from the
/// left, replaced by `rep`.
pub open spec fn replace_spec(hay: Seq<char>, pat: Seq<char>, rep: Seq<char>) -> Seq<char>
    decreases hay.len(),
{
    if hay.len() == 0 {
        Seq::empty()
    } else if pat.len() > 0 && occurs_at(hay, pat, 0) {
        rep + replace_spec(hay.skip(pat.len() as int), pat, rep)
    } else {
        seq![hay[0]] + replace_spec(hay.skip(1), pat, rep)
    }
}

proof fn lemma_occurs_skip(hay: Seq<char>, needle: Seq<char>, i: int)
    requires
        0 <= i <= hay.len(),
    ensures
        occurs_at(hay, needle, i) == occurs_at(hay.skip(i), needle, 0),
{
    if i + needle.len() <= hay.len() {
        assert(hay.skip(i).subrange(0, needle.len() as int) =~= hay.subrange(
            i,
            i + needle.len(),
        ));
    }
}

/// Appends all of `src` to `out`.
pub fn append_chars(out: &mut Vec<char>, src: &Vec<char>)
    ensures
        final(out)@ == old(out)@ + src@,
{
    let mut k: usize = 0;
    while k < src.len()
        invariant
            k <= src.len(),
            out@ == old(out)@ + src@.take(k as int),
        decreases src.len() - k,
    {
        out.push(src[k]);
        assert(src@.take(k as int).push(src@[k as int]) =~= src@.take(k + 1));
        k += 1;
    }
    assert(src@.take(src.len() as int) =~= src@);
}

/// Replaces, left to right, every non-overlapping occurrence of `pat` in `hay` by `rep`.
pub fn replace_all(hay: &Vec<char>, pat: &Vec<char>, rep: &Vec<char>) -> (res: Vec<char>)
    requires
        pat.len() > 0,
    ensures
        res@ == replace_spec(hay@, pat@, rep@),
{
    let mut out: Vec<char> = Vec::new();
    let mut i: usize = 0;
    assert(hay@.skip(0) =~= hay@);
    assert(out@ + replace_spec(hay@, pat@, rep@) =~= replace_spec(hay@, pat@, rep@));
    while i < hay.len()
        invariant
            i <= hay.len(),
            pat.len() > 0,
            out@ + replace_spec(hay@.skip(i as int), pat@, rep@) == replace_spec(
                hay@,
                pat@,
                rep@,
            ),
        decreases hay.len() - i,
    {
        let ghost rest = hay@.skip(i as int);
        let ghost old_out = out@;
        proof {
            lemma_occurs_skip(hay@, pat@, i as int);
        }
        if matches_at(hay, pat, i) {
            append_chars(&mut out, rep);
            assert(rest.skip(pat.len() as int) =~= hay@.skip(i + pat.len()));
            assert(old_out + rep@ + replace_spec(hay@.skip(i + pat.len()), pat@, rep@) =~= old_out
                + (rep@ + replace_spec(rest.skip(pat.len() as int), pat@, rep@)));
            i = i + pat.len();
        } else {
            out.push(hay[i]);
            assert(rest.skip(1) =~= hay@.skip(i + 1));
            assert(rest[0] == hay@[i as int]);
            assert(out@ + replace_spec(hay@.skip(i + 1), pat@, rep@) =~= old_out + (seq![rest[0]]
                + replace_spec(rest.skip(1), pat@, rep@)));
            i = i + 1;
        }
    }
    assert(hay@.skip(hay.len() as int) =~= Seq::<char>::empty());
    assert(out@ + Seq::<char>::empty() =~= out@);
    out
}

} // verus!

verus! {

/// Searching in a suffix is searching in the whole, shifted by the suffix's offset.
pub proof fn lemma_find_spec_skip(hay: Seq<char>, needle: Seq<char>, k: int, s: int)
    requires
        0 <= k <= hay.len(),
        0 <= s,
    ensures
        find_spec(hay.skip(k), needle, s) == (match find_spec(hay, needle, k + s) {
            Some(i) => Some(i - k),
            None => None,
        }),
    decreases hay.len() + 1 - (k + s),
{
    let rest = hay.skip(k);
    if s + needle.len() > rest.len() {
    } else {
        assert(rest.subrange(s, s + needle.len()) =~= hay.subrange(k + s, k + s + needle.len()));
        if occurs_at(rest, needle, s) {
        } else {
            lemma_find_spec_skip(hay, needle, k, s + 1);
        }
    }
}

/// The second piece of `hay` split on the non-empty `sep`: the text between the first
/// occurrence of `sep` and the next one (or the end); `None` when `sep` does not occur.
pub open spec fn split_second_spec(hay: Seq<char>, sep: Seq<char>) -> Option<Seq<char>> {
    match find_spec(hay, sep, 0) {
        None => None,
        Some(i) => {
            let rest = hay.skip(i + sep.len());
            match find_spec(rest, sep, 0) {
                Some(j) => Some(rest.take(j)),
                None => Some(rest),
            }
        },
    }
}

/// The characters `v[lo..hi]`.
pub fn slice_chars(v: &Vec<char>, lo: usize, hi: usize) -> (res: Vec<char>)
    requires
        lo <= hi <= v.len(),
    ensures
        res@ == v@.subrange(lo as int, hi as int),
{
    let mut res: Vec<char> = Vec::new();
    let mut i = lo;
    while i < hi
        invariant
            lo <= i <= hi <= v.len(),
            res@ == v@.subrange(lo as int, i as int),
        decreases hi - i,
    {
        res.push(v[i]);
        assert(v@.subrange(lo as int, i as int).push(v@[i as int]) =~= v@.subrange(
            lo as int,
            i + 1,
        ));
        i += 1;
    }
    res
}

/// The second piece of `hay` split on `sep` (as `split(sep).nth(1)` gives it).
pub fn split_second(hay: &Vec<char>, sep: &Vec<char>) -> (res: Option<Vec<char>>)
    requires
        sep.len() > 0,
    ensures
        res matches Some(v) ==> split_second_spec(hay@, sep@) == Some(v@),
        res is None ==> split_second_spec(hay@, sep@) is None,
{
    match find_from(hay, sep, 0) {
        None => None,
        Some(i) => {
            proof {
                lemma_find_spec(hay@, sep@, 0);
                assert(occurs_at(hay@, sep@, i as int));
                assert(i + sep@.len() <= hay@.len());
            }
            assert(i + sep.len() <= hay.len());
            let start = i + sep.len();
            let ghost rest = hay@.skip(start as int);
            proof {
                lemma_find_spec_skip(hay@, sep@, start as int, 0);
            }
            match find_from(hay, sep, start) {
                Some(j) => {
                    proof {
                        lemma_find_spec(hay@, sep@, start as int);
                    }
                    assert(rest.take(j - start) =~= hay@.subrange(start as int, j as int));
                    Some(slice_chars(hay, start, j))
                },
                None => {
                    assert(rest =~= hay@.subrange(start as int, hay.len() as int));
                    Some(slice_chars(hay, start, hay.len()))
                },
            }
        },
    }
}

} // verus!

verus! {

/// The lowercase hexadecimal digit for `d < 16`.
pub open spec fn hex_digit_spec(d: int) -> char {
    if d < 10 {
        (48 + d) as char
    } else {
        (87 + d) as char
    }
}

/// Lowercase hexadecimal text of `bytes`: two digits per byte, high nibble first.
pub open spec fn hex_lower_spec(bytes: Seq<u8>) -> Seq<char> {
    Seq::new(
        2 * bytes.len(),
        |k: int|
            if k % 2 == 0 {
                hex_digit_spec((bytes[k / 2] / 16) as int)
            } else {
                hex_digit_spec((bytes[k / 2] % 16) as int)
            },
    )
}

fn hex_digit(d: u8) -> (c: char)
    requires
        d < 16,
    ensures
        c == hex_digit_spec(d as int),
{
    if d < 10 {
        (48u8 + d) as char
    } else {
        (87u8 + d) as char
    }
}

/// Lowercase hexadecimal text of `bytes`.
pub fn hex_lower(bytes: &Vec<u8>) -> (res: Vec<char>)
    requires
        bytes.len() <= usize::MAX / 2,
    ensures
        res@ == hex_lower_spec(bytes@),
{
    let mut res: Vec<char> = Vec::new();
    let mut i: usize = 0;
    while i < bytes.len()
        invariant
            i <= bytes.len() <= usize::MAX / 2,
            res.len() == 2 * i,
            forall|k: int| 0 <= k < 2 * i ==> res@[k] == hex_lower_spec(bytes@)[k],
        decreases bytes.len() - i,
    {
        let b = bytes[i];
        res.push(hex_digit(b / 16));
        res.push(hex_digit(b % 16));
        i += 1;
    }
    assert(res@ =~= hex_lower_spec(bytes@));
    res
}

/// `c` mapped to ASCII uppercase (other characters unchanged).
pub open spec fn ascii_upper_spec(c: char) -> char {
    if 'a' <= c && c <= 'z' {
        ((c as int) - 32) as char
    } else {
        c
    }
}

/// `c` mapped to ASCII lowercase (other characters unchanged).
pub open spec fn ascii_lower_spec(c: char) -> char {
    if 'A' <= c && c <= 'Z' {
        ((c as int) + 32) as char
    } else {
        c
    }
}

/// Every character of `v` mapped to ASCII uppercase.
pub fn ascii_uppercase(v: &Vec<char>) -> (res: Vec<char>)
    ensures
        res@ == v@.map_values(|c: char| ascii_upper_spec(c)),
{
    let mut res: Vec<char> = Vec::new();
    let mut i: usize = 0;
    while i < v.len()
        invariant
            i <= v.len(),
            res@ == v@.take(i as int).map_values(|c: char| ascii_upper_spec(c)),
        decreases v.len() - i,
    {
        let c = v[i];
        let u = if c >= 'a' && c <= 'z' {
            ((c as u8) - 32u8) as char
        } else {
            c
        };
        res.push(u);
        assert(v@.take(i + 1).map_values(|c: char| ascii_upper_spec(c)) =~= v@.take(
            i as int,
        ).map_values(|c: char| ascii_upper_spec(c)).push(u));
        i += 1;
    }
    assert(v@.take(v.len() as int) =~= v@);
    res
}

/// Every character of `v` mapped to ASCII lowercase.
pub fn ascii_lowercase(v: &Vec<char>) -> (res: Vec<char>)
    ensures
        res@ == v@.map_values(|c: char| ascii_lower_spec(c)),
{
    let mut res: Vec<char> = Vec::new();
    let mut i: usize = 0;
    while i < v.len()
        invariant
            i <= v.len(),
            res@ == v@.take(i as int).map_values(|c: char| ascii_lower_spec(c)),
        decreases v.len() - i,
    {
        let c = v[i];
        let u = if c >= 'A' && c <= 'Z' {
            ((c as u8) + 32u8) as char
        } else {
            c
        };
        res.push(u);
        assert(v@.take(i + 1).map_values(|c: char| ascii_lower_spec(c)) =~= v@.take(
            i as int,
        ).map_values(|c: char| ascii_lower_spec(c)).push(u));
        i += 1;
    }
    assert(v@.take(v.len() as int) =~= v@);
    res
}

} // verus!

verus! {

/// The decimal digit character for `d < 10`.
pub open spec fn digit_spec(d: int) -> char {
    (48 + d) as char
}

/// The decimal text of `n`, without leading zeros.
pub open spec fn decimal_spec(n: nat) -> Seq<char>
    decreases n,
{
    if n < 10 {
        seq![digit_spec(n as int)]
    } else {
        decimal_spec(n / 10).push(digit_spec((n % 10) as int))
    }
}

/// The decimal text of `n`.
pub fn decimal(n: usize) -> (res: Vec<char>)
    ensures
        res@ == decimal_spec(n as nat),
    decreases n,
{
    if n < 10 {
        let mut v: Vec<char> = Vec::new();
        v.push((48u8 + (n as u8)) as char);
        assert(v@ =~= seq![digit_spec(n as int)]);
        v
    } else {
        let mut v = decimal(n / 10);
        v.push((48u8 + ((n % 10) as u8)) as char);
        v
    }
}

/// Unicode `White_Space`, as `char::is_whitespace` documents it.
pub open spec fn is_whitespace_spec(c: char) -> bool {
    ||| ('\u{9}' <= c && c <= '\u{d}')
    ||| c == ' '
    ||| c == '\u{85}'
    ||| c == '\u{a0}'
    ||| c == '\u{1680}'
    ||| ('\u{2000}' <= c && c <= '\u{200a}')
    ||| c == '\u{2028}'
    ||| c == '\u{2029}'
    ||| c == '\u{202f}'
    ||| c == '\u{205f}'
    ||| c == '\u{3000}'
}

fn is_whitespace(c: char) -> (res: bool)
    ensures
        res == is_whitespace_spec(c),
{
    (c >= '\u{9}' && c <= '\u{d}') || c == ' ' || c == '\u{85}' || c == '\u{a0}' || c == '\u{1680}'
        || (c >= '\u{2000}' && c <= '\u{200a}') || c == '\u{2028}' || c == '\u{2029}' || c
        == '\u{202f}' || c == '\u{205f}' || c == '\u{3000}'
}

/// `s` without its leading whitespace.
pub open spec fn trim_start_spec(s: Seq<char>) -> Seq<char>
    decreases s.len(),
{
    if s.len() > 0 && is_whitespace_spec(s[0]) {
        trim_start_spec(s.drop_first())
    } else {
        s
    }
}

/// `s` without its trailing whitespace.
pub open spec fn trim_end_spec(s: Seq<char>) -> Seq<char>
    decreases s.len(),
{
    if s.len() > 0 && is_whitespace_spec(s.last()) {
        trim_end_spec(s.drop_last())
    } else {
        s
    }
}

/// `s` without leading and trailing whitespace (as `str::trim` gives it).
pub open spec fn trim_spec(s: Seq<char>) -> Seq<char> {
    trim_end_spec(trim_start_spec(s))
}

/// `v` without leading and trailing whitespace.
pub fn trim(v: &Vec<char>) -> (res: Vec<char>)
    ensures
        res@ == trim_spec(v@),
{
    let mut lo: usize = 0;
    assert(v@.skip(0) =~= v@);
    while lo < v.len() && is_whitespace(v[lo])
        invariant
            lo <= v.len(),
            trim_start_spec(v@.skip(lo as int)) == trim_start_spec(v@),
        decreases v.len() - lo,
    {
        assert(v@.skip(lo as int).drop_first() =~= v@.skip(lo + 1));
        lo += 1;
    }
    let ghost start = v@.skip(lo as int);
    assert(trim_start_spec(start) == start);
    let mut hi: usize = v.len();
    assert(start.take((hi - lo) as int) =~= start);
    while hi > lo && is_whitespace(v[hi - 1])
        invariant
            lo <= hi <= v.len(),
            start == v@.skip(lo as int),
            trim_end_spec(start.take(hi - lo)) == trim_end_spec(start),
        decreases hi,
    {
        assert(start.take(hi - lo).drop_last() =~= start.take(hi - 1 - lo));
        assert(start.take(hi - lo).last() == v@[hi - 1]);
        hi -= 1;
    }
    assert(trim_end_spec(start.take(hi - lo)) == start.take(hi - lo));
    assert(start.take(hi - lo) =~= v@.subrange(lo as int, hi as int));
    slice_chars(v, lo, hi)
}

} // verus!

verus! {

/// `a` comes strictly before `b` in lexicographic order of code points (which is also the
/// byte order of their UTF-8 encodings, the order of `String`).
pub open spec fn lex_lt(a: Seq<char>, b: Seq<char>) -> bool
    decreases a.len(),
{
    if a.len() == 0 {
        b.len() > 0
    } else if b.len() == 0 {
        false
    } else if a[0] != b[0] {
        (a[0] as int) < (b[0] as int)
    } else {
        lex_lt(a.drop_first(), b.drop_first())
    }
}

/// The view of an optional string.
pub open spec fn opt_view(s: Option<String>) -> Option<Seq<char>> {
    match s {
        Some(t) => Some(t@),
        None => None,
    }
}

} // verus!

verus! {

/// `lex_lt` is a strict total order.
pub proof fn lemma_lex_order(a: Seq<char>, b: Seq<char>, c: Seq<char>)
    ensures
        !lex_lt(a, a),
        lex_lt(a, b) ==> !lex_lt(b, a),
        lex_lt(a, b) && lex_lt(b, c) ==> lex_lt(a, c),
        a != b ==> lex_lt(a, b) || lex_lt(b, a),
    decreases a.len(),
{
    if a.len() > 0 && b.len() > 0 && c.len() > 0 {
        lemma_lex_order(a.drop_first(), b.drop_first(), c.drop_first());
    } else if a.len() > 0 && b.len() > 0 {
        lemma_lex_order(a.drop_first(), b.drop_first(), b.drop_first());
    } else if a.len() > 0 {
        lemma_lex_order(a.drop_first(), a.drop_first(), a.drop_first());
    }
    if a != b && a.len() > 0 && b.len() > 0 && a[0] == b[0] {
        assert(a =~= seq![a[0]] + a.drop_first());
        assert(b =~= seq![b[0]] + b.drop_first());
    }
    if a.len() == 0 && b.len() == 0 {
        assert(a =~= b);
    }
}

/// Lexicographic comparison of two character sequences.
pub fn lex_less(a: &Vec<char>, b: &Vec<char>) -> (res: bool)
    ensures
        res == lex_lt(a@, b@),
{
    let mut i: usize = 0;
    assert(a@.skip(0) =~= a@ && b@.skip(0) =~= b@);
    while i < a.len() && i < b.len() && a[i] == b[i]
        invariant
            i <= a.len(),
            i <= b.len(),
            lex_lt(a@, b@) == lex_lt(a@.skip(i as int), b@.skip(i as int)),
        decreases a.len() - i,
    {
        assert(a@.skip(i as int).drop_first() =~= a@.skip(i + 1));
        assert(b@.skip(i as int).drop_first() =~= b@.skip(i + 1));
        i += 1;
    }
    let ghost sa = a@.skip(i as int);
    let ghost sb = b@.skip(i as int);
    if i == a.len() {
        assert(sa.len() == 0);
        i < b.len()
    } else if i == b.len() {
        assert(sb.len() == 0 && sa.len() > 0);
        false
    } else {
        assert(sa[0] == a@[i as int] && sb[0] == b@[i as int]);
        a[i] < b[i]
    }
}

} // verus!

verus! {

/// The views of a sequence of strings.
pub open spec fn views(s: Seq<String>) -> Seq<Seq<char>> {
    s.map_values(|t: String| t@)
}

/// Appends a string to a list, noting the views.
pub fn push_note(notes: &mut Vec<String>, s: String)
    ensures
        views(final(notes)@) == views(old(notes)@).push(s@),
{
    notes.push(s);
    assert(views(notes@) =~= views(old(notes)@).push(s@));
}

/// Appends all of `more` to `notes`.
pub fn extend_notes(notes: &mut Vec<String>, more: Vec<String>)
    ensures
        views(final(notes)@) == views(old(notes)@) + views(more@),
{
    let mut i: usize = 0;
    let ghost start = views(notes@);
    while i < more.len()
        invariant
            i <= more.len(),
            views(notes@) == start + views(more@).take(i as int),
        decreases more.len() - i,
    {
        push_note(notes, more[i].clone());
        assert(views(more@).take(i + 1) =~= views(more@).take(i as int).push(more@[i as int]@));
        assert(start + views(more@).take(i + 1) =~= start + views(more@).take(i as int) + seq![more@[i as int]@]);
        i += 1;
    }
    assert(views(more@).take(more.len() as int) =~= views(more@));
}

/// How `format!("{}", b)` writes a boolean.
pub open spec fn bool_text_spec(b: bool) -> Seq<char> {
    if b {
        "true"@
    } else {
        "false"@
    }
}

/// The text of a boolean, as `Display` writes it.
pub fn bool_text(b: bool) -> (res: String)
    ensures
        res@ == bool_text_spec(b),
{
    if b {
        String::from_str("true")
    } else {
        String::from_str("false")
    }
}

/// Whether two texts are the same.
pub fn text_eq(a: &str, b: &str) -> (res: bool)
    ensures
        res == (a@ == b@),
{
    let x = chars_of(a);
    let y = chars_of(b);
    if x.len() != y.len() {
        return false;
    }
    let mut i: usize = 0;
    while i < x.len()
        invariant
            i <= x@.len(),
            x@.len() == y@.len(),
            x@ == a@,
            y@ == b@,
            forall|j: int| 0 <= j < i ==> x@[j] == y@[j],
        decreases x.len() - i,
    {
        if x[i] != y[i] {
            return false;
        }
        i += 1;
    }
    assert(x@ =~= y@);
    true
}

} // verus!
