//! Telling whether Cursor is running, from what the platform's process tools print.
use vstd::prelude::*;

use crate::paths::Platform;
use crate::text::{chars_of, contains, contains_spec, string_of, trim, trim_spec};

verus! {

/// The lines of a text as `str::lines` yields them: split at each `\n`, a trailing `\r`
/// dropped from each, and no empty line after a final `\n`.
pub open spec fn lines_of(s: Seq<char>) -> Seq<Seq<char>> {
    lines_from(s, Seq::empty())
}

/// The lines of `s`, the first of them continuing the partial line `cur`.
pub open spec fn lines_from(s: Seq<char>, cur: Seq<char>) -> Seq<Seq<char>>
    decreases s.len(),
{
    if s.len() == 0 {
        if cur.len() == 0 {
            Seq::empty()
        } else {
            seq![strip_cr(cur)]
        }
    } else if s[0] == '\n' {
        seq![strip_cr(cur)] + lines_from(s.skip(1), Seq::empty())
    } else {
        lines_from(s.skip(1), cur.push(s[0]))
    }
}

/// A line without its trailing `\r`.
pub open spec fn strip_cr(line: Seq<char>) -> Seq<char> {
    if line.len() > 0 && line.last() == '\r' {
        line.drop_last()
    } else {
        line
    }
}

/// The value of a run of decimal digits.
pub open spec fn digits_value(s: Seq<char>) -> nat
    decreases s.len(),
{
    if s.len() == 0 {
        0
    } else {
        digits_value(s.drop_last()) * 10 + (s.last() as nat - '0' as nat) as nat
    }
}

/// Every character is a decimal digit.
pub open spec fn all_digits(d: Seq<char>) -> bool {
    forall|i: int| 0 <= i < d.len() ==> '0' <= #[trigger] d[i] <= '9'
}

/// The text after an optional leading `+`.
pub open spec fn unsigned_digits(s: Seq<char>) -> Seq<char> {
    if s.len() > 0 && s[0] == '+' {
        s.skip(1)
    } else {
        s
    }
}

/// What `str::parse::<u32>` accepts: an optional `+`, then at least one decimal digit, with
/// a value that fits in 32 bits.
pub open spec fn parsed_u32(s: Seq<char>) -> Option<u32> {
    let d = unsigned_digits(s);
    if d.len() > 0 && all_digits(d) && digits_value(d) <= u32::MAX {
        Some(digits_value(d) as u32)
    } else {
        None
    }
}

/// The process ids `pgrep` printed, one per line, other than `current`; lines that are not
/// numbers are skipped.
pub open spec fn other_pids(output: Seq<char>, current: u32) -> Seq<u32>
    decreases lines_of(output).len(),
{
    other_pids_in(lines_of(output), current)
}

/// The ids among `lines` other than `current`, in order.
pub open spec fn other_pids_in(lines: Seq<Seq<char>>, current: u32) -> Seq<u32>
    decreases lines.len(),
{
    if lines.len() == 0 {
        Seq::empty()
    } else {
        let rest = other_pids_in(lines.drop_last(), current);
        match parsed_u32(trim_spec(lines.last())) {
            Some(p) => if p != current {
                rest.push(p)
            } else {
                rest
            },
            None => rest,
        }
    }
}

fn parse_u32(s: &Vec<char>) -> (res: Option<u32>)
    ensures
        res == parsed_u32(s@),
{
    let start: usize = if s.len() > 0 && s[0] == '+' {
        1
    } else {
        0
    };
    let ghost d = unsigned_digits(s@);
    assert(d =~= s@.skip(start as int));
    if start >= s.len() {
        return None;
    }
    let mut value: u64 = 0;
    let mut i: usize = start;
    while i < s.len()
        invariant
            start <= i <= s@.len(),
            d =~= s@.skip(start as int),
            d == unsigned_digits(s@),
            d.len() > 0,
            forall|j: int| start <= j < i ==> '0' <= #[trigger] s@[j] <= '9',
            value == digits_value(s@.subrange(start as int, i as int)),
            value <= u32::MAX,
        decreases s.len() - i,
    {
        let c = s[i];
        if !(c >= '0' && c <= '9') {
            assert(d[i - start] == c);
            assert(!('0' <= d[(i - start) as int] <= '9'));
            assert(!all_digits(d));
            assert(parsed_u32(s@) is None);
            return None;
        }
        assert(s@.subrange(start as int, i + 1).drop_last() =~= s@.subrange(start as int, i as int));
        let next: u64 = value * 10 + ((c as u32) - 48) as u64;
        if next > 0xffff_ffff {
            proof {
                if all_digits(d) {
                    lemma_digits_grow(d, (i + 1 - start) as int);
                    assert(d.take((i + 1 - start) as int) =~= s@.subrange(start as int, i + 1));
                    assert(digits_value(d) > u32::MAX);
                }
                assert(parsed_u32(s@) is None);
            }
            return None;
        }
        value = next;
        i += 1;
    }
    assert(s@.subrange(start as int, s@.len() as int) =~= d);
    Some(value as u32)
}

/// A longer run of digits is worth at least as much as its prefix.
proof fn lemma_digits_grow(s: Seq<char>, k: int)
    requires
        0 <= k <= s.len(),
        forall|i: int| 0 <= i < s.len() ==> '0' <= #[trigger] s[i] <= '9',
    ensures
        digits_value(s.take(k)) <= digits_value(s),
    decreases s.len() - k,
{
    if k < s.len() {
        lemma_digits_grow(s, k + 1);
        assert(s.take(k + 1).drop_last() =~= s.take(k));
    } else {
        assert(s.take(k) =~= s);
    }
}

/// The lines of a text, as `str::lines` yields them.
pub fn split_lines(text: &str) -> (res: Vec<String>)
    ensures
        res@.map_values(|l: String| l@) == lines_of(text@),
{
    let s = chars_of(text);
    let mut out: Vec<String> = Vec::new();
    let mut cur: Vec<char> = Vec::new();
    let mut i: usize = 0;
    assert(s@.skip(0) =~= s@);
    assert(cur@ =~= Seq::<char>::empty());
    assert(out@.map_values(|l: String| l@) =~= Seq::<Seq<char>>::empty());
    assert(lines_of(text@) =~= Seq::<Seq<char>>::empty() + lines_from(s@.skip(0), cur@));
    while i < s.len()
        invariant
            i <= s@.len(),
            s@ == text@,
            lines_of(text@) == out@.map_values(|l: String| l@) + lines_from(s@.skip(i as int), cur@),
        decreases s.len() - i,
    {
        let ghost before = out@.map_values(|l: String| l@);
        assert(s@.skip(i as int).skip(1) =~= s@.skip(i + 1));
        assert(s@.skip(i as int)[0] == s@[i as int]);
        if s[i] == '\n' {
            let line = string_of(&without_cr(&cur));
            out.push(line);
            assert(out@.map_values(|l: String| l@) =~= before.push(strip_cr(cur@)));
            assert(before.push(strip_cr(cur@)) + lines_from(s@.skip(i + 1), Seq::empty()) =~= before + (seq![strip_cr(cur@)]
                + lines_from(s@.skip(i + 1), Seq::empty())));
            cur = Vec::new();
            assert(cur@ =~= Seq::<char>::empty());
        } else {
            cur.push(s[i]);
        }
        i += 1;
    }
    assert(s@.skip(i as int).len() == 0);
    if cur.len() > 0 {
        let ghost before = out@.map_values(|l: String| l@);
        out.push(string_of(&without_cr(&cur)));
        assert(out@.map_values(|l: String| l@) =~= before + seq![strip_cr(cur@)]);
    } else {
        assert(out@.map_values(|l: String| l@) =~= out@.map_values(|l: String| l@) + Seq::<Seq<char>>::empty());
    }
    out
}

fn without_cr(line: &Vec<char>) -> (res: Vec<char>)
    ensures
        res@ == strip_cr(line@),
{
    let mut out: Vec<char> = Vec::new();
    let n = if line.len() > 0 && line[line.len() - 1] == '\r' {
        line.len() - 1
    } else {
        line.len()
    };
    let mut i: usize = 0;
    while i < n
        invariant
            i <= n <= line@.len(),
            out@ == line@.take(i as int),
        decreases n - i,
    {
        out.push(line[i]);
        assert(line@.take(i + 1) =~= line@.take(i as int).push(line@[i as int]));
        i += 1;
    }
    assert(out@ =~= strip_cr(line@));
    out
}

/// The process ids `pgrep` printed, other than `current`.
pub fn pids_other_than(output: &str, current: u32) -> (res: Vec<u32>)
    ensures
        res@ == other_pids(output@, current),
{
    let lines = split_lines(output);
    let ghost lv = lines@.map_values(|l: String| l@);
    let mut out: Vec<u32> = Vec::new();
    let mut k: usize = 0;
    while k < lines.len()
        invariant
            k <= lines@.len(),
            lv == lines@.map_values(|l: String| l@),
            lv == lines_of(output@),
            out@ == other_pids_in(lv.take(k as int), current),
        decreases lines.len() - k,
    {
        assert(lv.take(k + 1).drop_last() =~= lv.take(k as int));
        assert(lv.take(k + 1).last() == lines@[k as int]@);
        let t = trim(&chars_of(lines[k].as_str()));
        match parse_u32(&t) {
            Some(p) => {
                if p != current {
                    out.push(p);
                }
            },
            None => {},
        }
        k += 1;
    }
    assert(lv.take(lines@.len() as int) =~= lv);
    out
}

/// Whether Cursor runs, from what the process tools printed (`None` when a tool could not
/// be run): on Windows `tasklist` lists `Cursor.exe`; on macOS `pgrep -f Cursor` prints
/// something; on Linux `pgrep -f "cursor.*--"` prints something, or `pgrep -f "\.cursor"`
/// prints an id other than this process's own.
pub open spec fn cursor_running_spec(
    platform: Platform,
    first: Option<Seq<char>>,
    second: Option<Seq<char>>,
    current: u32,
) -> bool {
    match platform {
        Platform::Windows => first matches Some(o) && contains_spec(o, "Cursor.exe"@),
        Platform::MacOs => first matches Some(o) && o.len() > 0,
        Platform::Linux => (first matches Some(o) && o.len() > 0) || (second matches Some(o) && other_pids(o, current).len()
            > 0),
    }
}

/// The ids counted as other processes never include the current process's own.
pub proof fn law_other_pids_exclude_current(lines: Seq<Seq<char>>, current: u32)
    ensures
        forall|i: int| 0 <= i < other_pids_in(lines, current).len() ==> #[trigger] other_pids_in(lines, current)[i] != current,
    decreases lines.len(),
{
    if lines.len() > 0 {
        law_other_pids_exclude_current(lines.drop_last(), current);
        let rest = other_pids_in(lines.drop_last(), current);
        assert forall|i: int| 0 <= i < other_pids_in(lines, current).len() implies #[trigger] other_pids_in(
            lines,
            current,
        )[i] != current by {
            if i < rest.len() {
                assert(other_pids_in(lines, current)[i] == rest[i]);
            }
        }
    }
}

/// On Linux either probe alone shows Cursor running: the first (`pgrep -f "cursor.*--"`)
/// when it prints anything, whatever the second printed; the second (`pgrep -f "\.cursor"`)
/// when it lists an id other than this process's own, whatever the first printed. When
/// neither does, Cursor is taken as not running. On Windows Cursor runs when `tasklist`
/// names `Cursor.exe`; on macOS when `pgrep -f Cursor` prints anything.
pub proof fn law_cursor_running(first: Option<Seq<char>>, second: Option<Seq<char>>, current: u32)
    ensures
        (first matches Some(o) && o.len() > 0) ==> cursor_running_spec(Platform::Linux, first, second, current),
        (second matches Some(o) && other_pids(o, current).len() > 0) ==> cursor_running_spec(
            Platform::Linux,
            first,
            second,
            current,
        ),
        cursor_running_spec(Platform::Linux, first, second, current) ==> (first matches Some(o) && o.len() > 0) || (
        second matches Some(o) && exists|i: int|
            0 <= i < other_pids(o, current).len() && #[trigger] other_pids(o, current)[i] != current),
        cursor_running_spec(Platform::Windows, first, second, current) <==> (first matches Some(o) && contains_spec(o, "Cursor.exe"@)),
        cursor_running_spec(Platform::MacOs, first, second, current) <==> (first matches Some(o) && o.len() > 0),
{
    match second {
        Some(o) => {
            law_other_pids_exclude_current(lines_of(o), current);
            if other_pids(o, current).len() > 0 {
                assert(other_pids(o, current)[0] != current);
            }
        },
        None => {},
    }
}

/// Whether Cursor runs, from the output of the platform's first and (on Linux) second probe.
pub fn is_cursor_running(platform: &Platform, first: &Option<String>, second: &Option<String>, current: u32) -> (res: bool)
    ensures
        res == cursor_running_spec(
            *platform,
            match first {
                Some(o) => Some(o@),
                None => None,
            },
            match second {
                Some(o) => Some(o@),
                None => None,
            },
            current,
        ),
{
    match platform {
        Platform::Windows => match first {
            Some(o) => contains(&chars_of(o.as_str()), &chars_of("Cursor.exe")),
            None => false,
        },
        Platform::MacOs => match first {
            Some(o) => o.as_str().unicode_len() > 0,
            None => false,
        },
        Platform::Linux => {
            let direct = match first {
                Some(o) => o.as_str().unicode_len() > 0,
                None => false,
            };
            if direct {
                return true;
            }
            match second {
                Some(o) => pids_other_than(o.as_str(), current).len() > 0,
                None => false,
            }
        },
    }
}

/// The outcome of closing Cursor: on Windows and macOS an error when the kill command could
/// not be run; on Linux always success (the kills are attempted either way).
pub fn force_close_outcome(platform: &Platform, failure: Option<String>) -> (res: Result<(), String>)
    ensures
        match platform {
            Platform::Windows => match failure {
                Some(e) => res matches Err(m) && m@ == "Failed to terminate Cursor on Windows: "@ + e@,
                None => res is Ok,
            },
            Platform::MacOs => match failure {
                Some(e) => res matches Err(m) && m@ == "Failed to terminate Cursor on macOS: "@ + e@,
                None => res is Ok,
            },
            Platform::Linux => res is Ok,
        },
{
    match platform {
        Platform::Windows => match failure {
            Some(e) => Err(crate::account::concat_str("Failed to terminate Cursor on Windows: ", e.as_str())),
            None => Ok(()),
        },
        Platform::MacOs => match failure {
            Some(e) => Err(crate::account::concat_str("Failed to terminate Cursor on macOS: ", e.as_str())),
            None => Ok(()),
        },
        Platform::Linux => Ok(()),
    }
}

} // verus!
