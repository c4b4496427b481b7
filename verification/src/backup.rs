//! Backups of storage.json: recognising them by name, dating them, and listing them newest
//! first.
use vstd::prelude::*;

use crate::account::concat_str;
use crate::deps::{is_compact_stamp, local_now_compact_text, reformat_backup_time, reformatted_backup_time};
use crate::machine_id::{BackupInfo, MachineIdRestorer};
use crate::text::{
    chars_of, contains, contains_spec, find_from, occurs_at, find_spec, lemma_find_spec, lemma_lex_order,
    lex_less, lex_lt, slice_chars, starts_with, starts_with_spec, string_of,
};

verus! {

/// A file found in the directory of storage.json; `size` is `None` when its metadata could
/// not be read.
pub struct DirEntryInfo {
    pub path: String,
    pub filename: String,
    pub size: Option<u64>,
}

pub open spec fn bak_marker() -> Seq<char> {
    seq!['.', 'b', 'a', 'k', '.']
}

pub open spec fn backup_marker() -> Seq<char> {
    seq!['.', 'b', 'a', 'c', 'k', 'u', 'p', '.']
}

pub open spec fn restore_bak_marker() -> Seq<char> {
    seq!['.', 'r', 'e', 's', 't', 'o', 'r', 'e', '_', 'b', 'a', 'k', '.']
}

/// A backup's name starts with storage.json's name and carries one of the backup markers.
pub open spec fn is_backup_name(db_name: Seq<char>, name: Seq<char>) -> bool {
    &&& starts_with_spec(name, db_name)
    &&& (contains_spec(name, bak_marker()) || contains_spec(name, backup_marker()) || contains_spec(
        name,
        restore_bak_marker(),
    ))
}

/// The timestamp part of a backup name: what follows the first `.bak.`, else the first
/// `.backup.`, else the first `.restore_bak.`.
pub open spec fn backup_timestamp(name: Seq<char>) -> Seq<char> {
    match find_spec(name, bak_marker(), 0) {
        Some(p) => name.skip(p + 5),
        None => match find_spec(name, backup_marker(), 0) {
            Some(p) => name.skip(p + 8),
            None => match find_spec(name, restore_bak_marker(), 0) {
                Some(p) => name.skip(p + 13),
                None => "unknown"@,
            },
        },
    }
}

/// How a backup timestamp is shown: reformatted as a date, or `Unknown date`.
pub open spec fn backup_date_text(ts: Seq<char>) -> Seq<char> {
    match reformatted_backup_time(ts) {
        Some(d) => d,
        None => "Unknown date"@,
    }
}

/// Formats a backup timestamp `YYYYmmdd_HHMMSS` as `YYYY-mm-dd HH:MM:SS`, or `Unknown date`.
pub fn format_timestamp(ts: &str) -> (res: String)
    ensures
        res@ == backup_date_text(ts@),
{
    match reformat_backup_time(ts) {
        Some(d) => d,
        None => String::from_str("Unknown date"),
    }
}

fn chars_lit(c: &[char]) -> (res: Vec<char>)
    ensures
        res@ == c@,
{
    let mut v: Vec<char> = Vec::new();
    let mut i: usize = 0;
    while i < c.len()
        invariant
            i <= c.len(),
            v@ == c@.take(i as int),
        decreases c.len() - i,
    {
        v.push(c[i]);
        assert(c@.take(i as int).push(c@[i as int]) =~= c@.take(i + 1));
        i += 1;
    }
    assert(c@.take(c.len() as int) =~= c@);
    v
}

/// The timestamp part of a backup name.
pub fn extract_backup_timestamp(name: &Vec<char>) -> (res: Vec<char>)
    ensures
        res@ == backup_timestamp(name@),
{
    let bak = chars_lit(&['.', 'b', 'a', 'k', '.']);
    let backup = chars_lit(&['.', 'b', 'a', 'c', 'k', 'u', 'p', '.']);
    let restore = chars_lit(&['.', 'r', 'e', 's', 't', 'o', 'r', 'e', '_', 'b', 'a', 'k', '.']);
    assert(bak@ =~= bak_marker());
    assert(backup@ =~= backup_marker());
    assert(restore@ =~= restore_bak_marker());
    proof {
        lemma_find_spec(name@, bak_marker(), 0);
        lemma_find_spec(name@, backup_marker(), 0);
        lemma_find_spec(name@, restore_bak_marker(), 0);
    }
    match find_from(name, &bak, 0) {
        Some(p) => {
            assert(occurs_at(name@, bak_marker(), p as int));
            assert(bak_marker().len() == 5);
            assert(p + 5 <= name.len());
            assert(name@.skip(p + 5) =~= name@.subrange(p + 5, name@.len() as int));
            slice_chars(name, p + 5, name.len())
        },
        None => match find_from(name, &backup, 0) {
            Some(p) => {
                assert(occurs_at(name@, backup_marker(), p as int));
                assert(backup_marker().len() == 8);
                assert(p + 8 <= name.len());
                assert(name@.skip(p + 8) =~= name@.subrange(p + 8, name@.len() as int));
                slice_chars(name, p + 8, name.len())
            },
            None => match find_from(name, &restore, 0) {
                Some(p) => {
                    assert(occurs_at(name@, restore_bak_marker(), p as int));
                    assert(restore_bak_marker().len() == 13);
                    assert(p + 13 <= name.len());
                    assert(name@.skip(p + 13) =~= name@.subrange(p + 13, name@.len() as int));
                    slice_chars(name, p + 13, name.len())
                },
                None => {
                    proof {
                        reveal_strlit("unknown");
                    }
                    let u = chars_of("unknown");
                    u
                },
            },
        },
    }
}

/// Whether a file name is a backup of the storage file named `db_name`.
pub fn check_backup_name(db_name: &Vec<char>, name: &Vec<char>) -> (res: bool)
    ensures
        res == is_backup_name(db_name@, name@),
{
    let bak = chars_lit(&['.', 'b', 'a', 'k', '.']);
    let backup = chars_lit(&['.', 'b', 'a', 'c', 'k', 'u', 'p', '.']);
    let restore = chars_lit(&['.', 'r', 'e', 's', 't', 'o', 'r', 'e', '_', 'b', 'a', 'k', '.']);
    assert(bak@ =~= bak_marker());
    assert(backup@ =~= backup_marker());
    assert(restore@ =~= restore_bak_marker());
    starts_with(name, db_name) && (contains(name, &bak) || contains(name, &backup) || contains(
        name,
        &restore,
    ))
}

} // verus!

verus! {

/// The shown form of a backup: path, file name, timestamp, size, formatted date.
pub open spec fn backup_view(b: BackupInfo) -> (Seq<char>, Seq<char>, Seq<char>, u64, Seq<char>) {
    (b.path@, b.filename@, b.timestamp@, b.size, b.date_formatted@)
}

/// The shown forms of a list of backups.
pub open spec fn backup_views(s: Seq<BackupInfo>) -> Seq<(Seq<char>, Seq<char>, Seq<char>, u64, Seq<char>)> {
    s.map_values(|b: BackupInfo| backup_view(b))
}

/// `out` is `inp` rearranged by `p` (`out[i]` is `inp[p[i]]`, each index used once), newest
/// timestamp first, and entries with equal timestamps keep their relative order.
pub open spec fn newest_first_arrangement(
    out: Seq<(Seq<char>, Seq<char>, Seq<char>, u64, Seq<char>)>,
    inp: Seq<(Seq<char>, Seq<char>, Seq<char>, u64, Seq<char>)>,
    p: Seq<int>,
) -> bool {
    &&& out.len() == inp.len() && p.len() == inp.len()
    &&& forall|i: int| 0 <= i < p.len() ==> 0 <= #[trigger] p[i] < inp.len() && out[i] == inp[p[i]]
    &&& forall|i: int, j: int| 0 <= i < j < p.len() ==> #[trigger] p[i] != #[trigger] p[j]
    &&& forall|i: int, j: int|
        0 <= i < j < out.len() ==> !lex_lt((#[trigger] out[i]).2, (#[trigger] out[j]).2)
    &&& forall|i: int, j: int|
        0 <= i < j < out.len() && (#[trigger] out[i]).2 == (#[trigger] out[j]).2 ==> p[i] < p[j]
}

/// Sorts backups newest first (by timestamp text, descending), keeping the order of equal
/// timestamps (as `sort_by` with a reversed comparison does).
pub fn sort_newest_first(items: Vec<BackupInfo>) -> (res: Vec<BackupInfo>)
    ensures
        exists|p: Seq<int>|
            #[trigger] newest_first_arrangement(
                backup_views(res@),
                backup_views(items@),
                p,
            ),
{
    let ghost inp = backup_views(items@);
    let mut out: Vec<BackupInfo> = Vec::new();
    let ghost mut p: Seq<int> = Seq::empty();
    let mut rest = items;
    let mut taken: usize = 0;
    let n = rest.len();
    while rest.len() > 0
        invariant
            n == inp.len(),
            taken + rest.len() == n,
            forall|k: int|
                0 <= k < rest.len() ==> backup_view(#[trigger] rest@[k]) == inp[taken + k],
            newest_first_arrangement(
                backup_views(out@),
                inp.take(taken as int),
                p,
            ),
        decreases rest.len(),
    {
        let x = rest.remove(0);
        let ghost xv = backup_view(x);
        assert(xv == inp[taken as int]);
        let ghost ov = backup_views(out@);
        let xts = chars_of(x.timestamp.as_str());
        let mut pos: usize = 0;
        while pos < out.len() && !lex_less(&chars_of(out[pos].timestamp.as_str()), &xts)
            invariant
                pos <= out.len(),
                ov == backup_views(out@),
                xts@ == xv.2,
                forall|k: int| 0 <= k < pos ==> !lex_lt((#[trigger] ov[k]).2, xv.2),
            decreases out.len() - pos,
        {
            pos += 1;
        }
        let ghost old_p = p;
        out.insert(pos, x);
        proof {
            p = old_p.insert(pos as int, taken as int);
            let nv = backup_views(out@);
            let it = inp.take(taken as int);
            let it2 = inp.take(taken + 1);
            assert(nv =~= ov.insert(pos as int, xv));
            assert forall|k: int| 0 <= k < it.len() implies it2[k] == #[trigger] it[k] by {}
            assert(it2[taken as int] == xv);
            assert forall|i: int| 0 <= i < p.len() implies 0 <= #[trigger] p[i] < it2.len() && nv[i]
                == it2[p[i]] by {
                if i < pos {
                    assert(p[i] == old_p[i]);
                } else if i > pos {
                    assert(p[i] == old_p[i - 1]);
                }
            }
            assert forall|i: int, j: int| 0 <= i < j < p.len() implies #[trigger] p[i]
                != #[trigger] p[j] by {
                if i < pos && j < pos {
                } else if i < pos && j == pos {
                    assert(old_p[i] < taken);
                } else if i < pos && j > pos {
                    assert(p[j] == old_p[j - 1]);
                } else if i == pos {
                    assert(p[j] == old_p[j - 1] && old_p[j - 1] < taken);
                } else {
                    assert(p[i] == old_p[i - 1] && p[j] == old_p[j - 1]);
                }
            }
            assert forall|i: int, j: int| 0 <= i < j < nv.len() implies !lex_lt(
                (#[trigger] nv[i]).2,
                (#[trigger] nv[j]).2,
            ) && (nv[i].2 == nv[j].2 ==> p[i] < p[j]) by {
                if j < pos {
                    assert(nv[i] == ov[i] && nv[j] == ov[j]);
                } else if i < pos && j == pos {
                    assert(nv[i] == ov[i]);
                    assert(old_p[i] < taken);
                } else if i < pos && j > pos {
                    assert(nv[i] == ov[i] && nv[j] == ov[j - 1]);
                    assert(p[j] == old_p[j - 1]);
                } else if i == pos {
                    assert(nv[j] == ov[j - 1]);
                    // ov[pos] comes before xv; ov[j-1] does not come after ov[pos]
                    assert(lex_lt(ov[pos as int].2, xv.2));
                    lemma_lex_order(ov[j - 1].2, ov[pos as int].2, xv.2);
                    lemma_lex_order(xv.2, ov[j - 1].2, xv.2);
                    if j - 1 > pos {
                        assert(!lex_lt(ov[pos as int].2, ov[j - 1].2));
                    }
                } else {
                    assert(nv[i] == ov[i - 1] && nv[j] == ov[j - 1]);
                    assert(p[i] == old_p[i - 1] && p[j] == old_p[j - 1]);
                }
            }
        }
        taken += 1;
    }
    assert(inp.take(n as int) =~= inp);
    out
}

} // verus!

verus! {

/// The backup an entry stands for, if it is one whose size is known.
pub open spec fn backup_of(db_name: Seq<char>, e: DirEntryInfo) -> Option<(Seq<char>, Seq<char>, Seq<char>, u64, Seq<char>)> {
    if is_backup_name(db_name, e.filename@) && e.size is Some {
        let ts = backup_timestamp(e.filename@);
        Some((e.path@, e.filename@, ts, e.size->0, backup_date_text(ts)))
    } else {
        None
    }
}

/// The backups among the entries, in directory order.
pub open spec fn backup_candidates(db_name: Seq<char>, entries: Seq<DirEntryInfo>) -> Seq<
    (Seq<char>, Seq<char>, Seq<char>, u64, Seq<char>),
>
    decreases entries.len(),
{
    if entries.len() == 0 {
        Seq::empty()
    } else {
        let init = backup_candidates(db_name, entries.drop_last());
        match backup_of(db_name, entries.last()) {
            Some(b) => init.push(b),
            None => init,
        }
    }
}

/// The names that mention `storage.json`, in order.
pub open spec fn storage_named(names: Seq<Seq<char>>) -> Seq<Seq<char>> {
    names.filter(|s: Seq<char>| contains_spec(s, "storage.json"@))
}

/// Names in ascending order, rearranged from `inp` by `p`.
pub open spec fn ascending_arrangement(out: Seq<Seq<char>>, inp: Seq<Seq<char>>, p: Seq<int>) -> bool {
    &&& out.len() == inp.len() && p.len() == inp.len()
    &&& forall|i: int| 0 <= i < p.len() ==> 0 <= #[trigger] p[i] < inp.len() && out[i] == inp[p[i]]
    &&& forall|i: int, j: int| 0 <= i < j < p.len() ==> #[trigger] p[i] != #[trigger] p[j]
    &&& forall|i: int, j: int| 0 <= i < j < out.len() ==> !lex_lt(#[trigger] out[j], #[trigger] out[i])
}

/// The views of a list of strings.
pub open spec fn string_views(s: Seq<String>) -> Seq<Seq<char>> {
    s.map_values(|t: String| t@)
}

/// Sorts names in ascending order.
pub fn sort_names(items: Vec<String>) -> (res: Vec<String>)
    ensures
        exists|p: Seq<int>| #[trigger] ascending_arrangement(string_views(res@), string_views(items@), p),
{
    let ghost inp = string_views(items@);
    let mut out: Vec<String> = Vec::new();
    let ghost mut p: Seq<int> = Seq::empty();
    let mut rest = items;
    let mut taken: usize = 0;
    let n = rest.len();
    while rest.len() > 0
        invariant
            n == inp.len(),
            taken + rest.len() == n,
            forall|k: int| 0 <= k < rest.len() ==> (#[trigger] rest@[k])@ == inp[taken + k],
            ascending_arrangement(string_views(out@), inp.take(taken as int), p),
        decreases rest.len(),
    {
        let x = rest.remove(0);
        let ghost xv = x@;
        assert(xv == inp[taken as int]);
        let ghost ov = string_views(out@);
        let xs = chars_of(x.as_str());
        let mut pos: usize = 0;
        while pos < out.len() && !lex_less(&xs, &chars_of(out[pos].as_str()))
            invariant
                pos <= out.len(),
                ov == string_views(out@),
                xs@ == xv,
                forall|k: int| 0 <= k < pos ==> !lex_lt(xv, #[trigger] ov[k]),
            decreases out.len() - pos,
        {
            pos += 1;
        }
        let ghost old_p = p;
        out.insert(pos, x);
        proof {
            p = old_p.insert(pos as int, taken as int);
            let nv = string_views(out@);
            let it = inp.take(taken as int);
            let it2 = inp.take(taken + 1);
            assert(nv =~= ov.insert(pos as int, xv));
            assert forall|k: int| 0 <= k < it.len() implies it2[k] == #[trigger] it[k] by {}
            assert(it2[taken as int] == xv);
            assert forall|i: int| 0 <= i < p.len() implies 0 <= #[trigger] p[i] < it2.len() && nv[i]
                == it2[p[i]] by {
                if i < pos {
                    assert(p[i] == old_p[i]);
                } else if i > pos {
                    assert(p[i] == old_p[i - 1]);
                }
            }
            assert forall|i: int, j: int| 0 <= i < j < p.len() implies #[trigger] p[i]
                != #[trigger] p[j] by {
                if i < pos && j < pos {
                } else if i < pos && j == pos {
                    assert(old_p[i] < taken);
                } else if i < pos && j > pos {
                    assert(p[j] == old_p[j - 1]);
                } else if i == pos {
                    assert(p[j] == old_p[j - 1] && old_p[j - 1] < taken);
                } else {
                    assert(p[i] == old_p[i - 1] && p[j] == old_p[j - 1]);
                }
            }
            assert forall|i: int, j: int| 0 <= i < j < nv.len() implies !lex_lt(
                #[trigger] nv[j],
                #[trigger] nv[i],
            ) by {
                if j < pos {
                    assert(nv[i] == ov[i] && nv[j] == ov[j]);
                } else if i < pos && j == pos {
                    assert(nv[i] == ov[i]);
                } else if i < pos && j > pos {
                    assert(nv[i] == ov[i] && nv[j] == ov[j - 1]);
                } else if i == pos {
                    assert(nv[j] == ov[j - 1]);
                    assert(lex_lt(xv, ov[pos as int]));
                    lemma_lex_order(xv, ov[pos as int], ov[j - 1]);
                    lemma_lex_order(ov[pos as int], ov[j - 1], ov[j - 1]);
                    lemma_lex_order(ov[j - 1], xv, ov[j - 1]);
                    if j - 1 > pos {
                        assert(!lex_lt(ov[j - 1], ov[pos as int]));
                    }
                } else {
                    assert(nv[i] == ov[i - 1] && nv[j] == ov[j - 1]);
                }
            }
        }
        taken += 1;
    }
    assert(inp.take(n as int) =~= inp);
    out
}

impl MachineIdRestorer {
    /// The backups of storage.json (named `db_name`) among the entries of its directory,
    /// newest first; entries whose size is unknown are skipped.
    pub fn find_backups(&self, db_name: &str, entries: &Vec<DirEntryInfo>) -> (res: Vec<BackupInfo>)
        ensures
            exists|p: Seq<int>|
                #[trigger] newest_first_arrangement(
                    backup_views(res@),
                    backup_candidates(db_name@, entries@),
                    p,
                ),
    {
        let db = chars_of(db_name);
        let mut found: Vec<BackupInfo> = Vec::new();
        let mut i: usize = 0;
        while i < entries.len()
            invariant
                i <= entries.len(),
                db@ == db_name@,
                backup_views(found@) == backup_candidates(db_name@, entries@.take(i as int)),
            decreases entries.len() - i,
        {
            let e = &entries[i];
            let name = chars_of(e.filename.as_str());
            assert(entries@.take(i + 1).drop_last() =~= entries@.take(i as int));
            assert(entries@.take(i + 1).last() == *e);
            if check_backup_name(&db, &name) {
                match e.size {
                    Some(size) => {
                        let ts = string_of(&extract_backup_timestamp(&name));
                        let date_formatted = format_timestamp(ts.as_str());
                        let ghost before = backup_views(found@);
                        found.push(
                            BackupInfo {
                                path: e.path.clone(),
                                filename: e.filename.clone(),
                                timestamp: ts,
                                size,
                                date_formatted,
                            },
                        );
                        assert(backup_views(found@) =~= before.push(backup_of(db_name@, *e)->0));
                    },
                    None => {},
                }
            }
            i += 1;
        }
        assert(entries@.take(entries.len() as int) =~= entries@);
        sort_newest_first(found)
    }

    /// The directory of storage.json and, in ascending order, the names of the files in it
    /// that mention `storage.json`.
    pub fn get_backup_directory_info(&self, dir: String, names: &Vec<String>) -> (res: (
        String,
        Vec<String>,
    ))
        ensures
            res.0 == dir,
            exists|p: Seq<int>|
                #[trigger] ascending_arrangement(
                    string_views(res.1@),
                    storage_named(string_views(names@)),
                    p,
                ),
    {
        let marker = chars_of("storage.json");
        let ghost sv = string_views(names@);
        let mut kept: Vec<String> = Vec::new();
        let mut i: usize = 0;
        while i < names.len()
            invariant
                i <= names.len(),
                marker@ == "storage.json"@,
                sv == string_views(names@),
                string_views(kept@) == storage_named(sv.take(i as int)),
            decreases names.len() - i,
        {
            proof {
                reveal_with_fuel(Seq::filter, 1);
                assert(sv.take(i + 1).drop_last() =~= sv.take(i as int));
                assert(sv.take(i + 1).last() == names@[i as int]@);
            }
            if contains(&chars_of(names[i].as_str()), &marker) {
                let ghost before = string_views(kept@);
                kept.push(names[i].clone());
                assert(string_views(kept@) =~= before.push(names@[i as int]@));
            }
            i += 1;
        }
        assert(sv.take(names.len() as int) =~= sv);
        let ghost kv = string_views(kept@);
        assert(kv == storage_named(sv));
        let sorted = sort_names(kept);
        proof {
            let p = choose|p: Seq<int>| #[trigger] ascending_arrangement(string_views(sorted@), kv, p);
            assert(ascending_arrangement(string_views(sorted@), storage_named(string_views(names@)), p));
        }
        assert(exists|p: Seq<int>| #[trigger] ascending_arrangement(string_views(sorted@), storage_named(string_views(names@)), p));
        let res = (dir, sorted);
        assert(res.1@ == sorted@);
        res
    }

    /// Starts a backup of storage.json: refused when the file is missing, else the path to
    /// copy it to (its path, `.bak.` and the local time as `YYYYmmdd_HHMMSS`). The caller
    /// copies the file there.
    pub fn create_backup(&self, storage_exists: bool) -> (res: Result<String, String>)
        ensures
            !storage_exists ==> (res matches Err(e) && e@ == "Current storage.json file not found"@),
            storage_exists ==> (res matches Ok(p) && exists|ts: Seq<char>|
                is_compact_stamp(ts) && p@ == self.db_path@ + ".bak."@ + ts),
    {
        if !storage_exists {
            return Err(String::from_str("Current storage.json file not found"));
        }
        Ok(self.backup_path())
    }

    /// Where a backup of storage.json made now is written: its path, `.bak.` and the local
    /// time as `YYYYmmdd_HHMMSS`.
    pub fn backup_path(&self) -> (res: String)
        ensures
            exists|ts: Seq<char>| is_compact_stamp(ts) && res@ == self.db_path@ + ".bak."@ + ts,
    {
        let ts = local_now_compact_text();
        let s = concat_str(self.db_path.as_str(), ".bak.");
        s.concat(ts.as_str())
    }
}


/// An arrangement uses every index of its input: each input entry has its place.
pub proof fn lemma_arrangement_onto(p: Seq<int>, n: int)
    requires
        p.len() == n,
        forall|i: int| 0 <= i < p.len() ==> 0 <= #[trigger] p[i] < n,
        forall|i: int, j: int| 0 <= i < j < p.len() ==> #[trigger] p[i] != #[trigger] p[j],
    ensures
        forall|k: int| 0 <= k < n ==> #[trigger] p.contains(k),
{
    assert(p.no_duplicates()) by {
        assert forall|i: int, j: int| 0 <= i < p.len() && 0 <= j < p.len() && i != j implies p[i] != p[j] by {
            if i < j {
                assert(p[i] != p[j]);
            } else {
                assert(p[j] != p[i]);
            }
        }
    }
    p.unique_seq_to_set();
    vstd::set_lib::lemma_int_range(0, n);
    let r = vstd::set_lib::set_int_range(0, n);
    assert(p.to_set().subset_of(r)) by {
        assert forall|x: int| p.to_set().contains(x) implies r.contains(x) by {
            assert(p.contains(x));
            let j = choose|j: int| 0 <= j < p.len() && p[j] == x;
            assert(0 <= p[j] < n);
        }
    }
    vstd::set_lib::lemma_subset_equality(p.to_set(), r);
    assert forall|k: int| 0 <= k < n implies #[trigger] p.contains(k) by {
        assert(r.contains(k));
        assert(p.to_set().contains(k));
    }
}

/// Each backup-named entry with a known size is among the candidates.
pub proof fn lemma_candidate_present(db_name: Seq<char>, entries: Seq<DirEntryInfo>, k: int)
    requires
        0 <= k < entries.len(),
        backup_of(db_name, entries[k]) is Some,
    ensures
        exists|i: int|
            0 <= i < backup_candidates(db_name, entries).len() && #[trigger] backup_candidates(db_name, entries)[i]
                == backup_of(db_name, entries[k])->0,
    decreases entries.len(),
{
    let init = entries.drop_last();
    if k == entries.len() - 1 {
        let c = backup_candidates(db_name, entries);
        assert(c[c.len() - 1] == backup_of(db_name, entries[k])->0);
    } else {
        assert(init[k] == entries[k]);
        lemma_candidate_present(db_name, init, k);
        let ci = backup_candidates(db_name, init);
        let i = choose|i: int| 0 <= i < ci.len() && #[trigger] ci[i] == backup_of(db_name, init[k])->0;
        let c = backup_candidates(db_name, entries);
        assert(c[i] == ci[i]);
    }
}

/// The file name of a backup of the file named `db_name` made at time `ts`.
pub open spec fn made_backup_name(db_name: Seq<char>, ts: Seq<char>) -> Seq<char> {
    db_name + ".bak."@ + ts
}

/// A backup of storage.json, made as `create_backup` names it (its path, `.bak.` and the
/// stamp `ts`), is listed afterwards among the backups of its file with that path, that file
/// name, the timestamp `ts`, its size and the date read from `ts`, as long as its size can be
/// read. This holds for any file name in which `.bak.` does not already begin before the
/// added marker (as it would in `x.bak`).
pub proof fn law_created_backup_is_listed(
    db_path: Seq<char>,
    db_name: Seq<char>,
    ts: Seq<char>,
    entries: Seq<DirEntryInfo>,
    k: int,
    listed: Seq<(Seq<char>, Seq<char>, Seq<char>, u64, Seq<char>)>,
)
    requires
        !contains_spec(db_name + ".bak"@, bak_marker()),
        0 <= k < entries.len(),
        entries[k].path@ == db_path + ".bak."@ + ts,
        entries[k].filename@ == made_backup_name(db_name, ts),
        entries[k].size is Some,
        exists|p: Seq<int>| #[trigger] newest_first_arrangement(listed, backup_candidates(db_name, entries), p),
    ensures
        exists|i: int|
            0 <= i < listed.len() && #[trigger] listed[i] == (
                db_path + ".bak."@ + ts,
                made_backup_name(db_name, ts),
                ts,
                entries[k].size->0,
                backup_date_text(ts),
            ),
{
    reveal_strlit(".bak.");
    reveal_strlit(".bak");
    let n = db_name.len() as int;
    let name = made_backup_name(db_name, ts);
    let head = db_name + ".bak"@;
    assert(name.subrange(0, n) =~= db_name);
    assert(starts_with_spec(name, db_name));
    assert(name.subrange(n, n + 5) =~= bak_marker());
    assert(occurs_at(name, bak_marker(), n));
    lemma_find_spec(name, bak_marker(), 0);
    lemma_find_spec(head, bak_marker(), 0);
    assert forall|j: int| 0 <= j < n implies !occurs_at(name, bak_marker(), j) by {
        assert(head.subrange(j, j + 5) =~= name.subrange(j, j + 5));
        assert(!occurs_at(head, bak_marker(), j));
    }
    assert(find_spec(name, bak_marker(), 0) == Some(n));
    assert(contains_spec(name, bak_marker()));
    assert(is_backup_name(db_name, name));
    assert(backup_timestamp(name) =~= ts);
    lemma_candidate_present(db_name, entries, k);
    let cand = backup_candidates(db_name, entries);
    let c = choose|c: int| 0 <= c < cand.len() && #[trigger] cand[c] == backup_of(db_name, entries[k])->0;
    let p = choose|p: Seq<int>| #[trigger] newest_first_arrangement(listed, cand, p);
    lemma_arrangement_onto(p, cand.len() as int);
    assert(p.contains(c));
    let j = choose|j: int| 0 <= j < p.len() && #[trigger] p[j] == c;
    assert(listed[j] == cand[p[j]]);
}

} // verus!
