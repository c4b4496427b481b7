//! Where Cursor keeps its files, and where this application keeps its own, on each
//! platform.
use vstd::prelude::*;

use crate::deps::{path_join, path_joined, path_parent, path_parent_of};

verus! {

/// The platform the application runs on.
#[derive(Clone, Copy, PartialEq, Eq, Structural)]
pub enum Platform {
    Windows,
    MacOs,
    Linux,
}

/// `base` joined with each part in turn.
pub open spec fn path_under(base: Seq<char>, parts: Seq<Seq<char>>) -> Seq<char>
    decreases parts.len(),
{
    if parts.len() == 0 {
        base
    } else {
        path_joined(path_under(base, parts.drop_last()), parts.last())
    }
}

/// Joins each part onto `base` in turn.
pub fn join_all(base: &str, parts: &Vec<&str>) -> (res: String)
    ensures
        res@ == path_under(base@, parts@.map_values(|p: &str| p@)),
{
    let mut out = String::from_str(base);
    let mut i: usize = 0;
    let ghost views = parts@.map_values(|p: &str| p@);
    while i < parts.len()
        invariant
            i <= parts@.len(),
            views == parts@.map_values(|p: &str| p@),
            out@ == path_under(base@, views.take(i as int)),
        decreases parts.len() - i,
    {
        out = path_join(out.as_str(), parts[i]);
        assert(views.take(i + 1).drop_last() =~= views.take(i as int));
        i += 1;
    }
    assert(views.take(parts@.len() as int) =~= views);
    out
}

/// The directories from the platform's base directory (`APPDATA` on Windows, the home
/// directory elsewhere) down to Cursor's global storage.
pub open spec fn storage_dirs(platform: Platform) -> Seq<Seq<char>> {
    match platform {
        Platform::Windows => seq!["Cursor"@, "User"@, "globalStorage"@],
        Platform::MacOs => seq!["Library"@, "Application Support"@, "Cursor"@, "User"@, "globalStorage"@],
        Platform::Linux => seq![".config"@, "Cursor"@, "User"@, "globalStorage"@],
    }
}

/// Where Cursor keeps its global storage under each platform's base directory: always in
/// `Cursor/User/globalStorage` (on macOS below `Library/Application Support`, on Linux below
/// `.config`), with storage.json and the SQLite store `state.vscdb` side by side there.
pub proof fn law_global_storage_location(platform: Platform, base: Seq<char>)
    ensures
        ({
            let d = storage_dirs(platform);
            &&& d.len() >= 3
            &&& d.subrange(d.len() - 3, d.len() as int) == seq!["Cursor"@, "User"@, "globalStorage"@]
        }),
        platform == Platform::Windows ==> path_under(base, storage_dirs(platform).push("storage.json"@)) == path_under(
            base,
            seq!["Cursor"@, "User"@, "globalStorage"@, "storage.json"@],
        ) && path_under(base, storage_dirs(platform).push("state.vscdb"@)) == path_under(
            base,
            seq!["Cursor"@, "User"@, "globalStorage"@, "state.vscdb"@],
        ),
        platform == Platform::MacOs ==> path_under(base, storage_dirs(platform).push("storage.json"@)) == path_under(
            base,
            seq!["Library"@, "Application Support"@, "Cursor"@, "User"@, "globalStorage"@, "storage.json"@],
        ) && path_under(base, storage_dirs(platform).push("state.vscdb"@)) == path_under(
            base,
            seq!["Library"@, "Application Support"@, "Cursor"@, "User"@, "globalStorage"@, "state.vscdb"@],
        ),
        platform == Platform::Linux ==> path_under(base, storage_dirs(platform).push("storage.json"@)) == path_under(
            base,
            seq![".config"@, "Cursor"@, "User"@, "globalStorage"@, "storage.json"@],
        ) && path_under(base, storage_dirs(platform).push("state.vscdb"@)) == path_under(
            base,
            seq![".config"@, "Cursor"@, "User"@, "globalStorage"@, "state.vscdb"@],
        ),
        path_under(base, storage_dirs(platform).push("storage.json"@)) == path_joined(
            path_under(base, storage_dirs(platform)),
            "storage.json"@,
        ),
        path_under(base, storage_dirs(platform).push("state.vscdb"@)) == path_joined(
            path_under(base, storage_dirs(platform)),
            "state.vscdb"@,
        ),
{
    let d = storage_dirs(platform);
    assert(d.push("storage.json"@).drop_last() =~= d);
    assert(d.push("state.vscdb"@).drop_last() =~= d);
    match platform {
        Platform::Windows => {
            assert(d.subrange(0, 3) =~= seq!["Cursor"@, "User"@, "globalStorage"@]);
            assert(d.push("storage.json"@) =~= seq!["Cursor"@, "User"@, "globalStorage"@, "storage.json"@]);
            assert(d.push("state.vscdb"@) =~= seq!["Cursor"@, "User"@, "globalStorage"@, "state.vscdb"@]);
        },
        Platform::MacOs => {
            assert(d.subrange(2, 5) =~= seq!["Cursor"@, "User"@, "globalStorage"@]);
            assert(d.push("storage.json"@) =~= seq!["Library"@, "Application Support"@, "Cursor"@, "User"@, "globalStorage"@, "storage.json"@]);
            assert(d.push("state.vscdb"@) =~= seq!["Library"@, "Application Support"@, "Cursor"@, "User"@, "globalStorage"@, "state.vscdb"@]);
        },
        Platform::Linux => {
            assert(d.subrange(1, 4) =~= seq!["Cursor"@, "User"@, "globalStorage"@]);
            assert(d.push("storage.json"@) =~= seq![".config"@, "Cursor"@, "User"@, "globalStorage"@, "storage.json"@]);
            assert(d.push("state.vscdb"@) =~= seq![".config"@, "Cursor"@, "User"@, "globalStorage"@, "state.vscdb"@]);
        },
    }
}

fn storage_dir_parts(platform: &Platform) -> (res: Vec<&'static str>)
    ensures
        res@.map_values(|p: &str| p@) == storage_dirs(*platform),
{
    let mut v: Vec<&'static str> = Vec::new();
    match platform {
        Platform::Windows => {
            v.push("Cursor");
            v.push("User");
            v.push("globalStorage");
        },
        Platform::MacOs => {
            v.push("Library");
            v.push("Application Support");
            v.push("Cursor");
            v.push("User");
            v.push("globalStorage");
        },
        Platform::Linux => {
            v.push(".config");
            v.push("Cursor");
            v.push("User");
            v.push("globalStorage");
        },
    }
    assert(v@.map_values(|p: &str| p@) =~= storage_dirs(*platform));
    v
}

/// The log file of a reset started at `stamp` (`%Y%m%d_%H%M%S`): `cursor_reset_<stamp>.log`
/// in the working directory.
pub fn reset_log_file_path(work_dir: &str, stamp: &str) -> (res: String)
    ensures
        res@ == path_joined(work_dir@, "cursor_reset_"@ + stamp@ + ".log"@),
{
    let name = String::from_str("cursor_reset_").concat(stamp).concat(".log");
    path_join(work_dir, name.as_str())
}

/// Cursor's storage.json and SQLite store under the platform's base directory.
pub fn get_cursor_paths(platform: &Platform, base: &str) -> (res: (String, String))
    ensures
        res.0@ == path_under(base@, storage_dirs(*platform).push("storage.json"@)),
        res.1@ == path_under(base@, storage_dirs(*platform).push("state.vscdb"@)),
{
    let mut a = storage_dir_parts(platform);
    let mut b = storage_dir_parts(platform);
    a.push("storage.json");
    b.push("state.vscdb");
    let ghost va = a@.map_values(|p: &str| p@);
    let ghost vb = b@.map_values(|p: &str| p@);
    assert(va =~= storage_dirs(*platform).push("storage.json"@));
    assert(vb =~= storage_dirs(*platform).push("state.vscdb"@));
    (join_all(base, &a), join_all(base, &b))
}

/// The directories from the platform's base directory to Cursor's machineId file.
pub open spec fn machine_id_dirs(platform: Platform) -> Seq<Seq<char>> {
    match platform {
        Platform::Windows => seq!["Cursor"@, "machineId"@],
        Platform::MacOs => seq!["Library"@, "Application Support"@, "Cursor"@, "machineId"@],
        Platform::Linux => seq![".config"@, "Cursor"@, "machineId"@],
    }
}

/// Cursor's machineId file sits directly in the `Cursor` directory that holds
/// `User/globalStorage`, on every platform.
pub proof fn law_machine_id_beside_storage(platform: Platform)
    ensures
        ({
            let m = machine_id_dirs(platform);
            let d = storage_dirs(platform);
            &&& m.len() >= 2
            &&& m.last() == "machineId"@
            &&& m[m.len() - 2] == "Cursor"@
            &&& m.drop_last() == d.take(d.len() - 2)
        }),
{
    let m = machine_id_dirs(platform);
    let d = storage_dirs(platform);
    assert(m.drop_last() =~= d.take(d.len() - 2));
}

/// Cursor's machineId file under the platform's base directory.
pub fn get_machine_id_path(platform: &Platform, base: &str) -> (res: String)
    ensures
        res@ == path_under(base@, machine_id_dirs(*platform)),
{
    let mut v: Vec<&str> = Vec::new();
    match platform {
        Platform::Windows => {
            v.push("Cursor");
            v.push("machineId");
        },
        Platform::MacOs => {
            v.push("Library");
            v.push("Application Support");
            v.push("Cursor");
            v.push("machineId");
        },
        Platform::Linux => {
            v.push(".config");
            v.push("Cursor");
            v.push("machineId");
        },
    }
    assert(v@.map_values(|p: &str| p@) =~= machine_id_dirs(*platform));
    join_all(base, &v)
}

/// The saved-accounts file: `account.json` beside storage.json.
pub fn get_account_file_path(db_path: &str) -> (res: Result<String, String>)
    ensures
        match path_parent_of(db_path@) {
            Some(dir) => res matches Ok(p) && p@ == path_joined(dir, "account.json"@),
            None => res matches Err(e) && e@ == "Could not get parent directory"@,
        },
{
    match path_parent(db_path) {
        Some(dir) => Ok(path_join(dir.as_str(), "account.json")),
        None => Err(String::from_str("Could not get parent directory")),
    }
}

/// The application's directory: the one holding its executable.
pub fn get_app_dir(exe_path: &str) -> (res: Result<String, String>)
    ensures
        match path_parent_of(exe_path@) {
            Some(dir) => res matches Ok(p) && p@ == dir,
            None => res matches Err(e) && e@ == "Failed to get parent directory"@,
        },
{
    match path_parent(exe_path) {
        Some(dir) => Ok(dir),
        None => Err(String::from_str("Failed to get parent directory")),
    }
}

/// The name the platform's directory has under `pyBuild`.
pub open spec fn platform_name(platform: Platform) -> Seq<char> {
    match platform {
        Platform::Windows => "windows"@,
        Platform::MacOs => "macos"@,
        Platform::Linux => "linux"@,
    }
}

/// The registration program's file name on the platform.
pub open spec fn register_program_name(platform: Platform) -> Seq<char> {
    match platform {
        Platform::Windows => "cursor_register.exe"@,
        _ => "cursor_register"@,
    }
}

/// The registration program bundled with the application:
/// `<app dir>/pyBuild/<platform>/<program>`.
pub fn get_python_executable_path(platform: &Platform, app_dir: &str) -> (res: String)
    ensures
        res@ == path_under(app_dir@, seq!["pyBuild"@, platform_name(*platform), register_program_name(*platform)]),
{
    let mut v: Vec<&str> = Vec::new();
    v.push("pyBuild");
    match platform {
        Platform::Windows => {
            v.push("windows");
            v.push("cursor_register.exe");
        },
        Platform::MacOs => {
            v.push("macos");
            v.push("cursor_register");
        },
        Platform::Linux => {
            v.push("linux");
            v.push("cursor_register");
        },
    }
    assert(v@.map_values(|p: &str| p@) =~= seq!["pyBuild"@, platform_name(*platform), register_program_name(*platform)]);
    join_all(app_dir, &v)
}

/// The directories Cursor's application files are looked for in: under `LOCALAPPDATA` on
/// Windows, in /Applications on macOS, and in four places on Linux (one under the home
/// directory `base`).
pub open spec fn app_dir_candidates(platform: Platform, base: Seq<char>) -> Seq<Seq<char>> {
    match platform {
        Platform::Windows => seq![path_under(base, seq!["Programs"@, "Cursor"@, "resources"@, "app"@])],
        Platform::MacOs => seq!["/Applications/Cursor.app/Contents/Resources/app"@],
        Platform::Linux => seq![
            "/opt/Cursor/resources/app"@,
            "/usr/share/cursor/resources/app"@,
            path_joined(base, ".local/share/cursor/resources/app"@),
            "/usr/lib/cursor/app"@,
        ],
    }
}

fn app_dirs(platform: &Platform, base: &str) -> (res: Vec<String>)
    ensures
        res@.map_values(|p: String| p@) == app_dir_candidates(*platform, base@),
{
    let mut v: Vec<String> = Vec::new();
    match platform {
        Platform::Windows => {
            let mut parts: Vec<&str> = Vec::new();
            parts.push("Programs");
            parts.push("Cursor");
            parts.push("resources");
            parts.push("app");
            assert(parts@.map_values(|p: &str| p@) =~= seq!["Programs"@, "Cursor"@, "resources"@, "app"@]);
            v.push(join_all(base, &parts));
        },
        Platform::MacOs => {
            v.push(String::from_str("/Applications/Cursor.app/Contents/Resources/app"));
        },
        Platform::Linux => {
            v.push(String::from_str("/opt/Cursor/resources/app"));
            v.push(String::from_str("/usr/share/cursor/resources/app"));
            v.push(path_join(base, ".local/share/cursor/resources/app"));
            v.push(String::from_str("/usr/lib/cursor/app"));
        },
    }
    assert(v@.map_values(|p: String| p@) =~= app_dir_candidates(*platform, base@));
    v
}

/// The package.json and main.js of each candidate directory, in order.
pub fn app_path_candidates(platform: &Platform, base: &str) -> (res: Vec<(String, String)>)
    ensures
        res@.len() == app_dir_candidates(*platform, base@).len(),
        forall|i: int|
            0 <= i < res@.len() ==> (#[trigger] res@[i]).0@ == path_joined(app_dir_candidates(*platform, base@)[i], "package.json"@)
                && res@[i].1@ == path_under(app_dir_candidates(*platform, base@)[i], seq!["out"@, "main.js"@]),
{
    let dirs = app_dirs(platform, base);
    let mut out: Vec<(String, String)> = Vec::new();
    let mut i: usize = 0;
    while i < dirs.len()
        invariant
            i <= dirs@.len(),
            dirs@.map_values(|p: String| p@) == app_dir_candidates(*platform, base@),
            out@.len() == i,
            forall|j: int|
                0 <= j < i ==> (#[trigger] out@[j]).0@ == path_joined(dirs@[j]@, "package.json"@) && out@[j].1@
                    == path_under(dirs@[j]@, seq!["out"@, "main.js"@]),
        decreases dirs.len() - i,
    {
        let pkg = path_join(dirs[i].as_str(), "package.json");
        let mut parts: Vec<&str> = Vec::new();
        parts.push("out");
        parts.push("main.js");
        assert(parts@.map_values(|p: &str| p@) =~= seq!["out"@, "main.js"@]);
        let main = join_all(dirs[i].as_str(), &parts);
        out.push((pkg, main));
        i += 1;
    }
    assert forall|j: int| 0 <= j < out@.len() implies dirs@[j]@ == app_dir_candidates(*platform, base@)[j] by {
        assert(dirs@.map_values(|p: String| p@)[j] == dirs@[j]@);
    }
    out
}

/// The workbench script of each candidate directory, in order.
pub fn workbench_path_candidates(platform: &Platform, base: &str) -> (res: Vec<String>)
    ensures
        res@.len() == app_dir_candidates(*platform, base@).len(),
        forall|i: int|
            0 <= i < res@.len() ==> (#[trigger] res@[i])@ == path_under(
                app_dir_candidates(*platform, base@)[i],
                seq!["out"@, "vs"@, "workbench"@, "workbench.desktop.main.js"@],
            ),
{
    let dirs = app_dirs(platform, base);
    let mut out: Vec<String> = Vec::new();
    let mut i: usize = 0;
    while i < dirs.len()
        invariant
            i <= dirs@.len(),
            dirs@.map_values(|p: String| p@) == app_dir_candidates(*platform, base@),
            out@.len() == i,
            forall|j: int|
                0 <= j < i ==> (#[trigger] out@[j])@ == path_under(
                    dirs@[j]@,
                    seq!["out"@, "vs"@, "workbench"@, "workbench.desktop.main.js"@],
                ),
        decreases dirs.len() - i,
    {
        let mut parts: Vec<&str> = Vec::new();
        parts.push("out");
        parts.push("vs");
        parts.push("workbench");
        parts.push("workbench.desktop.main.js");
        assert(parts@.map_values(|p: &str| p@) =~= seq!["out"@, "vs"@, "workbench"@, "workbench.desktop.main.js"@]);
        out.push(join_all(dirs[i].as_str(), &parts));
        i += 1;
    }
    assert forall|j: int| 0 <= j < out@.len() implies dirs@[j]@ == app_dir_candidates(*platform, base@)[j] by {
        assert(dirs@.map_values(|p: String| p@)[j] == dirs@[j]@);
    }
    out
}

/// The first index at or after `i` whose candidate is present.
pub open spec fn first_present(present: Seq<bool>, i: int) -> Option<int>
    decreases present.len() - i,
{
    if i < 0 || i >= present.len() {
        None
    } else if present[i] {
        Some(i)
    } else {
        first_present(present, i + 1)
    }
}

/// Which candidate is used: on Linux the first one present (the caller checks each), on the
/// other platforms the only one, present or not.
pub open spec fn chosen_candidate(platform: Platform, present: Seq<bool>) -> Option<int> {
    if platform == Platform::Linux {
        first_present(present, 0)
    } else if present.len() > 0 {
        Some(0)
    } else {
        None
    }
}

fn pick_candidate(platform: &Platform, present: &Vec<bool>) -> (res: Option<usize>)
    ensures
        match res {
            Some(i) => chosen_candidate(*platform, present@) == Some(i as int) && i < present@.len(),
            None => chosen_candidate(*platform, present@) is None,
        },
{
    match platform {
        Platform::Linux => {
            let mut i: usize = 0;
            while i < present.len()
                invariant
                    i <= present@.len(),
                    *platform == Platform::Linux,
                    first_present(present@, 0) == first_present(present@, i as int),
                decreases present.len() - i,
            {
                if present[i] {
                    return Some(i);
                }
                i += 1;
            }
            None
        },
        _ => if present.len() > 0 {
            Some(0)
        } else {
            None
        },
    }
}

/// Cursor's package.json and main.js, given the candidates and which are present: the error
/// says Cursor was not found.
pub fn get_cursor_app_paths(platform: &Platform, candidates: Vec<(String, String)>, present: &Vec<bool>) -> (res: Result<
    (String, String),
    String,
>)
    requires
        present@.len() == candidates@.len(),
    ensures
        match chosen_candidate(*platform, present@) {
            Some(i) => res matches Ok(p) && p.0@ == candidates@[i].0@ && p.1@ == candidates@[i].1@,
            None => res matches Err(e) && e@ == "Could not find Cursor installation on Linux"@,
        },
{
    match pick_candidate(platform, present) {
        Some(i) => Ok((candidates[i].0.clone(), candidates[i].1.clone())),
        None => Err(String::from_str("Could not find Cursor installation on Linux")),
    }
}

/// Cursor's workbench script, given the candidates and which are present.
pub fn get_workbench_js_path(platform: &Platform, candidates: Vec<String>, present: &Vec<bool>) -> (res: Result<String, String>)
    requires
        present@.len() == candidates@.len(),
    ensures
        match chosen_candidate(*platform, present@) {
            Some(i) => res matches Ok(p) && p@ == candidates@[i]@,
            None => res matches Err(e) && e@ == "Could not find Cursor workbench.desktop.main.js on Linux"@,
        },
{
    match pick_candidate(platform, present) {
        Some(i) => Ok(candidates[i].clone()),
        None => Err(String::from_str("Could not find Cursor workbench.desktop.main.js on Linux")),
    }
}

} // verus!
