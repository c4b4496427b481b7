//! Cursor's machine identifiers: reading them from storage.json, writing new ones, and the
//! log kept while doing so.
use vstd::prelude::*;

use crate::account::concat_str;
use crate::deps::path_joined;
use crate::paths::{Platform, get_cursor_paths, path_under, reset_log_file_path, storage_dirs};
use crate::deps::{
    debug_form, debug_text, is_lower_hex_char, local_now_millis_text, is_uuid_v4_text, json_members,
    json_reading, member_text, new_uuid_v4_text, random_bytes, sha256_digest, sha256_of,
    sha512_digest, sha512_of,
};
use crate::text::{
    append_chars, ascii_upper_spec, ascii_uppercase, chars_of, hex_digit_spec, hex_lower,
    hex_lower_spec, string_of, bool_text, bool_text_spec, trim, trim_end_spec, trim_spec, trim_start_spec, views,
};
use crate::storage::{
    StorageError, member_text_or, pair_keys, parse_storage, render_storage, set_texts, with_texts, written_keeping,
};

verus! {

/// The five identifiers Cursor keeps in storage.json.
pub struct MachineIds {
    pub dev_device_id: String,
    pub mac_machine_id: String,
    pub machine_id: String,
    pub sqm_id: String,
    pub service_machine_id: String,
}

/// A backup of storage.json found next to it.
pub struct BackupInfo {
    pub path: String,
    pub filename: String,
    pub timestamp: String,
    pub size: u64,
    pub date_formatted: String,
}

/// The outcome of restoring identifiers from a backup.
pub struct RestoreResult {
    pub success: bool,
    pub message: String,
    pub details: Vec<String>,
}

/// The outcome of resetting identifiers (or of a complete reset).
pub struct ResetResult {
    pub success: bool,
    pub message: String,
    pub details: Vec<String>,
    pub new_ids: Option<MachineIds>,
}

/// The severity of a log record.
#[derive(PartialEq, Eq, Structural)]
pub enum LogLevel {
    Info,
    Warn,
    Error,
    Debug,
}

/// A log record waiting to be written out.
pub struct LogEntry {
    pub level: LogLevel,
    pub message: String,
}

/// What the host reports about itself when a reset starts.
pub struct SystemInfo {
    pub os: String,
    pub arch: String,
    pub current_dir: String,
    pub storage_exists: bool,
    pub sqlite_exists: bool,
    pub user: Option<String>,
}

/// The records `log_system_info` makes, in order.
pub open spec fn system_info_logs(
    db_path: Seq<char>,
    sqlite_path: Seq<char>,
    log_file_path: Seq<char>,
    info: SystemInfo,
) -> Seq<(LogLevel, Seq<char>)> {
    let head = seq![
        (LogLevel::Info, "=== 系统信息 ==="@),
        (LogLevel::Info, "操作系统: "@ + info.os@),
        (LogLevel::Info, "架构: "@ + info.arch@),
        (LogLevel::Info, "工作目录: "@ + debug_form(info.current_dir@)),
        (LogLevel::Info, "存储文件路径: "@ + debug_form(db_path)),
        (LogLevel::Info, "SQLite路径: "@ + debug_form(sqlite_path)),
        (LogLevel::Info, "日志文件路径: "@ + debug_form(log_file_path)),
        (LogLevel::Info, "存储文件是否存在: "@ + bool_text_spec(info.storage_exists)),
        (LogLevel::Info, "SQLite文件是否存在: "@ + bool_text_spec(info.sqlite_exists)),
    ];
    let user = match info.user {
        Some(u) => seq![(LogLevel::Info, "当前用户: "@ + u@)],
        None => Seq::empty(),
    };
    head + user + seq![(LogLevel::Info, "=== 系统信息结束 ==="@)]
}

/// The paths the restorer works on, and the log records it has produced and not yet handed
/// out.
pub struct MachineIdRestorer {
    pub db_path: String,
    pub sqlite_path: String,
    pub log_file_path: String,
    pub pending_log: Vec<LogEntry>,
}

/// The name each level is written with.
pub open spec fn level_name(level: LogLevel) -> Seq<char> {
    match level {
        LogLevel::Info => "INFO"@,
        LogLevel::Warn => "WARN"@,
        LogLevel::Error => "ERROR"@,
        LogLevel::Debug => "DEBUG"@,
    }
}

/// A log line: `[timestamp] [LEVEL] message` and a newline.
pub open spec fn log_line(timestamp: Seq<char>, level: LogLevel, message: Seq<char>) -> Seq<char> {
    "["@ + timestamp + "] ["@ + level_name(level) + "] "@ + message + "\n"@
}

/// The log line for a record written at `timestamp`.
pub fn format_log_line(timestamp: &str, level: &LogLevel, message: &str) -> (res: String)
    ensures
        res@ == log_line(timestamp@, *level, message@),
{
    let name = match level {
        LogLevel::Info => "INFO",
        LogLevel::Warn => "WARN",
        LogLevel::Error => "ERROR",
        LogLevel::Debug => "DEBUG",
    };
    let s = String::from_str("[");
    let s = s.concat(timestamp);
    let s = s.concat("] [");
    let s = s.concat(name);
    let s = s.concat("] ");
    let s = s.concat(message);
    s.concat("\n")
}

/// The log line for a record written now, stamped with the local time as
/// `%Y-%m-%d %H:%M:%S%.3f`.
pub fn log_line_now(level: &LogLevel, message: &str) -> (res: String)
    ensures
        exists|ts: Seq<char>| res@ == log_line(ts, *level, message@),
{
    let ts = local_now_millis_text();
    let res = format_log_line(ts.as_str(), level, message);
    assert(res@ == log_line(ts@, *level, message@));
    res
}

/// The message `test_logging` reports, naming the log file.
pub open spec fn logging_test_text(log_file_path: Seq<char>) -> Seq<char> {
    "日志记录测试完成，日志文件位置: "@ + debug_form(log_file_path)
}

impl MachineIdRestorer {
    /// A restorer over the given storage.json, SQLite store and log file, with no records.
    pub fn new(db_path: String, sqlite_path: String, log_file_path: String) -> (res: Self)
        ensures
            res.db_path == db_path,
            res.sqlite_path == sqlite_path,
            res.log_file_path == log_file_path,
            res.pending_log().len() == 0,
    {
        MachineIdRestorer { db_path, sqlite_path, log_file_path, pending_log: Vec::new() }
    }

    /// The restorer of this machine's Cursor: storage.json and the SQLite store under the
    /// platform's base directory, and the log file `cursor_reset_<stamp>.log` in the working
    /// directory.
    pub fn for_platform(platform: &Platform, base: &str, work_dir: &str, stamp: &str) -> (res: Self)
        ensures
            res.db_path@ == path_under(base@, storage_dirs(*platform).push("storage.json"@)),
            res.sqlite_path@ == path_under(base@, storage_dirs(*platform).push("state.vscdb"@)),
            res.log_file_path@ == path_joined(work_dir@, "cursor_reset_"@ + stamp@ + ".log"@),
            res.pending_log().len() == 0,
    {
        let (db, sqlite) = get_cursor_paths(platform, base);
        MachineIdRestorer::new(db, sqlite, reset_log_file_path(work_dir, stamp))
    }

    /// The records produced and not yet handed out, oldest first.
    pub open spec fn pending_log(&self) -> Seq<(LogLevel, Seq<char>)> {
        self.pending_log@.map_values(|e: LogEntry| (e.level, e.message@))
    }

    fn write_log(&mut self, level: LogLevel, message: &str)
        ensures
            final(self).pending_log() == old(self).pending_log().push((level, message@)),
            final(self).db_path == old(self).db_path,
            final(self).sqlite_path == old(self).sqlite_path,
            final(self).log_file_path == old(self).log_file_path,
    {
        let ghost before = self.pending_log@;
        self.pending_log.push(LogEntry { level, message: String::from_str(message) });
        assert(self.pending_log@.map_values(|e: LogEntry| (e.level, e.message@)) =~= before.map_values(
            |e: LogEntry| (e.level, e.message@),
        ).push((level, message@)));
    }

    /// Records an informational message.
    pub fn log_info(&mut self, message: &str)
        ensures
            final(self).pending_log() == old(self).pending_log().push((LogLevel::Info, message@)),
            final(self).db_path == old(self).db_path,
            final(self).sqlite_path == old(self).sqlite_path,
            final(self).log_file_path == old(self).log_file_path,
    {
        self.write_log(LogLevel::Info, message);
    }

    /// Records a warning.
    pub fn log_warning(&mut self, message: &str)
        ensures
            final(self).pending_log() == old(self).pending_log().push((LogLevel::Warn, message@)),
            final(self).db_path == old(self).db_path,
            final(self).sqlite_path == old(self).sqlite_path,
            final(self).log_file_path == old(self).log_file_path,
    {
        self.write_log(LogLevel::Warn, message);
    }

    /// Records an error.
    pub fn log_error(&mut self, message: &str)
        ensures
            final(self).pending_log() == old(self).pending_log().push((LogLevel::Error, message@)),
            final(self).db_path == old(self).db_path,
            final(self).sqlite_path == old(self).sqlite_path,
            final(self).log_file_path == old(self).log_file_path,
    {
        self.write_log(LogLevel::Error, message);
    }

    /// Records a debugging message.
    pub fn log_debug(&mut self, message: &str)
        ensures
            final(self).pending_log() == old(self).pending_log().push((LogLevel::Debug, message@)),
            final(self).db_path == old(self).db_path,
            final(self).sqlite_path == old(self).sqlite_path,
            final(self).log_file_path == old(self).log_file_path,
    {
        self.write_log(LogLevel::Debug, message);
    }

    /// Hands out the pending records, oldest first, and forgets them.
    pub fn take_log(&mut self) -> (res: Vec<LogEntry>)
        ensures
            res@.map_values(|e: LogEntry| (e.level, e.message@)) == old(self).pending_log(),
            final(self).pending_log().len() == 0,
            final(self).db_path == old(self).db_path,
            final(self).sqlite_path == old(self).sqlite_path,
            final(self).log_file_path == old(self).log_file_path,
    {
        let mut out: Vec<LogEntry> = Vec::new();
        std::mem::swap(&mut out, &mut self.pending_log);
        out
    }

    /// The log file the records are written to.
    pub fn get_log_file_path(&self) -> (res: &String)
        ensures
            *res == self.log_file_path,
    {
        &self.log_file_path
    }

    /// Records what the host reports about itself: platform, working directory, the three
    /// paths, whether the two stores exist, and the user when known.
    pub fn log_system_info(&mut self, info: &SystemInfo)
        ensures
            final(self).pending_log() == old(self).pending_log() + system_info_logs(
                old(self).db_path@,
                old(self).sqlite_path@,
                old(self).log_file_path@,
                *info,
            ),
            final(self).db_path == old(self).db_path,
            final(self).sqlite_path == old(self).sqlite_path,
            final(self).log_file_path == old(self).log_file_path,
    {
        self.log_info("=== 系统信息 ===");
        self.log_info(concat_str("操作系统: ", info.os.as_str()).as_str());
        self.log_info(concat_str("架构: ", info.arch.as_str()).as_str());
        self.log_info(concat_str("工作目录: ", debug_text(info.current_dir.as_str()).as_str()).as_str());
        self.log_info(concat_str("存储文件路径: ", debug_text(self.db_path.as_str()).as_str()).as_str());
        self.log_info(concat_str("SQLite路径: ", debug_text(self.sqlite_path.as_str()).as_str()).as_str());
        self.log_info(concat_str("日志文件路径: ", debug_text(self.log_file_path.as_str()).as_str()).as_str());
        self.log_info(concat_str("存储文件是否存在: ", bool_text(info.storage_exists).as_str()).as_str());
        self.log_info(concat_str("SQLite文件是否存在: ", bool_text(info.sqlite_exists).as_str()).as_str());
        match &info.user {
            Some(u) => {
                self.log_info(concat_str("当前用户: ", u.as_str()).as_str());
            },
            None => {},
        }
        self.log_info("=== 系统信息结束 ===");
        assert(self.pending_log() =~= old(self).pending_log() + system_info_logs(
            old(self).db_path@,
            old(self).sqlite_path@,
            old(self).log_file_path@,
            *info,
        ));
    }

    /// Records one message of each level (info, debug, warning, error, info) and reports
    /// where the log file is.
    pub fn test_logging(&mut self) -> (res: Result<String, String>)
        ensures
            res matches Ok(t) && t@ == logging_test_text(old(self).log_file_path@),
            final(self).pending_log() == old(self).pending_log().push(
                (LogLevel::Info, "=== 日志记录功能测试开始 ==="@),
            ).push((LogLevel::Debug, "这是一条调试信息"@)).push(
                (LogLevel::Warn, "这是一条警告信息"@),
            ).push((LogLevel::Error, "这是一条错误信息（测试用）"@)).push(
                (LogLevel::Info, "=== 日志记录功能测试完成 ==="@),
            ),
            final(self).db_path == old(self).db_path,
            final(self).sqlite_path == old(self).sqlite_path,
            final(self).log_file_path == old(self).log_file_path,
    {
        self.log_info("=== 日志记录功能测试开始 ===");
        self.log_debug("这是一条调试信息");
        self.log_warning("这是一条警告信息");
        self.log_error("这是一条错误信息（测试用）");
        self.log_info("=== 日志记录功能测试完成 ===");
        let quoted = debug_text(self.log_file_path.as_str());
        Ok(concat_str("日志记录测试完成，日志文件位置: ", quoted.as_str()))
    }
}

} // verus!

verus! {

/// The storage.json keys of the five identifiers.
pub open spec fn dev_device_key() -> Seq<char> {
    "telemetry.devDeviceId"@
}

pub open spec fn mac_machine_key() -> Seq<char> {
    "telemetry.macMachineId"@
}

pub open spec fn machine_key() -> Seq<char> {
    "telemetry.machineId"@
}

pub open spec fn sqm_key() -> Seq<char> {
    "telemetry.sqmId"@
}

pub open spec fn service_machine_key() -> Seq<char> {
    "storage.serviceMachineId"@
}

/// A member's text, or `default` when it is missing or not a string.
pub open spec fn text_or(m: Map<Seq<char>, Option<Seq<char>>>, key: Seq<char>, default: Seq<char>) -> Seq<char> {
    match member_text(m, key) {
        Some(t) => t,
        None => default,
    }
}

/// The identifiers read from a document's members: missing ones are empty, except the
/// service machine id, which falls back to the device id.
pub open spec fn ids_from_members(m: Map<Seq<char>, Option<Seq<char>>>) -> (
    Seq<char>,
    Seq<char>,
    Seq<char>,
    Seq<char>,
    Seq<char>,
) {
    let dev = text_or(m, dev_device_key(), Seq::empty());
    (
        dev,
        text_or(m, mac_machine_key(), Seq::empty()),
        text_or(m, machine_key(), Seq::empty()),
        text_or(m, sqm_key(), Seq::empty()),
        text_or(m, service_machine_key(), dev),
    )
}

/// The five texts of a set of identifiers, in storage order.
pub open spec fn ids_view(ids: MachineIds) -> (Seq<char>, Seq<char>, Seq<char>, Seq<char>, Seq<char>) {
    (
        ids.dev_device_id@,
        ids.mac_machine_id@,
        ids.machine_id@,
        ids.sqm_id@,
        ids.service_machine_id@,
    )
}

/// The storage.json keys of the five identifiers, in storage order.
pub open spec fn id_keys() -> Seq<Seq<char>> {
    seq![dev_device_key(), mac_machine_key(), machine_key(), sqm_key(), service_machine_key()]
}

/// The members after writing a set of identifiers.
pub open spec fn with_ids(m: Map<Seq<char>, Option<Seq<char>>>, ids: (
    Seq<char>,
    Seq<char>,
    Seq<char>,
    Seq<char>,
    Seq<char>,
)) -> Map<Seq<char>, Option<Seq<char>>> {
    m.insert(dev_device_key(), Some(ids.0)).insert(mac_machine_key(), Some(ids.1)).insert(
        machine_key(),
        Some(ids.2),
    ).insert(sqm_key(), Some(ids.3)).insert(service_machine_key(), Some(ids.4))
}

/// Reads the identifiers from a parsed document.
pub fn ids_from_value(v: &serde_json::Value) -> (res: MachineIds)
    ensures
        ids_view(res) == ids_from_members(json_members(*v)),
{
    let empty = String::new();
    let dev_device_id = member_text_or(v, "telemetry.devDeviceId", &empty);
    let mac_machine_id = member_text_or(v, "telemetry.macMachineId", &empty);
    let machine_id = member_text_or(v, "telemetry.machineId", &empty);
    let sqm_id = member_text_or(v, "telemetry.sqmId", &empty);
    let service_machine_id = member_text_or(v, "storage.serviceMachineId", &dev_device_id);
    MachineIds { dev_device_id, mac_machine_id, machine_id, sqm_id, service_machine_id }
}

/// Writing identifiers and reading them back gives the same identifiers.
pub proof fn law_ids_read_back(m: Map<Seq<char>, Option<Seq<char>>>, ids: (
    Seq<char>,
    Seq<char>,
    Seq<char>,
    Seq<char>,
    Seq<char>,
))
    ensures
        ids_from_members(with_ids(m, ids)) == ids,
{
    reveal_strlit("telemetry.devDeviceId");
    reveal_strlit("telemetry.macMachineId");
    reveal_strlit("telemetry.machineId");
    reveal_strlit("telemetry.sqmId");
    reveal_strlit("storage.serviceMachineId");
    assert(dev_device_key()[10] != mac_machine_key()[10]);
    assert(dev_device_key()[10] != machine_key()[10]);
    assert(dev_device_key() != mac_machine_key());
    assert(dev_device_key() != machine_key());
    assert(dev_device_key() != sqm_key());
    assert(dev_device_key() != service_machine_key());
    assert(mac_machine_key()[13] != machine_key()[13]);
    assert(mac_machine_key() != machine_key());
    assert(mac_machine_key() != sqm_key());
    assert(mac_machine_key() != service_machine_key());
    assert(machine_key() != sqm_key());
    assert(machine_key() != service_machine_key());
    assert(sqm_key()[1] != service_machine_key()[1]);
    assert(sqm_key() != service_machine_key());
}

impl MachineIdRestorer {
    /// The identifiers stored in a backup's text (missing ones empty; the service machine id
    /// falls back to the device id); an error when the text is not JSON.
    pub fn extract_ids_from_backup(&self, content: &str) -> (res: Result<MachineIds, StorageError>)
        ensures
            res is Err <==> json_reading(content@) is None,
            res matches Ok(ids) ==> ids_view(ids) == ids_from_members(json_reading(content@).unwrap().1),
    {
        let v = parse_storage(content)?;
        Ok(ids_from_value(&v))
    }

    /// The storage text with the given identifiers written into it (a document that is not
    /// an object is written back unchanged).
    pub fn update_storage_file(&self, content: &str, ids: &MachineIds) -> (res: Result<
        String,
        StorageError,
    >)
        ensures
            res is Ok <==> json_reading(content@) is Some,
            json_reading(content@) is None ==> res matches Err(StorageError::Parse(_)),
            res matches Ok(t) ==> json_reading(content@) matches Some((is_obj, m))
                && json_reading(t@) == Some(
                (is_obj, if is_obj {
                    with_ids(m, ids_view(*ids))
                } else {
                    m
                }),
            ),
            res matches Ok(t) ==> written_keeping(content@, t@, id_keys()),
    {
        let mut v = parse_storage(content)?;
        let mut pairs: Vec<(String, String)> = Vec::new();
        pairs.push((String::from_str("telemetry.devDeviceId"), ids.dev_device_id.clone()));
        pairs.push((String::from_str("telemetry.macMachineId"), ids.mac_machine_id.clone()));
        pairs.push((String::from_str("telemetry.machineId"), ids.machine_id.clone()));
        pairs.push((String::from_str("telemetry.sqmId"), ids.sqm_id.clone()));
        pairs.push((String::from_str("storage.serviceMachineId"), ids.service_machine_id.clone()));
        let ghost pv = pairs@.map_values(|p: (String, String)| (p.0@, p.1@));
        proof {
            reveal_with_fuel(with_texts, 6);
            assert(pv.drop_last().drop_last().drop_last().drop_last().drop_last() =~= Seq::<
                (Seq<char>, Seq<char>),
            >::empty());
        }
        proof {
            assert(pair_keys(pv) =~= id_keys());
        }
        set_texts(&mut v, &pairs);
        let res = render_storage(&v);
        proof {
            if res is Ok {
                assert(crate::deps::json_pretty_text(v) == Some(res->Ok_0@));
                assert(written_keeping(content@, res->Ok_0@, id_keys()));
            }
        }
        res
    }

    /// The machineId file's content without surrounding whitespace, when the file exists
    /// (`None` when it does not).
    pub fn get_machine_id_file_content(&self, content: Option<String>) -> (res: Option<String>)
        ensures
            match content {
                Some(c) => res matches Some(t) && t@ == trim_spec(c@),
                None => res is None,
            },
    {
        match content {
            Some(c) => Some(string_of(&trim(&chars_of(c.as_str())))),
            None => None,
        }
    }

    /// The identifiers currently in the storage text, or `None` when all five are empty;
    /// an error when the text is not JSON.
    pub fn get_current_machine_ids(&self, content: &str) -> (res: Result<
        Option<MachineIds>,
        StorageError,
    >)
        ensures
            res is Err <==> json_reading(content@) is None,
            res matches Ok(r) ==> {
                let ids = ids_from_members(json_reading(content@).unwrap().1);
                let all_empty = ids.0.len() == 0 && ids.1.len() == 0 && ids.2.len() == 0
                    && ids.3.len() == 0 && ids.4.len() == 0;
                &&& (r is None <==> all_empty)
                &&& (r matches Some(found) ==> ids_view(found) == ids)
            },
    {
        let v = parse_storage(content)?;
        let ids = ids_from_value(&v);
        if ids.dev_device_id.as_str().is_empty() && ids.mac_machine_id.as_str().is_empty()
            && ids.machine_id.as_str().is_empty() && ids.sqm_id.as_str().is_empty()
            && ids.service_machine_id.as_str().is_empty() {
            Ok(None)
        } else {
            Ok(Some(ids))
        }
    }

    /// The SQLite store is left alone; the report says so.
    pub fn update_sqlite_db(&self, ids: &MachineIds) -> (res: Result<Vec<String>, String>)
        ensures
            res matches Ok(notes) && notes@.len() == 1 && notes@[0]@
                == "SQLite database update skipped (feature not implemented)"@,
    {
        let mut notes: Vec<String> = Vec::new();
        notes.push(String::from_str("SQLite database update skipped (feature not implemented)"));
        Ok(notes)
    }

    /// The report on the system-wide identifiers: on Linux, that there are none to update;
    /// elsewhere, one note for each write that was made, in order, naming its outcome.
    pub fn update_system_ids(&self, platform: &Platform, done: &Vec<(SystemIdKind, SystemIdOutcome)>) -> (res: Result<
        Vec<String>,
        String,
    >)
        ensures
            res matches Ok(notes) && views(notes@) == system_notes(*platform, done@),
    {
        let mut notes: Vec<String> = Vec::new();
        match platform {
            Platform::Linux => {
                notes.push(String::from_str("Linux system ID updates not implemented"));
                return Ok(notes);
            },
            _ => {},
        }
        let mut i: usize = 0;
        while i < done.len()
            invariant
                i <= done.len(),
                *platform != Platform::Linux,
                views(notes@) == done@.take(i as int).map_values(
                    |p: (SystemIdKind, SystemIdOutcome)| system_id_note(p.0, p.1),
                ),
            decreases done.len() - i,
        {
            let (kind, outcome) = done[i];
            let ghost before = views(notes@);
            notes.push(system_id_note_text(&kind, &outcome));
            assert(views(notes@) =~= before.push(system_id_note(kind, outcome)));
            assert(done@.take(i + 1).map_values(|p: (SystemIdKind, SystemIdOutcome)| system_id_note(p.0, p.1))
                =~= done@.take(i as int).map_values(|p: (SystemIdKind, SystemIdOutcome)| system_id_note(p.0, p.1)).push(
                system_id_note(kind, outcome),
            ));
            i += 1;
        }
        assert(done@.take(done.len() as int) =~= done@);
        Ok(notes)
    }
}

/// A system-wide identifier.
#[derive(Clone, Copy, PartialEq, Eq, Structural)]
pub enum SystemIdKind {
    /// Windows' `MachineGuid` under `HKLM\SOFTWARE\Microsoft\Cryptography`.
    MachineGuid,
    /// Windows' SQM `MachineId` under `HKLM\SOFTWARE\Microsoft\SQMClient`.
    SqmMachineId,
    /// macOS' platform UUID in `com.apple.platform.uuid.plist`, set with `plutil`.
    PlatformUuid,
}

/// What came of writing a system-wide identifier.
#[derive(Clone, Copy, PartialEq, Eq, Structural)]
pub enum SystemIdOutcome {
    /// The value was written.
    Written,
    /// The value was refused: the registry would not set it, or `plutil` exited with a
    /// failure.
    Failed,
    /// The place could not be opened: the registry key, or the plist file is missing.
    Unavailable,
    /// The command could not be run.
    NotRun,
}

/// A system-wide identifier to write, and its new value.
pub struct SystemIdWrite {
    pub kind: SystemIdKind,
    pub value: String,
}

/// The kinds and values of a list of writes.
pub open spec fn write_views(ws: Seq<SystemIdWrite>) -> Seq<(SystemIdKind, Seq<char>)> {
    ws.map_values(|w: SystemIdWrite| (w.kind, w.value@))
}

/// The writes a platform makes for a set of identifiers: on Windows the device id as
/// `MachineGuid` and the sqmId as the SQM `MachineId` (each only when not empty); on macOS
/// the mac machine id as the platform UUID (when not empty); on Linux none.
pub open spec fn system_id_writes_spec(platform: Platform, ids: MachineIds) -> Seq<(SystemIdKind, Seq<char>)> {
    match platform {
        Platform::Windows => (if ids.dev_device_id@.len() > 0 {
            seq![(SystemIdKind::MachineGuid, ids.dev_device_id@)]
        } else {
            Seq::empty()
        }) + (if ids.sqm_id@.len() > 0 {
            seq![(SystemIdKind::SqmMachineId, ids.sqm_id@)]
        } else {
            Seq::empty()
        }),
        Platform::MacOs => if ids.mac_machine_id@.len() > 0 {
            seq![(SystemIdKind::PlatformUuid, ids.mac_machine_id@)]
        } else {
            Seq::empty()
        },
        Platform::Linux => Seq::empty(),
    }
}

/// The note for the outcome of a write.
pub open spec fn system_id_note(kind: SystemIdKind, outcome: SystemIdOutcome) -> Seq<char> {
    match kind {
        SystemIdKind::MachineGuid => match outcome {
            SystemIdOutcome::Written => "Windows MachineGuid updated successfully"@,
            SystemIdOutcome::Unavailable => "Permission denied: Cannot update Windows MachineGuid"@,
            _ => "Failed to update Windows MachineGuid"@,
        },
        SystemIdKind::SqmMachineId => match outcome {
            SystemIdOutcome::Written => "Windows SQM MachineId updated successfully"@,
            SystemIdOutcome::Unavailable => "SQMClient registry key not found or permission denied"@,
            _ => "Failed to update Windows SQM MachineId"@,
        },
        SystemIdKind::PlatformUuid => match outcome {
            SystemIdOutcome::Written => "macOS platform UUID updated successfully"@,
            SystemIdOutcome::Failed => "Failed to execute plutil command"@,
            SystemIdOutcome::Unavailable => "macOS platform UUID file not found"@,
            SystemIdOutcome::NotRun => "Failed to update macOS platform UUID"@,
        },
    }
}

/// The report on the system-wide identifiers for the writes made.
pub open spec fn system_notes(platform: Platform, done: Seq<(SystemIdKind, SystemIdOutcome)>) -> Seq<Seq<char>> {
    if platform == Platform::Linux {
        seq!["Linux system ID updates not implemented"@]
    } else {
        done.map_values(|p: (SystemIdKind, SystemIdOutcome)| system_id_note(p.0, p.1))
    }
}

/// The note for the outcome of a write.
pub fn system_id_note_text(kind: &SystemIdKind, outcome: &SystemIdOutcome) -> (res: String)
    ensures
        res@ == system_id_note(*kind, *outcome),
{
    let t = match kind {
        SystemIdKind::MachineGuid => match outcome {
            SystemIdOutcome::Written => "Windows MachineGuid updated successfully",
            SystemIdOutcome::Unavailable => "Permission denied: Cannot update Windows MachineGuid",
            _ => "Failed to update Windows MachineGuid",
        },
        SystemIdKind::SqmMachineId => match outcome {
            SystemIdOutcome::Written => "Windows SQM MachineId updated successfully",
            SystemIdOutcome::Unavailable => "SQMClient registry key not found or permission denied",
            _ => "Failed to update Windows SQM MachineId",
        },
        SystemIdKind::PlatformUuid => match outcome {
            SystemIdOutcome::Written => "macOS platform UUID updated successfully",
            SystemIdOutcome::Failed => "Failed to execute plutil command",
            SystemIdOutcome::Unavailable => "macOS platform UUID file not found",
            SystemIdOutcome::NotRun => "Failed to update macOS platform UUID",
        },
    };
    String::from_str(t)
}

/// The system-wide identifiers to write on a platform for a set of identifiers.
pub fn system_id_writes(platform: &Platform, ids: &MachineIds) -> (res: Vec<SystemIdWrite>)
    ensures
        write_views(res@) == system_id_writes_spec(*platform, *ids),
{
    let mut ws: Vec<SystemIdWrite> = Vec::new();
    match platform {
        Platform::Windows => {
            if !ids.dev_device_id.as_str().is_empty() {
                ws.push(SystemIdWrite { kind: SystemIdKind::MachineGuid, value: ids.dev_device_id.clone() });
            }
            if !ids.sqm_id.as_str().is_empty() {
                ws.push(SystemIdWrite { kind: SystemIdKind::SqmMachineId, value: ids.sqm_id.clone() });
            }
        },
        Platform::MacOs => {
            if !ids.mac_machine_id.as_str().is_empty() {
                ws.push(SystemIdWrite { kind: SystemIdKind::PlatformUuid, value: ids.mac_machine_id.clone() });
            }
        },
        Platform::Linux => {},
    }
    assert(write_views(ws@) =~= system_id_writes_spec(*platform, *ids));
    ws
}

} // verus!

verus! {

/// Every character is a lowercase hexadecimal digit.
pub open spec fn is_lower_hex_text(s: Seq<char>) -> bool {
    forall|i: int| 0 <= i < s.len() ==> is_lower_hex_char(#[trigger] s[i])
}

/// The sqmId form: a version-4 UUID in uppercase, in braces.
pub open spec fn sqm_text_of(uuid: Seq<char>) -> Seq<char> {
    seq!['{'] + uuid.map_values(|c: char| ascii_upper_spec(c)) + seq!['}']
}

/// Hexadecimal text of bytes consists of lowercase hexadecimal digits, two per byte.
pub proof fn lemma_hex_text(bytes: Seq<u8>)
    ensures
        hex_lower_spec(bytes).len() == 2 * bytes.len(),
        is_lower_hex_text(hex_lower_spec(bytes)),
{
    assert forall|i: int| 0 <= i < hex_lower_spec(bytes).len() implies is_lower_hex_char(
        #[trigger] hex_lower_spec(bytes)[i],
    ) by {
        let b = bytes[i / 2];
        assert((b / 16) < 16 && (b % 16) < 16);
        let d = if i % 2 == 0 {
            (b / 16) as int
        } else {
            (b % 16) as int
        };
        assert(hex_lower_spec(bytes)[i] == hex_digit_spec(d));
        if d < 10 {
            assert(hex_digit_spec(d) == (48 + d) as char);
        } else {
            assert(hex_digit_spec(d) == (87 + d) as char);
        }
    }
}

/// The identifiers a fresh generation yields: a version-4 UUID as device id and as service
/// machine id, the lowercase hexadecimal SHA-256 of 32 bytes and SHA-512 of 64 bytes as
/// machine id and mac machine id, and an uppercase version-4 UUID in braces as sqmId.
pub open spec fn is_fresh_ids(ids: MachineIds) -> bool {
    &&& is_uuid_v4_text(ids.dev_device_id@)
    &&& ids.service_machine_id@ == ids.dev_device_id@
    &&& exists|r: Seq<u8>| r.len() == 32 && ids.machine_id@ == hex_lower_spec(sha256_of(r))
    &&& exists|r: Seq<u8>| r.len() == 64 && ids.mac_machine_id@ == hex_lower_spec(sha512_of(r))
    &&& ids.machine_id@.len() == 64 && is_lower_hex_text(ids.machine_id@)
    &&& ids.mac_machine_id@.len() == 128 && is_lower_hex_text(ids.mac_machine_id@)
    &&& exists|u: Seq<char>| is_uuid_v4_text(u) && ids.sqm_id@ == sqm_text_of(u)
}

impl MachineIds {
    /// A field-by-field copy.
    pub fn copy(&self) -> (res: MachineIds)
        ensures
            res == *self,
    {
        MachineIds {
            dev_device_id: self.dev_device_id.clone(),
            mac_machine_id: self.mac_machine_id.clone(),
            machine_id: self.machine_id.clone(),
            sqm_id: self.sqm_id.clone(),
            service_machine_id: self.service_machine_id.clone(),
        }
    }
}

impl MachineIdRestorer {
    /// A fresh set of identifiers: a random version-4 UUID as device id (and as service
    /// machine id), the SHA-256 of 32 random bytes and the SHA-512 of 64 random bytes in
    /// lowercase hexadecimal as machine id and mac machine id, and another random UUID in
    /// uppercase and braces as sqmId.
    pub fn generate_new_machine_ids(&self) -> (res: Result<MachineIds, String>)
        ensures
            res matches Ok(ids) && is_fresh_ids(ids),
    {
        let dev_device_id = new_uuid_v4_text();
        let seed = random_bytes(32);
        let digest = sha256_digest(&seed);
        let machine_id = string_of(&hex_lower(&digest));
        let mac_seed = random_bytes(64);
        let mac_digest = sha512_digest(&mac_seed);
        let mac_machine_id = string_of(&hex_lower(&mac_digest));
        let sqm_uuid = new_uuid_v4_text();
        let mut sqm: Vec<char> = Vec::new();
        sqm.push('{');
        append_chars(&mut sqm, &ascii_uppercase(&chars_of(sqm_uuid.as_str())));
        sqm.push('}');
        proof {
            lemma_hex_text(digest@);
            lemma_hex_text(mac_digest@);
            assert(sqm@ =~= sqm_text_of(sqm_uuid@));
        }
        let service_machine_id = dev_device_id.clone();
        Ok(
            MachineIds {
                dev_device_id,
                mac_machine_id,
                machine_id,
                sqm_id: string_of(&sqm),
                service_machine_id,
            },
        )
    }
}


/// The machineId file holds the device id of a fresh set of identifiers; reading the file
/// back (its content without surrounding whitespace) gives that id again.
pub proof fn law_machine_id_file_reads_back(ids: MachineIds)
    requires
        is_fresh_ids(ids),
    ensures
        trim_spec(ids.dev_device_id@) == ids.dev_device_id@,
{
    let s = ids.dev_device_id@;
    assert(is_lower_hex_char(s[0]));
    assert(is_lower_hex_char(s[35]));
    assert(s.last() == s[35]);
    assert(trim_start_spec(s) == s);
    assert(trim_end_spec(s) == s);
}
} // verus!
