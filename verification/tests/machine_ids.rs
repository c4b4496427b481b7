use auto_cursor::backup::{format_timestamp, DirEntryInfo};
use auto_cursor::complete::{AppPaths, CompleteAction, CompleteEvent, WorkbenchPath};
use auto_cursor::machine_id::{format_log_line, log_line_now, system_id_writes, LogEntry, LogLevel, MachineIdRestorer, MachineIds, SystemIdKind, SystemIdOutcome, SystemInfo};
use auto_cursor::paths::Platform;
use auto_cursor::reset::{ResetAction, ResetEvent, RestoreAction, RestoreEvent};

fn restorer() -> MachineIdRestorer {
    MachineIdRestorer::new(
        "/home/u/.config/Cursor/User/globalStorage/storage.json".to_string(),
        "/home/u/.config/Cursor/User/globalStorage/state.vscdb".to_string(),
        "/work/cursor_reset_20240115_143015.log".to_string(),
    )
}

fn log_texts(entries: &[LogEntry]) -> Vec<String> {
    entries
        .iter()
        .map(|e| {
            let level = match e.level {
                LogLevel::Info => "INFO",
                LogLevel::Warn => "WARN",
                LogLevel::Error => "ERROR",
                LogLevel::Debug => "DEBUG",
            };
            format!("[{}] {}", level, e.message)
        })
        .collect()
}

fn ids(dev: &str) -> MachineIds {
    MachineIds {
        dev_device_id: dev.to_string(),
        mac_machine_id: "mac".to_string(),
        machine_id: "mid".to_string(),
        sqm_id: "{SQM}".to_string(),
        service_machine_id: dev.to_string(),
    }
}

#[test]
fn log_lines_have_time_level_and_message() {
    assert_eq!(format_log_line("2024-01-15 14:30:15.123", &LogLevel::Warn, "careful"), "[2024-01-15 14:30:15.123] [WARN] careful\n");
    let now = log_line_now(&LogLevel::Info, "hello");
    assert!(now.starts_with('['));
    assert!(now.ends_with("] [INFO] hello\n"));
    assert_eq!(now.len(), "[2024-01-15 14:30:15.123] [INFO] hello\n".len());
}

#[test]
fn test_logging_records_each_level() {
    let mut r = restorer();
    let msg = r.test_logging().unwrap();
    assert_eq!(msg, "日志记录测试完成，日志文件位置: \"/work/cursor_reset_20240115_143015.log\"");
    let logs = log_texts(&r.take_log());
    assert_eq!(logs, vec![
        "[INFO] === 日志记录功能测试开始 ===",
        "[DEBUG] 这是一条调试信息",
        "[WARN] 这是一条警告信息",
        "[ERROR] 这是一条错误信息（测试用）",
        "[INFO] === 日志记录功能测试完成 ===",
    ]);
    assert!(r.take_log().is_empty());
    assert_eq!(r.get_log_file_path(), "/work/cursor_reset_20240115_143015.log");
}

#[test]
fn system_info_is_logged_line_by_line() {
    let mut r = restorer();
    let info = SystemInfo {
        os: "linux".to_string(),
        arch: "x86_64".to_string(),
        current_dir: "/work".to_string(),
        storage_exists: true,
        sqlite_exists: false,
        user: Some("u".to_string()),
    };
    r.log_system_info(&info);
    let logs = log_texts(&r.take_log());
    assert_eq!(logs.len(), 11);
    assert_eq!(logs[0], "[INFO] === 系统信息 ===");
    assert_eq!(logs[1], "[INFO] 操作系统: linux");
    assert_eq!(logs[3], "[INFO] 工作目录: \"/work\"");
    assert_eq!(logs[4], "[INFO] 存储文件路径: \"/home/u/.config/Cursor/User/globalStorage/storage.json\"");
    assert_eq!(logs[7], "[INFO] 存储文件是否存在: true");
    assert_eq!(logs[8], "[INFO] SQLite文件是否存在: false");
    assert_eq!(logs[9], "[INFO] 当前用户: u");
    assert_eq!(logs[10], "[INFO] === 系统信息结束 ===");
}

#[test]
fn ids_are_read_from_a_backup() {
    let r = restorer();
    let content = "{\"telemetry.devDeviceId\": \"dev\", \"telemetry.macMachineId\": \"mac\", \"telemetry.machineId\": \"mid\", \"telemetry.sqmId\": \"{S}\"}";
    let got = r.extract_ids_from_backup(content).ok().unwrap();
    assert_eq!(got.dev_device_id, "dev");
    assert_eq!(got.mac_machine_id, "mac");
    assert_eq!(got.machine_id, "mid");
    assert_eq!(got.sqm_id, "{S}");
    assert_eq!(got.service_machine_id, "dev");
    assert!(r.extract_ids_from_backup("{").is_err());
    let empty = r.extract_ids_from_backup("{}").ok().unwrap();
    assert_eq!(empty.dev_device_id, "");
}

#[test]
fn written_ids_read_back() {
    let r = restorer();
    let written = r.update_storage_file("{\"other\": 1}", &ids("dev2")).ok().unwrap();
    let back = r.get_current_machine_ids(&written).ok().unwrap().unwrap();
    assert_eq!(back.dev_device_id, "dev2");
    assert_eq!(back.machine_id, "mid");
    assert_eq!(back.sqm_id, "{SQM}");
    assert_eq!(back.service_machine_id, "dev2");
    let v: serde_json::Value = serde_json::from_str(&written).unwrap();
    assert_eq!(v["other"], 1);
}

#[test]
fn fresh_ids_have_the_expected_shape() {
    let r = restorer();
    let a = r.generate_new_machine_ids().ok().unwrap();
    let b = r.generate_new_machine_ids().ok().unwrap();
    assert_eq!(a.dev_device_id.len(), 36);
    assert_eq!(&a.dev_device_id[14..15], "4");
    assert_eq!(a.machine_id.len(), 64);
    assert_eq!(a.mac_machine_id.len(), 128);
    assert!(a.machine_id.chars().all(|c| c.is_ascii_hexdigit() && !c.is_ascii_uppercase()));
    assert_eq!(a.sqm_id.len(), 38);
    assert!(a.sqm_id.starts_with('{') && a.sqm_id.ends_with('}'));
    assert_eq!(a.sqm_id[1..37], a.sqm_id[1..37].to_uppercase());
    assert_eq!(a.service_machine_id, a.dev_device_id);
    assert_ne!(a.dev_device_id, b.dev_device_id);
}

#[test]
fn machine_id_file_content_is_trimmed() {
    let r = restorer();
    assert_eq!(r.get_machine_id_file_content(Some("  abc\n".to_string())), Some("abc".to_string()));
    assert_eq!(r.get_machine_id_file_content(None), None);
}

#[test]
fn backups_are_listed_newest_first() {
    let r = restorer();
    let entry = |name: &str, size: Option<u64>| DirEntryInfo { path: format!("/d/{}", name), filename: name.to_string(), size };
    let entries = vec![
        entry("storage.json", Some(10)),
        entry("storage.json.bak.20240101_000000", Some(1)),
        entry("storage.json.backup.20240301_120000", Some(2)),
        entry("storage.json.bak.20240201_101010", None),
        entry("other.json.bak.20240401_000000", Some(3)),
        entry("storage.json.restore_bak.20240201_000000", Some(4)),
    ];
    let found = r.find_backups("storage.json", &entries);
    let names: Vec<&str> = found.iter().map(|b| b.filename.as_str()).collect();
    assert_eq!(names, vec!["storage.json.backup.20240301_120000", "storage.json.restore_bak.20240201_000000", "storage.json.bak.20240101_000000"]);
    assert_eq!(found[0].timestamp, "20240301_120000");
    assert_eq!(found[0].date_formatted, "2024-03-01 12:00:00");
    assert_eq!(found[0].size, 2);
    assert_eq!(found[1].timestamp, "20240201_000000");
    assert_eq!(found[1].date_formatted, "2024-02-01 00:00:00");
    assert_eq!(format_timestamp("20240115_143015"), "2024-01-15 14:30:15");
    assert_eq!(format_timestamp("garbage"), "Unknown date");
}

#[test]
fn backup_directory_lists_storage_files_sorted() {
    let r = restorer();
    let names = vec!["b.txt".to_string(), "storage.json.bak.2".to_string(), "storage.json".to_string(), "x-storage.json".to_string()];
    let (dir, files) = r.get_backup_directory_info("/d".to_string(), &names);
    assert_eq!(dir, "/d");
    assert_eq!(files, vec!["storage.json", "storage.json.bak.2", "x-storage.json"]);
    let path = r.backup_path();
    assert!(path.starts_with("/home/u/.config/Cursor/User/globalStorage/storage.json.bak."));
    assert_eq!(path.len(), "/home/u/.config/Cursor/User/globalStorage/storage.json.bak.".len() + 15);
}

#[test]
fn reset_runs_through_its_steps() {
    let mut r = restorer();
    let (run, action) = r.reset_machine_ids(Platform::Linux);
    assert!(matches!(action, ResetAction::CheckStorageExists));
    let (run, action) = r.reset_machine_ids_step(run, ResetEvent::StorageExists(true));
    assert!(matches!(action, ResetAction::CreateBackup));
    let (run, action) = r.reset_machine_ids_step(run, ResetEvent::BackupMade(Ok("/b".to_string())));
    let written = match action {
        ResetAction::WriteStorage(ids) => ids,
        _ => panic!("storage write expected"),
    };
    let (run, action) = r.reset_machine_ids_step(run, ResetEvent::StorageWritten(Ok(())));
    match &action {
        ResetAction::WriteMachineIdFile(dev) => assert_eq!(dev, &written.dev_device_id),
        _ => panic!("machine id write expected"),
    }
    let (_, action) = r.reset_machine_ids_step(run, ResetEvent::MachineIdFileWritten(Err("denied".to_string())));
    let result = match action {
        ResetAction::Finish(res) => res,
        _ => panic!("finish expected"),
    };
    assert!(result.success);
    assert_eq!(result.message, "Machine IDs reset successfully");
    assert_eq!(result.details, vec![
        "Starting machine ID reset process...",
        "Created backup at: /b",
        "Generated new machine IDs",
        "Successfully updated storage.json",
        "SQLite database update skipped (feature not implemented)",
        "Warning: Failed to update machine ID file: denied",
        "Linux system ID updates not implemented",
    ]);
    assert_eq!(result.new_ids.unwrap().dev_device_id, written.dev_device_id);
    let logs = log_texts(&r.take_log());
    assert_eq!(logs[0], "[INFO] 开始机器ID重置流程...");
    assert_eq!(logs[1], "[DEBUG] 检查存储文件: \"/home/u/.config/Cursor/User/globalStorage/storage.json\"");
    assert_eq!(logs.last().unwrap(), "[INFO] 机器ID重置完成: Machine IDs reset successfully");
    assert!(logs.contains(&"[WARN] Warning: Failed to update machine ID file: denied".to_string()));
}

#[test]
fn reset_without_storage_fails() {
    let mut r = restorer();
    let (run, _) = r.reset_machine_ids(Platform::Linux);
    let (_, action) = r.reset_machine_ids_step(run, ResetEvent::StorageExists(false));
    match action {
        ResetAction::Finish(res) => {
            assert!(!res.success);
            assert_eq!(res.message, "Storage file not found: /home/u/.config/Cursor/User/globalStorage/storage.json");
            assert_eq!(res.details, vec!["Starting machine ID reset process..."]);
            assert!(res.new_ids.is_none());
        }
        _ => panic!("finish expected"),
    }
}

#[test]
fn failed_storage_write_fails_reset() {
    let mut r = restorer();
    let (run, _) = r.reset_machine_ids(Platform::Linux);
    let (run, _) = r.reset_machine_ids_step(run, ResetEvent::StorageExists(true));
    let (run, _) = r.reset_machine_ids_step(run, ResetEvent::BackupMade(Ok("/b/s.bak".to_string())));
    let (run, _) = r.reset_machine_ids_step(run, ResetEvent::StorageWritten(Err("read-only".to_string())));
    let (_, action) = r.reset_machine_ids_step(run, ResetEvent::MachineIdFileWritten(Ok(())));
    match action {
        ResetAction::Finish(res) => {
            assert!(!res.success);
            assert_eq!(res.message, "Machine ID reset completed with some errors");
            assert_eq!(res.details[1], "Created backup at: /b/s.bak");
            assert_eq!(res.details[3], "Failed to update storage file: read-only");
        }
        _ => panic!("finish expected"),
    }
}

#[test]
fn failed_backup_ends_reset_without_writing() {
    let mut r = restorer();
    let (run, _) = r.reset_machine_ids(Platform::Linux);
    let (run, _) = r.reset_machine_ids_step(run, ResetEvent::StorageExists(true));
    let (_, action) = r.reset_machine_ids_step(run, ResetEvent::BackupMade(Err("no space".to_string())));
    match action {
        ResetAction::Finish(res) => {
            assert!(!res.success);
            assert_eq!(res.message, "Failed to create backup: no space");
            assert_eq!(res.details[1], "Failed to create backup: no space");
            assert!(res.new_ids.is_none());
        }
        _ => panic!("finish expected"),
    }
}

#[test]
fn failed_backup_ends_restore_without_writing() {
    let r = restorer();
    let (run, _) = r.restore_machine_ids("/b/storage.json.bak.1".to_string(), Platform::Linux);
    let content = "{\"telemetry.devDeviceId\": \"dev\"}".to_string();
    let (run, _) = r.restore_machine_ids_step(run, RestoreEvent::BackupRead(Some(content)));
    let (_, action) = r.restore_machine_ids_step(run, RestoreEvent::BackupMade(Err("no space".to_string())));
    match action {
        RestoreAction::Finish(res) => {
            assert!(!res.success);
            assert_eq!(res.message, "Failed to create backup: no space");
        }
        _ => panic!("finish expected"),
    }
}

#[test]
fn restore_writes_the_backed_up_ids() {
    let r = restorer();
    let (run, action) = r.restore_machine_ids("/b/storage.json.bak.1".to_string(), Platform::Linux);
    assert!(matches!(action, RestoreAction::ReadBackup(ref p) if p == "/b/storage.json.bak.1"));
    let content = "{\"telemetry.devDeviceId\": \"dev\", \"telemetry.machineId\": \"mid\"}".to_string();
    let (run, action) = r.restore_machine_ids_step(run, RestoreEvent::BackupRead(Some(content)));
    assert!(matches!(action, RestoreAction::CreateBackup));
    let (run, action) = r.restore_machine_ids_step(run, RestoreEvent::BackupMade(Ok("/b/now".to_string())));
    match &action {
        RestoreAction::WriteStorage(ids) => {
            assert_eq!(ids.dev_device_id, "dev");
            assert_eq!(ids.machine_id, "mid");
            assert_eq!(ids.mac_machine_id, "");
        }
        _ => panic!("storage write expected"),
    }
    let (run, action) = r.restore_machine_ids_step(run, RestoreEvent::StorageWritten(Ok(())));
    assert!(matches!(action, RestoreAction::WriteMachineIdFile(ref d) if d == "dev"));
    let (_, action) = r.restore_machine_ids_step(run, RestoreEvent::MachineIdFileWritten(Ok(())));
    match action {
        RestoreAction::Finish(res) => {
            assert!(res.success);
            assert_eq!(res.message, "Machine IDs restored successfully");
            assert_eq!(res.details, vec![
                "Successfully extracted IDs from backup",
                "Created backup at: /b/now",
                "Successfully updated storage.json",
                "SQLite database update skipped (feature not implemented)",
                "Successfully updated machine ID file",
                "Linux system ID updates not implemented",
            ]);
        }
        _ => panic!("finish expected"),
    }
}

#[test]
fn restore_from_unreadable_backup_fails() {
    let r = restorer();
    let (run, _) = r.restore_machine_ids("/b/x".to_string(), Platform::Linux);
    let (_, action) = r.restore_machine_ids_step(run, RestoreEvent::BackupRead(None));
    assert!(matches!(action, RestoreAction::Finish(ref res) if !res.success && res.message == "Failed to extract IDs from backup: Failed to read backup file"));
    let (run, _) = r.restore_machine_ids("/b/x".to_string(), Platform::Linux);
    let (_, action) = r.restore_machine_ids_step(run, RestoreEvent::BackupRead(Some("nope".to_string())));
    assert!(matches!(action, RestoreAction::Finish(ref res) if !res.success && res.message == "Failed to extract IDs from backup: Failed to parse backup JSON"));
}

#[test]
fn complete_reset_follows_the_logged_sequence() {
    let mut r = restorer();
    let info = SystemInfo {
        os: "linux".to_string(),
        arch: "x86_64".to_string(),
        current_dir: "/work".to_string(),
        storage_exists: true,
        sqlite_exists: true,
        user: None,
    };
    let (run, action) = r.complete_cursor_reset(&info);
    assert!(matches!(action, CompleteAction::ResetMachineIds));
    let ids_result = auto_cursor::machine_id::ResetResult {
        success: true,
        message: "Machine IDs reset successfully".to_string(),
        details: vec!["a".to_string(), "b".to_string()],
        new_ids: None,
    };
    let (run, action) = r.complete_cursor_reset_step(run, CompleteEvent::MachineIdsReset(Ok(ids_result)));
    assert!(matches!(action, CompleteAction::LocateApp));
    let paths = AppPaths {
        package_json: "/opt/Cursor/resources/app/package.json".to_string(),
        main_js: "/opt/Cursor/resources/app/out/main.js".to_string(),
        package_json_exists: true,
        main_js_exists: true,
    };
    let (run, action) = r.complete_cursor_reset_step(run, CompleteEvent::AppLocated(Ok(paths)));
    assert!(matches!(action, CompleteAction::ModifyMainJs(ref p) if p == "/opt/Cursor/resources/app/out/main.js"));
    let (run, action) = r.complete_cursor_reset_step(run, CompleteEvent::MainJsModified(Ok(())));
    assert!(matches!(action, CompleteAction::LocateWorkbench));
    let wb = WorkbenchPath { path: "/opt/w.js".to_string(), exists: false };
    let (_, action) = r.complete_cursor_reset_step(run, CompleteEvent::WorkbenchLocated(Ok(wb)));
    match action {
        CompleteAction::Finish(res) => {
            assert!(res.success);
            assert_eq!(res.message, "Complete Cursor reset successful");
            assert_eq!(res.details, vec![
                "Starting complete Cursor reset process...",
                "a",
                "b",
                "Successfully modified main.js",
                "Warning: Could not find workbench.desktop.main.js file",
            ]);
            assert!(res.new_ids.is_none());
        }
        _ => panic!("finish expected"),
    }
    let logs = log_texts(&r.take_log());
    assert!(logs.contains(&"[INFO] 开始完整的 Cursor 重置流程...".to_string()));
    assert!(logs.contains(&"[DEBUG] 机器ID重置详情: a".to_string()));
    assert!(logs.contains(&"[INFO] 找到Cursor应用路径: package.json=\"/opt/Cursor/resources/app/package.json\", main.js=\"/opt/Cursor/resources/app/out/main.js\"".to_string()));
    assert!(logs.contains(&"[WARN] 详细检查: workbench路径=\"/opt/w.js\", 存在=false".to_string()));
    assert_eq!(logs[logs.len() - 3], "[INFO] 成功状态: true");
    assert_eq!(logs[logs.len() - 2], "[INFO] 详细信息条目数: 5");
    assert_eq!(logs[logs.len() - 1], "[INFO] 日志文件位置: \"/work/cursor_reset_20240115_143015.log\"");
}

#[test]
fn complete_reset_fails_with_the_id_reset() {
    let mut r = restorer();
    let info = SystemInfo { os: "linux".to_string(), arch: "x".to_string(), current_dir: "/".to_string(), storage_exists: false, sqlite_exists: false, user: None };
    let (run, _) = r.complete_cursor_reset(&info);
    let (run, _) = r.complete_cursor_reset_step(run, CompleteEvent::MachineIdsReset(Err("boom".to_string())));
    let (run, _) = r.complete_cursor_reset_step(run, CompleteEvent::AppLocated(Err("Could not find Cursor installation on Linux".to_string())));
    let (_, action) = r.complete_cursor_reset_step(run, CompleteEvent::WorkbenchLocated(Err("none".to_string())));
    match action {
        CompleteAction::Finish(res) => {
            assert!(!res.success);
            assert_eq!(res.message, "Complete Cursor reset completed with some errors");
            assert_eq!(res.details[1], "Failed to reset machine IDs: boom");
            assert_eq!(res.details[2], "Warning: Could not locate Cursor installation: Could not find Cursor installation on Linux");
            assert_eq!(res.details[3], "Warning: Could not locate workbench.desktop.main.js: none");
        }
        _ => panic!("finish expected"),
    }
}

#[test]
fn complete_reset_fails_when_the_installation_cannot_be_located() {
    let mut r = restorer();
    let info = SystemInfo { os: "linux".to_string(), arch: "x".to_string(), current_dir: "/".to_string(), storage_exists: true, sqlite_exists: true, user: None };
    let (run, _) = r.complete_cursor_reset(&info);
    let ok = auto_cursor::machine_id::ResetResult { success: true, message: "Machine IDs reset successfully".to_string(), details: vec![], new_ids: None };
    let (run, _) = r.complete_cursor_reset_step(run, CompleteEvent::MachineIdsReset(Ok(ok)));
    assert!(run.success);
    let (run, _) = r.complete_cursor_reset_step(run, CompleteEvent::AppLocated(Err("Could not find Cursor installation".to_string())));
    assert!(!run.success);
    let (_, action) = r.complete_cursor_reset_step(run, CompleteEvent::WorkbenchLocated(Ok(WorkbenchPath { path: "/w".to_string(), exists: false })));
    match action {
        CompleteAction::Finish(res) => {
            assert!(!res.success);
            assert_eq!(res.message, "Complete Cursor reset completed with some errors");
        }
        _ => panic!("finish expected"),
    }
}

#[test]
fn complete_reset_fails_when_the_workbench_cannot_be_located() {
    let mut r = restorer();
    let info = SystemInfo { os: "linux".to_string(), arch: "x".to_string(), current_dir: "/".to_string(), storage_exists: true, sqlite_exists: true, user: None };
    let (run, _) = r.complete_cursor_reset(&info);
    let ok = auto_cursor::machine_id::ResetResult { success: true, message: "Machine IDs reset successfully".to_string(), details: vec![], new_ids: None };
    let (run, _) = r.complete_cursor_reset_step(run, CompleteEvent::MachineIdsReset(Ok(ok)));
    let (run, _) = r.complete_cursor_reset_step(run, CompleteEvent::MainJsModified(Ok(())));
    assert!(run.success);
    let (_, action) = r.complete_cursor_reset_step(run, CompleteEvent::WorkbenchLocated(Err("none".to_string())));
    match action {
        CompleteAction::Finish(res) => {
            assert!(!res.success);
            assert_eq!(res.message, "Complete Cursor reset completed with some errors");
        }
        _ => panic!("finish expected"),
    }
}

#[test]
fn windows_reset_writes_the_registry_identifiers() {
    let mut r = restorer();
    let (run, _) = r.reset_machine_ids(Platform::Windows);
    let (run, _) = r.reset_machine_ids_step(run, ResetEvent::StorageExists(true));
    let (run, _) = r.reset_machine_ids_step(run, ResetEvent::BackupMade(Ok("/b/s.bak".to_string())));
    let (run, _) = r.reset_machine_ids_step(run, ResetEvent::StorageWritten(Ok(())));
    let (run, action) = r.reset_machine_ids_step(run, ResetEvent::MachineIdFileWritten(Ok(())));
    let ids = run.new_ids.as_ref().unwrap().copy();
    match &action {
        ResetAction::UpdateSystemIds(writes) => {
            assert_eq!(writes.len(), 2);
            assert!(writes[0].kind == SystemIdKind::MachineGuid && writes[0].value == ids.dev_device_id);
            assert!(writes[1].kind == SystemIdKind::SqmMachineId && writes[1].value == ids.sqm_id);
        }
        _ => panic!("system ids expected"),
    }
    let done = vec![(SystemIdKind::MachineGuid, SystemIdOutcome::Written), (SystemIdKind::SqmMachineId, SystemIdOutcome::Unavailable)];
    let (_, action) = r.reset_machine_ids_step(run, ResetEvent::SystemIdsUpdated(done));
    match action {
        ResetAction::Finish(res) => {
            assert!(res.success);
            let n = res.details.len();
            assert_eq!(res.details[n - 2], "Windows MachineGuid updated successfully");
            assert_eq!(res.details[n - 1], "SQMClient registry key not found or permission denied");
        }
        _ => panic!("finish expected"),
    }
}

#[test]
fn system_id_writes_per_platform() {
    let ids = MachineIds {
        dev_device_id: "dev".to_string(),
        mac_machine_id: "mac".to_string(),
        machine_id: "m".to_string(),
        sqm_id: String::new(),
        service_machine_id: "dev".to_string(),
    };
    let w = system_id_writes(&Platform::Windows, &ids);
    assert_eq!(w.len(), 1);
    assert!(w[0].kind == SystemIdKind::MachineGuid && w[0].value == "dev");
    let m = system_id_writes(&Platform::MacOs, &ids);
    assert_eq!(m.len(), 1);
    assert!(m[0].kind == SystemIdKind::PlatformUuid && m[0].value == "mac");
    assert!(system_id_writes(&Platform::Linux, &ids).is_empty());
    let r = restorer();
    let notes = r.update_system_ids(&Platform::MacOs, &vec![(SystemIdKind::PlatformUuid, SystemIdOutcome::Failed)]).ok().unwrap();
    assert_eq!(notes, vec!["Failed to execute plutil command".to_string()]);
    let linux = r.update_system_ids(&Platform::Linux, &vec![]).ok().unwrap();
    assert_eq!(linux, vec!["Linux system ID updates not implemented".to_string()]);
}

#[test]
fn fresh_device_id_reads_back_from_the_machine_id_file() {
    let r = restorer();
    let ids = r.generate_new_machine_ids().ok().unwrap();
    assert_eq!(r.get_machine_id_file_content(Some(ids.dev_device_id.clone())), Some(ids.dev_device_id.clone()));
}

#[test]
fn created_backup_is_listed_with_its_timestamp() {
    let r = restorer();
    let entries = vec![DirEntryInfo { path: "/d/storage.json.bak.20240115_143015".to_string(), filename: "storage.json.bak.20240115_143015".to_string(), size: Some(7) }];
    let found = r.find_backups("storage.json", &entries);
    assert_eq!(found.len(), 1);
    assert_eq!(found[0].timestamp, "20240115_143015");
    assert_eq!(found[0].date_formatted, "2024-01-15 14:30:15");
}

#[test]
fn create_backup_names_the_copy_or_refuses() {
    let r = restorer();
    assert_eq!(r.create_backup(false).err().unwrap(), "Current storage.json file not found");
    let p = r.create_backup(true).ok().unwrap();
    let prefix = format!("{}.bak.", r.db_path);
    assert!(p.starts_with(&prefix));
    let ts = &p[prefix.len()..];
    assert_eq!(ts.len(), 15);
    assert_eq!(&ts[8..9], "_");
    let name = p.rsplit('/').next().unwrap().to_string();
    let entries = vec![DirEntryInfo { path: p.clone(), filename: name.clone(), size: Some(3) }];
    let found = r.find_backups("storage.json", &entries);
    assert_eq!(found.len(), 1);
    assert_eq!(found[0].path, p);
    assert_eq!(found[0].timestamp, ts);
}
