use auto_cursor::machine_id::MachineIdRestorer;
use auto_cursor::paths::reset_log_file_path;
use auto_cursor::dashboard::{api_reply, authorization_poll_url, session_cookie, usage_reply, ApiOutcome, DashboardCall, UsageReport};
use auto_cursor::paths::{
    app_path_candidates, get_account_file_path, get_app_dir, get_cursor_app_paths, get_cursor_paths, get_machine_id_path,
    get_python_executable_path, get_workbench_js_path, workbench_path_candidates, Platform,
};
use auto_cursor::process::{force_close_outcome, is_cursor_running, pids_other_than, split_lines};

#[test]
fn cursor_paths_per_platform() {
    let (db, sqlite) = get_cursor_paths(&Platform::Linux, "/home/u");
    assert_eq!(db, "/home/u/.config/Cursor/User/globalStorage/storage.json");
    assert_eq!(sqlite, "/home/u/.config/Cursor/User/globalStorage/state.vscdb");
    let (db, _) = get_cursor_paths(&Platform::MacOs, "/Users/u");
    assert_eq!(db, "/Users/u/Library/Application Support/Cursor/User/globalStorage/storage.json");
    assert_eq!(get_machine_id_path(&Platform::Linux, "/home/u"), "/home/u/.config/Cursor/machineId");
    assert_eq!(get_machine_id_path(&Platform::MacOs, "/Users/u"), "/Users/u/Library/Application Support/Cursor/machineId");
}

#[test]
fn account_file_sits_beside_storage() {
    assert_eq!(get_account_file_path("/home/u/.config/Cursor/User/globalStorage/storage.json"), Ok("/home/u/.config/Cursor/User/globalStorage/account.json".to_string()));
    assert_eq!(get_account_file_path("/"), Err("Could not get parent directory".to_string()));
    assert_eq!(get_app_dir("/opt/app/auto-cursor"), Ok("/opt/app".to_string()));
    assert_eq!(get_python_executable_path(&Platform::Linux, "/opt/app"), "/opt/app/pyBuild/linux/cursor_register");
}

#[test]
fn linux_uses_the_first_installation_present() {
    let candidates = app_path_candidates(&Platform::Linux, "/home/u");
    assert_eq!(candidates.len(), 4);
    assert_eq!(candidates[2].0, "/home/u/.local/share/cursor/resources/app/package.json");
    assert_eq!(candidates[2].1, "/home/u/.local/share/cursor/resources/app/out/main.js");
    let chosen = get_cursor_app_paths(&Platform::Linux, candidates.clone(), &vec![false, false, true, true]).unwrap();
    assert_eq!(chosen.1, "/home/u/.local/share/cursor/resources/app/out/main.js");
    assert_eq!(get_cursor_app_paths(&Platform::Linux, candidates, &vec![false; 4]), Err("Could not find Cursor installation on Linux".to_string()));
    let wb = workbench_path_candidates(&Platform::Linux, "/home/u");
    assert_eq!(wb[0], "/opt/Cursor/resources/app/out/vs/workbench/workbench.desktop.main.js");
    assert_eq!(get_workbench_js_path(&Platform::Linux, wb, &vec![false; 4]), Err("Could not find Cursor workbench.desktop.main.js on Linux".to_string()));
    let mac = app_path_candidates(&Platform::MacOs, "/Users/u");
    let chosen = get_cursor_app_paths(&Platform::MacOs, mac, &vec![false]).unwrap();
    assert_eq!(chosen.0, "/Applications/Cursor.app/Contents/Resources/app/package.json");
}

#[test]
fn lines_and_process_ids() {
    assert_eq!(split_lines("a\r\nb\n\nc"), vec!["a", "b", "", "c"]);
    assert_eq!(split_lines("a\n"), vec!["a"]);
    assert!(split_lines("").is_empty());
    assert_eq!(pids_other_than("12\n 34 \nxyz\n+56\n4294967296\n7\n", 7), vec![12, 34, 56]);
}

#[test]
fn cursor_running_per_platform() {
    assert!(is_cursor_running(&Platform::Windows, &Some("Cursor.exe  1234 Console".to_string()), &None, 1));
    assert!(!is_cursor_running(&Platform::Windows, &Some("INFO: No tasks".to_string()), &None, 1));
    assert!(is_cursor_running(&Platform::MacOs, &Some("99\n".to_string()), &None, 1));
    assert!(!is_cursor_running(&Platform::MacOs, &Some(String::new()), &None, 1));
    assert!(is_cursor_running(&Platform::Linux, &Some("5\n".to_string()), &None, 1));
    assert!(!is_cursor_running(&Platform::Linux, &Some(String::new()), &Some("1\n".to_string()), 1));
    assert!(is_cursor_running(&Platform::Linux, &None, &Some("1\n2\n".to_string()), 1));
    assert_eq!(force_close_outcome(&Platform::Windows, Some("not found".to_string())), Err("Failed to terminate Cursor on Windows: not found".to_string()));
    assert_eq!(force_close_outcome(&Platform::Linux, Some("x".to_string())), Ok(()));
}

#[test]
fn web_api_replies() {
    let r = api_reply(&DashboardCall::DeleteAccount, ApiOutcome::Answered { status: 200, status_text: "200 OK".to_string(), body: Ok("{}".to_string()) });
    assert!(r.success);
    assert_eq!(r.status, Some(200));
    assert_eq!(r.message, "✅ 删除账户请求成功！状态码: 200 OK, 响应: {}");
    let r = api_reply(&DashboardCall::AuthorizationPoll, ApiOutcome::Answered { status: 404, status_text: "404 Not Found".to_string(), body: Ok("no".to_string()) });
    assert!(!r.success);
    assert_eq!(r.message, "❌ 授权登录Poll失败！状态码: 404 Not Found, 响应: no");
    let r = api_reply(&DashboardCall::AuthorizationLogin, ApiOutcome::Unreachable("dns".to_string()));
    assert!(!r.success && r.status.is_none());
    assert_eq!(r.message, "❌ 网络请求授权登录失败: dns");
    let r = api_reply(&DashboardCall::DeleteAccount, ApiOutcome::Answered { status: 200, status_text: "200 OK".to_string(), body: Err("reset".to_string()) });
    assert!(!r.success && r.body.is_none());
    assert_eq!(r.message, "❌ 读取响应失败: reset");
    assert_eq!(session_cookie("tok"), "WorkosCursorSessionToken=tok");
    assert_eq!(authorization_poll_url("u1", "v1"), "https://api2.cursor.sh/auth/poll?uuid=u1&verifier=v1");
    assert_eq!(usage_reply(&UsageReport::Events, Ok(false)), (false, "No usage events data found".to_string()));
    assert_eq!(usage_reply(&UsageReport::Period, Err("401".to_string())), (false, "Failed to get usage data: 401".to_string()));
}

#[test]
fn reset_log_file_sits_in_the_working_directory() {
    assert_eq!(reset_log_file_path("/work", "20240115_143015"), "/work/cursor_reset_20240115_143015.log");
    let r = MachineIdRestorer::for_platform(&Platform::Linux, "/home/u", "/work", "20240115_143015");
    assert_eq!(r.db_path, "/home/u/.config/Cursor/User/globalStorage/storage.json");
    assert_eq!(r.sqlite_path, "/home/u/.config/Cursor/User/globalStorage/state.vscdb");
    assert_eq!(r.log_file_path, "/work/cursor_reset_20240115_143015.log");
}
