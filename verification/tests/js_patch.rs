use auto_cursor::js_patch::{JsAction, JsEvent, JsFile};
use auto_cursor::machine_id::{LogEntry, LogLevel, MachineIdRestorer};
use auto_cursor::paths::Platform;

fn restorer() -> MachineIdRestorer {
    MachineIdRestorer::new("/s/storage.json".to_string(), "/s/state.vscdb".to_string(), "/w/log.log".to_string())
}

fn log_texts(entries: &[LogEntry]) -> Vec<String> {
    entries
        .iter()
        .map(|e| {
            let level = match e.level {
                LogLevel::Info => "INFO",
                LogLevel::Warn => "WARN",
                LogLevel::Error => "ERROR",
                LogLevel::Debug => "DEBUG",
            };
            format!("[{}] {}", level, e.message)
        })
        .collect()
}

#[test]
fn main_js_getters_return_their_fallbacks() {
    let mut r = restorer();
    let content = "a;async getMachineId(){return this.x??this.fallback}b;async getMacMachineId(){return q??w}c";
    let (out, n) = r.patch_main_js(content).unwrap();
    assert_eq!(out, "a;async getMachineId(){return this.fallback}b;async getMacMachineId(){return w}c");
    assert_eq!(n, 2);
    let logs = log_texts(&r.take_log());
    assert_eq!(logs[0], "[DEBUG] 应用模式 1: async getMachineId\\(\\)\\{return [^??]+\\?\\?([^}]+)\\}");
    assert_eq!(logs[1], format!("[INFO] 模式 1 已应用，内容长度从 {} 变为 {}", content.len(), content.len() - 8));
    assert_eq!(logs.len(), 4);
}

#[test]
fn main_js_without_getters_is_unchanged() {
    let mut r = restorer();
    let (out, n) = r.patch_main_js("nothing here").unwrap();
    assert_eq!(out, "nothing here");
    assert_eq!(n, 0);
    let logs = log_texts(&r.take_log());
    assert_eq!(logs[1], "[DEBUG] 模式 1 未找到匹配项");
    assert_eq!(logs[3], "[DEBUG] 模式 2 未找到匹配项");
}

#[test]
fn workbench_edits_are_applied_and_counted() {
    let mut r = restorer();
    let content = "<div>Pro Trial</div> notifications-toasts async getEffectiveTokenLimit(e){const n=e.modelName;if(!n)return 2e5;";
    let (out, n) = r.patch_workbench_js(content, false);
    assert_eq!(n, 3);
    assert_eq!(out, "<div>Pro</div> notifications-toasts hidden async getEffectiveTokenLimit(e){return 9000000;const n=e.modelName;if(!n)return 9e5;");
    let logs = log_texts(&r.take_log());
    assert_eq!(logs[0], "[DEBUG] 应用按钮替换...");
    assert_eq!(logs[1], "[WARN] 按钮模式未找到匹配项");
    assert_eq!(logs[3], "[INFO] 徽章替换成功应用");
    assert_eq!(logs[9], "[DEBUG] Pro状态模式未找到匹配项");
}

#[test]
fn workbench_button_edit_depends_on_platform() {
    let mut r = restorer();
    let mac = "M(x,I(as,{title:\"Upgrade to Pro\",size:\"small\",get codicon(){return $.rocket},get onClick(){return t.pay}}),null)";
    let (out, n) = r.patch_workbench_js(mac, true);
    assert_eq!(n, 1);
    assert!(out.contains("wuqi-y GitHub"));
    let (out, n) = r.patch_workbench_js(mac, false);
    assert_eq!(n, 0);
    assert_eq!(out, mac);
}

#[test]
fn email_script_is_appended_then_replaced() {
    let r = restorer();
    let once = r.inject_email_update_js("code();", "a@x.com");
    assert!(once.starts_with("code();\n\n// Email update injection - START\n"));
    assert!(once.ends_with("// Email update injection - END\n"));
    assert!(once.contains("console.warn('Executing email update for: a@x.com');"));
    assert_eq!(once.matches("updateEmailDisplay('a@x.com')").count(), 2);
    let twice = r.inject_email_update_js(&once, "b@x.com");
    assert_eq!(twice.matches("// Email update injection - START").count(), 1);
    assert!(twice.contains("Executing email update for: b@x.com"));
    assert!(!twice.contains("a@x.com"));
    assert!(twice.starts_with("code();\n\n"));
}

#[test]
fn main_js_patch_runs_read_backup_write() {
    let mut r = restorer();
    let (run, action) = r.modify_js(JsFile::MainJs, "/app/out/main.js".to_string(), true, Platform::Linux);
    assert!(matches!(action, JsAction::Read(ref p) if p == "/app/out/main.js"));
    let (run, action) = r.modify_js_step(run, JsEvent::Read(Some("async getMachineId(){return a??b}".to_string())));
    let backup = match &action {
        JsAction::Copy(from, to) => {
            assert_eq!(from, "/app/out/main.js");
            to.clone()
        }
        _ => panic!("copy expected"),
    };
    assert!(backup.starts_with("/app/out/main.js.backup."));
    let (run, action) = r.modify_js_step(run, JsEvent::Copied(true));
    assert!(matches!(action, JsAction::Write(ref p, ref t) if p == "/app/out/main.js" && t == "async getMachineId(){return b}"));
    let (_, action) = r.modify_js_step(run, JsEvent::Written(true));
    assert!(matches!(action, JsAction::Finish(Ok(()))));
    let logs = log_texts(&r.take_log());
    assert_eq!(logs[0], "[INFO] 开始修改main.js文件: \"/app/out/main.js\"");
    assert_eq!(logs[1], "[DEBUG] 读取main.js文件内容...");
    assert_eq!(logs[2], "[INFO] main.js文件大小: 33 字节");
    assert_eq!(logs[3], format!("[INFO] 创建main.js备份: {}", backup));
    assert!(logs.contains(&"[INFO] 总共应用了 1 个模式".to_string()));
    assert_eq!(logs.last().unwrap(), "[INFO] main.js文件修改完成");
}

#[test]
fn missing_script_and_failed_backup_stop_the_patch() {
    let mut r = restorer();
    let (_, action) = r.modify_js(JsFile::Workbench, "/w.js".to_string(), false, Platform::Linux);
    assert!(matches!(action, JsAction::Finish(Err(ref e)) if e == "workbench.desktop.main.js file not found: /w.js"));
    let (run, _) = r.modify_js(JsFile::Workbench, "/w.js".to_string(), true, Platform::MacOs);
    let (run, _) = r.modify_js_step(run, JsEvent::Read(Some("x".to_string())));
    let (_, action) = r.modify_js_step(run, JsEvent::Copied(false));
    assert!(matches!(action, JsAction::Finish(Err(ref e)) if e == "Failed to create backup of workbench.desktop.main.js"));
    let (run, _) = r.modify_js(JsFile::MainJs, "/m.js".to_string(), true, Platform::Linux);
    let (_, action) = r.modify_js_step(run, JsEvent::Read(None));
    assert!(matches!(action, JsAction::Finish(Err(ref e)) if e == "Failed to read main.js file"));
}

#[test]
fn workbench_patch_names_the_platform() {
    let mut r = restorer();
    let (run, _) = r.modify_js(JsFile::Workbench, "/w.js".to_string(), true, Platform::MacOs);
    let (run, _) = r.modify_js_step(run, JsEvent::Read(Some("<div>Pro Trial".to_string())));
    let _ = r.take_log();
    let (run, action) = r.modify_js_step(run, JsEvent::Copied(true));
    assert!(matches!(action, JsAction::Write(_, ref t) if t == "<div>Pro"));
    let logs = log_texts(&r.take_log());
    assert_eq!(logs[0], "[INFO] 当前平台: macos, 使用对应的按钮模式");
    assert!(logs.contains(&"[INFO] 总共应用了 1 个替换".to_string()));
    let (_, action) = r.modify_js_step(run, JsEvent::Written(false));
    assert!(matches!(action, JsAction::Finish(Err(ref e)) if e == "Failed to write modified workbench.desktop.main.js"));
}
