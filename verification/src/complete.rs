//! The complete reset of Cursor: new machine identifiers, then the patches to main.js and
//! to workbench.desktop.main.js. The library decides each step and what it records; the
//! caller locates and edits the files and reports back.
use vstd::prelude::*;

use crate::account::concat_str;
use crate::deps::{debug_form, debug_text};
use crate::machine_id::{LogLevel, MachineIdRestorer, ResetResult, SystemInfo, system_info_logs};
use crate::reset::{log_notes, note_logs};
use crate::text::{bool_text, bool_text_spec, decimal, decimal_spec, extend_notes, push_note, string_of, views};

verus! {

/// Where a complete reset stands.
#[derive(PartialEq, Eq, Structural)]
pub enum CompleteStage {
    ResetIds,
    LocateApp,
    ModifyMainJs,
    LocateWorkbench,
    ModifyWorkbench,
    Finished,
}

/// A complete reset in progress: its stage, whether it has failed so far, and the details
/// reported so far.
pub struct CompleteRun {
    pub stage: CompleteStage,
    pub success: bool,
    pub details: Vec<String>,
}

/// Where Cursor's application files were found, and whether each exists.
pub struct AppPaths {
    pub package_json: String,
    pub main_js: String,
    pub package_json_exists: bool,
    pub main_js_exists: bool,
}

/// Where workbench.desktop.main.js was looked for, and whether it exists.
pub struct WorkbenchPath {
    pub path: String,
    pub exists: bool,
}

/// What the caller is asked to do next.
pub enum CompleteAction {
    /// Reset the machine identifiers and report the result.
    ResetMachineIds,
    /// Locate Cursor's package.json and main.js.
    LocateApp,
    /// Patch the main.js at this path.
    ModifyMainJs(String),
    /// Locate workbench.desktop.main.js.
    LocateWorkbench,
    /// Patch the workbench.desktop.main.js at this path.
    ModifyWorkbench(String),
    /// The reset is over, with this result.
    Finish(ResetResult),
}

/// What the caller reports after doing what it was asked.
pub enum CompleteEvent {
    MachineIdsReset(Result<ResetResult, String>),
    AppLocated(Result<AppPaths, String>),
    MainJsModified(Result<(), String>),
    WorkbenchLocated(Result<WorkbenchPath, String>),
    WorkbenchModified(Result<(), String>),
}

/// The event answers the action of the stage.
pub open spec fn complete_event_fits(stage: CompleteStage, event: CompleteEvent) -> bool {
    match event {
        CompleteEvent::MachineIdsReset(_) => stage == CompleteStage::ResetIds,
        CompleteEvent::AppLocated(_) => stage == CompleteStage::LocateApp,
        CompleteEvent::MainJsModified(_) => stage == CompleteStage::ModifyMainJs,
        CompleteEvent::WorkbenchLocated(_) => stage == CompleteStage::LocateWorkbench,
        CompleteEvent::WorkbenchModified(_) => stage == CompleteStage::ModifyWorkbench,
    }
}

/// Some record from index `from` on is at the error level.
pub open spec fn has_error_record(logs: Seq<(LogLevel, Seq<char>)>, from: int) -> bool {
    exists|i: int| from <= i < logs.len() && (#[trigger] logs[i]).0 == LogLevel::Error
}

/// Whether a complete reset stands successful after a step: the result's success when it
/// has ended, else the run's.
pub open spec fn complete_standing(res: (CompleteRun, CompleteAction)) -> bool {
    match res.1 {
        CompleteAction::Finish(r) => r.success,
        _ => res.0.success,
    }
}

/// The final message of a complete reset.
pub open spec fn complete_message(success: bool) -> Seq<char> {
    if success {
        "Complete Cursor reset successful"@
    } else {
        "Complete Cursor reset completed with some errors"@
    }
}

/// The record that opens the third step.
pub open spec fn workbench_step_log() -> (LogLevel, Seq<char>) {
    (LogLevel::Info, "=== 步骤 3: 修改 workbench.desktop.main.js ==="@)
}

/// The records that close a complete reset with `count` details.
pub open spec fn finish_logs(success: bool, count: nat, log_file_path: Seq<char>) -> Seq<(LogLevel, Seq<char>)> {
    seq![
        (LogLevel::Info, "=== Cursor 重置流程完成 ==="@),
        (LogLevel::Info, "最终结果: "@ + complete_message(success)),
        (LogLevel::Info, "成功状态: "@ + bool_text_spec(success)),
        (LogLevel::Info, "详细信息条目数: "@ + decimal_spec(count)),
        (LogLevel::Info, "日志文件位置: "@ + debug_form(log_file_path)),
    ]
}

/// The closing records and the result, for a run that ends with `success` and `details`.
pub open spec fn finished(
    res: (CompleteRun, CompleteAction),
    success: bool,
    details: Seq<Seq<char>>,
) -> bool {
    &&& res.0.stage == CompleteStage::Finished
    &&& res.1 matches CompleteAction::Finish(r) && r.success == success && r.message@ == complete_message(
        success,
    ) && views(r.details@) == details && r.new_ids is None
}

/// The records made on the outcome of the identifier reset.
pub open spec fn id_reset_logs(r: ResetResult) -> Seq<(LogLevel, Seq<char>)> {
    seq![(LogLevel::Info, "机器ID重置结果: success="@ + bool_text_spec(r.success) + ", message="@ + r.message@)]
        + note_logs("机器ID重置详情: "@, views(r.details@)) + seq![
        if r.success {
            (LogLevel::Info, "机器ID重置成功"@)
        } else {
            (LogLevel::Error, "机器ID重置失败"@)
        },
    ]
}

/// The records made on where Cursor's application files are.
pub open spec fn app_found_logs(p: AppPaths) -> Seq<(LogLevel, Seq<char>)> {
    seq![
        (LogLevel::Info, "找到Cursor应用路径: package.json="@ + debug_form(p.package_json@) + ", main.js="@
            + debug_form(p.main_js@)),
        (LogLevel::Info, "package.json存在: "@ + bool_text_spec(p.package_json_exists) + ", main.js存在: "@
            + bool_text_spec(p.main_js_exists)),
    ]
}

/// The warnings made when main.js or package.json is missing.
pub open spec fn app_missing_logs(p: AppPaths) -> Seq<(LogLevel, Seq<char>)> {
    seq![
        (LogLevel::Warn, "Warning: Could not find Cursor main.js file"@),
        (LogLevel::Warn, "详细检查: package.json路径="@ + debug_form(p.package_json@) + ", 存在="@
            + bool_text_spec(p.package_json_exists)),
        (LogLevel::Warn, "详细检查: main.js路径="@ + debug_form(p.main_js@) + ", 存在="@ + bool_text_spec(
            p.main_js_exists,
        )),
    ]
}

/// The records made on where workbench.desktop.main.js is.
pub open spec fn workbench_found_logs(w: WorkbenchPath) -> Seq<(LogLevel, Seq<char>)> {
    seq![
        (LogLevel::Info, "找到workbench路径: "@ + debug_form(w.path@)),
        (LogLevel::Info, "workbench文件存在: "@ + bool_text_spec(w.exists)),
    ]
}

impl MachineIdRestorer {
    fn finish_complete_reset(&mut self, success: bool, details: Vec<String>) -> (res: (CompleteRun, CompleteAction))
        ensures
            finished(res, success, views(details@)),
            final(self).pending_log() == old(self).pending_log() + finish_logs(
                success,
                details@.len(),
                old(self).log_file_path@,
            ),
            final(self).db_path == old(self).db_path,
            final(self).sqlite_path == old(self).sqlite_path,
            final(self).log_file_path == old(self).log_file_path,
    {
        let message = if success {
            String::from_str("Complete Cursor reset successful")
        } else {
            String::from_str("Complete Cursor reset completed with some errors")
        };
        self.log_info("=== Cursor 重置流程完成 ===");
        self.log_info(concat_str("最终结果: ", message.as_str()).as_str());
        self.log_info(concat_str("成功状态: ", bool_text(success).as_str()).as_str());
        self.log_info(concat_str("详细信息条目数: ", string_of(&decimal(details.len())).as_str()).as_str());
        self.log_info(concat_str("日志文件位置: ", debug_text(self.log_file_path.as_str()).as_str()).as_str());
        assert(self.pending_log() =~= old(self).pending_log() + finish_logs(
            success,
            details@.len(),
            old(self).log_file_path@,
        ));
        let result = ResetResult { success, message, details, new_ids: None };
        (CompleteRun { stage: CompleteStage::Finished, success, details: Vec::new() }, CompleteAction::Finish(result))
    }

    /// Starts a complete reset: records the host's report and the start, and asks for the
    /// machine identifiers to be reset.
    pub fn complete_cursor_reset(&mut self, info: &SystemInfo) -> (res: (CompleteRun, CompleteAction))
        ensures
            res.0.stage == CompleteStage::ResetIds,
            res.0.success,
            views(res.0.details@) == seq!["Starting complete Cursor reset process..."@],
            res.1 is ResetMachineIds,
            final(self).pending_log() == old(self).pending_log() + system_info_logs(
                old(self).db_path@,
                old(self).sqlite_path@,
                old(self).log_file_path@,
                *info,
            ).push((LogLevel::Info, "开始完整的 Cursor 重置流程..."@)).push(
                (LogLevel::Info, "=== 步骤 1: 重置机器ID ==="@),
            ),
            final(self).db_path == old(self).db_path,
            final(self).sqlite_path == old(self).sqlite_path,
            final(self).log_file_path == old(self).log_file_path,
    {
        self.log_system_info(info);
        self.log_info("开始完整的 Cursor 重置流程...");
        let mut details: Vec<String> = Vec::new();
        push_note(&mut details, String::from_str("Starting complete Cursor reset process..."));
        self.log_info("=== 步骤 1: 重置机器ID ===");
        (CompleteRun { stage: CompleteStage::ResetIds, success: true, details }, CompleteAction::ResetMachineIds)
    }

    fn start_workbench_step(&mut self, success: bool, details: Vec<String>) -> (res: (CompleteRun, CompleteAction))
        ensures
            res.0.stage == CompleteStage::LocateWorkbench,
            res.0.success == success,
            views(res.0.details@) == views(details@),
            res.1 is LocateWorkbench,
            final(self).pending_log() == old(self).pending_log().push(workbench_step_log()),
            final(self).db_path == old(self).db_path,
            final(self).sqlite_path == old(self).sqlite_path,
            final(self).log_file_path == old(self).log_file_path,
    {
        self.log_info("=== 步骤 3: 修改 workbench.desktop.main.js ===");
        (CompleteRun { stage: CompleteStage::LocateWorkbench, success, details }, CompleteAction::LocateWorkbench)
    }

    /// Takes the next step of a complete reset, given what the caller reports for the step
    /// it was asked to do.
    ///
    /// - Identifiers reset: their details are taken over; a failed or refused reset fails
    ///   the whole. Locating main.js is asked for next.
    /// - main.js located and present, with package.json: patching it is asked for.
    ///   Missing: a warning is noted and the workbench step begins. Not located: the error
    ///   is noted, the reset fails, and the workbench step begins.
    /// - main.js patched or not: the outcome is noted and the workbench step begins.
    /// - workbench.desktop.main.js located and present: patching it is asked for. Missing:
    ///   a warning is noted and the reset ends. Not located: the error is noted, the reset
    ///   fails and ends.
    /// - workbench.desktop.main.js patched or not: the outcome is noted and the reset ends.
    ///
    /// Every record made at the error level fails the reset (a failed or refused identifier
    /// reset, an installation or workbench file that could not be located); warnings do not.
    /// The result never carries identifiers.
    pub fn complete_cursor_reset_step(&mut self, run: CompleteRun, event: CompleteEvent) -> (res: (
        CompleteRun,
        CompleteAction,
    ))
        requires
            complete_event_fits(run.stage, event),
        ensures
            has_error_record(final(self).pending_log(), old(self).pending_log().len() as int) ==> !complete_standing(res),
            !run.success ==> !complete_standing(res),
            final(self).db_path == old(self).db_path,
            final(self).sqlite_path == old(self).sqlite_path,
            final(self).log_file_path == old(self).log_file_path,
            event matches CompleteEvent::MachineIdsReset(Ok(r)) ==> {
                &&& res.0.stage == CompleteStage::LocateApp
                &&& res.1 is LocateApp
                &&& res.0.success == (run.success && r.success)
                &&& views(res.0.details@) == views(run.details@) + views(r.details@)
                &&& final(self).pending_log() == old(self).pending_log() + id_reset_logs(r) + seq![
                    (LogLevel::Info, "=== 步骤 2: 修改 main.js ==="@),
                ]
            },
            event matches CompleteEvent::MachineIdsReset(Err(e)) ==> {
                let msg = "Failed to reset machine IDs: "@ + e@;
                &&& res.0.stage == CompleteStage::LocateApp
                &&& res.1 is LocateApp
                &&& !res.0.success
                &&& views(res.0.details@) == views(run.details@).push(msg)
                &&& final(self).pending_log() == old(self).pending_log().push((LogLevel::Error, msg)).push(
                    (LogLevel::Info, "=== 步骤 2: 修改 main.js ==="@),
                )
            },
            event matches CompleteEvent::AppLocated(Ok(p)) ==> (p.package_json_exists && p.main_js_exists) ==> {
                &&& res.0.stage == CompleteStage::ModifyMainJs
                &&& res.1 matches CompleteAction::ModifyMainJs(path) && path == p.main_js
                &&& res.0.success == run.success
                &&& views(res.0.details@) == views(run.details@)
                &&& final(self).pending_log() == old(self).pending_log() + app_found_logs(p).push(
                    (LogLevel::Info, "开始修改 main.js 文件..."@),
                )
            },
            event matches CompleteEvent::AppLocated(Ok(p)) ==> !(p.package_json_exists && p.main_js_exists) ==> {
                &&& res.0.stage == CompleteStage::LocateWorkbench
                &&& res.1 is LocateWorkbench
                &&& res.0.success == run.success
                &&& views(res.0.details@) == views(run.details@).push("Warning: Could not find Cursor main.js file"@)
                &&& final(self).pending_log() == old(self).pending_log() + app_found_logs(p) + app_missing_logs(p).push(
                    workbench_step_log(),
                )
            },
            event matches CompleteEvent::AppLocated(Err(e)) ==> {
                let msg = "Warning: Could not locate Cursor installation: "@ + e@;
                &&& res.0.stage == CompleteStage::LocateWorkbench
                &&& res.1 is LocateWorkbench
                &&& !res.0.success
                &&& views(res.0.details@) == views(run.details@).push(msg)
                &&& final(self).pending_log() == old(self).pending_log().push((LogLevel::Error, msg)).push(
                    workbench_step_log(),
                )
            },
            event matches CompleteEvent::MainJsModified(m) ==> {
                let note = match m {
                    Ok(_) => (LogLevel::Info, "Successfully modified main.js"@),
                    Err(e) => (LogLevel::Warn, "Warning: Failed to modify main.js: "@ + e@),
                };
                &&& res.0.stage == CompleteStage::LocateWorkbench
                &&& res.1 is LocateWorkbench
                &&& res.0.success == run.success
                &&& views(res.0.details@) == views(run.details@).push(note.1)
                &&& final(self).pending_log() == old(self).pending_log().push(note).push(workbench_step_log())
            },
            event matches CompleteEvent::WorkbenchLocated(Ok(w)) ==> w.exists ==> {
                &&& res.0.stage == CompleteStage::ModifyWorkbench
                &&& res.1 matches CompleteAction::ModifyWorkbench(path) && path == w.path
                &&& res.0.success == run.success
                &&& views(res.0.details@) == views(run.details@)
                &&& final(self).pending_log() == old(self).pending_log() + workbench_found_logs(w).push(
                    (LogLevel::Info, "开始修改 workbench.desktop.main.js 文件..."@),
                )
            },
            event matches CompleteEvent::WorkbenchLocated(Ok(w)) ==> !w.exists ==> {
                let warning = "Warning: Could not find workbench.desktop.main.js file"@;
                &&& finished(res, run.success, views(run.details@).push(warning))
                &&& final(self).pending_log() == old(self).pending_log() + workbench_found_logs(w) + seq![
                    (LogLevel::Warn, warning),
                    (LogLevel::Warn, "详细检查: workbench路径="@ + debug_form(w.path@) + ", 存在="@ + bool_text_spec(
                        w.exists,
                    )),
                ] + finish_logs(run.success, run.details@.len() + 1, old(self).log_file_path@)
            },
            event matches CompleteEvent::WorkbenchLocated(Err(e)) ==> {
                let msg = "Warning: Could not locate workbench.desktop.main.js: "@ + e@;
                &&& finished(res, false, views(run.details@).push(msg))
                &&& final(self).pending_log() == old(self).pending_log().push((LogLevel::Error, msg)) + finish_logs(
                    false,
                    run.details@.len() + 1,
                    old(self).log_file_path@,
                )
            },
            event matches CompleteEvent::WorkbenchModified(m) ==> {
                let note = match m {
                    Ok(_) => (LogLevel::Info, "Successfully modified workbench.desktop.main.js"@),
                    Err(e) => (LogLevel::Warn, "Warning: Failed to modify workbench.desktop.main.js: "@ + e@),
                };
                &&& finished(res, run.success, views(run.details@).push(note.1))
                &&& final(self).pending_log() == old(self).pending_log().push(note) + finish_logs(
                    run.success,
                    run.details@.len() + 1,
                    old(self).log_file_path@,
                )
            },
    {
        let CompleteRun { stage: _, success, details } = run;
        let mut details = details;
        let mut success = success;
        match event {
            CompleteEvent::MachineIdsReset(outcome) => {
                match outcome {
                    Ok(r) => {
                        let line = concat_str("机器ID重置结果: success=", bool_text(r.success).as_str());
                        let line = line.concat(", message=");
                        let line = line.concat(r.message.as_str());
                        self.log_info(line.as_str());
                        log_notes(self, "机器ID重置详情: ", &r.details);
                        let ok = r.success;
                        extend_notes(&mut details, r.details);
                        if !ok {
                            success = false;
                            self.log_error("机器ID重置失败");
                        } else {
                            self.log_info("机器ID重置成功");
                        }
                    },
                    Err(e) => {
                        success = false;
                        let msg = concat_str("Failed to reset machine IDs: ", e.as_str());
                        self.log_error(msg.as_str());
                        push_note(&mut details, msg);
                    },
                }
                self.log_info("=== 步骤 2: 修改 main.js ===");
                (CompleteRun { stage: CompleteStage::LocateApp, success, details }, CompleteAction::LocateApp)
            },
            CompleteEvent::AppLocated(located) => {
                match located {
                    Ok(p) => {
                        let line = concat_str("找到Cursor应用路径: package.json=", debug_text(p.package_json.as_str()).as_str());
                        let line = line.concat(", main.js=");
                        let line = line.concat(debug_text(p.main_js.as_str()).as_str());
                        self.log_info(line.as_str());
                        let line = concat_str("package.json存在: ", bool_text(p.package_json_exists).as_str());
                        let line = line.concat(", main.js存在: ");
                        let line = line.concat(bool_text(p.main_js_exists).as_str());
                        self.log_info(line.as_str());
                        if p.package_json_exists && p.main_js_exists {
                            self.log_info("开始修改 main.js 文件...");
                            (CompleteRun { stage: CompleteStage::ModifyMainJs, success, details }, CompleteAction::ModifyMainJs(p.main_js))
                        } else {
                            let warning = String::from_str("Warning: Could not find Cursor main.js file");
                            self.log_warning(warning.as_str());
                            let line = concat_str("详细检查: package.json路径=", debug_text(p.package_json.as_str()).as_str());
                            let line = line.concat(", 存在=");
                            let line = line.concat(bool_text(p.package_json_exists).as_str());
                            self.log_warning(line.as_str());
                            let line = concat_str("详细检查: main.js路径=", debug_text(p.main_js.as_str()).as_str());
                            let line = line.concat(", 存在=");
                            let line = line.concat(bool_text(p.main_js_exists).as_str());
                            self.log_warning(line.as_str());
                            push_note(&mut details, warning);
                            self.start_workbench_step(success, details)
                        }
                    },
                    Err(e) => {
                        let msg = concat_str("Warning: Could not locate Cursor installation: ", e.as_str());
                        self.log_error(msg.as_str());
                        push_note(&mut details, msg);
                        self.start_workbench_step(false, details)
                    },
                }
            },
            CompleteEvent::MainJsModified(outcome) => {
                match outcome {
                    Ok(()) => {
                        let msg = String::from_str("Successfully modified main.js");
                        self.log_info(msg.as_str());
                        push_note(&mut details, msg);
                    },
                    Err(e) => {
                        let msg = concat_str("Warning: Failed to modify main.js: ", e.as_str());
                        self.log_warning(msg.as_str());
                        push_note(&mut details, msg);
                    },
                }
                self.start_workbench_step(success, details)
            },
            CompleteEvent::WorkbenchLocated(located) => {
                match located {
                    Ok(w) => {
                        self.log_info(concat_str("找到workbench路径: ", debug_text(w.path.as_str()).as_str()).as_str());
                        self.log_info(concat_str("workbench文件存在: ", bool_text(w.exists).as_str()).as_str());
                        if w.exists {
                            self.log_info("开始修改 workbench.desktop.main.js 文件...");
                            (CompleteRun { stage: CompleteStage::ModifyWorkbench, success, details }, CompleteAction::ModifyWorkbench(w.path))
                        } else {
                            let warning = String::from_str("Warning: Could not find workbench.desktop.main.js file");
                            self.log_warning(warning.as_str());
                            let line = concat_str("详细检查: workbench路径=", debug_text(w.path.as_str()).as_str());
                            let line = line.concat(", 存在=");
                            let line = line.concat(bool_text(w.exists).as_str());
                            self.log_warning(line.as_str());
                            push_note(&mut details, warning);
                            assert(self.pending_log() =~= old(self).pending_log() + workbench_found_logs(w) + seq![
                                (LogLevel::Warn, "Warning: Could not find workbench.desktop.main.js file"@),
                                (LogLevel::Warn, "详细检查: workbench路径="@ + debug_form(w.path@) + ", 存在="@
                                    + bool_text_spec(w.exists)),
                            ]);
                            assert(details@.len() == views(details@).len());
                            self.finish_complete_reset(success, details)
                        }
                    },
                    Err(e) => {
                        let msg = concat_str("Warning: Could not locate workbench.desktop.main.js: ", e.as_str());
                        self.log_error(msg.as_str());
                        push_note(&mut details, msg);
                        assert(details@.len() == views(details@).len());
                        self.finish_complete_reset(false, details)
                    },
                }
            },
            CompleteEvent::WorkbenchModified(outcome) => {
                match outcome {
                    Ok(()) => {
                        let msg = String::from_str("Successfully modified workbench.desktop.main.js");
                        self.log_info(msg.as_str());
                        push_note(&mut details, msg);
                    },
                    Err(e) => {
                        let msg = concat_str("Warning: Failed to modify workbench.desktop.main.js: ", e.as_str());
                        self.log_warning(msg.as_str());
                        push_note(&mut details, msg);
                    },
                }
                assert(details@.len() == views(details@).len());
                self.finish_complete_reset(success, details)
            },
        }
    }
}

} // verus!
