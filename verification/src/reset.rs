//! Resetting Cursor's machine identifiers, step by step: the library decides each step and
//! what it records; the caller performs the file work each step asks for and reports back.
use vstd::prelude::*;

use crate::account::concat_str;
use crate::deps::{debug_form, debug_text};
use crate::machine_id::{
    LogLevel, MachineIdRestorer, MachineIds, ResetResult, RestoreResult, SystemIdKind, SystemIdOutcome, SystemIdWrite,
    ids_from_members, ids_view, is_fresh_ids, system_id_writes, system_id_writes_spec, system_notes, write_views,
};
use crate::paths::Platform;
use crate::complete::has_error_record;
use crate::deps::json_reading;
use crate::text::{decimal, decimal_spec, extend_notes, push_note, string_of, views};
use vstd::pervasive::unreached;
use vstd::utf8::encode_utf8;

verus! {

/// Where a reset stands.
#[derive(PartialEq, Eq, Structural)]
pub enum ResetStage {
    CheckStorage,
    Backup,
    WriteStorage,
    WriteMachineIdFile,
    UpdateSystemIds,
    Finished,
}

/// A reset in progress: its stage, whether it has failed so far, the details reported so
/// far, the identifiers it generated, and the platform it runs on.
pub struct ResetRun {
    pub stage: ResetStage,
    pub success: bool,
    pub details: Vec<String>,
    pub new_ids: Option<MachineIds>,
    pub platform: Platform,
}

/// What the caller is asked to do next.
pub enum ResetAction {
    /// Report whether storage.json exists.
    CheckStorageExists,
    /// Back storage.json up; report the backup's path or the failure.
    CreateBackup,
    /// Write these identifiers into storage.json; report the outcome.
    WriteStorage(MachineIds),
    /// Write this device id into the machineId file; report the outcome.
    WriteMachineIdFile(String),
    /// Write these system-wide identifiers, in order; report each outcome, in order.
    UpdateSystemIds(Vec<SystemIdWrite>),
    /// The reset is over, with this result.
    Finish(ResetResult),
}

/// What the caller reports after doing what it was asked.
pub enum ResetEvent {
    StorageExists(bool),
    BackupMade(Result<String, String>),
    StorageWritten(Result<(), String>),
    MachineIdFileWritten(Result<(), String>),
    SystemIdsUpdated(Vec<(SystemIdKind, SystemIdOutcome)>),
}

/// The event answers the action of the stage.
pub open spec fn event_fits(stage: ResetStage, event: ResetEvent) -> bool {
    match event {
        ResetEvent::StorageExists(_) => stage == ResetStage::CheckStorage,
        ResetEvent::BackupMade(_) => stage == ResetStage::Backup,
        ResetEvent::StorageWritten(_) => stage == ResetStage::WriteStorage,
        ResetEvent::MachineIdFileWritten(_) => stage == ResetStage::WriteMachineIdFile,
        ResetEvent::SystemIdsUpdated(_) => stage == ResetStage::UpdateSystemIds,
    }
}

/// Whether a reset stands successful after a step: the result's success when it has ended,
/// else the run's.
pub open spec fn reset_standing(res: (ResetRun, ResetAction)) -> bool {
    match res.1 {
        ResetAction::Finish(r) => r.success,
        _ => res.0.success,
    }
}

/// The end of a reset: the result, with the details so far and the system-id report.
pub open spec fn reset_finished(
    res: (ResetRun, ResetAction),
    platform: Platform,
    success: bool,
    details: Seq<Seq<char>>,
    done: Seq<(SystemIdKind, SystemIdOutcome)>,
    new_ids: Option<MachineIds>,
) -> bool {
    &&& res.0.stage == ResetStage::Finished
    &&& res.1 matches ResetAction::Finish(r) && r.success == success && r.message@ == reset_message(success)
        && views(r.details@) == details + system_notes(platform, done) && r.new_ids == new_ids
}

/// The records that close a reset.
pub open spec fn reset_finish_logs(
    platform: Platform,
    success: bool,
    done: Seq<(SystemIdKind, SystemIdOutcome)>,
) -> Seq<(LogLevel, Seq<char>)> {
    note_logs("系统ID更新结果: "@, system_notes(platform, done)).push(
        (LogLevel::Info, "机器ID重置完成: "@ + reset_message(success)),
    )
}

/// Log records for each note, at debug level, with a prefix.
pub open spec fn note_logs(prefix: Seq<char>, notes: Seq<Seq<char>>) -> Seq<(LogLevel, Seq<char>)> {
    notes.map_values(|n: Seq<char>| (LogLevel::Debug, prefix + n))
}

/// The record of the generated identifiers.
pub open spec fn generated_ids_text(ids: MachineIds) -> Seq<char> {
    "生成的新ID: dev_device_id="@ + ids.dev_device_id@ + ", machine_id长度="@ + decimal_spec(
        (encode_utf8(ids.machine_id@).len() as usize) as nat,
    ) + ", mac_machine_id长度="@ + decimal_spec(
        (encode_utf8(ids.mac_machine_id@).len() as usize) as nat,
    ) + ", sqm_id="@ + ids.sqm_id@
}

/// The final message of a reset.
pub open spec fn reset_message(success: bool) -> Seq<char> {
    if success {
        "Machine IDs reset successfully"@
    } else {
        "Machine ID reset completed with some errors"@
    }
}

pub(crate) fn log_notes(r: &mut MachineIdRestorer, prefix: &str, notes: &Vec<String>)
    ensures
        final(r).pending_log() == old(r).pending_log() + note_logs(prefix@, views(notes@)),
        final(r).db_path == old(r).db_path,
        final(r).sqlite_path == old(r).sqlite_path,
        final(r).log_file_path == old(r).log_file_path,
{
    let mut i: usize = 0;
    while i < notes.len()
        invariant
            i <= notes.len(),
            r.pending_log() == old(r).pending_log() + note_logs(prefix@, views(notes@).take(i as int)),
            r.db_path == old(r).db_path,
            r.sqlite_path == old(r).sqlite_path,
            r.log_file_path == old(r).log_file_path,
        decreases notes.len() - i,
    {
        let line = concat_str(prefix, notes[i].as_str());
        r.log_debug(line.as_str());
        assert(note_logs(prefix@, views(notes@).take(i + 1)) =~= note_logs(prefix@, views(notes@).take(i as int)).push((LogLevel::Debug, prefix@ + notes@[i as int]@)));
        i += 1;
    }
    assert(views(notes@).take(notes.len() as int) =~= views(notes@));
}

impl MachineIdRestorer {
    /// Starts a reset: records its start and asks whether storage.json exists.
    pub fn reset_machine_ids(&mut self, platform: Platform) -> (res: (ResetRun, ResetAction))
        ensures
            res.0.stage == ResetStage::CheckStorage,
            res.0.platform == platform,
            res.0.success,
            views(res.0.details@) == seq!["Starting machine ID reset process..."@],
            res.0.new_ids is None,
            res.1 is CheckStorageExists,
            final(self).pending_log() == old(self).pending_log().push((LogLevel::Info, "开始机器ID重置流程..."@)).push(
                (LogLevel::Debug, "检查存储文件: "@ + debug_form(old(self).db_path@)),
            ),
            final(self).db_path == old(self).db_path,
            final(self).sqlite_path == old(self).sqlite_path,
            final(self).log_file_path == old(self).log_file_path,
    {
        self.log_info("开始机器ID重置流程...");
        let mut details: Vec<String> = Vec::new();
        push_note(&mut details, String::from_str("Starting machine ID reset process..."));
        let quoted = debug_text(self.db_path.as_str());
        let line = concat_str("检查存储文件: ", quoted.as_str());
        self.log_debug(line.as_str());
        (ResetRun { stage: ResetStage::CheckStorage, success: true, details, new_ids: None, platform }, ResetAction::CheckStorageExists)
    }

    /// Takes the next step of a reset, given what the caller reports for the step it was
    /// asked to do.
    ///
    /// - Storage missing: the reset ends, failed, with `Storage file not found: <path>`.
    /// - Storage present: a backup is asked for.
    /// - Backup failed: the reset ends, failed, with `Failed to create backup: <reason>`,
    ///   and nothing is written.
    /// - Backup made: it is noted, fresh identifiers are generated and noted, and writing
    ///   them into storage.json is asked for.
    /// - Storage written or failed (a failure fails the reset): the outcome is noted, then
    ///   the SQLite notes, and writing the machineId file is asked for.
    /// - machineId file written or failed: the outcome is noted; the platform's system-wide
    ///   identifiers are to be written, or, when it has none to write, the system-id notes
    ///   are made and the reset ends with the identifiers.
    /// - System-wide identifiers written: a note for each outcome, and the reset ends with
    ///   the identifiers.
    pub fn reset_machine_ids_step(&mut self, run: ResetRun, event: ResetEvent) -> (res: (ResetRun, ResetAction))
        requires
            event_fits(run.stage, event),
            run.stage == ResetStage::WriteStorage || run.stage == ResetStage::WriteMachineIdFile ==> run.new_ids is Some,
        ensures
            has_error_record(final(self).pending_log(), old(self).pending_log().len() as int) ==> !reset_standing(res),
            !run.success ==> !reset_standing(res),
            res.0.stage != ResetStage::Finished ==> res.0.platform == run.platform,
            final(self).db_path == old(self).db_path,
            final(self).sqlite_path == old(self).sqlite_path,
            final(self).log_file_path == old(self).log_file_path,
            event matches ResetEvent::StorageExists(false) ==> {
                let msg = "Storage file not found: "@ + old(self).db_path@;
                &&& res.0.stage == ResetStage::Finished
                &&& res.1 matches ResetAction::Finish(r) && !r.success && r.message@ == msg && views(r.details@) == views(run.details@) && r.new_ids is None
                &&& final(self).pending_log() == old(self).pending_log().push((LogLevel::Error, msg))
            },
            event matches ResetEvent::StorageExists(true) ==> {
                &&& res.0.stage == ResetStage::Backup
                &&& res.0.success == run.success
                &&& views(res.0.details@) == views(run.details@)
                &&& res.0.new_ids == run.new_ids
                &&& res.1 is CreateBackup
                &&& final(self).pending_log() == old(self).pending_log().push((LogLevel::Info, "存储文件存在，继续处理"@)).push((LogLevel::Info, "创建备份文件..."@))
            },
            event matches ResetEvent::BackupMade(Err(e)) ==> {
                let msg = "Failed to create backup: "@ + e@;
                &&& res.0.stage == ResetStage::Finished
                &&& res.1 matches ResetAction::Finish(r) && !r.success && r.message@ == msg
                    && views(r.details@) == views(run.details@).push(msg) && r.new_ids is None
                &&& final(self).pending_log() == old(self).pending_log().push((LogLevel::Error, msg))
            },
            event matches ResetEvent::BackupMade(Ok(path)) ==> {
                let note = "Created backup at: "@ + path@;
                let level = LogLevel::Info;
                &&& res.0.stage == ResetStage::WriteStorage
                &&& res.0.success == run.success
                &&& res.0.new_ids matches Some(ids) && is_fresh_ids(ids)
                &&& res.1 matches ResetAction::WriteStorage(ids) && res.0.new_ids == Some(ids)
                &&& views(res.0.details@) == views(run.details@).push(note).push("Generated new machine IDs"@)
                &&& final(self).pending_log() == old(self).pending_log().push((level, note)).push((LogLevel::Info, "生成新的机器ID..."@)).push(
                    (LogLevel::Info, generated_ids_text(res.0.new_ids->0)),
                ).push((LogLevel::Info, "更新存储文件..."@))
            },
            event matches ResetEvent::StorageWritten(w) ==> {
                let note = match w {
                    Ok(_) => "Successfully updated storage.json"@,
                    Err(e) => "Failed to update storage file: "@ + e@,
                };
                let level = if w is Ok { LogLevel::Info } else { LogLevel::Error };
                let sqlite_note = "SQLite database update skipped (feature not implemented)"@;
                &&& res.0.stage == ResetStage::WriteMachineIdFile
                &&& res.0.success == (run.success && w is Ok)
                &&& res.0.new_ids == run.new_ids
                &&& res.1 matches ResetAction::WriteMachineIdFile(dev) && dev == run.new_ids->0.dev_device_id
                &&& views(res.0.details@) == views(run.details@).push(note).push(sqlite_note)
                &&& final(self).pending_log() == old(self).pending_log().push((level, note)).push((LogLevel::Info, "更新SQLite数据库..."@)).push(
                    (LogLevel::Debug, "SQLite更新结果: "@ + sqlite_note),
                ).push((LogLevel::Info, "更新机器ID文件..."@))
            },
            event matches ResetEvent::MachineIdFileWritten(w) ==> {
                let note = match w {
                    Ok(_) => "Successfully updated machine ID file"@,
                    Err(e) => "Warning: Failed to update machine ID file: "@ + e@,
                };
                let level = if w is Ok { LogLevel::Info } else { LogLevel::Warn };
                let writes = system_id_writes_spec(run.platform, run.new_ids->0);
                let logs = old(self).pending_log().push((level, note)).push((LogLevel::Info, "更新系统ID..."@));
                &&& writes.len() == 0 ==> reset_finished(res, run.platform, run.success, views(run.details@).push(note), Seq::empty(), run.new_ids)
                    && final(self).pending_log() == logs + reset_finish_logs(run.platform, run.success, Seq::empty())
                &&& writes.len() > 0 ==> {
                    &&& res.0.stage == ResetStage::UpdateSystemIds
                    &&& res.0.success == run.success
                    &&& res.0.new_ids == run.new_ids
                    &&& views(res.0.details@) == views(run.details@).push(note)
                    &&& res.1 matches ResetAction::UpdateSystemIds(ws) && write_views(ws@) == writes
                    &&& final(self).pending_log() == logs
                }
            },
            event matches ResetEvent::SystemIdsUpdated(done) ==> reset_finished(res, run.platform, run.success, views(run.details@), done@, run.new_ids)
                && final(self).pending_log() == old(self).pending_log() + reset_finish_logs(run.platform, run.success, done@),
    {
        let ResetRun { stage: _, success, details, new_ids, platform } = run;
        let mut details = details;
        let mut success = success;
        match event {
            ResetEvent::StorageExists(exists) => {
                if !exists {
                    let msg = concat_str("Storage file not found: ", self.db_path.as_str());
                    self.log_error(msg.as_str());
                    let result = ResetResult { success: false, message: msg, details, new_ids: None };
                    (ResetRun { stage: ResetStage::Finished, success: false, details: Vec::new(), new_ids: None, platform }, ResetAction::Finish(result))
                } else {
                    self.log_info("存储文件存在，继续处理");
                    self.log_info("创建备份文件...");
                    (ResetRun { stage: ResetStage::Backup, success, details, new_ids, platform }, ResetAction::CreateBackup)
                }
            },
            ResetEvent::BackupMade(b) => {
                match &b {
                    Ok(path) => {
                        let note = concat_str("Created backup at: ", path.as_str());
                        self.log_info(note.as_str());
                        push_note(&mut details, note);
                    },
                    Err(e) => {
                        let msg = concat_str("Failed to create backup: ", e.as_str());
                        self.log_error(msg.as_str());
                        push_note(&mut details, msg.clone());
                        let result = ResetResult { success: false, message: msg, details, new_ids: None };
                        return (
                            ResetRun { stage: ResetStage::Finished, success: false, details: Vec::new(), new_ids: None, platform },
                            ResetAction::Finish(result),
                        );
                    },
                }
                self.log_info("生成新的机器ID...");
                let ids = match self.generate_new_machine_ids() {
                    Ok(ids) => ids,
                    Err(_) => unreached(),
                };
                let line = concat_str("生成的新ID: dev_device_id=", ids.dev_device_id.as_str());
                let line = line.concat(", machine_id长度=");
                let line = line.concat(string_of(&decimal(ids.machine_id.as_str().len())).as_str());
                let line = line.concat(", mac_machine_id长度=");
                let line = line.concat(string_of(&decimal(ids.mac_machine_id.as_str().len())).as_str());
                let line = line.concat(", sqm_id=");
                let line = line.concat(ids.sqm_id.as_str());
                assert(line@ == generated_ids_text(ids));
                self.log_info(line.as_str());
                push_note(&mut details, String::from_str("Generated new machine IDs"));
                self.log_info("更新存储文件...");
                let action_ids = ids.copy();
                (ResetRun { stage: ResetStage::WriteStorage, success, details, new_ids: Some(ids), platform }, ResetAction::WriteStorage(action_ids))
            },
            ResetEvent::StorageWritten(w) => {
                match w {
                    Err(e) => {
                        success = false;
                        let note = concat_str("Failed to update storage file: ", e.as_str());
                        self.log_error(note.as_str());
                        push_note(&mut details, note);
                    },
                    Ok(_) => {
                        let note = String::from_str("Successfully updated storage.json");
                        self.log_info(note.as_str());
                        push_note(&mut details, note);
                    },
                }
                self.log_info("更新SQLite数据库...");
                let ids = match &new_ids {
                    Some(ids) => ids.copy(),
                    None => unreached(),
                };
                match self.update_sqlite_db(&ids) {
                    Ok(notes) => {
                        log_notes(self, "SQLite更新结果: ", &notes);
                        extend_notes(&mut details, notes);
                    },
                    Err(_) => unreached(),
                }
                self.log_info("更新机器ID文件...");
                (ResetRun { stage: ResetStage::WriteMachineIdFile, success, details, new_ids, platform }, ResetAction::WriteMachineIdFile(ids.dev_device_id))
            },
            ResetEvent::MachineIdFileWritten(w) => {
                match w {
                    Err(e) => {
                        let note = concat_str("Warning: Failed to update machine ID file: ", e.as_str());
                        self.log_warning(note.as_str());
                        push_note(&mut details, note);
                    },
                    Ok(_) => {
                        let note = String::from_str("Successfully updated machine ID file");
                        self.log_info(note.as_str());
                        push_note(&mut details, note);
                    },
                }
                self.log_info("更新系统ID...");
                let ids = match &new_ids {
                    Some(ids) => ids.copy(),
                    None => unreached(),
                };
                let writes = system_id_writes(&platform, &ids);
                if writes.len() == 0 {
                    let none: Vec<(SystemIdKind, SystemIdOutcome)> = Vec::new();
                    self.finish_reset(platform, success, details, new_ids, &none)
                } else {
                    (
                        ResetRun { stage: ResetStage::UpdateSystemIds, success, details, new_ids, platform },
                        ResetAction::UpdateSystemIds(writes),
                    )
                }
            },
            ResetEvent::SystemIdsUpdated(done) => self.finish_reset(platform, success, details, new_ids, &done),
        }
    }

    fn finish_reset(
        &mut self,
        platform: Platform,
        success: bool,
        details: Vec<String>,
        new_ids: Option<MachineIds>,
        done: &Vec<(SystemIdKind, SystemIdOutcome)>,
    ) -> (res: (ResetRun, ResetAction))
        ensures
            reset_finished(res, platform, success, views(details@), done@, new_ids),
            final(self).pending_log() == old(self).pending_log() + reset_finish_logs(platform, success, done@),
            final(self).db_path == old(self).db_path,
            final(self).sqlite_path == old(self).sqlite_path,
            final(self).log_file_path == old(self).log_file_path,
    {
        let mut details = details;
        let notes = match self.update_system_ids(&platform, done) {
            Ok(notes) => notes,
            Err(_) => unreached(),
        };
        log_notes(self, "系统ID更新结果: ", &notes);
        extend_notes(&mut details, notes);
        let message = if success {
            String::from_str("Machine IDs reset successfully")
        } else {
            String::from_str("Machine ID reset completed with some errors")
        };
        let line = concat_str("机器ID重置完成: ", message.as_str());
        self.log_info(line.as_str());
        let result = ResetResult { success, message, details, new_ids };
        (ResetRun { stage: ResetStage::Finished, success, details: Vec::new(), new_ids: None, platform }, ResetAction::Finish(result))
    }
}

/// Where a restore from a backup stands.
#[derive(PartialEq, Eq, Structural)]
pub enum RestoreStage {
    ReadBackup,
    Backup,
    WriteStorage,
    WriteMachineIdFile,
    UpdateSystemIds,
    Finished,
}

/// A restore in progress: its stage, whether it has failed so far, the details so far, the
/// identifiers read from the backup, and the platform it runs on.
pub struct RestoreRun {
    pub stage: RestoreStage,
    pub success: bool,
    pub details: Vec<String>,
    pub ids: Option<MachineIds>,
    pub platform: Platform,
}

/// What the caller is asked to do next.
pub enum RestoreAction {
    /// Read the backup at this path and report its text, or that it could not be read.
    ReadBackup(String),
    /// Back the current storage.json up; report the backup's path or the failure.
    CreateBackup,
    /// Write these identifiers into storage.json.
    WriteStorage(MachineIds),
    /// Write this device id into the machineId file.
    WriteMachineIdFile(String),
    /// Write these system-wide identifiers, in order; report each outcome, in order.
    UpdateSystemIds(Vec<SystemIdWrite>),
    Finish(RestoreResult),
}

/// What the caller reports.
pub enum RestoreEvent {
    BackupRead(Option<String>),
    BackupMade(Result<String, String>),
    StorageWritten(Result<(), String>),
    MachineIdFileWritten(Result<(), String>),
    SystemIdsUpdated(Vec<(SystemIdKind, SystemIdOutcome)>),
}

/// The end of a restore: the result, with the details so far and the system-id report.
pub open spec fn restore_finished(
    res: (RestoreRun, RestoreAction),
    platform: Platform,
    success: bool,
    details: Seq<Seq<char>>,
    done: Seq<(SystemIdKind, SystemIdOutcome)>,
) -> bool {
    &&& res.0.stage == RestoreStage::Finished
    &&& res.1 matches RestoreAction::Finish(r) && r.success == success && r.message@ == restore_message(success)
        && views(r.details@) == details + system_notes(platform, done)
}

/// The event answers the action of the stage.
pub open spec fn restore_event_fits(stage: RestoreStage, event: RestoreEvent) -> bool {
    match event {
        RestoreEvent::BackupRead(_) => stage == RestoreStage::ReadBackup,
        RestoreEvent::BackupMade(_) => stage == RestoreStage::Backup,
        RestoreEvent::StorageWritten(_) => stage == RestoreStage::WriteStorage,
        RestoreEvent::MachineIdFileWritten(_) => stage == RestoreStage::WriteMachineIdFile,
        RestoreEvent::SystemIdsUpdated(_) => stage == RestoreStage::UpdateSystemIds,
    }
}

/// The final message of a restore.
pub open spec fn restore_message(success: bool) -> Seq<char> {
    if success {
        "Machine IDs restored successfully"@
    } else {
        "Machine ID restoration completed with some errors"@
    }
}

impl MachineIdRestorer {
    /// Starts restoring the identifiers kept in the backup at `backup_path`: asks for it to
    /// be read.
    pub fn restore_machine_ids(&self, backup_path: String, platform: Platform) -> (res: (RestoreRun, RestoreAction))
        ensures
            res.0.stage == RestoreStage::ReadBackup,
            res.0.platform == platform,
            res.0.success,
            res.0.details@.len() == 0,
            res.0.ids is None,
            res.1 matches RestoreAction::ReadBackup(p) && p == backup_path,
    {
        (RestoreRun { stage: RestoreStage::ReadBackup, success: true, details: Vec::new(), ids: None, platform }, RestoreAction::ReadBackup(backup_path))
    }

    /// Takes the next step of a restore, given what the caller reports.
    ///
    /// - The backup's text: its identifiers are read (missing ones empty) and a backup of the
    ///   current state is asked for; an unreadable or non-JSON backup ends the restore,
    ///   failed.
    /// - Backup failed: the restore ends, failed, with `Failed to create backup: <reason>`,
    ///   and nothing is written.
    /// - Backup made: it is noted and the identifiers are to be written into storage.json.
    /// - storage.json written or failed (a failure fails the restore): noted, with the
    ///   SQLite notes; the machineId file is to be written.
    /// - machineId file written or failed: noted; the platform's system-wide identifiers are
    ///   to be written, or, when it has none to write, the system-id notes are made and the
    ///   restore ends.
    /// - System-wide identifiers written: a note for each outcome; the restore ends.
    pub fn restore_machine_ids_step(&self, run: RestoreRun, event: RestoreEvent) -> (res: (RestoreRun, RestoreAction))
        requires
            restore_event_fits(run.stage, event),
            run.stage == RestoreStage::Backup || run.stage == RestoreStage::WriteStorage || run.stage
                == RestoreStage::WriteMachineIdFile ==> run.ids is Some,
        ensures
            res.0.stage != RestoreStage::Finished ==> res.0.platform == run.platform,
            event matches RestoreEvent::BackupRead(text) ==> match text {
                None => res.0.stage == RestoreStage::Finished && (res.1 matches RestoreAction::Finish(r) && !r.success
                    && r.message@ == "Failed to extract IDs from backup: Failed to read backup file"@ && views(
                    r.details@,
                ) == views(run.details@)),
                Some(t) => match json_reading(t@) {
                    None => res.0.stage == RestoreStage::Finished && (res.1 matches RestoreAction::Finish(r) && !r.success
                        && r.message@ == "Failed to extract IDs from backup: Failed to parse backup JSON"@ && views(
                        r.details@,
                    ) == views(run.details@)),
                    Some((_, m)) => {
                        &&& res.0.stage == RestoreStage::Backup
                        &&& res.0.success == run.success
                        &&& res.0.ids matches Some(ids) && ids_view(ids) == ids_from_members(m)
                        &&& views(res.0.details@) == views(run.details@).push("Successfully extracted IDs from backup"@)
                        &&& res.1 is CreateBackup
                    },
                },
            },
            event matches RestoreEvent::BackupMade(Err(e)) ==> {
                let msg = "Failed to create backup: "@ + e@;
                &&& res.0.stage == RestoreStage::Finished
                &&& res.1 matches RestoreAction::Finish(r) && !r.success && r.message@ == msg
                    && views(r.details@) == views(run.details@).push(msg)
            },
            event matches RestoreEvent::BackupMade(Ok(path)) ==> {
                let note = "Created backup at: "@ + path@;
                &&& res.0.stage == RestoreStage::WriteStorage
                &&& res.0.success == run.success
                &&& res.0.ids == run.ids
                &&& views(res.0.details@) == views(run.details@).push(note)
                &&& res.1 matches RestoreAction::WriteStorage(ids) && run.ids == Some(ids)
            },
            event matches RestoreEvent::StorageWritten(w) ==> {
                let note = match w {
                    Ok(_) => "Successfully updated storage.json"@,
                    Err(e) => "Failed to update storage file: "@ + e@,
                };
                &&& res.0.stage == RestoreStage::WriteMachineIdFile
                &&& res.0.success == (run.success && w is Ok)
                &&& res.0.ids == run.ids
                &&& views(res.0.details@) == views(run.details@).push(note).push(
                    "SQLite database update skipped (feature not implemented)"@,
                )
                &&& res.1 matches RestoreAction::WriteMachineIdFile(dev) && dev == run.ids->0.dev_device_id
            },
            event matches RestoreEvent::MachineIdFileWritten(w) ==> {
                let note = match w {
                    Ok(_) => "Successfully updated machine ID file"@,
                    Err(e) => "Warning: Failed to update machine ID file: "@ + e@,
                };
                let writes = system_id_writes_spec(run.platform, run.ids->0);
                &&& writes.len() == 0 ==> restore_finished(res, run.platform, run.success, views(run.details@).push(note), Seq::empty())
                &&& writes.len() > 0 ==> {
                    &&& res.0.stage == RestoreStage::UpdateSystemIds
                    &&& res.0.success == run.success
                    &&& res.0.ids == run.ids
                    &&& views(res.0.details@) == views(run.details@).push(note)
                    &&& res.1 matches RestoreAction::UpdateSystemIds(ws) && write_views(ws@) == writes
                }
            },
            event matches RestoreEvent::SystemIdsUpdated(done) ==> restore_finished(res, run.platform, run.success, views(run.details@), done@),
    {
        let RestoreRun { stage: _, success, details, ids, platform } = run;
        let mut details = details;
        let mut success = success;
        match event {
            RestoreEvent::BackupRead(text) => {
                let failure = match text {
                    None => String::from_str("Failed to extract IDs from backup: Failed to read backup file"),
                    Some(t) => match self.extract_ids_from_backup(t.as_str()) {
                        Ok(found) => {
                            push_note(&mut details, String::from_str("Successfully extracted IDs from backup"));
                            return (
                                RestoreRun { stage: RestoreStage::Backup, success, details, ids: Some(found), platform },
                                RestoreAction::CreateBackup,
                            );
                        },
                        Err(_) => String::from_str("Failed to extract IDs from backup: Failed to parse backup JSON"),
                    },
                };
                let result = RestoreResult { success: false, message: failure, details };
                (RestoreRun { stage: RestoreStage::Finished, success: false, details: Vec::new(), ids: None, platform }, RestoreAction::Finish(result))
            },
            RestoreEvent::BackupMade(b) => {
                let note = match b {
                    Ok(path) => concat_str("Created backup at: ", path.as_str()),
                    Err(e) => {
                        let msg = concat_str("Failed to create backup: ", e.as_str());
                        push_note(&mut details, msg.clone());
                        let result = RestoreResult { success: false, message: msg, details };
                        return (
                            RestoreRun { stage: RestoreStage::Finished, success: false, details: Vec::new(), ids: None, platform },
                            RestoreAction::Finish(result),
                        );
                    },
                };
                push_note(&mut details, note);
                let current = match &ids {
                    Some(i) => i.copy(),
                    None => unreached(),
                };
                (RestoreRun { stage: RestoreStage::WriteStorage, success, details, ids, platform }, RestoreAction::WriteStorage(current))
            },
            RestoreEvent::StorageWritten(w) => {
                let note = match w {
                    Ok(_) => String::from_str("Successfully updated storage.json"),
                    Err(e) => {
                        success = false;
                        concat_str("Failed to update storage file: ", e.as_str())
                    },
                };
                push_note(&mut details, note);
                let current = match &ids {
                    Some(i) => i.copy(),
                    None => unreached(),
                };
                match self.update_sqlite_db(&current) {
                    Ok(notes) => extend_notes(&mut details, notes),
                    Err(_) => {},
                }
                (
                    RestoreRun { stage: RestoreStage::WriteMachineIdFile, success, details, ids, platform },
                    RestoreAction::WriteMachineIdFile(current.dev_device_id),
                )
            },
            RestoreEvent::MachineIdFileWritten(w) => {
                let note = match w {
                    Ok(_) => String::from_str("Successfully updated machine ID file"),
                    Err(e) => concat_str("Warning: Failed to update machine ID file: ", e.as_str()),
                };
                push_note(&mut details, note);
                let current = match &ids {
                    Some(i) => i.copy(),
                    None => unreached(),
                };
                let writes = system_id_writes(&platform, &current);
                if writes.len() == 0 {
                    let none: Vec<(SystemIdKind, SystemIdOutcome)> = Vec::new();
                    self.finish_restore(platform, success, details, &none)
                } else {
                    (
                        RestoreRun { stage: RestoreStage::UpdateSystemIds, success, details, ids, platform },
                        RestoreAction::UpdateSystemIds(writes),
                    )
                }
            },
            RestoreEvent::SystemIdsUpdated(done) => self.finish_restore(platform, success, details, &done),
        }
    }

    fn finish_restore(
        &self,
        platform: Platform,
        success: bool,
        details: Vec<String>,
        done: &Vec<(SystemIdKind, SystemIdOutcome)>,
    ) -> (res: (RestoreRun, RestoreAction))
        ensures
            restore_finished(res, platform, success, views(details@), done@),
    {
        let mut details = details;
        match self.update_system_ids(&platform, done) {
            Ok(notes) => extend_notes(&mut details, notes),
            Err(_) => {},
        }
        let message = if success {
            String::from_str("Machine IDs restored successfully")
        } else {
            String::from_str("Machine ID restoration completed with some errors")
        };
        let result = RestoreResult { success, message, details };
        (RestoreRun { stage: RestoreStage::Finished, success, details: Vec::new(), ids: None, platform }, RestoreAction::Finish(result))
    }
}

} // verus!
