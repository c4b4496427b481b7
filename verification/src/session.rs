//! Switching Cursor to a saved account, or to a given token, and signing it out. The
//! library decides each step and what is reported; the caller closes Cursor, writes the
//! SQLite rows and storage.json, injects the email script, waits, and reports back.
use vstd::prelude::*;

use crate::account::{
    AccountInfo, LogoutResult, SwitchAccountResult, concat_str, first_with_email, lemma_first_with_email,
    position_of_email,
};
use crate::text::{push_note, views};

verus! {

/// Which operation a session change performs.
#[derive(PartialEq, Eq, Structural)]
pub enum SessionKind {
    /// Switching to a saved account (closing Cursor and updating its UI as well).
    Switch,
    /// Switching to a given email and token with a sign-up type.
    SwitchWithToken,
    /// Signing out.
    Logout,
}

/// Where a session change stands.
#[derive(PartialEq, Eq, Structural)]
pub enum SessionStage {
    CheckRunning,
    CloseCursor,
    WaitAfterClose,
    InjectEmail,
    InjectToken,
    UpdateStorage,
    InjectScript,
    ClearSqlite,
    ClearStorage,
    Wait,
    Finished,
}

/// A session change in progress.
pub struct SessionRun {
    pub kind: SessionKind,
    pub email: String,
    pub token: String,
    pub auth_type: String,
    pub success: bool,
    pub details: Vec<String>,
    pub stage: SessionStage,
}

/// Why the email script could not be injected.
pub enum ScriptFailure {
    /// The updater could not be set up.
    Setup(String),
    /// Setting it up worked; injecting failed.
    Inject(String),
}

/// What the caller is asked to do next.
pub enum SessionAction {
    CheckCursorRunning,
    CloseCursor,
    /// Wait this many milliseconds.
    Wait(u64),
    /// Write the email rows into the SQLite store.
    InjectEmail(String),
    /// Write the token rows, with this sign-up type, into the SQLite store.
    InjectToken(String, String),
    /// Write the email and token into storage.json.
    UpdateStorage(String, String),
    /// Inject the script that shows this email in Cursor's UI.
    InjectEmailScript(String),
    /// Delete the sign-in rows from the SQLite store.
    ClearSqlite,
    /// Remove the sign-in members from storage.json.
    ClearStorage,
    FinishSwitch(SwitchAccountResult),
    FinishLogout(LogoutResult),
}

/// What the caller reports.
pub enum SessionEvent {
    CursorRunning(bool),
    CursorClosed(Result<(), String>),
    Waited,
    EmailInjected(Result<(), String>),
    TokenInjected(Result<(), String>),
    StorageUpdated(Result<(), String>),
    ScriptInjected(Result<(), ScriptFailure>),
    SqliteCleared(Result<(), String>),
    StorageCleared(Result<(), String>),
}

/// The event answers the action of the stage.
pub open spec fn session_event_fits(stage: SessionStage, event: SessionEvent) -> bool {
    match event {
        SessionEvent::CursorRunning(_) => stage == SessionStage::CheckRunning,
        SessionEvent::CursorClosed(_) => stage == SessionStage::CloseCursor,
        SessionEvent::Waited => stage == SessionStage::WaitAfterClose || stage == SessionStage::Wait,
        SessionEvent::EmailInjected(_) => stage == SessionStage::InjectEmail,
        SessionEvent::TokenInjected(_) => stage == SessionStage::InjectToken,
        SessionEvent::StorageUpdated(_) => stage == SessionStage::UpdateStorage,
        SessionEvent::ScriptInjected(_) => stage == SessionStage::InjectScript,
        SessionEvent::SqliteCleared(_) => stage == SessionStage::ClearSqlite,
        SessionEvent::StorageCleared(_) => stage == SessionStage::ClearStorage,
    }
}

/// The stages each kind of change goes through.
pub open spec fn stage_belongs(kind: SessionKind, stage: SessionStage) -> bool {
    match kind {
        SessionKind::Switch => !(stage == SessionStage::WaitAfterClose || stage == SessionStage::ClearSqlite
            || stage == SessionStage::ClearStorage),
        SessionKind::SwitchWithToken => stage == SessionStage::InjectEmail || stage == SessionStage::InjectToken
            || stage == SessionStage::UpdateStorage || stage == SessionStage::Wait || stage
            == SessionStage::Finished,
        SessionKind::Logout => stage == SessionStage::CheckRunning || stage == SessionStage::CloseCursor || stage
            == SessionStage::WaitAfterClose || stage == SessionStage::ClearSqlite || stage
            == SessionStage::ClearStorage || stage == SessionStage::Wait || stage == SessionStage::Finished,
    }
}

/// The final message of a sign-out.
pub open spec fn logout_message(success: bool) -> Seq<char> {
    if success {
        "Successfully logged out. Please restart Cursor to complete the logout process."@
    } else {
        "Logout completed with some warnings. Please restart Cursor."@
    }
}

/// The run carries on in `stage`, keeping everything but the details, which gain `note`
/// when there is one.
pub open spec fn carries_on(run: SessionRun, next: SessionRun, stage: SessionStage, note: Option<Seq<char>>) -> bool {
    &&& next.kind == run.kind
    &&& next.email@ == run.email@
    &&& next.token@ == run.token@
    &&& next.auth_type@ == run.auth_type@
    &&& next.success == run.success
    &&& next.stage == stage
    &&& views(next.details@) == match note {
        Some(n) => views(run.details@).push(n),
        None => views(run.details@),
    }
}

fn go_on(run: SessionRun, stage: SessionStage, note: Option<String>) -> (res: SessionRun)
    ensures
        carries_on(
            run,
            res,
            stage,
            match note {
                Some(n) => Some(n@),
                None => None,
            },
        ),
{
    let SessionRun { kind, email, token, auth_type, success, details, stage: _ } = run;
    let mut details = details;
    match note {
        Some(n) => push_note(&mut details, n),
        None => {},
    }
    SessionRun { kind, email, token, auth_type, success, details, stage }
}

fn finished_switch(run: SessionRun, success: bool, message: String) -> (res: (SessionRun, SessionAction))
    ensures
        res.0.stage == SessionStage::Finished,
        res.0.kind == run.kind,
        res.1 matches SessionAction::FinishSwitch(r) && r.success == success && r.message == message && views(
            r.details@,
        ) == views(run.details@),
{
    let SessionRun { kind, email, token, auth_type, success: _, details, stage: _ } = run;
    let result = SwitchAccountResult { success, message, details };
    (
        SessionRun { kind, email, token, auth_type, success, details: Vec::new(), stage: SessionStage::Finished },
        SessionAction::FinishSwitch(result),
    )
}

/// Starts switching to the saved account with `email`, given the saved accounts (or why
/// they could not be loaded).
///
/// Unloadable accounts end the switch with `Failed to load accounts: <reason>`; an unknown
/// email with `Account not found`. Otherwise the switch notes its target and asks whether
/// Cursor is running.
pub fn switch_account(email: String, accounts: Result<Vec<AccountInfo>, String>) -> (res: (SessionRun, SessionAction))
    ensures
        match accounts {
            Err(e) => res.0.stage == SessionStage::Finished && (res.1 matches SessionAction::FinishSwitch(r)
                && !r.success && r.message@ == "Failed to load accounts: "@ + e@ && views(r.details@) == seq![e@]),
            Ok(list) => match first_with_email(list@, email@, 0) {
                None => res.0.stage == SessionStage::Finished && (res.1 matches SessionAction::FinishSwitch(r)
                    && !r.success && r.message@ == "Account not found"@ && views(r.details@) == seq![
                    "No account found with email: "@ + email@,
                ]),
                Some(i) => {
                    &&& res.0.kind == SessionKind::Switch
                    &&& res.0.email@ == list@[i].email@
                    &&& res.0.token@ == list@[i].token@
                    &&& res.0.auth_type@ == "Auth_0"@
                    &&& res.0.success
                    &&& res.0.stage == SessionStage::CheckRunning
                    &&& views(res.0.details@) == seq!["Switching to account: "@ + email@]
                    &&& res.1 is CheckCursorRunning
                },
            },
        },
{
    let list = match accounts {
        Err(e) => {
            let message = concat_str("Failed to load accounts: ", e.as_str());
            let mut details: Vec<String> = Vec::new();
            push_note(&mut details, e);
            assert(views(details@) =~= seq![views(details@)[0]]);
            let result = SwitchAccountResult { success: false, message, details };
            let run = SessionRun {
                kind: SessionKind::Switch,
                email,
                token: String::new(),
                auth_type: String::new(),
                success: false,
                details: Vec::new(),
                stage: SessionStage::Finished,
            };
            return (run, SessionAction::FinishSwitch(result));
        },
        Ok(list) => list,
    };
    match position_of_email(&list, &email) {
        None => {
            let mut details: Vec<String> = Vec::new();
            push_note(&mut details, concat_str("No account found with email: ", email.as_str()));
            assert(views(details@) =~= seq!["No account found with email: "@ + email@]);
            let result = SwitchAccountResult { success: false, message: String::from_str("Account not found"), details };
            let run = SessionRun {
                kind: SessionKind::Switch,
                email,
                token: String::new(),
                auth_type: String::new(),
                success: false,
                details: Vec::new(),
                stage: SessionStage::Finished,
            };
            (run, SessionAction::FinishSwitch(result))
        },
        Some(i) => {
            proof {
                lemma_first_with_email(list@, email@, 0);
            }
            let mut details: Vec<String> = Vec::new();
            push_note(&mut details, concat_str("Switching to account: ", email.as_str()));
            assert(views(details@) =~= seq!["Switching to account: "@ + email@]);
            let run = SessionRun {
                kind: SessionKind::Switch,
                email: list[i].email.clone(),
                token: list[i].token.clone(),
                auth_type: String::from_str("Auth_0"),
                success: true,
                details,
                stage: SessionStage::CheckRunning,
            };
            (run, SessionAction::CheckCursorRunning)
        },
    }
}

/// Starts switching to `email` with `token`; the sign-up type is `Auth_0` unless given.
/// The switch notes its target and asks for the email rows to be written.
pub fn switch_account_with_token(email: String, token: String, auth_type: Option<String>) -> (res: (SessionRun, SessionAction))
    ensures
        ({
            let auth = match auth_type {
                Some(a) => a@,
                None => "Auth_0"@,
            };
            &&& res.0.kind == SessionKind::SwitchWithToken
            &&& res.0.email@ == email@
            &&& res.0.token@ == token@
            &&& res.0.auth_type@ == auth
            &&& res.0.success
            &&& res.0.stage == SessionStage::InjectEmail
            &&& views(res.0.details@) == seq!["Switching to account: "@ + email@ + " (auth type: "@ + auth + ")"@]
            &&& res.1 matches SessionAction::InjectEmail(e) && e@ == email@
        }),
{
    let auth_type = match auth_type {
        Some(a) => a,
        None => String::from_str("Auth_0"),
    };
    let note = concat_str("Switching to account: ", email.as_str()).concat(" (auth type: ").concat(auth_type.as_str()).concat(
        ")",
    );
    let mut details: Vec<String> = Vec::new();
    push_note(&mut details, note);
    assert(views(details@) =~= seq![views(details@)[0]]);
    let target = email.clone();
    (
        SessionRun {
            kind: SessionKind::SwitchWithToken,
            email,
            token,
            auth_type,
            success: true,
            details,
            stage: SessionStage::InjectEmail,
        },
        SessionAction::InjectEmail(target),
    )
}

/// Starts signing out: asks whether Cursor is running.
pub fn logout_current_account() -> (res: (SessionRun, SessionAction))
    ensures
        res.0.kind == SessionKind::Logout,
        res.0.success,
        res.0.stage == SessionStage::CheckRunning,
        res.0.details@.len() == 0,
        res.1 is CheckCursorRunning,
{
    (
        SessionRun {
            kind: SessionKind::Logout,
            email: String::new(),
            token: String::new(),
            auth_type: String::new(),
            success: true,
            details: Vec::new(),
            stage: SessionStage::CheckRunning,
        },
        SessionAction::CheckCursorRunning,
    )
}

/// Takes the next step of a session change, given what the caller reports.
///
/// A switch to a saved account closes Cursor when it runs, writes the email rows, the
/// token rows, storage.json and the email script, then waits half a second; a switch to a
/// given token writes the email rows, the token rows and storage.json, then waits. Only a
/// failed token write fails a switch, and it ends it at once. A sign-out closes Cursor
/// when it runs (waiting a second after closing it), deletes the SQLite rows and the
/// storage.json members, then waits half a second; only failing to delete the rows fails
/// it. Each outcome is noted in the details.
pub fn session_step(run: SessionRun, event: SessionEvent) -> (res: (SessionRun, SessionAction))
    requires
        session_event_fits(run.stage, event),
        stage_belongs(run.kind, run.stage),
    ensures
        res.0.kind == run.kind,
        stage_belongs(res.0.kind, res.0.stage),
        event matches SessionEvent::CursorRunning(true) ==> if run.kind == SessionKind::Switch {
            carries_on(run, res.0, SessionStage::CloseCursor, None) && res.1 is CloseCursor
        } else {
            carries_on(run, res.0, SessionStage::CloseCursor, Some("Cursor is running, attempting to close..."@))
                && res.1 is CloseCursor
        },
        event matches SessionEvent::CursorRunning(false) ==> if run.kind == SessionKind::Switch {
            carries_on(run, res.0, SessionStage::InjectEmail, Some("Cursor is not running"@)) && (res.1 matches SessionAction::InjectEmail(
                e,
            ) && e@ == run.email@)
        } else {
            carries_on(run, res.0, SessionStage::ClearSqlite, Some("Cursor is not running"@)) && res.1 is ClearSqlite
        },
        event matches SessionEvent::CursorClosed(c) ==> {
            let note = match c {
                Ok(_) => if run.kind == SessionKind::Switch {
                    "Successfully closed Cursor processes"@
                } else {
                    "Successfully closed Cursor"@
                },
                Err(e) => "Warning: Failed to close Cursor: "@ + e@,
            };
            if run.kind == SessionKind::Switch {
                carries_on(run, res.0, SessionStage::InjectEmail, Some(note)) && (res.1 matches SessionAction::InjectEmail(
                    e,
                ) && e@ == run.email@)
            } else if c is Ok {
                carries_on(run, res.0, SessionStage::WaitAfterClose, Some(note)) && (res.1 matches SessionAction::Wait(
                    ms,
                ) && ms == 1000)
            } else {
                carries_on(run, res.0, SessionStage::ClearSqlite, Some(note)) && res.1 is ClearSqlite
            }
        },
        (event is Waited && run.stage == SessionStage::WaitAfterClose) ==> carries_on(
            run,
            res.0,
            SessionStage::ClearSqlite,
            None,
        ) && res.1 is ClearSqlite,
        event matches SessionEvent::EmailInjected(r) ==> {
            let note = match r {
                Ok(_) => "Successfully injected email to SQLite database"@,
                Err(e) => "Warning: Failed to inject email to SQLite: "@ + e@,
            };
            carries_on(run, res.0, SessionStage::InjectToken, Some(note)) && (res.1 matches SessionAction::InjectToken(
                t,
                a,
            ) && t@ == run.token@ && a@ == run.auth_type@)
        },
        event matches SessionEvent::TokenInjected(r) ==> match r {
            Ok(_) => {
                let note = if run.kind == SessionKind::Switch {
                    "Successfully injected token to SQLite database"@
                } else {
                    "Successfully injected token and auth type to SQLite database"@
                };
                carries_on(run, res.0, SessionStage::UpdateStorage, Some(note)) && (res.1 matches SessionAction::UpdateStorage(
                    e,
                    t,
                ) && e@ == run.email@ && t@ == run.token@)
            },
            Err(e) => res.0.stage == SessionStage::Finished && (res.1 matches SessionAction::FinishSwitch(out)
                && !out.success && out.message@ == "Failed to inject token: "@ + e@ && views(out.details@) == views(
                run.details@,
            )),
        },
        event matches SessionEvent::StorageUpdated(r) ==> {
            let note = match r {
                Ok(_) => "Successfully updated storage.json"@,
                Err(e) => "Warning: Failed to update storage.json: "@ + e@,
            };
            if run.kind == SessionKind::Switch {
                carries_on(run, res.0, SessionStage::InjectScript, Some(note)) && (res.1 matches SessionAction::InjectEmailScript(
                    e,
                ) && e@ == run.email@)
            } else {
                carries_on(run, res.0, SessionStage::Wait, Some(note)) && (res.1 matches SessionAction::Wait(ms) && ms
                    == 500)
            }
        },
        event matches SessionEvent::ScriptInjected(r) ==> {
            let note = match r {
                Ok(_) => "Successfully injected email update script to Cursor UI"@,
                Err(ScriptFailure::Setup(e)) => "Warning: Failed to initialize email updater: "@ + e@,
                Err(ScriptFailure::Inject(e)) => "Warning: Failed to inject email update script: "@ + e@,
            };
            carries_on(run, res.0, SessionStage::Wait, Some(note)) && (res.1 matches SessionAction::Wait(ms) && ms
                == 500)
        },
        event matches SessionEvent::SqliteCleared(r) ==> {
            let note = match r {
                Ok(_) => "Successfully cleared SQLite authentication data"@,
                Err(e) => "Failed to clear SQLite data: "@ + e@,
            };
            &&& res.0.success == (run.success && r is Ok)
            &&& res.0.stage == SessionStage::ClearStorage
            &&& views(res.0.details@) == views(run.details@).push(note)
            &&& res.1 is ClearStorage
        },
        event matches SessionEvent::StorageCleared(r) ==> {
            let note = match r {
                Ok(_) => "Successfully cleared storage.json authentication data"@,
                Err(e) => "Warning: Failed to clear storage.json: "@ + e@,
            };
            carries_on(run, res.0, SessionStage::Wait, Some(note)) && (res.1 matches SessionAction::Wait(ms) && ms
                == 500)
        },
        (event is Waited && run.stage == SessionStage::Wait) ==> res.0.stage == SessionStage::Finished && if run.kind
            == SessionKind::Logout {
            res.1 matches SessionAction::FinishLogout(out) && out.success == run.success && out.message@ == logout_message(
                run.success,
            ) && views(out.details@) == views(run.details@)
        } else {
            res.1 matches SessionAction::FinishSwitch(out) && out.success && out.message@
                == "Successfully switched to account: "@ + run.email@ && views(out.details@) == views(
                run.details@,
            ).push("Waited for database updates to complete"@)
        },
{
    let is_switch = match run.kind {
        SessionKind::Switch => true,
        _ => false,
    };
    match event {
        SessionEvent::CursorRunning(running) => {
            if running {
                if is_switch {
                    (go_on(run, SessionStage::CloseCursor, None), SessionAction::CloseCursor)
                } else {
                    (
                        go_on(run, SessionStage::CloseCursor, Some(String::from_str("Cursor is running, attempting to close..."))),
                        SessionAction::CloseCursor,
                    )
                }
            } else if is_switch {
                let target = run.email.clone();
                (go_on(run, SessionStage::InjectEmail, Some(String::from_str("Cursor is not running"))), SessionAction::InjectEmail(target))
            } else {
                (go_on(run, SessionStage::ClearSqlite, Some(String::from_str("Cursor is not running"))), SessionAction::ClearSqlite)
            }
        },
        SessionEvent::CursorClosed(c) => {
            let closed = c.is_ok();
            let note = match c {
                Ok(_) => if is_switch {
                    String::from_str("Successfully closed Cursor processes")
                } else {
                    String::from_str("Successfully closed Cursor")
                },
                Err(e) => concat_str("Warning: Failed to close Cursor: ", e.as_str()),
            };
            if is_switch {
                let target = run.email.clone();
                (go_on(run, SessionStage::InjectEmail, Some(note)), SessionAction::InjectEmail(target))
            } else if closed {
                (go_on(run, SessionStage::WaitAfterClose, Some(note)), SessionAction::Wait(1000))
            } else {
                (go_on(run, SessionStage::ClearSqlite, Some(note)), SessionAction::ClearSqlite)
            }
        },
        SessionEvent::Waited => {
            match run.stage {
                SessionStage::WaitAfterClose => (go_on(run, SessionStage::ClearSqlite, None), SessionAction::ClearSqlite),
                _ => {
                    if is_switch || run.kind == SessionKind::SwitchWithToken {
                        let message = concat_str("Successfully switched to account: ", run.email.as_str());
                        let run = go_on(run, SessionStage::Wait, Some(String::from_str("Waited for database updates to complete")));
                        finished_switch(run, true, message)
                    } else {
                        let SessionRun { kind, email, token, auth_type, success, details, stage: _ } = run;
                        let message = if success {
                            String::from_str("Successfully logged out. Please restart Cursor to complete the logout process.")
                        } else {
                            String::from_str("Logout completed with some warnings. Please restart Cursor.")
                        };
                        let result = LogoutResult { success, message, details };
                        (
                            SessionRun { kind, email, token, auth_type, success, details: Vec::new(), stage: SessionStage::Finished },
                            SessionAction::FinishLogout(result),
                        )
                    }
                },
            }
        },
        SessionEvent::EmailInjected(r) => {
            let note = match r {
                Ok(_) => String::from_str("Successfully injected email to SQLite database"),
                Err(e) => concat_str("Warning: Failed to inject email to SQLite: ", e.as_str()),
            };
            let token = run.token.clone();
            let auth = run.auth_type.clone();
            (go_on(run, SessionStage::InjectToken, Some(note)), SessionAction::InjectToken(token, auth))
        },
        SessionEvent::TokenInjected(r) => match r {
            Ok(_) => {
                let note = if is_switch {
                    String::from_str("Successfully injected token to SQLite database")
                } else {
                    String::from_str("Successfully injected token and auth type to SQLite database")
                };
                let email = run.email.clone();
                let token = run.token.clone();
                (go_on(run, SessionStage::UpdateStorage, Some(note)), SessionAction::UpdateStorage(email, token))
            },
            Err(e) => {
                let message = concat_str("Failed to inject token: ", e.as_str());
                finished_switch(run, false, message)
            },
        },
        SessionEvent::StorageUpdated(r) => {
            let note = match r {
                Ok(_) => String::from_str("Successfully updated storage.json"),
                Err(e) => concat_str("Warning: Failed to update storage.json: ", e.as_str()),
            };
            if is_switch {
                let email = run.email.clone();
                (go_on(run, SessionStage::InjectScript, Some(note)), SessionAction::InjectEmailScript(email))
            } else {
                (go_on(run, SessionStage::Wait, Some(note)), SessionAction::Wait(500))
            }
        },
        SessionEvent::ScriptInjected(r) => {
            let note = match r {
                Ok(_) => String::from_str("Successfully injected email update script to Cursor UI"),
                Err(ScriptFailure::Setup(e)) => concat_str("Warning: Failed to initialize email updater: ", e.as_str()),
                Err(ScriptFailure::Inject(e)) => concat_str("Warning: Failed to inject email update script: ", e.as_str()),
            };
            (go_on(run, SessionStage::Wait, Some(note)), SessionAction::Wait(500))
        },
        SessionEvent::SqliteCleared(r) => {
            let cleared = r.is_ok();
            let note = match r {
                Ok(_) => String::from_str("Successfully cleared SQLite authentication data"),
                Err(e) => concat_str("Failed to clear SQLite data: ", e.as_str()),
            };
            let SessionRun { kind, email, token, auth_type, success, details, stage: _ } = run;
            let mut details = details;
            push_note(&mut details, note);
            (
                SessionRun { kind, email, token, auth_type, success: success && cleared, details, stage: SessionStage::ClearStorage },
                SessionAction::ClearStorage,
            )
        },
        SessionEvent::StorageCleared(r) => {
            let note = match r {
                Ok(_) => String::from_str("Successfully cleared storage.json authentication data"),
                Err(e) => concat_str("Warning: Failed to clear storage.json: ", e.as_str()),
            };
            (go_on(run, SessionStage::Wait, Some(note)), SessionAction::Wait(500))
        },
    }
}

} // verus!
