use auto_cursor::account::AccountInfo;
use auto_cursor::session::{
    logout_current_account, session_step, switch_account, switch_account_with_token, ScriptFailure, SessionAction,
    SessionEvent,
};

fn account(email: &str, token: &str) -> AccountInfo {
    AccountInfo {
        email: email.to_string(),
        token: token.to_string(),
        refresh_token: None,
        workos_cursor_session_token: None,
        is_current: false,
        created_at: String::new(),
    }
}

fn label(a: &SessionAction) -> String {
    match a {
        SessionAction::CheckCursorRunning => "check".to_string(),
        SessionAction::CloseCursor => "close".to_string(),
        SessionAction::Wait(ms) => format!("wait {}", ms),
        SessionAction::InjectEmail(e) => format!("email {}", e),
        SessionAction::InjectToken(t, a) => format!("token {} {}", t, a),
        SessionAction::UpdateStorage(e, t) => format!("storage {} {}", e, t),
        SessionAction::InjectEmailScript(e) => format!("script {}", e),
        SessionAction::ClearSqlite => "clear sqlite".to_string(),
        SessionAction::ClearStorage => "clear storage".to_string(),
        SessionAction::FinishSwitch(_) => "finish switch".to_string(),
        SessionAction::FinishLogout(_) => "finish logout".to_string(),
    }
}

#[test]
fn switch_to_saved_account_closes_cursor_first() {
    let (run, action) = switch_account("b@x.com".to_string(), Ok(vec![account("a@x.com", "ta"), account("b@x.com", "tb")]));
    let mut steps = vec![label(&action)];
    let (run, action) = session_step(run, SessionEvent::CursorRunning(true));
    steps.push(label(&action));
    let (run, action) = session_step(run, SessionEvent::CursorClosed(Ok(())));
    steps.push(label(&action));
    let (run, action) = session_step(run, SessionEvent::EmailInjected(Ok(())));
    steps.push(label(&action));
    let (run, action) = session_step(run, SessionEvent::TokenInjected(Ok(())));
    steps.push(label(&action));
    let (run, action) = session_step(run, SessionEvent::StorageUpdated(Err("locked".to_string())));
    steps.push(label(&action));
    let (run, action) = session_step(run, SessionEvent::ScriptInjected(Err(ScriptFailure::Inject("nope".to_string()))));
    steps.push(label(&action));
    let (_, action) = session_step(run, SessionEvent::Waited);
    assert_eq!(steps, vec!["check", "close", "email b@x.com", "token tb Auth_0", "storage b@x.com tb", "script b@x.com", "wait 500"]);
    match action {
        SessionAction::FinishSwitch(r) => {
            assert!(r.success);
            assert_eq!(r.message, "Successfully switched to account: b@x.com");
            assert_eq!(r.details, vec![
                "Switching to account: b@x.com",
                "Successfully closed Cursor processes",
                "Successfully injected email to SQLite database",
                "Successfully injected token to SQLite database",
                "Warning: Failed to update storage.json: locked",
                "Warning: Failed to inject email update script: nope",
                "Waited for database updates to complete",
            ]);
        }
        _ => panic!("finish expected"),
    }
}

#[test]
fn switch_to_unknown_or_unloadable_account() {
    let (_, action) = switch_account("z@x.com".to_string(), Ok(vec![account("a@x.com", "ta")]));
    match action {
        SessionAction::FinishSwitch(r) => {
            assert!(!r.success);
            assert_eq!(r.message, "Account not found");
            assert_eq!(r.details, vec!["No account found with email: z@x.com"]);
        }
        _ => panic!("finish expected"),
    }
    let (_, action) = switch_account("a@x.com".to_string(), Err("bad file".to_string()));
    match action {
        SessionAction::FinishSwitch(r) => {
            assert_eq!(r.message, "Failed to load accounts: bad file");
            assert_eq!(r.details, vec!["bad file"]);
        }
        _ => panic!("finish expected"),
    }
}

#[test]
fn failed_token_write_ends_the_switch() {
    let (run, action) = switch_account_with_token("a@x.com".to_string(), "tok".to_string(), Some("Google".to_string()));
    assert_eq!(label(&action), "email a@x.com");
    let (run, action) = session_step(run, SessionEvent::EmailInjected(Err("no db".to_string())));
    assert_eq!(label(&action), "token tok Google");
    let (_, action) = session_step(run, SessionEvent::TokenInjected(Err("SQLite database not found".to_string())));
    match action {
        SessionAction::FinishSwitch(r) => {
            assert!(!r.success);
            assert_eq!(r.message, "Failed to inject token: SQLite database not found");
            assert_eq!(r.details, vec!["Switching to account: a@x.com (auth type: Google)", "Warning: Failed to inject email to SQLite: no db"]);
        }
        _ => panic!("finish expected"),
    }
}

#[test]
fn switch_with_token_defaults_auth_type() {
    let (run, _) = switch_account_with_token("a@x.com".to_string(), "tok".to_string(), None);
    let (run, _) = session_step(run, SessionEvent::EmailInjected(Ok(())));
    let (run, action) = session_step(run, SessionEvent::TokenInjected(Ok(())));
    assert_eq!(label(&action), "storage a@x.com tok");
    let (run, action) = session_step(run, SessionEvent::StorageUpdated(Ok(())));
    assert_eq!(label(&action), "wait 500");
    let (_, action) = session_step(run, SessionEvent::Waited);
    match action {
        SessionAction::FinishSwitch(r) => {
            assert!(r.success);
            assert_eq!(r.details[0], "Switching to account: a@x.com (auth type: Auth_0)");
            assert_eq!(r.details[2], "Successfully injected token and auth type to SQLite database");
        }
        _ => panic!("finish expected"),
    }
}

#[test]
fn logout_clears_and_reports() {
    let (run, action) = logout_current_account();
    assert_eq!(label(&action), "check");
    let (run, action) = session_step(run, SessionEvent::CursorRunning(true));
    assert_eq!(label(&action), "close");
    let (run, action) = session_step(run, SessionEvent::CursorClosed(Ok(())));
    assert_eq!(label(&action), "wait 1000");
    let (run, action) = session_step(run, SessionEvent::Waited);
    assert_eq!(label(&action), "clear sqlite");
    let (run, action) = session_step(run, SessionEvent::SqliteCleared(Err("locked".to_string())));
    assert_eq!(label(&action), "clear storage");
    let (run, action) = session_step(run, SessionEvent::StorageCleared(Ok(())));
    assert_eq!(label(&action), "wait 500");
    let (_, action) = session_step(run, SessionEvent::Waited);
    match action {
        SessionAction::FinishLogout(r) => {
            assert!(!r.success);
            assert_eq!(r.message, "Logout completed with some warnings. Please restart Cursor.");
            assert_eq!(r.details, vec![
                "Cursor is running, attempting to close...",
                "Successfully closed Cursor",
                "Failed to clear SQLite data: locked",
                "Successfully cleared storage.json authentication data",
            ]);
        }
        _ => panic!("finish expected"),
    }
}

#[test]
fn logout_when_cursor_is_not_running() {
    let (run, _) = logout_current_account();
    let (run, action) = session_step(run, SessionEvent::CursorRunning(false));
    assert_eq!(label(&action), "clear sqlite");
    let (run, _) = session_step(run, SessionEvent::SqliteCleared(Ok(())));
    let (run, _) = session_step(run, SessionEvent::StorageCleared(Err("gone".to_string())));
    let (_, action) = session_step(run, SessionEvent::Waited);
    match action {
        SessionAction::FinishLogout(r) => {
            assert!(r.success);
            assert_eq!(r.message, "Successfully logged out. Please restart Cursor to complete the logout process.");
            assert_eq!(r.details[2], "Warning: Failed to clear storage.json: gone");
        }
        _ => panic!("finish expected"),
    }
}
