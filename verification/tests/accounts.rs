use auto_cursor::account::{AccountError, AccountInfo, AccountManager};
use auto_cursor::commands::{
    add_account_reply, delete_backup_reply, edit_account_reply, export_accounts_reply, greet,
    import_accounts_reply, remove_account_reply, check_config_json,
};

fn account(email: &str, token: &str) -> AccountInfo {
    AccountInfo {
        email: email.to_string(),
        token: token.to_string(),
        refresh_token: None,
        workos_cursor_session_token: None,
        is_current: false,
        created_at: "2024-01-01 00:00:00".to_string(),
    }
}

fn emails(list: &[AccountInfo]) -> Vec<String> {
    list.iter().map(|a| a.email.clone()).collect()
}

#[test]
fn add_account_appends_new_email() {
    let mut list = vec![account("a@x.com", "t1")];
    let r = AccountManager::add_account(&mut list, "b@x.com".to_string(), "t2".to_string(), Some("r".to_string()), None);
    assert!(r.is_ok());
    assert_eq!(emails(&list), vec!["a@x.com", "b@x.com"]);
    assert_eq!(list[1].token, "t2");
    assert_eq!(list[1].refresh_token, Some("r".to_string()));
    assert!(!list[1].is_current);
    assert_eq!(list[1].created_at.len(), "2024-01-01 00:00:00".len());
}

#[test]
fn add_account_refuses_duplicate() {
    let mut list = vec![account("a@x.com", "t1")];
    let r = AccountManager::add_account(&mut list, "a@x.com".to_string(), "t2".to_string(), None, None);
    assert!(matches!(r, Err(AccountError::AlreadyExists)));
    assert_eq!(list.len(), 1);
    assert_eq!(list[0].token, "t1");
    assert_eq!(AccountError::AlreadyExists.message(), "Account with this email already exists");
}

#[test]
fn add_then_remove_restores_list() {
    let mut list = vec![account("a@x.com", "t1"), account("c@x.com", "t3")];
    AccountManager::add_account(&mut list, "b@x.com".to_string(), "t2".to_string(), None, None).unwrap();
    AccountManager::remove_account(&mut list, "b@x.com".to_string()).unwrap();
    assert_eq!(emails(&list), vec!["a@x.com", "c@x.com"]);
}

#[test]
fn remove_unknown_account_fails() {
    let mut list = vec![account("a@x.com", "t1")];
    let r = AccountManager::remove_account(&mut list, "z@x.com".to_string());
    assert!(matches!(r, Err(AccountError::NotFound)));
    assert_eq!(AccountError::NotFound.message(), "Account not found");
    assert_eq!(list.len(), 1);
}

#[test]
fn edit_account_replaces_given_fields() {
    let mut list = vec![account("a@x.com", "t1"), account("b@x.com", "t2")];
    let r = AccountManager::edit_account(&mut list, "b@x.com".to_string(), Some("new".to_string()), None, Some("w".to_string()));
    assert!(matches!(r, Ok(true)));
    assert_eq!(list[1].token, "new");
    assert_eq!(list[1].refresh_token, None);
    assert_eq!(list[1].workos_cursor_session_token, Some("w".to_string()));
    assert_eq!(list[0].token, "t1");
    assert_eq!(emails(&list), vec!["a@x.com", "b@x.com"]);
}

#[test]
fn edit_account_without_changes_reports_nothing_done() {
    let mut list = vec![account("a@x.com", "t1")];
    let r = AccountManager::edit_account(&mut list, "a@x.com".to_string(), None, None, None);
    assert!(matches!(r, Ok(false)));
    let r = AccountManager::edit_account(&mut list, "q@x.com".to_string(), Some("t".to_string()), None, None);
    assert!(matches!(r, Err(AccountError::NotFound)));
}

#[test]
fn account_list_marks_signed_in_account() {
    let list = vec![account("a@x.com", "t1"), account("b@x.com", "t2")];
    let current = AccountManager::get_current_account(Some("b@x.com".to_string()), Some("t2".to_string()));
    let (result, to_save) = AccountManager::get_account_list(Ok(list), current);
    assert!(result.success);
    assert_eq!(result.message, "Account list loaded successfully");
    assert!(!result.accounts[0].is_current);
    assert!(result.accounts[1].is_current);
    assert!(to_save.is_none());
    assert_eq!(result.current_account.unwrap().email, "b@x.com");
}

#[test]
fn account_list_adds_missing_signed_in_account() {
    let list = vec![account("a@x.com", "t1")];
    let current = AccountManager::get_current_account(Some("n@x.com".to_string()), Some("tn".to_string()));
    let (result, to_save) = AccountManager::get_account_list(Ok(list), current);
    assert_eq!(emails(&result.accounts), vec!["a@x.com", "n@x.com"]);
    assert!(result.accounts[1].is_current);
    let saved = to_save.unwrap();
    assert_eq!(emails(&saved), vec!["a@x.com", "n@x.com"]);
}

#[test]
fn account_list_reports_load_failure() {
    let (result, to_save) = AccountManager::get_account_list(Err("disk gone".to_string()), None);
    assert!(!result.success);
    assert!(result.accounts.is_empty());
    assert_eq!(result.message, "Failed to load accounts: disk gone");
    assert!(to_save.is_none());
}

#[test]
fn current_account_needs_email_and_token() {
    assert!(AccountManager::get_current_account(Some("a@x.com".to_string()), None).is_none());
    assert!(AccountManager::get_current_account(None, Some("t".to_string())).is_none());
    let a = AccountManager::get_current_account(Some("a@x.com".to_string()), Some("t".to_string())).unwrap();
    assert!(a.is_current);
    assert_eq!(a.token, "t");
}

#[test]
fn current_email_prefers_storage() {
    assert_eq!(AccountManager::get_current_email(Some("s@x.com".to_string()), Some("q@x.com".to_string())), Some("s@x.com".to_string()));
    assert_eq!(AccountManager::get_current_email(None, Some("q@x.com".to_string())), Some("q@x.com".to_string()));
    assert_eq!(AccountManager::get_current_email(None, None), None);
}

#[test]
fn current_token_is_the_detected_one() {
    assert_eq!(AccountManager::get_current_token(Some("tok".to_string())), Some("tok".to_string()));
    assert_eq!(AccountManager::get_current_token(None), None);
}

#[test]
fn add_account_reply_treats_duplicate_as_success() {
    let r = add_account_reply("a@x.com", Ok(()));
    assert!(r.success);
    assert_eq!(r.message, "Account a@x.com added successfully");
    let r = add_account_reply("a@x.com", Err("Account with this email already exists".to_string()));
    assert!(r.success);
    assert_eq!(r.message, "Failed to add account: Account with this email already exists");
    let r = add_account_reply("a@x.com", Err("disk full".to_string()));
    assert!(!r.success);
    assert_eq!(r.message, "Failed to add account: disk full");
}

#[test]
fn edit_and_remove_replies() {
    let r = edit_account_reply("a@x.com", Ok(()));
    assert!(r.success && r.message == "Account a@x.com updated successfully");
    let r = edit_account_reply("a@x.com", Err("Account not found".to_string()));
    assert!(!r.success && r.message == "Failed to update account: Account not found");
    let r = remove_account_reply("a@x.com", Ok(()));
    assert!(r.success && r.message == "Account a@x.com removed successfully");
    let r = remove_account_reply("a@x.com", Err("x".to_string()));
    assert!(!r.success && r.message == "Failed to remove account: x");
}

#[test]
fn export_import_and_delete_replies() {
    let r = export_accounts_reply(Ok("/tmp/account.json".to_string()));
    assert!(r.success && r.message == "账户导出成功: /tmp/account.json");
    let r = export_accounts_reply(Err("Account file does not exist".to_string()));
    assert!(!r.success && r.message == "导出失败: Account file does not exist");
    let r = import_accounts_reply(Ok("Successfully imported 2 accounts".to_string()));
    assert!(r.success && r.message == "Successfully imported 2 accounts");
    let r = import_accounts_reply(Err("bad".to_string()));
    assert!(!r.success && r.message == "导入失败: bad");
    let r = delete_backup_reply(Ok(()));
    assert!(r.success && r.message == "备份文件删除成功");
    let r = delete_backup_reply(Err("gone".to_string()));
    assert!(!r.success && r.message == "删除失败: gone");
}

#[test]
fn import_counts_accounts() {
    let r = AccountManager::import_accounts(Ok(vec![account("a@x.com", "t"), account("b@x.com", "u")]));
    assert_eq!(r, Ok("Successfully imported 2 accounts".to_string()));
    let r = AccountManager::import_accounts(Err("expected value".to_string()));
    assert_eq!(r, Err("Invalid account file format: expected value".to_string()));
    assert_eq!(AccountManager::export_file_path("/tmp/out"), "/tmp/out/account.json");
}

#[test]
fn greeting_and_config_check() {
    assert_eq!(greet("Ann"), "Hello, Ann! You've been greeted from Rust!");
    assert!(check_config_json("{\"cards\": []}").is_ok());
    let e = check_config_json("{not json").unwrap_err();
    assert!(e.starts_with("Invalid JSON format: "));
}
