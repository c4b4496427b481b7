//! The answers the application's commands give its front end, decided from the outcome of
//! the work each command did.
use vstd::prelude::*;

use crate::account::{AccountInfo, AccountManager, concat_str};
use crate::deps::{json_error_text, json_parse, json_parsed};
use crate::deps::{path_join, path_joined};
use crate::text::{chars_of, contains, contains_spec, decimal, decimal_spec, string_of};

verus! {

/// A command's answer: whether it succeeded, and what to tell the user.
pub struct CommandReply {
    pub success: bool,
    pub message: String,
}

/// The greeting the front end shows for a name.
pub fn greet(name: &str) -> (res: String)
    ensures
        res@ == "Hello, "@ + name@ + "! You've been greeted from Rust!"@,
{
    concat_str("Hello, ", name).concat("! You've been greeted from Rust!")
}

/// The answer to adding an account, given the outcome: an account that already exists
/// counts as success, though the message reports the failure.
pub fn add_account_reply(email: &str, outcome: Result<(), String>) -> (res: CommandReply)
    ensures
        match outcome {
            Ok(_) => res.success && res.message@ == "Account "@ + email@ + " added successfully"@,
            Err(e) => res.success == contains_spec(e@, "Account with this email already exists"@) && res.message@
                == "Failed to add account: "@ + e@,
        },
{
    match outcome {
        Ok(_) => CommandReply { success: true, message: concat_str("Account ", email).concat(" added successfully") },
        Err(e) => {
            let exists = contains(&chars_of(e.as_str()), &chars_of("Account with this email already exists"));
            CommandReply { success: exists, message: concat_str("Failed to add account: ", e.as_str()) }
        },
    }
}

/// The answer to editing an account, given the outcome.
pub fn edit_account_reply(email: &str, outcome: Result<(), String>) -> (res: CommandReply)
    ensures
        match outcome {
            Ok(_) => res.success && res.message@ == "Account "@ + email@ + " updated successfully"@,
            Err(e) => !res.success && res.message@ == "Failed to update account: "@ + e@,
        },
{
    match outcome {
        Ok(_) => CommandReply { success: true, message: concat_str("Account ", email).concat(" updated successfully") },
        Err(e) => CommandReply { success: false, message: concat_str("Failed to update account: ", e.as_str()) },
    }
}

/// The answer to removing an account, given the outcome.
pub fn remove_account_reply(email: &str, outcome: Result<(), String>) -> (res: CommandReply)
    ensures
        match outcome {
            Ok(_) => res.success && res.message@ == "Account "@ + email@ + " removed successfully"@,
            Err(e) => !res.success && res.message@ == "Failed to remove account: "@ + e@,
        },
{
    match outcome {
        Ok(_) => CommandReply { success: true, message: concat_str("Account ", email).concat(" removed successfully") },
        Err(e) => CommandReply { success: false, message: concat_str("Failed to remove account: ", e.as_str()) },
    }
}

/// The answer to exporting the accounts, given where the file went or why it did not.
pub fn export_accounts_reply(outcome: Result<String, String>) -> (res: CommandReply)
    ensures
        match outcome {
            Ok(p) => res.success && res.message@ == "账户导出成功: "@ + p@,
            Err(e) => !res.success && res.message@ == "导出失败: "@ + e@,
        },
{
    match outcome {
        Ok(p) => CommandReply { success: true, message: concat_str("账户导出成功: ", p.as_str()) },
        Err(e) => CommandReply { success: false, message: concat_str("导出失败: ", e.as_str()) },
    }
}

/// The answer to importing accounts, given the import's message or why it failed.
pub fn import_accounts_reply(outcome: Result<String, String>) -> (res: CommandReply)
    ensures
        match outcome {
            Ok(m) => res.success && res.message@ == m@,
            Err(e) => !res.success && res.message@ == "导入失败: "@ + e@,
        },
{
    match outcome {
        Ok(m) => CommandReply { success: true, message: m },
        Err(e) => CommandReply { success: false, message: concat_str("导入失败: ", e.as_str()) },
    }
}

/// The answer to deleting a backup file, given the outcome.
pub fn delete_backup_reply(outcome: Result<(), String>) -> (res: CommandReply)
    ensures
        match outcome {
            Ok(_) => res.success && res.message@ == "备份文件删除成功"@,
            Err(e) => !res.success && res.message@ == "删除失败: "@ + e@,
        },
{
    match outcome {
        Ok(_) => CommandReply { success: true, message: String::from_str("备份文件删除成功") },
        Err(e) => CommandReply { success: false, message: concat_str("删除失败: ", e.as_str()) },
    }
}

/// A configuration text (bank cards, mailboxes) is saved only when it is JSON.
pub fn check_config_json(config: &str) -> (res: Result<(), String>)
    ensures
        res is Ok <==> json_parsed(config@) is Some,
        res matches Err(e) ==> exists|t: Seq<char>| e@ == "Invalid JSON format: "@ + t,
{
    match json_parse(config) {
        Ok(_) => Ok(()),
        Err(e) => {
            let reason = json_error_text(&e);
            let msg = concat_str("Invalid JSON format: ", reason.as_str());
            assert(msg@ == "Invalid JSON format: "@ + reason@);
            Err(msg)
        },
    }
}

impl AccountManager {
    /// Where the accounts are exported to: `account.json` in the chosen directory.
    pub fn export_file_path(export_dir: &str) -> (res: String)
        ensures
            res@ == path_joined(export_dir@, "account.json"@),
    {
        path_join(export_dir, "account.json")
    }

    /// Checks an account file to import, given how it parsed: a file that does not parse as
    /// a list of accounts is refused; otherwise the message names how many it holds.
    pub fn import_accounts(parsed: Result<Vec<AccountInfo>, String>) -> (res: Result<String, String>)
        ensures
            match parsed {
                Ok(list) => res matches Ok(m) && m@ == "Successfully imported "@ + decimal_spec(list@.len())
                    + " accounts"@,
                Err(e) => res matches Err(m) && m@ == "Invalid account file format: "@ + e@,
            },
    {
        match parsed {
            Ok(list) => Ok(concat_str("Successfully imported ", string_of(&decimal(list.len())).as_str()).concat(" accounts")),
            Err(e) => Err(concat_str("Invalid account file format: ", e.as_str())),
        }
    }

    /// The session token of the signed-in user, as the token detection found it.
    pub fn get_current_token(detected: Option<String>) -> (res: Option<String>)
        ensures
            res == detected,
    {
        detected
    }
}

} // verus!
