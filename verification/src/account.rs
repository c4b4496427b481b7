//! The saved account list: adding, editing, removing, and marking the signed-in account.
use vstd::prelude::*;

use crate::deps::local_now_seconds_text;

verus! {

/// One saved Cursor account.
pub struct AccountInfo {
    pub email: String,
    pub token: String,
    pub refresh_token: Option<String>,
    pub workos_cursor_session_token: Option<String>,
    pub is_current: bool,
    pub created_at: String,
}

/// The account list together with the account that Cursor is signed in with.
pub struct AccountListResult {
    pub success: bool,
    pub accounts: Vec<AccountInfo>,
    pub current_account: Option<AccountInfo>,
    pub message: String,
}

/// The outcome of switching Cursor to another account.
pub struct SwitchAccountResult {
    pub success: bool,
    pub message: String,
    pub details: Vec<String>,
}

/// The outcome of signing Cursor out.
pub struct LogoutResult {
    pub success: bool,
    pub message: String,
    pub details: Vec<String>,
}

/// Operations on the saved account list.
pub struct AccountManager;

/// Why an operation on the account list was refused.
#[derive(Debug, PartialEq, Eq, Structural)]
pub enum AccountError {
    /// An account with the given email is already saved.
    AlreadyExists,
    /// No saved account has the given email.
    NotFound,
}

impl AccountError {
    /// The message the refusal is reported with.
    pub fn message(&self) -> (res: String)
        ensures
            res@ == account_error_text(*self),
    {
        match self {
            AccountError::AlreadyExists => String::from_str("Account with this email already exists"),
            AccountError::NotFound => String::from_str("Account not found"),
        }
    }
}

/// The text of each refusal.
pub open spec fn account_error_text(e: AccountError) -> Seq<char> {
    match e {
        AccountError::AlreadyExists => "Account with this email already exists"@,
        AccountError::NotFound => "Account not found"@,
    }
}

/// Some account in `accounts` has the email `email`.
pub open spec fn has_email(accounts: Seq<AccountInfo>, email: Seq<char>) -> bool {
    exists|i: int| 0 <= i < accounts.len() && (#[trigger] accounts[i]).email@ == email
}

/// No two accounts in `accounts` share an email.
pub open spec fn emails_unique(accounts: Seq<AccountInfo>) -> bool {
    forall|i: int, j: int|
        0 <= i < accounts.len() && 0 <= j < accounts.len() && i != j ==> (#[trigger] accounts[i]).email@
            != (#[trigger] accounts[j]).email@
}

/// The index of the first account at or after `k` whose email is `email`.
pub open spec fn first_with_email(accounts: Seq<AccountInfo>, email: Seq<char>, k: int) -> Option<int>
    decreases accounts.len() - k,
{
    if k < 0 || k >= accounts.len() {
        None
    } else if accounts[k].email@ == email {
        Some(k)
    } else {
        first_with_email(accounts, email, k + 1)
    }
}

/// What `first_with_email` returns is the first match.
pub proof fn lemma_first_with_email(accounts: Seq<AccountInfo>, email: Seq<char>, k: int)
    requires
        0 <= k,
    ensures
        first_with_email(accounts, email, k) matches Some(i) ==> k <= i < accounts.len()
            && accounts[i].email@ == email && forall|j: int|
            k <= j < i ==> accounts[j].email@ != email,
        first_with_email(accounts, email, k) is None ==> forall|j: int|
            k <= j < accounts.len() ==> accounts[j].email@ != email,
    decreases accounts.len() - k,
{
    if k < accounts.len() && accounts[k].email@ != email {
        lemma_first_with_email(accounts, email, k + 1);
    }
}

/// An account holds the email `email` exactly when a first such account exists.
pub proof fn lemma_has_email_first(accounts: Seq<AccountInfo>, email: Seq<char>)
    ensures
        has_email(accounts, email) <==> first_with_email(accounts, email, 0) is Some,
{
    lemma_first_with_email(accounts, email, 0);
    if has_email(accounts, email) {
        let i = choose|i: int| 0 <= i < accounts.len() && (#[trigger] accounts[i]).email@ == email;
        assert(accounts[i].email@ == email);
    }
}

/// A copy of an optional string.
pub fn copy_opt_string(s: &Option<String>) -> (res: Option<String>)
    ensures
        res == *s,
{
    match s {
        Some(t) => Some(t.clone()),
        None => None,
    }
}

impl AccountInfo {
    /// A field-by-field copy.
    pub fn copy(&self) -> (res: AccountInfo)
        ensures
            res == *self,
    {
        AccountInfo {
            email: self.email.clone(),
            token: self.token.clone(),
            refresh_token: copy_opt_string(&self.refresh_token),
            workos_cursor_session_token: copy_opt_string(&self.workos_cursor_session_token),
            is_current: self.is_current,
            created_at: self.created_at.clone(),
        }
    }
}

/// Whether some account in `accounts` has the email `email`.
pub fn contains_email(accounts: &Vec<AccountInfo>, email: &String) -> (res: bool)
    ensures
        res == has_email(accounts@, email@),
{
    let mut i: usize = 0;
    while i < accounts.len()
        invariant
            i <= accounts.len(),
            forall|j: int| 0 <= j < i ==> accounts@[j].email@ != email@,
        decreases accounts.len() - i,
    {
        if accounts[i].email == *email {
            assert(accounts@[i as int].email@ == email@);
            return true;
        }
        i += 1;
    }
    false
}

/// The index of the first account whose email is `email`.
pub fn position_of_email(accounts: &Vec<AccountInfo>, email: &String) -> (res: Option<usize>)
    ensures
        res matches Some(i) ==> first_with_email(accounts@, email@, 0) == Some(i as int),
        res is None ==> first_with_email(accounts@, email@, 0) is None,
{
    let mut i: usize = 0;
    while i < accounts.len()
        invariant
            i <= accounts.len(),
            first_with_email(accounts@, email@, 0) == first_with_email(accounts@, email@, i as int),
        decreases accounts.len() - i,
    {
        if accounts[i].email == *email {
            return Some(i);
        }
        i += 1;
    }
    None
}

/// The account after an edit: each new value that is given replaces the old one.
pub open spec fn edited_account(
    acc: AccountInfo,
    new_token: Option<String>,
    new_refresh_token: Option<String>,
    new_workos_cursor_session_token: Option<String>,
) -> AccountInfo {
    AccountInfo {
        token: match new_token {
            Some(t) => t,
            None => acc.token,
        },
        refresh_token: match new_refresh_token {
            Some(t) => Some(t),
            None => acc.refresh_token,
        },
        workos_cursor_session_token: match new_workos_cursor_session_token {
            Some(t) => Some(t),
            None => acc.workos_cursor_session_token,
        },
        ..acc
    }
}

/// `accounts` without the accounts whose email is `email`.
pub open spec fn without_email(accounts: Seq<AccountInfo>, email: Seq<char>) -> Seq<AccountInfo> {
    accounts.filter(|a: AccountInfo| a.email@ != email)
}

/// `accounts` with `is_current` set exactly on the accounts whose email is `email`.
pub open spec fn marked_current(accounts: Seq<AccountInfo>, email: Seq<char>) -> Seq<AccountInfo> {
    accounts.map_values(|a: AccountInfo| AccountInfo { is_current: a.email@ == email, ..a })
}

/// The text reported when the saved list could not be loaded.
pub open spec fn load_failure_text(reason: Seq<char>) -> Seq<char> {
    "Failed to load accounts: "@ + reason
}

} // verus!

verus! {

impl AccountManager {
    /// The manager (it holds no state of its own).
    pub fn new() -> (res: Self) {
        AccountManager
    }

    /// Adds a new account to `accounts`, refusing an email that is already saved.
    /// The new account is not marked current; its creation time is the local time now.
    pub fn add_account(
        accounts: &mut Vec<AccountInfo>,
        email: String,
        token: String,
        refresh_token: Option<String>,
        workos_cursor_session_token: Option<String>,
    ) -> (res: Result<(), AccountError>)
        ensures
            has_email(old(accounts)@, email@) ==> res == Err::<(), AccountError>(
                AccountError::AlreadyExists,
            ) && final(accounts)@ == old(accounts)@,
            !has_email(old(accounts)@, email@) ==> res is Ok && final(accounts)@.len() == old(
                accounts,
            )@.len() + 1 && final(accounts)@.take(old(accounts)@.len() as int) == old(accounts)@
                && ({
                let a = final(accounts)@.last();
                &&& a.email == email
                &&& a.token == token
                &&& a.refresh_token == refresh_token
                &&& a.workos_cursor_session_token == workos_cursor_session_token
                &&& !a.is_current
            }),
    {
        if contains_email(accounts, &email) {
            return Err(AccountError::AlreadyExists);
        }
        let created_at = local_now_seconds_text();
        let ghost before = accounts@;
        accounts.push(
            AccountInfo {
                email,
                token,
                refresh_token,
                workos_cursor_session_token,
                is_current: false,
                created_at,
            },
        );
        assert(accounts@.take(before.len() as int) =~= before);
        Ok(())
    }

    /// Edits the first account with the given email: each new value that is given replaces
    /// the old one. Answers whether anything was given (and so whether the list changed).
    pub fn edit_account(
        accounts: &mut Vec<AccountInfo>,
        email: String,
        new_token: Option<String>,
        new_refresh_token: Option<String>,
        new_workos_cursor_session_token: Option<String>,
    ) -> (res: Result<bool, AccountError>)
        ensures
            first_with_email(old(accounts)@, email@, 0) is None ==> res == Err::<bool, AccountError>(
                AccountError::NotFound,
            ) && final(accounts)@ == old(accounts)@,
            first_with_email(old(accounts)@, email@, 0) matches Some(i) ==> res == Ok::<
                bool,
                AccountError,
            >(
                new_token is Some || new_refresh_token is Some || new_workos_cursor_session_token is Some,
            ) && final(accounts)@ == old(accounts)@.update(
                i,
                edited_account(
                    old(accounts)@[i],
                    new_token,
                    new_refresh_token,
                    new_workos_cursor_session_token,
                ),
            ),
    {
        match position_of_email(accounts, &email) {
            None => Err(AccountError::NotFound),
            Some(i) => {
                proof {
                    lemma_first_with_email(accounts@, email@, 0);
                }
                let updated = new_token.is_some() || new_refresh_token.is_some()
                    || new_workos_cursor_session_token.is_some();
                let mut acc = accounts[i].copy();
                if let Some(t) = new_token {
                    acc.token = t;
                }
                if let Some(t) = new_refresh_token {
                    acc.refresh_token = Some(t);
                }
                if let Some(t) = new_workos_cursor_session_token {
                    acc.workos_cursor_session_token = Some(t);
                }
                accounts.set(i, acc);
                Ok(updated)
            },
        }
    }

    /// Removes every account with the given email; refuses when there is none.
    pub fn remove_account(accounts: &mut Vec<AccountInfo>, email: String) -> (res: Result<
        (),
        AccountError,
    >)
        ensures
            final(accounts)@ == without_email(old(accounts)@, email@),
            res is Err <==> !has_email(old(accounts)@, email@),
            res is Err ==> res == Err::<(), AccountError>(AccountError::NotFound),
    {
        let ghost before = accounts@;
        let mut kept: Vec<AccountInfo> = Vec::new();
        let mut i: usize = 0;
        while i < accounts.len()
            invariant
                i <= accounts.len(),
                accounts@ == before,
                kept@ == without_email(before.take(i as int), email@),
            decreases accounts.len() - i,
        {
            let a = accounts[i].copy();
            proof {
                reveal_with_fuel(Seq::filter, 1);
                assert(before.take(i + 1).drop_last() =~= before.take(i as int));
                assert(before.take(i + 1).last() == a);
            }
            if a.email != email {
                kept.push(a);
            }
            i += 1;
        }
        assert(before.take(before.len() as int) =~= before);
        let removed = kept.len() < accounts.len();
        proof {
            lemma_filter_len_email(before, email@);
        }
        *accounts = kept;
        if removed {
            Ok(())
        } else {
            Err(AccountError::NotFound)
        }
    }
}

/// Filtering out an email keeps every account exactly when none has that email.
pub proof fn lemma_filter_len_email(accounts: Seq<AccountInfo>, email: Seq<char>)
    ensures
        without_email(accounts, email).len() <= accounts.len(),
        without_email(accounts, email).len() == accounts.len() <==> !has_email(accounts, email),
    decreases accounts.len(),
{
    reveal_with_fuel(Seq::filter, 1);
    if accounts.len() > 0 {
        let init = accounts.drop_last();
        lemma_filter_len_email(init, email);
        assert(accounts.drop_last() == init);
        if has_email(init, email) {
            let i = choose|i: int| 0 <= i < init.len() && (#[trigger] init[i]).email@ == email;
            assert(accounts[i] == init[i]);
        }
        if has_email(accounts, email) && accounts.last().email@ != email {
            let i = choose|i: int| 0 <= i < accounts.len() && (#[trigger] accounts[i]).email@ == email;
            assert(init[i] == accounts[i]);
        }
    }
}

} // verus!

verus! {

/// Concatenation of two strings.
pub fn concat_str(a: &str, b: &str) -> (res: String)
    ensures
        res@ == a@ + b@,
{
    let s = String::from_str(a);
    s.concat(b)
}

/// Marks exactly the accounts whose email is `email` as current.
pub fn mark_current(accounts: &mut Vec<AccountInfo>, email: &String)
    ensures
        final(accounts)@ == marked_current(old(accounts)@, email@),
{
    let ghost before = accounts@;
    let mut i: usize = 0;
    while i < accounts.len()
        invariant
            i <= accounts.len() == before.len(),
            forall|j: int| 0 <= j < i ==> accounts@[j] == marked_current(before, email@)[j],
            forall|j: int| i <= j < accounts.len() ==> accounts@[j] == before[j],
        decreases accounts.len() - i,
    {
        let mut a = accounts[i].copy();
        a.is_current = a.email == *email;
        accounts.set(i, a);
        i += 1;
    }
    assert(accounts@ =~= marked_current(before, email@));
}

impl AccountManager {
    /// The account Cursor is signed in with, when both its email and its token are known.
    /// It is marked current and stamped with the local time now.
    pub fn get_current_account(email: Option<String>, token: Option<String>) -> (res: Option<
        AccountInfo,
    >)
        ensures
            res is Some <==> email is Some && token is Some,
            res matches Some(a) ==> a.email == email->0 && a.token == token->0 && a.refresh_token
                is None && a.workos_cursor_session_token is None && a.is_current,
    {
        match (email, token) {
            (Some(e), Some(t)) => Some(
                AccountInfo {
                    email: e,
                    token: t,
                    refresh_token: None,
                    workos_cursor_session_token: None,
                    is_current: true,
                    created_at: local_now_seconds_text(),
                },
            ),
            _ => None,
        }
    }

    /// The signed-in email: the one found in storage.json, else the one found in the
    /// SQLite store.
    pub fn get_current_email(from_storage: Option<String>, from_sqlite: Option<String>) -> (res:
        Option<String>)
        ensures
            res == (if from_storage is Some {
                from_storage
            } else {
                from_sqlite
            }),
    {
        match from_storage {
            Some(e) => Some(e),
            None => from_sqlite,
        }
    }

    /// The account list as shown to the user. When the list loaded and Cursor is signed in,
    /// the signed-in account is added if missing and exactly the accounts with its email are
    /// marked current. The second part is the list to save back, present only when the
    /// signed-in account was added (it is saved before the marking).
    pub fn get_account_list(
        loaded: Result<Vec<AccountInfo>, String>,
        current: Option<AccountInfo>,
    ) -> (res: (AccountListResult, Option<Vec<AccountInfo>>))
        ensures
            loaded matches Err(e) ==> {
                &&& !res.0.success
                &&& res.0.accounts@.len() == 0
                &&& res.0.current_account is None
                &&& res.0.message@ == load_failure_text(e@)
                &&& res.1 is None
            },
            loaded matches Ok(list) ==> {
                &&& res.0.success
                &&& res.0.message@ == "Account list loaded successfully"@
                &&& res.0.current_account == current
                &&& (current is None ==> res.0.accounts@ == list@ && res.1 is None)
                &&& (current matches Some(c) ==> has_email(list@, c.email@) ==> res.0.accounts@
                    == marked_current(list@, c.email@) && res.1 is None)
                &&& (current matches Some(c) ==> !has_email(list@, c.email@) ==> res.0.accounts@
                    == marked_current(list@.push(c), c.email@) && (res.1 matches Some(saved)
                    && saved@ == list@.push(c)))
            },
    {
        match loaded {
            Err(e) => (
                AccountListResult {
                    success: false,
                    accounts: Vec::new(),
                    current_account: None,
                    message: concat_str("Failed to load accounts: ", e.as_str()),
                },
                None,
            ),
            Ok(list) => {
                let mut accounts = list;
                let mut to_save: Option<Vec<AccountInfo>> = None;
                match &current {
                    Some(c) => {
                        if !contains_email(&accounts, &c.email) {
                            accounts.push(c.copy());
                            let mut saved: Vec<AccountInfo> = Vec::new();
                            let mut i: usize = 0;
                            while i < accounts.len()
                                invariant
                                    i <= accounts.len(),
                                    saved@ == accounts@.take(i as int),
                                decreases accounts.len() - i,
                            {
                                saved.push(accounts[i].copy());
                                assert(accounts@.take(i as int).push(accounts@[i as int])
                                    =~= accounts@.take(i + 1));
                                i += 1;
                            }
                            assert(accounts@.take(accounts.len() as int) =~= accounts@);
                            to_save = Some(saved);
                        }
                        mark_current(&mut accounts, &c.email);
                    },
                    None => {},
                }
                (
                    AccountListResult {
                        success: true,
                        accounts,
                        current_account: current,
                        message: String::from_str("Account list loaded successfully"),
                    },
                    to_save,
                )
            },
        }
    }
}

} // verus!

verus! {

/// The list after a successful `add_account` of `email` to `before`.
pub open spec fn added_to(before: Seq<AccountInfo>, after: Seq<AccountInfo>, email: Seq<char>) -> bool {
    &&& after.len() == before.len() + 1
    &&& after.take(before.len() as int) == before
    &&& after.last().email@ == email
}

/// Adding an account that is not yet saved keeps the emails distinct, and the new email
/// is then saved.
pub proof fn law_add_keeps_emails_unique(
    before: Seq<AccountInfo>,
    after: Seq<AccountInfo>,
    email: Seq<char>,
)
    requires
        emails_unique(before),
        !has_email(before, email),
        added_to(before, after, email),
    ensures
        emails_unique(after),
        has_email(after, email),
{
    assert forall|j: int| 0 <= j < before.len() implies after[j] == before[j] by {
        assert(after.take(before.len() as int)[j] == after[j]);
    }
    assert(after[after.len() - 1].email@ == email);
    assert forall|i: int, j: int|
        0 <= i < after.len() && 0 <= j < after.len() && i != j implies (#[trigger] after[i]).email@
        != (#[trigger] after[j]).email@ by {
        if i < before.len() && j < before.len() {
            assert(before[i] == after[i] && before[j] == after[j]);
        } else if i < before.len() {
            assert(before[i] == after[i]);
        } else if j < before.len() {
            assert(before[j] == after[j]);
        }
    }
}

/// Removing an account that was just added gives back the list as it was.
pub proof fn law_add_then_remove(before: Seq<AccountInfo>, after: Seq<AccountInfo>, email: Seq<char>)
    requires
        !has_email(before, email),
        added_to(before, after, email),
    ensures
        without_email(after, email) == before,
{
    reveal_with_fuel(Seq::filter, 1);
    assert(after.drop_last() =~= before);
    lemma_filter_len_email(before, email);
    lemma_filter_all_kept(before, email);
}

/// Filtering out an email that no account has changes nothing.
pub proof fn lemma_filter_all_kept(accounts: Seq<AccountInfo>, email: Seq<char>)
    requires
        !has_email(accounts, email),
    ensures
        without_email(accounts, email) == accounts,
    decreases accounts.len(),
{
    reveal_with_fuel(Seq::filter, 1);
    if accounts.len() > 0 {
        let init = accounts.drop_last();
        if has_email(init, email) {
            let i = choose|i: int| 0 <= i < init.len() && (#[trigger] init[i]).email@ == email;
            assert(accounts[i] == init[i]);
        }
        lemma_filter_all_kept(init, email);
        assert(accounts[accounts.len() - 1].email@ != email);
        assert(init.push(accounts.last()) =~= accounts);
    }
}

/// After removing an email, no account has it; removing again changes nothing; and
/// distinct emails stay distinct.
pub proof fn law_remove_clears_email(accounts: Seq<AccountInfo>, email: Seq<char>)
    ensures
        !has_email(without_email(accounts, email), email),
        without_email(without_email(accounts, email), email) == without_email(accounts, email),
        emails_unique(accounts) ==> emails_unique(without_email(accounts, email)),
{
    let kept = without_email(accounts, email);
    lemma_without_email_members(accounts, email);
    lemma_filter_all_kept(kept, email);
    if emails_unique(accounts) {
        lemma_filter_unique(accounts, email);
    }
}

/// Each account kept by filtering is one of the given accounts, and none has the email.
pub proof fn lemma_without_email_members(accounts: Seq<AccountInfo>, email: Seq<char>)
    ensures
        forall|i: int|
            0 <= i < without_email(accounts, email).len() ==> (#[trigger] without_email(
                accounts,
                email,
            )[i]).email@ != email && exists|j: int|
                0 <= j < accounts.len() && accounts[j] == without_email(accounts, email)[i],
    decreases accounts.len(),
{
    reveal_with_fuel(Seq::filter, 1);
    if accounts.len() > 0 {
        let init = accounts.drop_last();
        lemma_without_email_members(init, email);
        let k = without_email(init, email);
        let r = without_email(accounts, email);
        assert forall|i: int| 0 <= i < r.len() implies (#[trigger] r[i]).email@ != email && exists|
            j: int,
        | 0 <= j < accounts.len() && accounts[j] == r[i] by {
            if i < k.len() {
                assert(r[i] == k[i]);
                let j = choose|j: int| 0 <= j < init.len() && init[j] == k[i];
                assert(accounts[j] == init[j]);
            } else {
                assert(r[i] == accounts.last());
                assert(accounts[accounts.len() - 1] == accounts.last());
            }
        }
    }
}

/// Filtering keeps distinct emails distinct.
pub proof fn lemma_filter_unique(accounts: Seq<AccountInfo>, email: Seq<char>)
    requires
        emails_unique(accounts),
    ensures
        emails_unique(without_email(accounts, email)),
    decreases accounts.len(),
{
    reveal_with_fuel(Seq::filter, 1);
    if accounts.len() > 0 {
        let init = accounts.drop_last();
        assert forall|i: int, j: int|
            0 <= i < init.len() && 0 <= j < init.len() && i != j implies (#[trigger] init[i]).email@
            != (#[trigger] init[j]).email@ by {
            assert(init[i] == accounts[i] && init[j] == accounts[j]);
        }
        lemma_filter_unique(init, email);
        let last = accounts.last();
        if last.email@ != email {
            let k = without_email(init, email);
            lemma_without_email_members(init, email);
            assert forall|i: int| 0 <= i < k.len() implies (#[trigger] k[i]).email@ != last.email@ by {
                let j = choose|j: int| 0 <= j < init.len() && init[j] == k[i];
                assert(accounts[j] == init[j]);
                assert(accounts[accounts.len() - 1] == last);
            }
            let r = k.push(last);
            assert forall|i: int, j: int|
                0 <= i < r.len() && 0 <= j < r.len() && i != j implies (#[trigger] r[i]).email@
                != (#[trigger] r[j]).email@ by {
                if i < k.len() && j < k.len() {
                    assert(r[i] == k[i] && r[j] == k[j]);
                } else if i < k.len() {
                    assert(r[i] == k[i]);
                } else {
                    assert(r[j] == k[j]);
                }
            }
        }
    }
}

/// Editing an account keeps every email where it was (so distinct emails stay distinct).
pub proof fn law_edit_keeps_emails(
    accounts: Seq<AccountInfo>,
    i: int,
    new_token: Option<String>,
    new_refresh_token: Option<String>,
    new_workos_cursor_session_token: Option<String>,
)
    requires
        0 <= i < accounts.len(),
    ensures
        ({
            let after = accounts.update(
                i,
                edited_account(
                    accounts[i],
                    new_token,
                    new_refresh_token,
                    new_workos_cursor_session_token,
                ),
            );
            &&& after.len() == accounts.len()
            &&& forall|j: int| 0 <= j < accounts.len() ==> (#[trigger] after[j]).email == accounts[j].email
            &&& emails_unique(accounts) ==> emails_unique(after)
        }),
{
    let after = accounts.update(
        i,
        edited_account(accounts[i], new_token, new_refresh_token, new_workos_cursor_session_token),
    );
    assert forall|j: int| 0 <= j < accounts.len() implies (#[trigger] after[j]).email
        == accounts[j].email by {}
    if emails_unique(accounts) {
        assert forall|a: int, b: int|
            0 <= a < after.len() && 0 <= b < after.len() && a != b implies (#[trigger] after[a]).email@
            != (#[trigger] after[b]).email@ by {
            assert(after[a].email == accounts[a].email);
            assert(after[b].email == accounts[b].email);
        }
    }
}

/// In the list shown to the user, exactly the accounts with the signed-in email are marked
/// current, and that email is in the list; when emails are distinct, exactly one account is
/// marked current.
pub proof fn law_list_marks_signed_in(shown: Seq<AccountInfo>, list: Seq<AccountInfo>, current: AccountInfo)
    requires
        has_email(list, current.email@) ==> shown == marked_current(list, current.email@),
        !has_email(list, current.email@) ==> shown == marked_current(
            list.push(current),
            current.email@,
        ),
    ensures
        forall|j: int|
            0 <= j < shown.len() ==> ((#[trigger] shown[j]).is_current <==> shown[j].email@
                == current.email@),
        has_email(shown, current.email@),
        emails_unique(list) ==> exists|i: int|
            0 <= i < shown.len() && shown[i].is_current && forall|j: int|
                0 <= j < shown.len() && j != i ==> !(#[trigger] shown[j]).is_current,
{
    let e = current.email@;
    let base = if has_email(list, e) {
        list
    } else {
        list.push(current)
    };
    assert(shown == marked_current(base, e));
    assert forall|j: int| 0 <= j < shown.len() implies (#[trigger] shown[j]).email == base[j].email
        && (shown[j].is_current <==> shown[j].email@ == e) by {
        assert(shown[j] == AccountInfo { is_current: base[j].email@ == e, ..base[j] });
    }
    if has_email(list, e) {
        let i = choose|i: int| 0 <= i < list.len() && (#[trigger] list[i]).email@ == e;
        assert(shown[i].email@ == e);
    } else {
        assert(base[list.len() as int] == current);
        assert(shown[list.len() as int].email@ == e);
    }
    if emails_unique(list) {
        let i = choose|i: int| 0 <= i < shown.len() && (#[trigger] shown[i]).email@ == e;
        assert forall|j: int| 0 <= j < shown.len() && j != i implies !(#[trigger] shown[j]).is_current by {
            if shown[j].is_current {
                assert(shown[j].email@ == e);
                if has_email(list, e) {
                    assert(list[j].email == shown[j].email && list[i].email == shown[i].email);
                } else {
                    if j < list.len() {
                        assert(list[j].email == shown[j].email);
                    } else {
                        assert(i < list.len());
                        assert(list[i].email == shown[i].email);
                    }
                }
            }
        }
        assert(shown[i].is_current);
    }
}

} // verus!
