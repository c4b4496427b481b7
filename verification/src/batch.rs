//! Registering several accounts one after another. The library decides which registration
//! runs next, with which card, and what is recorded of each; the caller runs the
//! registrations, saves the card configurations and reports back.
use vstd::prelude::*;

use crate::account::concat_str;
use crate::deps::{json_get, json_get_str, json_member, json_members, json_parsed, member_text};
use crate::registration::{bank_card_list, card_parse_error_prefix, card_text, card_text_spec, cards_of};
use crate::text::{decimal, decimal_spec, string_of, text_eq, views};

verus! {

/// Which mailbox the registrations use.
#[derive(PartialEq, Eq, Structural)]
pub enum EmailKind {
    CloudflareTemp,
    Outlook,
    Custom,
}

/// The mailbox named by the caller's email type: `cloudflare_temp`, `outlook`, or anything
/// else (or nothing) for addresses of the caller's own.
pub open spec fn email_kind_spec(email_type: Option<Seq<char>>) -> EmailKind {
    match email_type {
        Some(t) => if t == "cloudflare_temp"@ {
            EmailKind::CloudflareTemp
        } else if t == "outlook"@ {
            EmailKind::Outlook
        } else {
            EmailKind::Custom
        },
        None => EmailKind::Custom,
    }
}

/// The mailbox named by the caller's email type.
pub fn email_kind(email_type: &Option<String>) -> (res: EmailKind)
    ensures
        res == email_kind_spec(
            match email_type {
                Some(t) => Some(t@),
                None => None,
            },
        ),
{
    match email_type {
        Some(t) => {
            if text_eq(t.as_str(), "cloudflare_temp") {
                EmailKind::CloudflareTemp
            } else if text_eq(t.as_str(), "outlook") {
                EmailKind::Outlook
            } else {
                EmailKind::Custom
            }
        },
        None => EmailKind::Custom,
    }
}

/// The address a registration result names in `accountInfo.email`, else the one it was
/// started with.
pub open spec fn reported_email(result: serde_json::Value, fallback: Seq<char>) -> Seq<char> {
    match json_member(result, "accountInfo"@) {
        Some(info) => match member_text(json_members(info), "email"@) {
            Some(e) => e,
            None => fallback,
        },
        None => fallback,
    }
}

/// The address a registration result names, else the one it was started with.
pub fn actual_email(result: &serde_json::Value, fallback: &String) -> (res: String)
    ensures
        res@ == reported_email(*result, fallback@),
{
    match json_get(result, "accountInfo") {
        Some(info) => match json_get_str(&info, "email") {
            Some(e) => e,
            None => fallback.clone(),
        },
        None => fallback.clone(),
    }
}

/// What is recorded of one registration of a batch.
pub enum BatchEntry {
    Succeeded { index: usize, email: String, result: serde_json::Value },
    Failed { index: usize, email: String, error: String },
}

/// The view of an entry: its index, address, and the result or the error.
pub open spec fn entry_view(e: BatchEntry) -> (usize, Seq<char>, Result<serde_json::Value, Seq<char>>) {
    match e {
        BatchEntry::Succeeded { index, email, result } => (index, email@, Ok(result)),
        BatchEntry::Failed { index, email, error } => (index, email@, Err(error@)),
    }
}

/// The views of a list of entries.
pub open spec fn entry_views(s: Seq<BatchEntry>) -> Seq<(usize, Seq<char>, Result<serde_json::Value, Seq<char>>)> {
    s.map_values(|e: BatchEntry| entry_view(e))
}

/// One registration the caller is asked to run.
pub struct BatchTask {
    pub index: usize,
    pub kind: EmailKind,
    pub email: String,
    pub first_name: String,
    pub last_name: String,
    /// The card configuration to save before starting, when cards are bound.
    pub card: Option<String>,
    /// Whether to pause (two seconds) before starting, to let the previous run clean up.
    pub pause_first: bool,
}

/// A batch in progress.
pub struct BatchRun {
    pub emails: Vec<String>,
    pub first_names: Vec<String>,
    pub last_names: Vec<String>,
    pub kind: EmailKind,
    pub binding: bool,
    pub cards: Vec<serde_json::Value>,
    pub prior_config: String,
    /// The registration in flight; the number of registrations once all have run.
    pub next: usize,
    pub succeeded: Vec<BatchEntry>,
    pub failed: Vec<BatchEntry>,
}

/// The result of a batch.
pub struct BatchSummary {
    pub total: usize,
    pub succeeded: usize,
    pub failed: usize,
    pub results: Vec<BatchEntry>,
    pub errors: Vec<BatchEntry>,
}

/// What the caller is asked to do next.
pub enum BatchAction {
    Register(BatchTask),
    /// Put the configuration the batch started with back.
    RestoreConfig(String),
    Finish(BatchSummary),
}

/// What the caller reports.
pub enum BatchEvent {
    /// The registration in flight ended with this result.
    Registered(Result<serde_json::Value, String>),
    /// The configuration was put back (whether or not that succeeded).
    ConfigRestored,
}

impl BatchRun {
    /// The number of registrations.
    pub open spec fn total(&self) -> nat {
        self.emails@.len()
    }

    /// A batch whose lists agree, whose cards suffice when bound, and whose records account
    /// for every registration that has run.
    pub open spec fn wf(&self) -> bool {
        &&& self.first_names@.len() == self.total()
        &&& self.last_names@.len() == self.total()
        &&& self.binding ==> self.cards@.len() >= self.total()
        &&& self.next <= self.total()
        &&& self.succeeded@.len() + self.failed@.len() == self.next
    }

    /// The registration at `i`, as the caller is asked to run it.
    pub open spec fn task_fits(&self, i: int, t: BatchTask) -> bool {
        &&& t.index == i
        &&& t.kind == self.kind
        &&& t.email@ == self.emails@[i]@
        &&& t.first_name@ == self.first_names@[i]@
        &&& t.last_name@ == self.last_names@[i]@
        &&& t.card.is_some() == (self.binding && i < self.cards@.len())
        &&& t.card matches Some(c) ==> c@ == card_text_spec(self.cards@[i])
        &&& t.pause_first == (i > 0)
    }

    /// The action that follows once `next` registrations have run.
    pub open spec fn action_fits(&self, a: BatchAction) -> bool {
        if self.next < self.total() {
            a matches BatchAction::Register(t) && self.task_fits(self.next as int, t)
        } else {
            a matches BatchAction::RestoreConfig(c) && c@ == self.prior_config@
        }
    }
}

/// The error given when the lists of addresses and names differ in length.
pub open spec fn mismatch_error() -> Seq<char> {
    "邮箱、姓名数量不一致"@
}

/// The batch is refused when the lists of emails, first names and last names differ in
/// length.
pub fn check_batch_lengths(emails: usize, first_names: usize, last_names: usize) -> (res: Result<(), String>)
    ensures
        res is Ok <==> (emails == first_names && emails == last_names),
        res matches Err(e) ==> e@ == mismatch_error(),
{
    if emails != first_names || emails != last_names {
        Err(String::from_str("邮箱、姓名数量不一致"))
    } else {
        Ok(())
    }
}

/// The error given when there are fewer cards than registrations.
pub open spec fn too_few_cards_error(cards: nat, accounts: nat) -> Seq<char> {
    "银行卡配置数量("@ + decimal_spec(cards) + ")少于注册账户数量("@ + decimal_spec(accounts)
        + ")，请先配置足够的银行卡"@
}

fn task_at(run: &BatchRun, i: usize) -> (res: BatchTask)
    requires
        run.wf(),
        i < run.total(),
    ensures
        run.task_fits(i as int, res),
{
    let card = if run.binding && i < run.cards.len() {
        Some(card_text(&run.cards[i]))
    } else {
        None
    };
    let kind = match run.kind {
        EmailKind::CloudflareTemp => EmailKind::CloudflareTemp,
        EmailKind::Outlook => EmailKind::Outlook,
        EmailKind::Custom => EmailKind::Custom,
    };
    BatchTask {
        index: i,
        kind,
        email: run.emails[i].clone(),
        first_name: run.first_names[i].clone(),
        last_name: run.last_names[i].clone(),
        card,
        pause_first: i > 0,
    }
}

fn next_action(run: &BatchRun) -> (res: BatchAction)
    requires
        run.wf(),
    ensures
        run.action_fits(res),
{
    if run.next < run.emails.len() {
        BatchAction::Register(task_at(run, run.next))
    } else {
        BatchAction::RestoreConfig(run.prior_config.clone())
    }
}

/// Starts a batch of registrations over the given addresses and names, with the bank-card
/// configuration text it began with.
///
/// Refused, in this order: lists of different lengths; a configuration that is not JSON;
/// fewer cards than registrations while cards are bound (the default). The cards are the
/// items of the configuration's `cards` array, or the configuration itself in the older form.
pub fn batch_register_with_email(
    emails: Vec<String>,
    first_names: Vec<String>,
    last_names: Vec<String>,
    email_type: &Option<String>,
    enable_bank_card_binding: Option<bool>,
    config: &str,
) -> (res: Result<(BatchRun, BatchAction), String>)
    ensures
        !(emails@.len() == first_names@.len() && emails@.len() == last_names@.len()) ==> (res matches Err(e)
            && e@ == mismatch_error()),
        (emails@.len() == first_names@.len() && emails@.len() == last_names@.len()) ==> match json_parsed(config@) {
            None => res matches Err(e) && exists|t: Seq<char>| e@ == card_parse_error_prefix() + t,
            Some(v) => {
                let binding = match enable_bank_card_binding {
                    Some(b) => b,
                    None => true,
                };
                if binding && cards_of(v).len() < emails@.len() {
                    res matches Err(e) && e@ == too_few_cards_error(cards_of(v).len(), emails@.len())
                } else {
                    res matches Ok((run, action)) && {
                        &&& run.wf()
                        &&& views(run.emails@) == views(emails@)
                        &&& views(run.first_names@) == views(first_names@)
                        &&& views(run.last_names@) == views(last_names@)
                        &&& run.kind == email_kind_spec(
                            match email_type {
                                Some(t) => Some(t@),
                                None => None,
                            },
                        )
                        &&& run.binding == binding
                        &&& run.cards@ == cards_of(v)
                        &&& run.prior_config@ == config@
                        &&& run.next == 0
                        &&& run.action_fits(action)
                    }
                }
            },
        },
{
    if emails.len() != first_names.len() || emails.len() != last_names.len() {
        return Err(String::from_str("邮箱、姓名数量不一致"));
    }
    let cards = match bank_card_list(config) {
        Ok(cards) => cards,
        Err(e) => return Err(e),
    };
    let binding = match enable_bank_card_binding {
        Some(b) => b,
        None => true,
    };
    if binding && cards.len() < emails.len() {
        let msg = concat_str("银行卡配置数量(", string_of(&decimal(cards.len())).as_str());
        let msg = msg.concat(")少于注册账户数量(");
        let msg = msg.concat(string_of(&decimal(emails.len())).as_str());
        let msg = msg.concat(")，请先配置足够的银行卡");
        return Err(msg);
    }
    let run = BatchRun {
        emails,
        first_names,
        last_names,
        kind: email_kind(email_type),
        binding,
        cards,
        prior_config: String::from_str(config),
        next: 0,
        succeeded: Vec::new(),
        failed: Vec::new(),
    };
    let action = next_action(&run);
    Ok((run, action))
}

/// The entry recorded for registration `i` of `email` that ended with `r`.
pub open spec fn entry_for(i: usize, email: Seq<char>, r: Result<serde_json::Value, String>) -> (usize, Seq<char>, Result<serde_json::Value, Seq<char>>) {
    match r {
        Ok(v) => (i, reported_email(v, email), Ok(v)),
        Err(e) => (i, email, Err(e@)),
    }
}

/// Takes the next step of a batch, given what the caller reports.
///
/// - A registration ended: it is recorded among the successes or the failures, under the
///   address its result names (else the one it was started with); the next registration is
///   asked for, or, after the last, the restoring of the configuration.
/// - The configuration was restored: the batch ends with its summary.
pub fn batch_register_step(run: BatchRun, event: BatchEvent) -> (res: (BatchRun, BatchAction))
    requires
        run.wf(),
        event is Registered <==> run.next < run.total(),
    ensures
        event matches BatchEvent::Registered(r) ==> {
            let i = run.next;
            let entry = entry_for(i, run.emails@[i as int]@, r);
            &&& res.0.wf()
            &&& res.0.next == i + 1
            &&& views(res.0.emails@) == views(run.emails@)
            &&& views(res.0.first_names@) == views(run.first_names@)
            &&& views(res.0.last_names@) == views(run.last_names@)
            &&& res.0.kind == run.kind
            &&& res.0.binding == run.binding
            &&& res.0.cards@ == run.cards@
            &&& res.0.prior_config@ == run.prior_config@
            &&& if r is Ok {
                entry_views(res.0.succeeded@) == entry_views(run.succeeded@).push(entry)
                    && entry_views(res.0.failed@) == entry_views(run.failed@)
            } else {
                entry_views(res.0.succeeded@) == entry_views(run.succeeded@)
                    && entry_views(res.0.failed@) == entry_views(run.failed@).push(entry)
            }
            &&& res.0.action_fits(res.1)
        },
        event is ConfigRestored ==> (res.1 matches BatchAction::Finish(s) && {
            &&& s.total == run.total()
            &&& s.succeeded == run.succeeded@.len()
            &&& s.failed == run.failed@.len()
            &&& s.succeeded + s.failed == s.total
            &&& entry_views(s.results@) == entry_views(run.succeeded@)
            &&& entry_views(s.errors@) == entry_views(run.failed@)
        }),
{
    let BatchRun { emails, first_names, last_names, kind, binding, cards, prior_config, next, succeeded, failed } =
        run;
    let mut succeeded = succeeded;
    let mut failed = failed;
    match event {
        BatchEvent::Registered(r) => {
            let i = next;
            let n = emails.len();
            assert(i < n);
            let email = emails[i].clone();
            let ghost before_ok = entry_views(succeeded@);
            let ghost before_err = entry_views(failed@);
            match r {
                Ok(v) => {
                    let shown = actual_email(&v, &email);
                    let entry = BatchEntry::Succeeded { index: i, email: shown, result: v };
                    succeeded.push(entry);
                    assert(entry_views(succeeded@) =~= before_ok.push(entry_view(entry)));
                },
                Err(e) => {
                    let entry = BatchEntry::Failed { index: i, email, error: e };
                    failed.push(entry);
                    assert(entry_views(failed@) =~= before_err.push(entry_view(entry)));
                },
            }
            let run = BatchRun {
                emails,
                first_names,
                last_names,
                kind,
                binding,
                cards,
                prior_config,
                next: i + 1,
                succeeded,
                failed,
            };
            let action = next_action(&run);
            (run, action)
        },
        BatchEvent::ConfigRestored => {
            let total = emails.len();
            let summary = BatchSummary {
                total,
                succeeded: succeeded.len(),
                failed: failed.len(),
                results: succeeded,
                errors: failed,
            };
            let run = BatchRun {
                emails,
                first_names,
                last_names,
                kind,
                binding,
                cards,
                prior_config,
                next,
                succeeded: Vec::new(),
                failed: Vec::new(),
            };
            (run, BatchAction::Finish(summary))
        },
    }
}

} // verus!
