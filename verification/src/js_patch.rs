//! Edits to Cursor's bundled JavaScript: freeing the machine-id getters in main.js, the
//! workbench tweaks, and the script that shows the signed-in email.
use vstd::prelude::*;

use vstd::utf8::encode_utf8;

use crate::deps::{debug_form, debug_text, is_compact_stamp, local_now_compact_text, regex_replace_all, regex_replaced};
use crate::paths::{Platform, platform_name};
use crate::account::concat_str;
use crate::machine_id::{LogEntry, LogLevel, MachineIdRestorer};
use crate::text::{append_chars, chars_of, decimal, decimal_spec, find_from, find_spec, lemma_find_spec, occurs_at, replace_all, replace_spec, slice_chars, string_of};

verus! {

/// The byte length of a text as `String::len` reports it.
pub open spec fn byte_len(s: Seq<char>) -> usize {
    encode_utf8(s).len() as usize
}

/// The text after applying each `(pattern, replacement)` literal replacement in turn, and
/// how many of them changed the text's byte length.
pub open spec fn replaced_in_turn(text: Seq<char>, steps: Seq<(Seq<char>, Seq<char>)>) -> (Seq<char>, nat)
    decreases steps.len(),
{
    if steps.len() == 0 {
        (text, 0)
    } else {
        let (t, n) = replaced_in_turn(text, steps.drop_last());
        let r = replace_spec(t, steps.last().0, steps.last().1);
        (r, n + if byte_len(r) != byte_len(t) { 1nat } else { 0nat })
    }
}

/// What is recorded of each literal replacement: the record made before trying it, the one
/// made when it changed the text, and the one made when it did not.
pub struct StepLabel {
    pub trying: String,
    pub applied: String,
    pub missed: LogEntry,
}

/// The view of a label.
pub open spec fn label_view(l: StepLabel) -> (Seq<char>, Seq<char>, (LogLevel, Seq<char>)) {
    (l.trying@, l.applied@, (l.missed.level, l.missed.message@))
}

/// The records made while applying the literal replacements in turn: for each, a debug
/// record before, then an info record when it changed the text's byte length, else the
/// label's record for a miss.
pub open spec fn replacement_logs(
    text: Seq<char>,
    steps: Seq<(Seq<char>, Seq<char>)>,
    labels: Seq<(Seq<char>, Seq<char>, (LogLevel, Seq<char>))>,
) -> Seq<(LogLevel, Seq<char>)>
    decreases steps.len(),
{
    if steps.len() == 0 {
        Seq::empty()
    } else {
        let (t, _) = replaced_in_turn(text, steps.drop_last());
        let r = replace_spec(t, steps.last().0, steps.last().1);
        let l = labels[steps.len() - 1];
        replacement_logs(text, steps.drop_last(), labels) + seq![
            (LogLevel::Debug, l.0),
            if byte_len(r) != byte_len(t) {
                (LogLevel::Info, l.1)
            } else {
                l.2
            },
        ]
    }
}

/// Applies each literal replacement in turn, recording each as its label says; answers the
/// text and how many replacements changed its byte length.
pub fn replace_in_turn(
    log: &mut MachineIdRestorer,
    text: &str,
    steps: &Vec<(String, String)>,
    labels: &Vec<StepLabel>,
) -> (res: (String, usize))
    requires
        forall|i: int| 0 <= i < steps@.len() ==> (#[trigger] steps@[i]).0@.len() > 0,
        labels@.len() == steps@.len(),
    ensures
        (res.0@, res.1 as nat) == replaced_in_turn(text@, steps@.map_values(|p: (String, String)| (p.0@, p.1@))),
        final(log).pending_log() == old(log).pending_log() + replacement_logs(
            text@,
            steps@.map_values(|p: (String, String)| (p.0@, p.1@)),
            labels@.map_values(|l: StepLabel| label_view(l)),
        ),
        final(log).db_path == old(log).db_path,
        final(log).sqlite_path == old(log).sqlite_path,
        final(log).log_file_path == old(log).log_file_path,
{
    let ghost sv = steps@.map_values(|p: (String, String)| (p.0@, p.1@));
    let ghost lv = labels@.map_values(|l: StepLabel| label_view(l));
    let mut cur = String::from_str(text);
    let mut count: usize = 0;
    let mut i: usize = 0;
    while i < steps.len()
        invariant
            i <= steps.len(),
            labels@.len() == steps@.len(),
            sv == steps@.map_values(|p: (String, String)| (p.0@, p.1@)),
            lv == labels@.map_values(|l: StepLabel| label_view(l)),
            forall|k: int| 0 <= k < steps@.len() ==> (#[trigger] steps@[k]).0@.len() > 0,
            (cur@, count as nat) == replaced_in_turn(text@, sv.take(i as int)),
            count <= i,
            log.pending_log() == old(log).pending_log() + replacement_logs(text@, sv.take(i as int), lv),
            log.db_path == old(log).db_path,
            log.sqlite_path == old(log).sqlite_path,
            log.log_file_path == old(log).log_file_path,
        decreases steps.len() - i,
    {
        assert(sv.take(i + 1).drop_last() =~= sv.take(i as int));
        assert(sv.take(i + 1).last() == (steps@[i as int].0@, steps@[i as int].1@));
        assert(lv[i as int] == label_view(labels@[i as int]));
        log.log_debug(labels[i].trying.as_str());
        let pat = chars_of(steps[i].0.as_str());
        let rep = chars_of(steps[i].1.as_str());
        let before = cur.as_str().len();
        let next = string_of(&replace_all(&chars_of(cur.as_str()), &pat, &rep));
        let after = next.as_str().len();
        if before != after {
            count += 1;
            log.log_info(labels[i].applied.as_str());
        } else {
            match labels[i].missed.level {
                LogLevel::Info => log.log_info(labels[i].missed.message.as_str()),
                LogLevel::Warn => log.log_warning(labels[i].missed.message.as_str()),
                LogLevel::Error => log.log_error(labels[i].missed.message.as_str()),
                LogLevel::Debug => log.log_debug(labels[i].missed.message.as_str()),
            }
        }
        cur = next;
        i += 1;
    }
    assert(sv.take(steps.len() as int) =~= sv);
    (cur, count)
}

/// The text after applying each `(pattern, replacement)` regular-expression replacement in
/// turn, and how many changed its byte length; `None` when a pattern does not compile.
pub open spec fn regex_replaced_in_turn(text: Seq<char>, steps: Seq<(Seq<char>, Seq<char>)>) -> Option<(Seq<char>, nat)>
    decreases steps.len(),
{
    if steps.len() == 0 {
        Some((text, 0))
    } else {
        match regex_replaced_in_turn(text, steps.drop_last()) {
            None => None,
            Some((t, n)) => match regex_replaced(steps.last().0, t, steps.last().1) {
                None => None,
                Some(r) => Some((r, n + if byte_len(r) != byte_len(t) { 1nat } else { 0nat })),
            },
        }
    }
}

/// The records made while applying the patterns in turn: for pattern `i` (from 1), a debug
/// record naming it, then an info record with the byte lengths before and after when it
/// changed the length, else a debug record of the miss. Nothing follows a pattern that does
/// not compile.
pub open spec fn pattern_logs(text: Seq<char>, steps: Seq<(Seq<char>, Seq<char>)>) -> Seq<(LogLevel, Seq<char>)>
    decreases steps.len(),
{
    if steps.len() == 0 {
        Seq::empty()
    } else {
        let before = pattern_logs(text, steps.drop_last());
        match regex_replaced_in_turn(text, steps.drop_last()) {
            None => before,
            Some((t, _)) => {
                let i = decimal_spec(steps.len());
                let tried = before.push((LogLevel::Debug, "应用模式 "@ + i + ": "@ + steps.last().0));
                match regex_replaced(steps.last().0, t, steps.last().1) {
                    None => tried,
                    Some(r) => tried.push(
                        if byte_len(r) != byte_len(t) {
                            (LogLevel::Info, "模式 "@ + i + " 已应用，内容长度从 "@ + decimal_spec(byte_len(t) as nat)
                                + " 变为 "@ + decimal_spec(byte_len(r) as nat))
                        } else {
                            (LogLevel::Debug, "模式 "@ + i + " 未找到匹配项"@)
                        },
                    ),
                }
            },
        }
    }
}

/// Applies each regular-expression replacement in turn, recording each; stops at a pattern
/// that does not compile, with its error message.
pub fn regex_replace_in_turn(log: &mut MachineIdRestorer, text: &str, steps: &Vec<(String, String)>) -> (res: Result<(String, usize), String>)
    ensures
        res is Ok <==> regex_replaced_in_turn(text@, steps@.map_values(|p: (String, String)| (p.0@, p.1@))) is Some,
        res matches Ok((t, n)) ==> regex_replaced_in_turn(text@, steps@.map_values(|p: (String, String)| (p.0@, p.1@))) == Some((t@, n as nat)),
        final(log).pending_log() == old(log).pending_log() + pattern_logs(text@, steps@.map_values(|p: (String, String)| (p.0@, p.1@))),
        final(log).db_path == old(log).db_path,
        final(log).sqlite_path == old(log).sqlite_path,
        final(log).log_file_path == old(log).log_file_path,
{
    let ghost sv = steps@.map_values(|p: (String, String)| (p.0@, p.1@));
    let mut cur = String::from_str(text);
    let mut count: usize = 0;
    let mut i: usize = 0;
    while i < steps.len()
        invariant
            i <= steps.len(),
            sv == steps@.map_values(|p: (String, String)| (p.0@, p.1@)),
            regex_replaced_in_turn(text@, sv.take(i as int)) == Some((cur@, count as nat)),
            count <= i,
            log.pending_log() == old(log).pending_log() + pattern_logs(text@, sv.take(i as int)),
            log.db_path == old(log).db_path,
            log.sqlite_path == old(log).sqlite_path,
            log.log_file_path == old(log).log_file_path,
        decreases steps.len() - i,
    {
        assert(sv.take(i + 1).drop_last() =~= sv.take(i as int));
        assert(sv.take(i + 1).last() == (steps@[i as int].0@, steps@[i as int].1@));
        let index = string_of(&decimal(i + 1));
        let line = concat_str("应用模式 ", index.as_str()).concat(": ").concat(steps[i].0.as_str());
        log.log_debug(line.as_str());
        let before = cur.as_str().len();
        match regex_replace_all(steps[i].0.as_str(), cur.as_str(), steps[i].1.as_str()) {
            Ok(next) => {
                let after = next.as_str().len();
                if before != after {
                    count += 1;
                    let line = concat_str("模式 ", index.as_str()).concat(" 已应用，内容长度从 ").concat(
                        string_of(&decimal(before)).as_str(),
                    ).concat(" 变为 ").concat(string_of(&decimal(after)).as_str());
                    log.log_info(line.as_str());
                } else {
                    let line = concat_str("模式 ", index.as_str()).concat(" 未找到匹配项");
                    log.log_debug(line.as_str());
                }
                cur = next;
            },
            Err(e) => {
                proof {
                    lemma_regex_none_stays(text@, sv, i as int);
                }
                return Err(e);
            },
        }
        i += 1;
    }
    assert(sv.take(steps.len() as int) =~= sv);
    Ok((cur, count))
}

/// Once a pattern fails, the whole chain fails, and no pattern after it is recorded.
proof fn lemma_regex_none_stays(text: Seq<char>, sv: Seq<(Seq<char>, Seq<char>)>, i: int)
    requires
        0 <= i < sv.len(),
        regex_replaced_in_turn(text, sv.take(i + 1)) is None,
    ensures
        regex_replaced_in_turn(text, sv) is None,
        pattern_logs(text, sv) == pattern_logs(text, sv.take(i + 1)),
    decreases sv.len() - i,
{
    if i + 1 < sv.len() {
        assert(sv.take(i + 2).drop_last() =~= sv.take(i + 1));
        lemma_regex_none_stays(text, sv, i + 1);
    } else {
        assert(sv.take(i + 1) =~= sv);
    }
}

/// The main.js edits: each getter returns its fallback value directly.
pub open spec fn main_js_steps() -> Seq<(Seq<char>, Seq<char>)> {
    seq![
        ("async getMachineId\\(\\)\\{return [^??]+\\?\\?([^}]+)\\}"@, "async getMachineId(){return $1}"@),
        ("async getMacMachineId\\(\\)\\{return [^??]+\\?\\?([^}]+)\\}"@, "async getMacMachineId(){return $1}"@),
    ]
}

/// The workbench edits: the upgrade button (whose form differs on macOS), the trial badge,
/// the notification toasts, the token limit, and the Pro status line.
pub open spec fn workbench_steps(macos: bool) -> Seq<(Seq<char>, Seq<char>)> {
    seq![
        if macos { ("M(x,I(as,{title:\"Upgrade to Pro\",size:\"small\",get codicon(){return $.rocket},get onClick(){return t.pay}}),null)"@, "M(x,I(as,{title:\"wuqi-y GitHub\",size:\"small\",get codicon(){return $.rocket},get onClick(){return function(){window.open(\"https://github.com/wuqi-y/auto-cursor-releases\",\"_blank\")}}}),null)"@) } else { ("$(k,E(Ks,{title:\"Upgrade to Pro\",size:\"small\",get codicon(){return F.rocket},get onClick(){return t.pay}}),null)"@, "$(k,E(Ks,{title:\"wuqi-y GitHub\",size:\"small\",get codicon(){return F.rocket},get onClick(){return function(){window.open(\"https://github.com/wuqi-y/auto-cursor-releases\",\"_blank\")}}}),null)"@) },
        ("<div>Pro Trial"@, "<div>Pro"@),
        ("notifications-toasts"@, "notifications-toasts hidden"@),
        ("async getEffectiveTokenLimit(e){const n=e.modelName;if(!n)return 2e5;"@, "async getEffectiveTokenLimit(e){return 9000000;const n=e.modelName;if(!n)return 9e5;"@),
        ("var DWr=ne(\"<div class=settings__item_description>You are currently signed in with <strong></strong>.\");"@, "var DWr=ne(\"<div class=settings__item_description>You are currently signed in with <strong></strong>. <h1>Pro</h1>\");"@),
    ]
}

/// What the workbench patch does to any text: on Windows and Linux it first turns the
/// bundle's `$(k,E(Ks,...` "Upgrade to Pro" button into the `wuqi-y GitHub` button that opens
/// the releases page, keeping that bundle's own names (`$`, `k`, `E`, `Ks`, `F.rocket`); on
/// macOS it does the same to the `M(x,I(as,...` button with its names (`M`, `x`, `I`, `as`,
/// `$.rocket`). Then, in order, the trial badge becomes `Pro`, the notification toasts are
/// hidden, the token limit returns 9000000, and the Pro line is added to the signed-in
/// description. Each edit replaces every occurrence, scanning from the left.
pub proof fn law_workbench_edits(content: Seq<char>)
    ensures
        replaced_in_turn(content, workbench_steps(false)).0 == replace_spec(
            replace_spec(
                replace_spec(
                    replace_spec(
                        replace_spec(content, "$(k,E(Ks,{title:\"Upgrade to Pro\",size:\"small\",get codicon(){return F.rocket},get onClick(){return t.pay}}),null)"@, "$(k,E(Ks,{title:\"wuqi-y GitHub\",size:\"small\",get codicon(){return F.rocket},get onClick(){return function(){window.open(\"https://github.com/wuqi-y/auto-cursor-releases\",\"_blank\")}}}),null)"@),
                        "<div>Pro Trial"@,
                        "<div>Pro"@,
                    ),
                    "notifications-toasts"@,
                    "notifications-toasts hidden"@,
                ),
                "async getEffectiveTokenLimit(e){const n=e.modelName;if(!n)return 2e5;"@,
                "async getEffectiveTokenLimit(e){return 9000000;const n=e.modelName;if(!n)return 9e5;"@,
            ),
            "var DWr=ne(\"<div class=settings__item_description>You are currently signed in with <strong></strong>.\");"@,
            "var DWr=ne(\"<div class=settings__item_description>You are currently signed in with <strong></strong>. <h1>Pro</h1>\");"@,
        ),
        replaced_in_turn(content, workbench_steps(true)).0 == replace_spec(
            replace_spec(
                replace_spec(
                    replace_spec(
                        replace_spec(content, "M(x,I(as,{title:\"Upgrade to Pro\",size:\"small\",get codicon(){return $.rocket},get onClick(){return t.pay}}),null)"@, "M(x,I(as,{title:\"wuqi-y GitHub\",size:\"small\",get codicon(){return $.rocket},get onClick(){return function(){window.open(\"https://github.com/wuqi-y/auto-cursor-releases\",\"_blank\")}}}),null)"@),
                        "<div>Pro Trial"@,
                        "<div>Pro"@,
                    ),
                    "notifications-toasts"@,
                    "notifications-toasts hidden"@,
                ),
                "async getEffectiveTokenLimit(e){const n=e.modelName;if(!n)return 2e5;"@,
                "async getEffectiveTokenLimit(e){return 9000000;const n=e.modelName;if(!n)return 9e5;"@,
            ),
            "var DWr=ne(\"<div class=settings__item_description>You are currently signed in with <strong></strong>.\");"@,
            "var DWr=ne(\"<div class=settings__item_description>You are currently signed in with <strong></strong>. <h1>Pro</h1>\");"@,
        ),
{
    reveal_with_fuel(replaced_in_turn, 6);
    let w = workbench_steps(false);
    let m = workbench_steps(true);
    assert(w.drop_last().drop_last().drop_last().drop_last().drop_last() =~= Seq::<(Seq<char>, Seq<char>)>::empty());
    assert(m.drop_last().drop_last().drop_last().drop_last().drop_last() =~= Seq::<(Seq<char>, Seq<char>)>::empty());
}

/// The marker lines around the injected script.
pub open spec fn start_marker() -> Seq<char> {
    "// Email update injection - START"@
}

pub open spec fn end_marker() -> Seq<char> {
    "// Email update injection - END"@
}

/// The script that shows `email` in Cursor's settings sidebar, between its markers.
pub open spec fn email_script(email: Seq<char>) -> Seq<char> {
    "\n"@ + start_marker() + "\n(function() {\n    try {\n        console.warn('Executing email update for: "@ + email + "');\n\n        function updateEmailDisplay(newEmail) {\n            const emailElement = document.querySelector('p[class=\"cursor-settings-sidebar-header-email\"]');\n            if (emailElement) {\n                emailElement.textContent = newEmail;\n                console.warn('Email display updated to:', newEmail);\n                return true;\n            }\n            return false;\n        }\n\n        // Try immediate update\n        if (updateEmailDisplay('"@ + email + "')) {\n            console.warn('Email updated successfully');\n            return; // Exit if successful\n        }\n\n        // If immediate update failed, use MutationObserver to watch for element\n        console.warn('Email element not found, setting up DOM observer...');\n\n        const observer = new MutationObserver(function(mutations) {\n            mutations.forEach(function(mutation) {\n                // Check if any new nodes were added\n                if (mutation.type === 'childList' && mutation.addedNodes.length > 0) {\n                    // Try to update email display\n                    if (updateEmailDisplay('"@ + email + "')) {\n                        console.warn('Email updated via DOM observer');\n                        // observer.disconnect(); // Stop observing once successful\n                    }\n                }\n            });\n        });\n\n        // Start observing the document for changes\n        if (document.body) {\n            observer.observe(document.body, {\n                childList: true,\n                subtree: true\n            });\n            console.warn('DOM observer started, watching for email element...');\n        } else {\n            // If body not ready, wait for it\n            document.addEventListener('DOMContentLoaded', function() {\n                observer.observe(document.body, {\n                    childList: true,\n                    subtree: true\n                });\n                console.warn('DOM observer started after DOMContentLoaded');\n            });\n        }\n\n        // Observer will automatically stop when email element is found and updated\n    } catch (e) {\n        console.warn('Error updating email display:', e);\n    }\n})();\n"@ + end_marker() + "\n"@
}

/// The workbench text with the email script in place: replacing an earlier injection (from
/// the first start marker to the end of the first end marker) when both markers are found,
/// else appended after a newline.
pub open spec fn email_injected(content: Seq<char>, email: Seq<char>) -> Seq<char> {
    match find_spec(content, start_marker(), 0) {
        Some(s) => match find_spec(content, end_marker(), 0) {
            Some(e) => content.take(s) + email_script(email) + content.skip(e + end_marker().len()),
            None => content + "\n"@ + email_script(email),
        },
        None => content + "\n"@ + email_script(email),
    }
}

fn pair(a: &str, b: &str) -> (res: (String, String))
    ensures
        res.0@ == a@ && res.1@ == b@,
{
    (String::from_str(a), String::from_str(b))
}

/// What is recorded of each workbench edit, in order.
pub open spec fn workbench_labels() -> Seq<(Seq<char>, Seq<char>, (LogLevel, Seq<char>))> {
    seq![
        ("应用按钮替换..."@, "按钮替换成功应用"@, (LogLevel::Warn, "按钮模式未找到匹配项"@)),
        ("应用徽章替换..."@, "徽章替换成功应用"@, (LogLevel::Debug, "徽章模式未找到匹配项"@)),
        ("应用通知隐藏..."@, "通知隐藏成功应用"@, (LogLevel::Debug, "通知模式未找到匹配项"@)),
        ("应用Token限制绕过..."@, "Token限制绕过成功应用"@, (LogLevel::Debug, "Token限制模式未找到匹配项"@)),
        ("应用Pro状态修改..."@, "Pro状态修改成功应用"@, (LogLevel::Debug, "Pro状态模式未找到匹配项"@)),
    ]
}

fn label(trying: &str, applied: &str, level: LogLevel, missed: &str) -> (res: StepLabel)
    ensures
        label_view(res) == (trying@, applied@, (level, missed@)),
{
    StepLabel {
        trying: String::from_str(trying),
        applied: String::from_str(applied),
        missed: LogEntry { level, message: String::from_str(missed) },
    }
}

fn workbench_step_labels() -> (res: Vec<StepLabel>)
    ensures
        res@.map_values(|l: StepLabel| label_view(l)) == workbench_labels(),
        res@.len() == 5,
{
    let mut v: Vec<StepLabel> = Vec::new();
    v.push(label("应用按钮替换...", "按钮替换成功应用", LogLevel::Warn, "按钮模式未找到匹配项"));
    v.push(label("应用徽章替换...", "徽章替换成功应用", LogLevel::Debug, "徽章模式未找到匹配项"));
    v.push(label("应用通知隐藏...", "通知隐藏成功应用", LogLevel::Debug, "通知模式未找到匹配项"));
    v.push(label("应用Token限制绕过...", "Token限制绕过成功应用", LogLevel::Debug, "Token限制模式未找到匹配项"));
    v.push(label("应用Pro状态修改...", "Pro状态修改成功应用", LogLevel::Debug, "Pro状态模式未找到匹配项"));
    assert(v@.map_values(|l: StepLabel| label_view(l)) =~= workbench_labels());
    v
}

impl MachineIdRestorer {
    /// main.js's text with its machine-id getters made to return their fallback values, and
    /// how many of the two edits changed the text; each edit is recorded.
    pub fn patch_main_js(&mut self, content: &str) -> (res: Result<(String, usize), String>)
        ensures
            res is Ok <==> regex_replaced_in_turn(content@, main_js_steps()) is Some,
            res matches Ok((t, n)) ==> regex_replaced_in_turn(content@, main_js_steps()) == Some((t@, n as nat)),
            final(self).pending_log() == old(self).pending_log() + pattern_logs(content@, main_js_steps()),
            final(self).db_path == old(self).db_path,
            final(self).sqlite_path == old(self).sqlite_path,
            final(self).log_file_path == old(self).log_file_path,
    {
        let mut steps: Vec<(String, String)> = Vec::new();
        steps.push(pair("async getMachineId\\(\\)\\{return [^??]+\\?\\?([^}]+)\\}", "async getMachineId(){return $1}"));
        steps.push(pair("async getMacMachineId\\(\\)\\{return [^??]+\\?\\?([^}]+)\\}", "async getMacMachineId(){return $1}"));
        assert(steps@.map_values(|p: (String, String)| (p.0@, p.1@)) =~= main_js_steps());
        regex_replace_in_turn(self, content, &steps)
    }

    /// The workbench script's text with the edits applied (the button edit in its macOS or
    /// other form), and how many of the five edits changed the text; each edit is recorded.
    pub fn patch_workbench_js(&mut self, content: &str, macos: bool) -> (res: (String, usize))
        ensures
            (res.0@, res.1 as nat) == replaced_in_turn(content@, workbench_steps(macos)),
            final(self).pending_log() == old(self).pending_log() + replacement_logs(
                content@,
                workbench_steps(macos),
                workbench_labels(),
            ),
            final(self).db_path == old(self).db_path,
            final(self).sqlite_path == old(self).sqlite_path,
            final(self).log_file_path == old(self).log_file_path,
    {
        let mut steps: Vec<(String, String)> = Vec::new();
        if macos {
            proof { reveal_strlit("M(x,I(as,{title:\"Upgrade to Pro\",size:\"small\",get codicon(){return $.rocket},get onClick(){return t.pay}}),null)"); }
            steps.push(pair("M(x,I(as,{title:\"Upgrade to Pro\",size:\"small\",get codicon(){return $.rocket},get onClick(){return t.pay}}),null)", "M(x,I(as,{title:\"wuqi-y GitHub\",size:\"small\",get codicon(){return $.rocket},get onClick(){return function(){window.open(\"https://github.com/wuqi-y/auto-cursor-releases\",\"_blank\")}}}),null)"));
        } else {
            proof { reveal_strlit("$(k,E(Ks,{title:\"Upgrade to Pro\",size:\"small\",get codicon(){return F.rocket},get onClick(){return t.pay}}),null)"); }
            steps.push(pair("$(k,E(Ks,{title:\"Upgrade to Pro\",size:\"small\",get codicon(){return F.rocket},get onClick(){return t.pay}}),null)", "$(k,E(Ks,{title:\"wuqi-y GitHub\",size:\"small\",get codicon(){return F.rocket},get onClick(){return function(){window.open(\"https://github.com/wuqi-y/auto-cursor-releases\",\"_blank\")}}}),null)"));
        }
        proof {
            reveal_strlit("<div>Pro Trial");
            reveal_strlit("notifications-toasts");
            reveal_strlit("async getEffectiveTokenLimit(e){const n=e.modelName;if(!n)return 2e5;");
            reveal_strlit("var DWr=ne(\"<div class=settings__item_description>You are currently signed in with <strong></strong>.\");");
        }
        steps.push(pair("<div>Pro Trial", "<div>Pro"));
        steps.push(pair("notifications-toasts", "notifications-toasts hidden"));
        steps.push(pair("async getEffectiveTokenLimit(e){const n=e.modelName;if(!n)return 2e5;", "async getEffectiveTokenLimit(e){return 9000000;const n=e.modelName;if(!n)return 9e5;"));
        steps.push(pair("var DWr=ne(\"<div class=settings__item_description>You are currently signed in with <strong></strong>.\");", "var DWr=ne(\"<div class=settings__item_description>You are currently signed in with <strong></strong>. <h1>Pro</h1>\");"));
        assert(steps@.map_values(|p: (String, String)| (p.0@, p.1@)) =~= workbench_steps(macos));
        assert(forall|i: int| 0 <= i < steps@.len() ==> (#[trigger] steps@[i]).0@.len() > 0) by {
            assert(steps@[0].0@.len() > 0);
            assert(steps@[1].0@.len() > 0);
            assert(steps@[2].0@.len() > 0);
            assert(steps@[3].0@.len() > 0);
            assert(steps@[4].0@.len() > 0);
        }
        let labels = workbench_step_labels();
        assert(steps@.len() == workbench_steps(macos).len());
        replace_in_turn(self, content, &steps, &labels)
    }

    /// The workbench script's text with the email-display script for `email` in place: an
    /// earlier injection (from its start marker to the end of its end marker) is replaced;
    /// otherwise the script is appended after a newline.
    pub fn inject_email_update_js(&self, content: &str, email: &str) -> (res: String)
        ensures
            res@ == email_injected(content@, email@),
    {
        let text = chars_of(content);
        let start = chars_of("// Email update injection - START");
        let end = chars_of("// Email update injection - END");
        let mut script: Vec<char> = Vec::new();
        script.push('\n');
        append_chars(&mut script, &start);
        append_chars(&mut script, &chars_of("\n(function() {\n    try {\n        console.warn('Executing email update for: "));
        append_chars(&mut script, &chars_of(email));
        append_chars(&mut script, &chars_of("');\n\n        function updateEmailDisplay(newEmail) {\n            const emailElement = document.querySelector('p[class=\"cursor-settings-sidebar-header-email\"]');\n            if (emailElement) {\n                emailElement.textContent = newEmail;\n                console.warn('Email display updated to:', newEmail);\n                return true;\n            }\n            return false;\n        }\n\n        // Try immediate update\n        if (updateEmailDisplay('"));
        append_chars(&mut script, &chars_of(email));
        append_chars(&mut script, &chars_of("')) {\n            console.warn('Email updated successfully');\n            return; // Exit if successful\n        }\n\n        // If immediate update failed, use MutationObserver to watch for element\n        console.warn('Email element not found, setting up DOM observer...');\n\n        const observer = new MutationObserver(function(mutations) {\n            mutations.forEach(function(mutation) {\n                // Check if any new nodes were added\n                if (mutation.type === 'childList' && mutation.addedNodes.length > 0) {\n                    // Try to update email display\n                    if (updateEmailDisplay('"));
        append_chars(&mut script, &chars_of(email));
        append_chars(&mut script, &chars_of("')) {\n                        console.warn('Email updated via DOM observer');\n                        // observer.disconnect(); // Stop observing once successful\n                    }\n                }\n            });\n        });\n\n        // Start observing the document for changes\n        if (document.body) {\n            observer.observe(document.body, {\n                childList: true,\n                subtree: true\n            });\n            console.warn('DOM observer started, watching for email element...');\n        } else {\n            // If body not ready, wait for it\n            document.addEventListener('DOMContentLoaded', function() {\n                observer.observe(document.body, {\n                    childList: true,\n                    subtree: true\n                });\n                console.warn('DOM observer started after DOMContentLoaded');\n            });\n        }\n\n        // Observer will automatically stop when email element is found and updated\n    } catch (e) {\n        console.warn('Error updating email display:', e);\n    }\n})();\n"));
        append_chars(&mut script, &end);
        script.push('\n');
        proof {
            reveal_strlit("\n");
        }
        assert(script@ =~= email_script(email@));
        let mut out: Vec<char> = Vec::new();
        match find_from(&text, &start, 0) {
            Some(s) => match find_from(&text, &end, 0) {
                Some(e) => {
                    proof {
                        lemma_find_spec(text@, end@, 0);
                        assert(occurs_at(text@, end@, e as int));
                        lemma_find_spec(text@, start@, 0);
                        assert(occurs_at(text@, start@, s as int));
                    }
                    append_chars(&mut out, &slice_chars(&text, 0, s));
                    append_chars(&mut out, &script);
                    append_chars(&mut out, &slice_chars(&text, e + end.len(), text.len()));
                    assert(text@.take(s as int) =~= text@.subrange(0, s as int));
                    assert(text@.skip(e + end@.len()) =~= text@.subrange(e + end.len(), text.len() as int));
                },
                None => {
                    append_chars(&mut out, &text);
                    out.push('\n');
                    append_chars(&mut out, &script);
                },
            },
            None => {
                append_chars(&mut out, &text);
                out.push('\n');
                append_chars(&mut out, &script);
            },
        }
        string_of(&out)
    }
}

/// Which of Cursor's scripts is being patched.
#[derive(PartialEq, Eq, Structural)]
pub enum JsFile {
    MainJs,
    Workbench,
}

/// How the records name a script.
pub open spec fn js_label(file: JsFile) -> Seq<char> {
    match file {
        JsFile::MainJs => "main.js"@,
        JsFile::Workbench => "workbench.desktop.main.js"@,
    }
}

fn js_label_text(file: &JsFile) -> (res: &'static str)
    ensures
        res@ == js_label(*file),
{
    match file {
        JsFile::MainJs => "main.js",
        JsFile::Workbench => "workbench.desktop.main.js",
    }
}

/// Where patching a script stands.
#[derive(PartialEq, Eq, Structural)]
pub enum JsStage {
    Read,
    Backup,
    Write,
    Finished,
}

/// Patching a script in progress: which script, where it is, the platform (which decides
/// the workbench's button edit), the text read so far and the stage.
pub struct JsPatchRun {
    pub file: JsFile,
    pub path: String,
    pub platform: Platform,
    pub content: String,
    pub stage: JsStage,
}

/// What the caller is asked to do next.
pub enum JsAction {
    /// Read the script at this path.
    Read(String),
    /// Copy the file at the first path to the second.
    Copy(String, String),
    /// Write this text to the script at this path.
    Write(String, String),
    Finish(Result<(), String>),
}

/// What the caller reports.
pub enum JsEvent {
    Read(Option<String>),
    Copied(bool),
    Written(bool),
}

/// The event answers the action of the stage.
pub open spec fn js_event_fits(stage: JsStage, event: JsEvent) -> bool {
    match event {
        JsEvent::Read(_) => stage == JsStage::Read,
        JsEvent::Copied(_) => stage == JsStage::Backup,
        JsEvent::Written(_) => stage == JsStage::Write,
    }
}

/// The edited text of a script, how many edits changed it, and the records of the edits:
/// `None` when a main.js pattern does not compile (the first result is then its records).
pub open spec fn js_edit(file: JsFile, platform: Platform, text: Seq<char>) -> (Option<(Seq<char>, nat)>, Seq<(LogLevel, Seq<char>)>) {
    match file {
        JsFile::MainJs => (regex_replaced_in_turn(text, main_js_steps()), pattern_logs(text, main_js_steps())),
        JsFile::Workbench => {
            let macos = platform == Platform::MacOs;
            (
                Some(replaced_in_turn(text, workbench_steps(macos))),
                seq![(LogLevel::Info, "当前平台: "@ + platform_name(platform) + ", 使用对应的按钮模式"@)]
                    + replacement_logs(text, workbench_steps(macos), workbench_labels()),
            )
        },
    }
}

/// How the records name the edits of a script.
pub open spec fn js_edit_noun(file: JsFile) -> Seq<char> {
    match file {
        JsFile::MainJs => "模式"@,
        JsFile::Workbench => "替换"@,
    }
}

impl MachineIdRestorer {
    /// Starts patching a script at `path` (which the caller found to exist or not): records
    /// the start; a missing file ends it with `<script> file not found: <path>`; otherwise
    /// reading it is asked for.
    pub fn modify_js(&mut self, file: JsFile, path: String, exists: bool, platform: Platform) -> (res: (JsPatchRun, JsAction))
        ensures
            res.0.file == file,
            res.0.path == path,
            res.0.platform == platform,
            exists ==> res.0.stage == JsStage::Read && (res.1 matches JsAction::Read(p) && p == path)
                && final(self).pending_log() == old(self).pending_log().push(
                (LogLevel::Info, "开始修改"@ + js_label(file) + "文件: "@ + debug_form(path@)),
            ).push((LogLevel::Debug, "读取"@ + js_label(file) + "文件内容..."@)),
            !exists ==> {
                let msg = js_label(file) + " file not found: "@ + path@;
                &&& res.0.stage == JsStage::Finished
                &&& res.1 matches JsAction::Finish(Err(e)) && e@ == msg
                &&& final(self).pending_log() == old(self).pending_log().push(
                    (LogLevel::Info, "开始修改"@ + js_label(file) + "文件: "@ + debug_form(path@)),
                ).push((LogLevel::Error, msg))
            },
            final(self).db_path == old(self).db_path,
            final(self).sqlite_path == old(self).sqlite_path,
            final(self).log_file_path == old(self).log_file_path,
    {
        let name = js_label_text(&file);
        let line = concat_str("开始修改", name).concat("文件: ").concat(debug_text(path.as_str()).as_str());
        self.log_info(line.as_str());
        if !exists {
            let msg = concat_str(name, " file not found: ").concat(path.as_str());
            self.log_error(msg.as_str());
            return (
                JsPatchRun { file, path, platform, content: String::new(), stage: JsStage::Finished },
                JsAction::Finish(Err(msg)),
            );
        }
        self.log_debug(concat_str("读取", name).concat("文件内容...").as_str());
        let target = path.clone();
        (JsPatchRun { file, path, platform, content: String::new(), stage: JsStage::Read }, JsAction::Read(target))
    }

    /// Takes the next step of patching a script, given what the caller reports.
    ///
    /// - Read: the size is recorded and a backup beside the script, named with `.backup.`
    ///   and the local time, is asked for. Unreadable: the patch fails.
    /// - Backed up: the edits are applied and recorded, their count recorded, and writing the
    ///   result is asked for (a main.js pattern that does not compile fails the patch). No
    ///   backup: the patch fails.
    /// - Written: the patch succeeds. Not written: it fails.
    pub fn modify_js_step(&mut self, run: JsPatchRun, event: JsEvent) -> (res: (JsPatchRun, JsAction))
        requires
            js_event_fits(run.stage, event),
        ensures
            res.0.file == run.file,
            res.0.path == run.path,
            res.0.platform == run.platform,
            final(self).db_path == old(self).db_path,
            final(self).sqlite_path == old(self).sqlite_path,
            final(self).log_file_path == old(self).log_file_path,
            event matches JsEvent::Read(None) ==> res.0.stage == JsStage::Finished && (res.1 matches JsAction::Finish(
                Err(e),
            ) && e@ == "Failed to read "@ + js_label(run.file) + " file"@) && final(self).pending_log() == old(
                self,
            ).pending_log(),
            event matches JsEvent::Read(Some(text)) ==> {
                &&& res.0.stage == JsStage::Backup
                &&& res.0.content == text
                &&& res.1 matches JsAction::Copy(from, to) && from == run.path && exists|ts: Seq<char>|
                    is_compact_stamp(ts) && to@ == run.path@ + ".backup."@ + ts && final(self).pending_log() == old(self).pending_log().push(
                    (LogLevel::Info, js_label(run.file) + "文件大小: "@ + decimal_spec(byte_len(text@) as nat) + " 字节"@),
                ).push((LogLevel::Info, "创建"@ + js_label(run.file) + "备份: "@ + to@))
            },
            event matches JsEvent::Copied(false) ==> res.0.stage == JsStage::Finished && (res.1 matches JsAction::Finish(
                Err(e),
            ) && e@ == "Failed to create backup of "@ + js_label(run.file)) && final(self).pending_log() == old(
                self,
            ).pending_log(),
            event matches JsEvent::Copied(true) ==> {
                let (edited, logs) = js_edit(run.file, run.platform, run.content@);
                match edited {
                    None => res.0.stage == JsStage::Finished && (res.1 matches JsAction::Finish(Err(_)))
                        && final(self).pending_log() == old(self).pending_log() + logs,
                    Some((t, n)) => {
                        &&& res.0.stage == JsStage::Write
                        &&& res.1 matches JsAction::Write(p, w) && p == run.path && w@ == t
                        &&& final(self).pending_log() == old(self).pending_log() + logs + seq![
                            (LogLevel::Info, "总共应用了 "@ + decimal_spec(n) + " 个"@ + js_edit_noun(run.file)),
                            (LogLevel::Debug, "写入修改后的"@ + js_label(run.file) + "内容..."@),
                        ]
                    },
                }
            },
            event matches JsEvent::Written(ok) ==> res.0.stage == JsStage::Finished && if ok {
                (res.1 matches JsAction::Finish(Ok(_))) && final(self).pending_log() == old(self).pending_log().push(
                    (LogLevel::Info, js_label(run.file) + "文件修改完成"@),
                )
            } else {
                (res.1 matches JsAction::Finish(Err(e)) && e@ == "Failed to write modified "@ + js_label(run.file))
                    && final(self).pending_log() == old(self).pending_log()
            },
    {
        let JsPatchRun { file, path, platform, content, stage: _ } = run;
        let name = js_label_text(&file);
        match event {
            JsEvent::Read(text) => match text {
                None => {
                    let e = concat_str("Failed to read ", name).concat(" file");
                    (JsPatchRun { file, path, platform, content, stage: JsStage::Finished }, JsAction::Finish(Err(e)))
                },
                Some(text) => {
                    let size = string_of(&decimal(text.as_str().len()));
                    self.log_info(concat_str(name, "文件大小: ").concat(size.as_str()).concat(" 字节").as_str());
                    let ts = local_now_compact_text();
                    let backup = concat_str(path.as_str(), ".backup.").concat(ts.as_str());
                    assert(backup@ == path@ + ".backup."@ + ts@);
                    self.log_info(concat_str("创建", name).concat("备份: ").concat(backup.as_str()).as_str());
                    let from = path.clone();
                    (JsPatchRun { file, path, platform, content: text, stage: JsStage::Backup }, JsAction::Copy(from, backup))
                },
            },
            JsEvent::Copied(ok) => {
                if !ok {
                    let e = concat_str("Failed to create backup of ", name);
                    return (JsPatchRun { file, path, platform, content, stage: JsStage::Finished }, JsAction::Finish(Err(e)));
                }
                let edited = match file {
                    JsFile::MainJs => self.patch_main_js(content.as_str()),
                    JsFile::Workbench => {
                        let os = match platform {
                            Platform::Windows => "windows",
                            Platform::MacOs => "macos",
                            Platform::Linux => "linux",
                        };
                        self.log_info(concat_str("当前平台: ", os).concat(", 使用对应的按钮模式").as_str());
                        let macos = match platform {
                            Platform::MacOs => true,
                            _ => false,
                        };
                        Ok(self.patch_workbench_js(content.as_str(), macos))
                    },
                };
                match edited {
                    Err(e) => (JsPatchRun { file, path, platform, content, stage: JsStage::Finished }, JsAction::Finish(Err(e))),
                    Ok((t, n)) => {
                        let noun = match file {
                            JsFile::MainJs => "模式",
                            JsFile::Workbench => "替换",
                        };
                        self.log_info(concat_str("总共应用了 ", string_of(&decimal(n)).as_str()).concat(" 个").concat(noun).as_str());
                        self.log_debug(concat_str("写入修改后的", name).concat("内容...").as_str());
                        let target = path.clone();
                        (JsPatchRun { file, path, platform, content, stage: JsStage::Write }, JsAction::Write(target, t))
                    },
                }
            },
            JsEvent::Written(ok) => {
                if ok {
                    self.log_info(concat_str(name, "文件修改完成").as_str());
                    (JsPatchRun { file, path, platform, content, stage: JsStage::Finished }, JsAction::Finish(Ok(())))
                } else {
                    let e = concat_str("Failed to write modified ", name);
                    (JsPatchRun { file, path, platform, content, stage: JsStage::Finished }, JsAction::Finish(Err(e)))
                }
            },
        }
    }
}

} // verus!
