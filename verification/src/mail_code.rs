//! Finding the six-digit verification code in the mail Cursor sends, and the rules for
//! asking a mailbox again.
use vstd::prelude::*;

use crate::deps::{
    json_array_member, json_get_array, json_get_str, json_members, json_parse, json_parsed,
    member_text, regex_capture_first, regex_first_group, regex_replace_all, regex_replaced,
};

verus! {

/// The first group of the leftmost match of `pattern` in `text`, when the pattern compiles
/// and matches.
pub open spec fn first_group(pattern: Seq<char>, text: Seq<char>) -> Option<Seq<char>> {
    match regex_first_group(pattern, text) {
        Some(Some(g)) => Some(g),
        _ => None,
    }
}

fn capture(pattern: &str, text: &str) -> (res: Option<String>)
    ensures
        match res {
            Some(g) => first_group(pattern@, text@) == Some(g@),
            None => first_group(pattern@, text@) is None,
        },
{
    match regex_capture_first(pattern, text) {
        Ok(Some(g)) => Some(g),
        _ => None,
    }
}

fn remove_matches(pattern: &str, text: &str) -> (res: Option<String>)
    ensures
        match res {
            Some(t) => regex_replaced(pattern@, text@, ""@) == Some(t@),
            None => regex_replaced(pattern@, text@, ""@) is None,
        },
{
    match regex_replace_all(pattern, text, "") {
        Ok(t) => Some(t),
        Err(_) => None,
    }
}

/// Six digits standing alone, the last resort of both searches.
pub open spec fn lone_code_pattern() -> Seq<char> {
    "\\b(\\d{6})\\b"@
}

/// A colour such as `#414141`, which is not a code.
pub open spec fn colour_pattern() -> Seq<char> {
    "#([0-9a-fA-F]{6})\\b"@
}

/// The code in the body of a mail: after `code is `, then after `验证码为：`, then after
/// `verification code is: `; failing those, six digits standing alone once six digits
/// after a `+`, and then colours, are removed.
pub open spec fn code_in_content(content: Seq<char>) -> Option<Seq<char>> {
    if first_group("code is (\\d{6})"@, content) is Some {
        first_group("code is (\\d{6})"@, content)
    } else if first_group("验证码为：(\\d{6})"@, content) is Some {
        first_group("验证码为：(\\d{6})"@, content)
    } else if first_group("verification code is: (\\d{6})"@, content) is Some {
        first_group("verification code is: (\\d{6})"@, content)
    } else {
        match regex_replaced("\\+\\d{6}"@, content, ""@) {
            Some(without_plus) => match regex_replaced(colour_pattern(), without_plus, ""@) {
                Some(cleaned) => first_group(lone_code_pattern(), cleaned),
                None => None,
            },
            None => None,
        }
    }
}

/// How a code is found in the body of a mail, for any text: after `code is `, then after
/// `验证码为：`, then after `verification code is: `. Failing those, six digits after a `+`
/// are removed, then the colours written `#RRGGBB` (followed by a word boundary), so that
/// neither is taken for the code; the code is the first run of six digits standing alone
/// in what is left. When a pattern cannot be used, no code is found.
pub proof fn law_content_code_skips_colours(content: Seq<char>)
    ensures
        first_group("code is (\\d{6})"@, content) is Some ==> code_in_content(content) == first_group("code is (\\d{6})"@, content),
        first_group("code is (\\d{6})"@, content) is None && first_group("验证码为：(\\d{6})"@, content) is Some
            ==> code_in_content(content) == first_group("验证码为：(\\d{6})"@, content),
        first_group("code is (\\d{6})"@, content) is None && first_group("验证码为：(\\d{6})"@, content) is None
            && first_group("verification code is: (\\d{6})"@, content) is Some
            ==> code_in_content(content) == first_group("verification code is: (\\d{6})"@, content),
        first_group("code is (\\d{6})"@, content) is None && first_group("验证码为：(\\d{6})"@, content) is None
            && first_group("verification code is: (\\d{6})"@, content) is None
            ==> code_in_content(content) == match regex_replaced("\\+\\d{6}"@, content, ""@) {
            Some(no_plus) => match regex_replaced("#([0-9a-fA-F]{6})\\b"@, no_plus, ""@) {
                Some(rest) => first_group("\\b(\\d{6})\\b"@, rest),
                None => None,
            },
            None => None,
        },
{
}

/// The verification code in the body of a mail, if one is found.
pub fn extract_verification_code_from_content(content: &str) -> (res: Option<String>)
    ensures
        match res {
            Some(c) => code_in_content(content@) == Some(c@),
            None => code_in_content(content@) is None,
        },
{
    match capture("code is (\\d{6})", content) {
        Some(c) => return Some(c),
        None => {},
    }
    match capture("验证码为：(\\d{6})", content) {
        Some(c) => return Some(c),
        None => {},
    }
    match capture("verification code is: (\\d{6})", content) {
        Some(c) => return Some(c),
        None => {},
    }
    let without_plus = match remove_matches("\\+\\d{6}", content) {
        Some(t) => t,
        None => return None,
    };
    match remove_matches("#([0-9a-fA-F]{6})\\b", without_plus.as_str()) {
        Some(cleaned) => capture("\\b(\\d{6})\\b", cleaned.as_str()),
        None => None,
    }
}

/// The code in the raw text of a mail from a temporary mailbox: after `code is `, then
/// after `code is:` and any spaces; failing those, six digits standing alone once colours
/// and six digits after `+`, `@` or `=` are removed.
pub open spec fn code_in_mail(raw: Seq<char>) -> Option<Seq<char>> {
    if first_group("code is (\\d{6})"@, raw) is Some {
        first_group("code is (\\d{6})"@, raw)
    } else if first_group("code is:\\s*(\\d{6})"@, raw) is Some {
        first_group("code is:\\s*(\\d{6})"@, raw)
    } else {
        match regex_replaced(colour_pattern(), raw, ""@) {
            Some(a) => match regex_replaced("\\+\\d{6}"@, a, ""@) {
                Some(b) => match regex_replaced("@\\d{6}"@, b, ""@) {
                    Some(c) => match regex_replaced("=\\d{6}"@, c, ""@) {
                        Some(d) => first_group(lone_code_pattern(), d),
                        None => None,
                    },
                    None => None,
                },
                None => None,
            },
            None => None,
        }
    }
}

/// How a code is found in a temporary mailbox's mail, for any text: a code after `code is `
/// comes first, then one after `code is:` and any spaces. Failing those, the colours written
/// `#RRGGBB` (followed by a word boundary) are removed first, so a colour is never taken for
/// the code; then six digits after a `+`, after an `@` and after an `=`; and the code is the
/// first run of six digits standing alone in what is left. When a pattern cannot be used, no
/// code is found.
pub proof fn law_mail_code_skips_colours(raw: Seq<char>)
    ensures
        first_group("code is (\\d{6})"@, raw) is Some ==> code_in_mail(raw) == first_group("code is (\\d{6})"@, raw),
        first_group("code is (\\d{6})"@, raw) is None && first_group("code is:\\s*(\\d{6})"@, raw) is Some
            ==> code_in_mail(raw) == first_group("code is:\\s*(\\d{6})"@, raw),
        first_group("code is (\\d{6})"@, raw) is None && first_group("code is:\\s*(\\d{6})"@, raw) is None
            ==> code_in_mail(raw) == match regex_replaced("#([0-9a-fA-F]{6})\\b"@, raw, ""@) {
            Some(no_colours) => match regex_replaced("\\+\\d{6}"@, no_colours, ""@) {
                Some(no_plus) => match regex_replaced("@\\d{6}"@, no_plus, ""@) {
                    Some(no_at) => match regex_replaced("=\\d{6}"@, no_at, ""@) {
                        Some(rest) => first_group("\\b(\\d{6})\\b"@, rest),
                        None => None,
                    },
                    None => None,
                },
                None => None,
            },
            None => None,
        },
{
}

/// The verification code in the raw text of a mail from a temporary mailbox.
pub fn code_from_mail(raw: &str) -> (res: Option<String>)
    ensures
        match res {
            Some(c) => code_in_mail(raw@) == Some(c@),
            None => code_in_mail(raw@) is None,
        },
{
    match capture("code is (\\d{6})", raw) {
        Some(c) => return Some(c),
        None => {},
    }
    match capture("code is:\\s*(\\d{6})", raw) {
        Some(c) => return Some(c),
        None => {},
    }
    let a = match remove_matches("#([0-9a-fA-F]{6})\\b", raw) {
        Some(t) => t,
        None => return None,
    };
    let b = match remove_matches("\\+\\d{6}", a.as_str()) {
        Some(t) => t,
        None => return None,
    };
    let c = match remove_matches("@\\d{6}", b.as_str()) {
        Some(t) => t,
        None => return None,
    };
    let d = match remove_matches("=\\d{6}", c.as_str()) {
        Some(t) => t,
        None => return None,
    };
    capture("\\b(\\d{6})\\b", d.as_str())
}

/// A mail as the temporary mailbox lists it.
pub struct MailboxMail {
    pub raw: Option<String>,
}

/// The code in the newest mail of a listing, when the listing has mail with raw text.
pub open spec fn code_in_listing(results: Option<Seq<MailboxMail>>) -> Option<Seq<char>> {
    match results {
        Some(mails) => if mails.len() > 0 {
            match mails[0].raw {
                Some(raw) => code_in_mail(raw@),
                None => None,
            }
        } else {
            None
        },
        None => None,
    }
}

/// Looks for the code in the newest mail of a temporary mailbox's listing.
pub fn code_from_listing(results: &Option<Vec<MailboxMail>>) -> (res: Option<String>)
    ensures
        match res {
            Some(c) => code_in_listing(
                match results {
                    Some(m) => Some(m@),
                    None => None,
                },
            ) == Some(c@),
            None => code_in_listing(
                match results {
                    Some(m) => Some(m@),
                    None => None,
                },
            ) is None,
        },
{
    match results {
        Some(mails) => {
            if mails.len() > 0 {
                match &mails[0].raw {
                    Some(raw) => code_from_mail(raw.as_str()),
                    None => None,
                }
            } else {
                None
            }
        },
        None => None,
    }
}

/// The first code found in the `Body` texts of the listed mails, in order.
pub open spec fn first_code_in_bodies(items: Seq<serde_json::Value>) -> Option<Seq<char>>
    decreases items.len(),
{
    if items.len() == 0 {
        None
    } else {
        let found = match member_text(json_members(items[0]), "Body"@) {
            Some(body) => code_in_content(body),
            None => None,
        };
        if found is Some {
            found
        } else {
            first_code_in_bodies(items.drop_first())
        }
    }
}

/// The code in an Outlook mailbox's answer: the first mail in its `data` array whose body
/// holds one. An answer that is not JSON, or has no such array, holds none.
pub open spec fn code_in_outlook_answer(text: Seq<char>) -> Option<Seq<char>> {
    match json_parsed(text) {
        Some(v) => match json_array_member(v, "data"@) {
            Some(items) => first_code_in_bodies(items),
            None => None,
        },
        None => None,
    }
}

/// Looks for the code in an Outlook mailbox's answer.
pub fn code_from_outlook_answer(text: &str) -> (res: Option<String>)
    ensures
        match res {
            Some(c) => code_in_outlook_answer(text@) == Some(c@),
            None => code_in_outlook_answer(text@) is None,
        },
{
    let v = match json_parse(text) {
        Ok(v) => v,
        Err(_) => return None,
    };
    let items = match json_get_array(&v, "data") {
        Some(items) => items,
        None => return None,
    };
    let mut i: usize = 0;
    assert(items@.skip(0) =~= items@);
    while i < items.len()
        invariant
            i <= items@.len(),
            code_in_outlook_answer(text@) == first_code_in_bodies(items@.skip(i as int)),
        decreases items.len() - i,
    {
        let ghost rest = items@.skip(i as int);
        assert(rest.drop_first() =~= items@.skip(i + 1));
        assert(rest[0] == items@[i as int]);
        match json_get_str(&items[i], "Body") {
            Some(body) => match extract_verification_code_from_content(body.as_str()) {
                Some(code) => return Some(code),
                None => {},
            },
            None => {},
        }
        i += 1;
    }
    assert(items@.skip(items@.len() as int).len() == 0);
    None
}

/// What to do after asking a mailbox for the code.
pub enum PollStep {
    /// The code was found.
    Found(String),
    /// Ask again, as attempt `next`, after waiting.
    Retry(u32),
    /// The attempts are used up.
    GiveUp,
}

/// The decision after attempt `attempt` of `limit` (counted from 1): a found code ends the
/// polling; otherwise another attempt follows until `limit` attempts were made.
pub fn poll_step(attempt: u32, limit: u32, found: Option<String>) -> (res: PollStep)
    requires
        1 <= attempt <= limit,
    ensures
        match found {
            Some(c) => res matches PollStep::Found(r) && r == c,
            None => if attempt < limit {
                res matches PollStep::Retry(n) && n == attempt + 1
            } else {
                res is GiveUp
            },
        },
{
    match found {
        Some(c) => PollStep::Found(c),
        None => if attempt < limit {
            PollStep::Retry(attempt + 1)
        } else {
            PollStep::GiveUp
        },
    }
}

} // verus!
