//! Registering Cursor accounts through the bundled registration program: the arguments it
//! is started with, the bank card it is handed, what its output lines ask for, and the
//! result read back from its output.
use vstd::prelude::*;

use crate::account::concat_str;
use crate::deps::{
    base64_standard, base64_standard_of, json_flag, json_get_bool, json_get_str,
    lowercase_of, member_text, random_alphanumeric, random_in_range, random_u32, to_lowercase,
    url_encode, url_encoded_of, json_array_member, json_error_text, json_get_array,
    json_members, json_number_object_text, json_parse, json_parsed,
    json_pretty_text, json_to_pretty, debug_form, debug_text,
};
use crate::text::{
    bool_text, bool_text_spec, chars_of, contains, contains_spec,
    decimal, decimal_spec, string_of, trim, trim_spec, views,
};

verus! {

/// `o`, or `d` when it is absent.
pub open spec fn or_default(o: Option<bool>, d: bool) -> bool {
    match o {
        Some(b) => b,
        None => d,
    }
}

/// The incognito argument: `true` unless the caller turned it off.
pub fn incognito_flag(use_incognito: Option<bool>) -> (res: String)
    ensures
        res@ == bool_text_spec(or_default(use_incognito, true)),
{
    bool_text(match use_incognito {
        Some(b) => b,
        None => true,
    })
}

/// The bank-card argument: `true` unless the caller turned binding off.
pub fn bank_card_flag(enable_bank_card_binding: Option<bool>) -> (res: String)
    ensures
        res@ == bool_text_spec(or_default(enable_bank_card_binding, true)),
{
    bool_text(match enable_bank_card_binding {
        Some(b) => b,
        None => true,
    })
}

/// The phone-verification argument: `1` when the caller asked to skip it, else `0`.
pub fn skip_phone_flag(skip_phone_verification: Option<bool>) -> (res: String)
    ensures
        res@ == (if or_default(skip_phone_verification, false) {
            "1"@
        } else {
            "0"@
        }),
{
    if match skip_phone_verification {
        Some(b) => b,
        None => false,
    } {
        String::from_str("1")
    } else {
        String::from_str("0")
    }
}

/// The configuration argument: the compact JSON object `{"btnIndex":n}`.
pub open spec fn button_config_text(n: nat) -> Seq<char> {
    "{\"btnIndex\":"@ + decimal_spec(n) + "}"@
}

/// The configuration argument for the button at `btn_index` (1 when absent).
pub fn button_config(btn_index: Option<u32>) -> (res: String)
    ensures
        res@ == button_config_text(
            match btn_index {
                Some(n) => n as nat,
                None => 1,
            },
        ),
{
    let n: u32 = match btn_index {
        Some(n) => n,
        None => 1,
    };
    let key = "btnIndex";
    proof {
        reveal_strlit("btnIndex");
        reveal_strlit("{\"btnIndex\":");
        reveal_strlit("{\"");
        reveal_strlit("\":");
    }
    let text = json_number_object_text(key, n);
    assert(text@ =~= button_config_text(n as nat));
    text
}

/// The arguments the registration program is started with, in order: email, first name,
/// last name, incognito flag, the application directory in base64, bank-card flag,
/// phone-verification flag and the configuration object.
pub fn registration_args(
    email: &str,
    first_name: &str,
    last_name: &str,
    use_incognito: Option<bool>,
    app_dir: &str,
    enable_bank_card_binding: Option<bool>,
    skip_phone_verification: Option<bool>,
    btn_index: Option<u32>,
) -> (res: Vec<String>)
    ensures
        res@.len() == 8,
        res@[0]@ == email@,
        res@[1]@ == first_name@,
        res@[2]@ == last_name@,
        res@[3]@ == bool_text_spec(or_default(use_incognito, true)),
        res@[4]@ == base64_standard_of(app_dir@),
        res@[5]@ == bool_text_spec(or_default(enable_bank_card_binding, true)),
        res@[6]@ == (if or_default(skip_phone_verification, false) {
            "1"@
        } else {
            "0"@
        }),
        res@[7]@ == button_config_text(
            match btn_index {
                Some(n) => n as nat,
                None => 1,
            },
        ),
{
    let mut args: Vec<String> = Vec::new();
    args.push(String::from_str(email));
    args.push(String::from_str(first_name));
    args.push(String::from_str(last_name));
    args.push(incognito_flag(use_incognito));
    args.push(base64_standard(app_dir));
    args.push(bank_card_flag(enable_bank_card_binding));
    args.push(skip_phone_flag(skip_phone_verification));
    args.push(button_config(btn_index));
    args
}


/// The prefix of the error given for a bank-card configuration that is not JSON.
pub open spec fn card_parse_error_prefix() -> Seq<char> {
    "解析银行卡配置失败: "@
}

/// The error given when the configuration lists no card.
pub open spec fn no_card_error() -> Seq<char> {
    "银行卡配置为空，请先配置至少一张银行卡"@
}

/// The text a card is handed to the registration program as: its pretty JSON, or `{}` when
/// that cannot be written.
pub open spec fn card_text_spec(card: serde_json::Value) -> Seq<char> {
    match json_pretty_text(card) {
        Some(t) => t,
        None => "{}"@,
    }
}

/// The cards a configuration holds: the items of its `cards` array, or, in the older form
/// without such an array, the whole configuration as the one card.
pub open spec fn cards_of(config: serde_json::Value) -> Seq<serde_json::Value> {
    match json_array_member(config, "cards"@) {
        Some(items) => items,
        None => seq![config],
    }
}

/// Writes a card for the registration program.
pub fn card_text(card: &serde_json::Value) -> (res: String)
    ensures
        res@ == card_text_spec(*card),
{
    match json_to_pretty(card) {
        Ok(t) => t,
        Err(_) => String::from_str("{}"),
    }
}

/// Reads a bank-card configuration: the parsed value and its `cards` array, if it has one.
/// The error names why the text is not JSON.
pub fn read_bank_card_config(config: &str) -> (res: Result<(serde_json::Value, Option<Vec<serde_json::Value>>), String>)
    ensures
        res is Ok <==> json_parsed(config@) is Some,
        res matches Ok((v, cards)) ==> json_parsed(config@) == Some(v) && match cards {
            Some(c) => json_array_member(v, "cards"@) == Some(c@),
            None => json_array_member(v, "cards"@) is None,
        },
        res matches Err(e) ==> exists|t: Seq<char>| e@ == card_parse_error_prefix() + t,
{
    match json_parse(config) {
        Ok(v) => {
            let cards = json_get_array(&v, "cards");
            Ok((v, cards))
        },
        Err(e) => {
            let reason = json_error_text(&e);
            let msg = concat_str("解析银行卡配置失败: ", reason.as_str());
            assert(msg@ == card_parse_error_prefix() + reason@);
            Err(msg)
        },
    }
}

/// The card a single registration is given: the first listed card, or the whole
/// configuration in the older form. A configuration that is not JSON, or that lists no card,
/// is refused.
pub fn first_bank_card(config: &str) -> (res: Result<String, String>)
    ensures
        match json_parsed(config@) {
            None => res matches Err(e) && exists|t: Seq<char>| e@ == card_parse_error_prefix() + t,
            Some(v) => match json_array_member(v, "cards"@) {
                Some(items) => if items.len() == 0 {
                    res matches Err(e) && e@ == no_card_error()
                } else {
                    res matches Ok(t) && t@ == card_text_spec(items[0])
                },
                None => res matches Ok(t) && t@ == card_text_spec(v),
            },
        },
{
    match read_bank_card_config(config) {
        Err(e) => Err(e),
        Ok((v, cards)) => match cards {
            Some(items) => {
                if items.len() == 0 {
                    Err(String::from_str("银行卡配置为空，请先配置至少一张银行卡"))
                } else {
                    Ok(card_text(&items[0]))
                }
            },
            None => Ok(card_text(&v)),
        },
    }
}

/// The cards a batch of registrations is given, one per registration in order.
pub fn bank_card_list(config: &str) -> (res: Result<Vec<serde_json::Value>, String>)
    ensures
        match json_parsed(config@) {
            None => res matches Err(e) && exists|t: Seq<char>| e@ == card_parse_error_prefix() + t,
            Some(v) => res matches Ok(cards) && cards@ == cards_of(v),
        },
{
    match read_bank_card_config(config) {
        Err(e) => Err(e),
        Ok((v, cards)) => match cards {
            Some(items) => Ok(items),
            None => {
                let mut one: Vec<serde_json::Value> = Vec::new();
                one.push(v);
                assert(one@ =~= seq![v]);
                Ok(one)
            },
        },
    }
}

/// A line of the program's output asks for the code the user types in.
pub open spec fn waits_for_typed_code_spec(line: Seq<char>) -> bool {
    contains_spec(line, "等待前端输入验证码"@) || contains_spec(line, "request_verification_code"@)
}

/// A line of the program's output asks for the code mailed to a temporary mailbox.
pub open spec fn waits_for_mailed_code_spec(line: Seq<char>) -> bool {
    contains_spec(line, "等待验证码"@) || contains_spec(line, "request_verification_code"@)
}

/// A line of the program's output asks for the code mailed to an Outlook mailbox.
pub open spec fn waits_for_outlook_code_spec(line: Seq<char>) -> bool {
    ||| contains_spec(line, "等待验证码"@)
    ||| contains_spec(line, "request_verification_code"@)
    ||| contains_spec(line, "需要邮箱验证码"@)
    ||| contains_spec(line, "请输入验证码"@)
}

/// A line of the program's output says that waiting for the code timed out.
pub open spec fn code_wait_timed_out_spec(line: Seq<char>) -> bool {
    contains_spec(line, "verification_timeout"@) || contains_spec(line, "manual_input_required"@)
}

/// Which output lines ask for a code, in each flow: a line with `request_verification_code`
/// asks for it in every flow; `等待前端输入验证码` asks the user to type it; `等待验证码` asks
/// for the mailed code in both mailbox flows; `需要邮箱验证码` and `请输入验证码` ask for it in
/// the Outlook flow. So every line on which the temporary-mailbox flow fetches its code
/// also makes the Outlook flow fetch one.
pub proof fn law_code_requests(line: Seq<char>)
    ensures
        contains_spec(line, "request_verification_code"@) ==> waits_for_typed_code_spec(line)
            && waits_for_mailed_code_spec(line) && waits_for_outlook_code_spec(line),
        contains_spec(line, "等待前端输入验证码"@) ==> waits_for_typed_code_spec(line),
        contains_spec(line, "等待验证码"@) ==> waits_for_mailed_code_spec(line) && waits_for_outlook_code_spec(line),
        contains_spec(line, "需要邮箱验证码"@) ==> waits_for_outlook_code_spec(line),
        contains_spec(line, "请输入验证码"@) ==> waits_for_outlook_code_spec(line),
        waits_for_mailed_code_spec(line) ==> waits_for_outlook_code_spec(line),
        contains_spec(line, "verification_timeout"@) || contains_spec(line, "manual_input_required"@)
            ==> code_wait_timed_out_spec(line),
{
}

fn mentions(line: &Vec<char>, needle: &str) -> (res: bool)
    ensures
        res == contains_spec(line@, needle@),
{
    contains(line, &chars_of(needle))
}

/// Whether an output line asks for the code the user types in.
pub fn waits_for_typed_code(line: &str) -> (res: bool)
    ensures
        res == waits_for_typed_code_spec(line@),
{
    let l = chars_of(line);
    mentions(&l, "等待前端输入验证码") || mentions(&l, "request_verification_code")
}

/// Whether an output line asks for the code mailed to a temporary mailbox.
pub fn waits_for_mailed_code(line: &str) -> (res: bool)
    ensures
        res == waits_for_mailed_code_spec(line@),
{
    let l = chars_of(line);
    mentions(&l, "等待验证码") || mentions(&l, "request_verification_code")
}

/// Whether an output line asks for the code mailed to an Outlook mailbox.
pub fn waits_for_outlook_code(line: &str) -> (res: bool)
    ensures
        res == waits_for_outlook_code_spec(line@),
{
    let l = chars_of(line);
    mentions(&l, "等待验证码") || mentions(&l, "request_verification_code") || mentions(
        &l,
        "需要邮箱验证码",
    ) || mentions(&l, "请输入验证码")
}

/// Whether an output line says that waiting for the code timed out.
pub fn code_wait_timed_out(line: &str) -> (res: bool)
    ensures
        res == code_wait_timed_out_spec(line@),
{
    let l = chars_of(line);
    mentions(&l, "verification_timeout") || mentions(&l, "manual_input_required")
}

/// Lines joined with newlines between them.
pub open spec fn joined_lines(lines: Seq<Seq<char>>) -> Seq<char>
    decreases lines.len(),
{
    if lines.len() == 0 {
        Seq::empty()
    } else if lines.len() == 1 {
        lines[0]
    } else {
        joined_lines(lines.drop_last()) + "\n"@ + lines.last()
    }
}

/// The lines joined with newlines between them.
pub fn join_lines(lines: &Vec<String>) -> (res: String)
    ensures
        res@ == joined_lines(views(lines@)),
{
    let mut out = String::new();
    let mut i: usize = 0;
    while i < lines.len()
        invariant
            i <= lines.len(),
            out@ == joined_lines(views(lines@).take(i as int)),
        decreases lines.len() - i,
    {
        let ghost before = views(lines@).take(i as int);
        if i > 0 {
            out = out.concat("\n");
        }
        out = out.concat(lines[i].as_str());
        proof {
            let now = views(lines@).take(i + 1);
            assert(now.drop_last() =~= before);
            assert(now.last() == lines@[i as int]@);
            if i == 0 {
                assert(before.len() == 0);
                assert(out@ =~= now[0]);
            }
        }
        i += 1;
    }
    assert(views(lines@).take(lines.len() as int) =~= views(lines@));
    out
}

/// A line holding the program's report: trimmed, it opens with `{` and reads as JSON.
pub open spec fn is_report_line(line: Seq<char>) -> bool {
    let t = trim_spec(line);
    t.len() > 0 && t[0] == '{' && json_parsed(t) is Some
}

/// The last of the first `n` lines that holds a report.
pub open spec fn last_report_line(lines: Seq<Seq<char>>, n: int) -> Option<int>
    decreases n,
{
    if n <= 0 {
        None
    } else if is_report_line(lines[n - 1]) {
        Some(n - 1)
    } else {
        last_report_line(lines, n - 1)
    }
}

/// The error given when no line holds a report.
pub open spec fn no_report_error() -> Seq<char> {
    "未找到有效的JSON输出"@
}

/// What a registration run produced: the report it printed last, with all its output and
/// (when there was any) its error output; or, without a report, an error and its output.
pub enum RegistrationOutcome {
    Reported {
        report: serde_json::Value,
        output_lines: Vec<String>,
        raw_output: String,
        error_output: Option<String>,
    },
    Unreported {
        error: String,
        output_lines: Vec<String>,
        raw_output: String,
    },
}

/// Reads the result of a registration run from its output and error lines: the last output
/// line that holds a JSON report, searching from the end.
pub fn registration_outcome(output_lines: Vec<String>, error_lines: &Vec<String>) -> (res: RegistrationOutcome)
    ensures
        match res {
            RegistrationOutcome::Reported { report, output_lines: out, raw_output, error_output } => {
                &&& last_report_line(views(output_lines@), output_lines@.len() as int) matches Some(k)
                    && json_parsed(trim_spec(output_lines@[k]@)) == Some(report)
                &&& views(out@) == views(output_lines@)
                &&& raw_output@ == joined_lines(views(output_lines@))
                &&& if joined_lines(views(error_lines@)).len() == 0 {
                    error_output is None
                } else {
                    error_output matches Some(e) && e@ == joined_lines(views(error_lines@))
                }
            },
            RegistrationOutcome::Unreported { error, output_lines: out, raw_output } => {
                &&& last_report_line(views(output_lines@), output_lines@.len() as int) is None
                &&& error@ == no_report_error()
                &&& views(out@) == views(output_lines@)
                &&& raw_output@ == joined_lines(views(output_lines@))
            },
        },
{
    let raw_output = join_lines(&output_lines);
    let n = output_lines.len();
    let mut k: usize = n;
    while k > 0
        invariant
            k <= n,
            n == output_lines@.len(),
            raw_output@ == joined_lines(views(output_lines@)),
            last_report_line(views(output_lines@), n as int) == last_report_line(views(output_lines@), k as int),
        decreases k,
    {
        let t = trim(&chars_of(output_lines[k - 1].as_str()));
        assert(views(output_lines@)[k - 1] == output_lines@[k - 1]@);
        if t.len() > 0 && t[0] == '{' {
            let text = string_of(&t);
            match json_parse(text.as_str()) {
                Ok(report) => {
                    assert(is_report_line(views(output_lines@)[k - 1]));
                    let errors = join_lines(error_lines);
                    let error_output = if errors.as_str().unicode_len() == 0 {
                        None
                    } else {
                        Some(errors)
                    };
                    return RegistrationOutcome::Reported { report, output_lines, raw_output, error_output };
                },
                Err(_) => {},
            }
        }
        k -= 1;
    }
    RegistrationOutcome::Unreported { error: String::from_str("未找到有效的JSON输出"), output_lines, raw_output }
}

/// A character of a generated mailbox name: an ASCII lowercase letter or digit.
pub open spec fn is_lower_alnum(c: char) -> bool {
    ('a' <= c && c <= 'z') || ('0' <= c && c <= '9')
}

/// A name made of five lowercase letters or digits, `d` digits, then `b` lowercase letters
/// or digits.
pub open spec fn email_name_parts(s: Seq<char>, d: int, b: int) -> bool {
    &&& s.len() == 5 + d + b
    &&& forall|i: int| 0 <= i < 5 ==> is_lower_alnum(#[trigger] s[i])
    &&& forall|i: int| 5 <= i < 5 + d ==> '0' <= #[trigger] s[i] <= '9'
    &&& forall|i: int| 5 + d <= i < s.len() ==> is_lower_alnum(#[trigger] s[i])
}

/// The shape of a generated mailbox name: five lowercase letters or digits, one to three
/// digits, then one to three lowercase letters or digits.
pub open spec fn is_random_email_name(s: Seq<char>) -> bool {
    exists|d: int, b: int| 1 <= d <= 3 && 1 <= b <= 3 && #[trigger] email_name_parts(s, d, b)
}

fn random_lower_alnum() -> (res: char)
    ensures
        is_lower_alnum(res),
{
    let c = random_alphanumeric();
    if c >= 'A' && c <= 'Z' {
        ((c as u8) + 32u8) as char
    } else {
        c
    }
}

/// A random mailbox name: five lowercase letters or digits, one to three digits, and one
/// to three lowercase letters or digits.
pub fn generate_random_email_name() -> (res: String)
    ensures
        is_random_email_name(res@),
{
    let mut name: Vec<char> = Vec::new();
    let mut i: u32 = 0;
    while i < 5
        invariant
            i <= 5,
            name@.len() == i,
            forall|j: int| 0 <= j < i ==> is_lower_alnum(#[trigger] name@[j]),
        decreases 5 - i,
    {
        name.push(random_lower_alnum());
        i += 1;
    }
    let digits = random_in_range(1, 3);
    let mut k: u32 = 0;
    while k < digits
        invariant
            k <= digits <= 3,
            name@.len() == 5 + k,
            forall|j: int| 0 <= j < 5 ==> is_lower_alnum(#[trigger] name@[j]),
            forall|j: int| 5 <= j < 5 + k ==> '0' <= #[trigger] name@[j] <= '9',
        decreases digits - k,
    {
        let d = random_in_range(0, 9);
        let c = ((d as u8) + 48u8) as char;
        name.push(c);
        k += 1;
    }
    let tail = random_in_range(1, 3);
    let mut m: u32 = 0;
    while m < tail
        invariant
            m <= tail <= 3,
            1 <= digits <= 3,
            name@.len() == 5 + digits + m,
            forall|j: int| 0 <= j < 5 ==> is_lower_alnum(#[trigger] name@[j]),
            forall|j: int| 5 <= j < 5 + digits ==> '0' <= #[trigger] name@[j] <= '9',
            forall|j: int| 5 + digits <= j < 5 + digits + m ==> is_lower_alnum(#[trigger] name@[j]),
        decreases tail - m,
    {
        name.push(random_lower_alnum());
        m += 1;
    }
    let res = string_of(&name);
    assert(is_random_email_name(res@)) by {
        let d = digits as int;
        let b = tail as int;
        assert(1 <= d <= 3 && 1 <= b <= 3 && res@.len() == 5 + d + b);
        assert(forall|i: int| 0 <= i < 5 ==> is_lower_alnum(#[trigger] res@[i]));
        assert(forall|i: int| 5 <= i < 5 + d ==> '0' <= #[trigger] res@[i] <= '9');
        assert(forall|i: int| 5 + d <= i < res@.len() ==> is_lower_alnum(#[trigger] res@[i]));
        assert(email_name_parts(res@, d, b));
    }
    res
}


/// How `{:?}` writes an optional exit code: `Some(n)` or `None`.
pub open spec fn exit_code_text(code: Option<i32>) -> Seq<char> {
    match code {
        Some(c) => "Some("@ + signed_text(c as int) + ")"@,
        None => "None"@,
    }
}

/// The decimal text of a signed number.
pub open spec fn signed_text(n: int) -> Seq<char> {
    if n < 0 {
        "-"@ + decimal_spec((-n) as nat)
    } else {
        decimal_spec(n as nat)
    }
}

/// The error a run of the registration program that failed is reported with.
pub open spec fn exit_failure_text(code: Option<i32>) -> Seq<char> {
    "Python脚本执行失败，退出码: "@ + exit_code_text(code)
}

/// Whether a finished run of the registration program succeeded: if not, the error names
/// its exit code.
pub fn check_exit(success: bool, code: Option<i32>) -> (res: Result<(), String>)
    ensures
        success ==> res is Ok,
        !success ==> (res matches Err(e) && e@ == exit_failure_text(code)),
{
    if success {
        return Ok(());
    }
    let shown = match code {
        Some(c) => {
            let wide: i64 = c as i64;
            let digits = if wide < 0 {
                let magnitude: i64 = -wide;
                concat_str("-", string_of(&decimal(magnitude as usize)).as_str())
            } else {
                string_of(&decimal(wide as usize))
            };
            let t = concat_str("Some(", digits.as_str());
            t.concat(")")
        },
        None => String::from_str("None"),
    };
    Err(concat_str("Python脚本执行失败，退出码: ", shown.as_str()))
}

/// A code of exactly six ASCII digits.
pub open spec fn is_six_digit_code(code: Seq<char>) -> bool {
    code.len() == 6 && forall|i: int| 0 <= i < code.len() ==> '0' <= #[trigger] code[i] <= '9'
}

/// Accepts a typed-in verification code only when it is six ASCII digits.
pub fn check_verification_code(code: &str) -> (res: Result<(), String>)
    ensures
        is_six_digit_code(code@) ==> res is Ok,
        !is_six_digit_code(code@) ==> (res matches Err(e) && e@ == "验证码必须是6位数字"@),
{
    let c = chars_of(code);
    let mut ok = c.len() == 6;
    let mut i: usize = 0;
    while i < c.len()
        invariant
            i <= c@.len(),
            c@ == code@,
            ok == (c@.len() == 6 && forall|j: int| 0 <= j < i ==> '0' <= #[trigger] c@[j] <= '9'),
        decreases c.len() - i,
    {
        if !(c[i] >= '0' && c[i] <= '9') {
            ok = false;
        }
        i += 1;
    }
    if ok {
        Ok(())
    } else {
        Err(String::from_str("验证码必须是6位数字"))
    }
}

/// Where temporary mailboxes are created and read.
pub struct EmailConfig {
    pub worker_domain: String,
    pub email_domain: String,
    pub admin_password: String,
}

/// The error given when no mailbox configuration is stored.
pub open spec fn missing_email_config_error() -> Seq<char> {
    "未找到邮箱配置，请先在前端配置邮箱域名和密码"@
}

/// The stored mailbox configuration text, when there is a non-empty one to parse.
pub fn stored_email_config(read: Result<String, String>) -> (res: Result<String, String>)
    ensures
        match read {
            Ok(t) => if t@.len() > 0 {
                res matches Ok(r) && r@ == t@
            } else {
                res matches Err(e) && e@ == missing_email_config_error()
            },
            Err(_) => res matches Err(e) && e@ == missing_email_config_error(),
        },
{
    match read {
        Ok(t) => {
            if t.as_str().unicode_len() > 0 {
                Ok(t)
            } else {
                Err(String::from_str("未找到邮箱配置，请先在前端配置邮箱域名和密码"))
            }
        },
        Err(_) => Err(String::from_str("未找到邮箱配置，请先在前端配置邮箱域名和密码")),
    }
}

/// A parsed mailbox configuration, accepted only when its three fields are all filled in.
pub fn checked_email_config(parsed: Result<EmailConfig, String>) -> (res: Result<EmailConfig, String>)
    ensures
        match parsed {
            Ok(c) => if c.worker_domain@.len() > 0 && c.email_domain@.len() > 0 && c.admin_password@.len() > 0 {
                res matches Ok(r) && r == c
            } else {
                res matches Err(e) && e@ == "邮箱配置不完整，请先在前端配置邮箱域名和密码"@
            },
            Err(e) => res matches Err(m) && m@ == "解析邮箱配置失败: "@ + e@,
        },
{
    match parsed {
        Ok(c) => {
            if c.worker_domain.as_str().unicode_len() == 0 || c.email_domain.as_str().unicode_len() == 0
                || c.admin_password.as_str().unicode_len() == 0 {
                Err(String::from_str("邮箱配置不完整，请先在前端配置邮箱域名和密码"))
            } else {
                Ok(c)
            }
        },
        Err(e) => Err(concat_str("解析邮箱配置失败: ", e.as_str())),
    }
}

/// The address to create a temporary mailbox at.
pub fn new_address_url(worker_domain: &str) -> (res: String)
    ensures
        res@ == "https://"@ + worker_domain@ + "/admin/new_address"@,
{
    concat_str("https://", worker_domain).concat("/admin/new_address")
}

/// The address to list a temporary mailbox's mail at.
pub fn mails_url(worker_domain: &str) -> (res: String)
    ensures
        res@ == "https://"@ + worker_domain@ + "/api/mails"@,
{
    concat_str("https://", worker_domain).concat("/api/mails")
}

/// The address to read an Outlook mailbox's latest mail at: box 1 is the inbox, 2 the spam
/// folder.
pub fn outlook_mails_url(email: &str, box_type: u32) -> (res: String)
    ensures
        res@ == "http://query.paopaodw.com/api/GetLastEmails?email="@ + url_encoded_of(email@) + "&boxType="@
            + decimal_spec(box_type as nat),
{
    let encoded = url_encode(email);
    let url = concat_str("http://query.paopaodw.com/api/GetLastEmails?email=", encoded.as_str());
    let url = url.concat("&boxType=");
    url.concat(string_of(&decimal(box_type as usize)).as_str())
}

/// What the temporary mailbox service answered when a mailbox was created.
pub struct CloudflareAddress {
    pub jwt: Option<String>,
    pub address: Option<String>,
}

/// The error given when the service refused to create a mailbox.
pub fn temp_mailbox_refused(status: &str, body: &str) -> (res: String)
    ensures
        res@ == "创建邮箱失败，状态码: "@ + status@ + " | 响应内容: "@ + body@,
{
    concat_str("创建邮箱失败，状态码: ", status).concat(" | 响应内容: ").concat(body)
}

/// The token and address of a created mailbox, from the service's answer: both must be
/// present.
pub fn temp_mailbox_from_answer(body: &str, parsed: Result<CloudflareAddress, String>) -> (res: Result<(String, String), String>)
    ensures
        match parsed {
            Err(e) => res matches Err(m) && m@ == "解析响应JSON失败: "@ + e@ + " | 响应内容: "@ + body@,
            Ok(a) => match (a.jwt, a.address) {
                (Some(j), Some(addr)) => res matches Ok((rj, ra)) && rj == j && ra == addr,
                _ => res matches Err(m) && m@ == "响应中缺少JWT或邮箱地址 | 完整响应: "@ + body@,
            },
        },
{
    match parsed {
        Err(e) => Err(concat_str("解析响应JSON失败: ", e.as_str()).concat(" | 响应内容: ").concat(body)),
        Ok(a) => match (a.jwt, a.address) {
            (Some(j), Some(addr)) => Ok((j, addr)),
            _ => Err(concat_str("响应中缺少JWT或邮箱地址 | 完整响应: ", body)),
        },
    }
}

/// The address the older registration flow uses: both names in lowercase and a number below
/// a thousand, at gmail.com.
pub open spec fn gmail_address_spec(first_name: Seq<char>, last_name: Seq<char>, n: nat) -> Seq<char> {
    lowercase_of(first_name) + lowercase_of(last_name) + decimal_spec(n % 1000) + "@gmail.com"@
}

/// A random address for the older registration flow.
pub fn random_gmail_address(first_name: &str, last_name: &str) -> (res: String)
    ensures
        exists|n: u32| res@ == gmail_address_spec(first_name@, last_name@, n as nat),
{
    let n = random_u32();
    let a = to_lowercase(first_name);
    let b = to_lowercase(last_name);
    let res = a.concat(b.as_str()).concat(string_of(&decimal((n % 1000) as usize)).as_str()).concat("@gmail.com");
    assert(res@ == gmail_address_spec(first_name@, last_name@, n as nat));
    res
}

/// What the older registration flow reports: the program's JSON answer and the address to
/// save when it says `success: true`; else the error it names, or `未知错误`.
pub fn cursor_registration_result(stdout: &str) -> (res: Result<(serde_json::Value, Option<String>), String>)
    ensures
        match json_parsed(stdout@) {
            None => res matches Err(e) && exists|t: Seq<char>| e@ == "解析注册结果失败: "@ + t,
            Some(v) => if json_flag(v, "success"@) == Some(true) {
                res matches Ok((r, email)) && r == v && match email {
                    Some(e) => member_text(json_members(v), "email"@) == Some(e@),
                    None => member_text(json_members(v), "email"@) is None,
                }
            } else {
                res matches Err(e) && e@ == match member_text(json_members(v), "error"@) {
                    Some(m) => m,
                    None => "未知错误"@,
                }
            },
        },
{
    let v = match json_parse(stdout) {
        Ok(v) => v,
        Err(e) => {
            let reason = json_error_text(&e);
            let msg = concat_str("解析注册结果失败: ", reason.as_str());
            assert(msg@ == "解析注册结果失败: "@ + reason@);
            return Err(msg);
        },
    };
    match json_get_bool(&v, "success") {
        Some(true) => {
            let email = json_get_str(&v, "email");
            Ok((v, email))
        },
        _ => match json_get_str(&v, "error") {
            Some(m) => Err(m),
            None => Err(String::from_str("未知错误")),
        },
    }
}



/// The answer of a registration run whose program exited: the fields the caller reports.
pub struct RunReply {
    pub success: Option<bool>,
    pub message: Option<String>,
    pub email: String,
    pub email_type: String,
}

/// The answer of a registration with a temporary mailbox at `address`, once the program has
/// exited: the address and the mailbox kind, or the exit failure.
pub fn cloudflare_registration_reply(address: String, exited_ok: bool, code: Option<i32>) -> (res: Result<RunReply, String>)
    ensures
        exited_ok ==> (res matches Ok(r) && r.success is None && r.message is None && r.email@ == address@
            && r.email_type@ == "cloudflare_temp"@),
        !exited_ok ==> (res matches Err(e) && e@ == exit_failure_text(code)),
{
    check_exit(exited_ok, code)?;
    Ok(RunReply { success: None, message: None, email: address, email_type: String::from_str("cloudflare_temp") })
}

/// The answer of a registration with an Outlook address, once the program has exited: the
/// progress was reported while it ran, so the answer says the process exited (not success),
/// with the address and the mailbox kind; or the exit failure.
pub fn outlook_registration_reply(email: String, exited_ok: bool, code: Option<i32>) -> (res: Result<RunReply, String>)
    ensures
        exited_ok ==> (res matches Ok(r) && r.success == Some(false) && (r.message matches Some(m) && m@
            == "注册进程已退出"@) && r.email@ == email@ && r.email_type@ == "outlook-default"@),
        !exited_ok ==> (res matches Err(e) && e@ == exit_failure_text(code)),
{
    check_exit(exited_ok, code)?;
    Ok(
        RunReply {
            success: Some(false),
            message: Some(String::from_str("注册进程已退出")),
            email,
            email_type: String::from_str("outlook-default"),
        },
    )
}

/// The error given when the registration program is missing.
pub open spec fn missing_program_text(path: Seq<char>) -> Seq<char> {
    "找不到Python可执行文件: "@ + debug_form(path)
}

/// The registration program can be started only when it exists at `path`.
pub fn check_program(path: &str, exists: bool) -> (res: Result<(), String>)
    ensures
        exists ==> res is Ok,
        !exists ==> (res matches Err(e) && e@ == missing_program_text(path@)),
{
    if exists {
        Ok(())
    } else {
        Err(concat_str("找不到Python可执行文件: ", debug_text(path).as_str()))
    }
}

/// The answer to a typed code, once writing it for the program has been tried: accepted, or
/// the write's failure.
pub fn code_submitted_reply(written: Result<(), String>) -> (res: Result<(bool, String), String>)
    ensures
        written is Ok ==> (res matches Ok((ok, m)) && ok && m@ == "验证码已提交"@),
        written matches Err(e) ==> (res matches Err(f) && f@ == "保存验证码失败: "@ + e@),
{
    match written {
        Ok(()) => Ok((true, String::from_str("验证码已提交"))),
        Err(e) => Err(concat_str("保存验证码失败: ", e.as_str())),
    }
}

/// The registration flows.
#[derive(PartialEq, Eq, Structural)]
pub enum RegistrationFlow {
    /// A given address; the user types the code.
    Email,
    /// A new temporary mailbox.
    CloudflareTemp,
    /// An Outlook address.
    Outlook,
}

/// How long a flow's program may run, in seconds: the flow where the user types the code
/// gets 150 seconds to do so and is then stopped; the others run until they exit.
pub open spec fn run_limit_spec(flow: RegistrationFlow) -> Option<u64> {
    match flow {
        RegistrationFlow::Email => Some(150),
        _ => None,
    }
}

/// How long a flow's program may run, in seconds.
pub fn run_limit(flow: &RegistrationFlow) -> (res: Option<u64>)
    ensures
        res == run_limit_spec(*flow),
{
    match flow {
        RegistrationFlow::Email => Some(150),
        _ => None,
    }
}

/// Whether a program that has run `elapsed_nanos` nanoseconds may keep running under the
/// limit: it is stopped once the time passes the limit.
pub fn keeps_running(elapsed_nanos: u128, limit_secs: Option<u64>) -> (res: bool)
    ensures
        res == match limit_secs {
            Some(l) => elapsed_nanos <= l * 1_000_000_000,
            None => true,
        },
{
    match limit_secs {
        Some(l) => {
            let wide: u128 = l as u128;
            elapsed_nanos <= wide * 1_000_000_000
        },
        None => true,
    }
}

} // verus!
