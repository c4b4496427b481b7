use auto_cursor::registration::{check_program, cloudflare_registration_reply, code_submitted_reply, keeps_running, outlook_registration_reply, run_limit, RegistrationFlow};
use auto_cursor::batch::check_batch_lengths;
use auto_cursor::batch::{actual_email, batch_register_step, batch_register_with_email, email_kind, BatchAction, BatchEntry, BatchEvent, EmailKind};
use auto_cursor::mail_code::{code_from_listing, code_from_mail, code_from_outlook_answer, extract_verification_code_from_content, poll_step, MailboxMail, PollStep};
use auto_cursor::registration::{
    bank_card_flag, bank_card_list, button_config, check_exit, check_verification_code, checked_email_config,
    code_wait_timed_out, cursor_registration_result, first_bank_card, generate_random_email_name, incognito_flag,
    join_lines, mails_url, new_address_url, outlook_mails_url, random_gmail_address, registration_args,
    registration_outcome, skip_phone_flag, stored_email_config, temp_mailbox_from_answer, temp_mailbox_refused,
    waits_for_mailed_code, waits_for_outlook_code, waits_for_typed_code, CloudflareAddress, EmailConfig,
    RegistrationOutcome,
};

#[test]
fn flags_have_their_defaults() {
    assert_eq!(incognito_flag(None), "true");
    assert_eq!(incognito_flag(Some(false)), "false");
    assert_eq!(bank_card_flag(None), "true");
    assert_eq!(bank_card_flag(Some(false)), "false");
    assert_eq!(skip_phone_flag(None), "0");
    assert_eq!(skip_phone_flag(Some(true)), "1");
    assert_eq!(button_config(None), "{\"btnIndex\":1}");
    assert_eq!(button_config(Some(3)), "{\"btnIndex\":3}");
}

#[test]
fn program_arguments_in_order() {
    let args = registration_args("a@x.com", "Ann", "Lee", None, "/app", Some(false), Some(true), Some(2));
    assert_eq!(args, vec!["a@x.com", "Ann", "Lee", "true", "L2FwcA==", "false", "1", "{\"btnIndex\":2}"]);
}

#[test]
fn first_card_of_listed_or_single_configuration() {
    let listed = "{\"cards\": [{\"number\": \"1\"}, {\"number\": \"2\"}]}";
    let card = first_bank_card(listed).unwrap();
    let v: serde_json::Value = serde_json::from_str(&card).unwrap();
    assert_eq!(v["number"], "1");
    assert_eq!(card, serde_json::to_string_pretty(&v).unwrap());
    let single = "{\"number\": \"9\"}";
    let v: serde_json::Value = serde_json::from_str(&first_bank_card(single).unwrap()).unwrap();
    assert_eq!(v["number"], "9");
    assert_eq!(first_bank_card("{\"cards\": []}"), Err("银行卡配置为空，请先配置至少一张银行卡".to_string()));
    assert!(first_bank_card("").unwrap_err().starts_with("解析银行卡配置失败: "));
}

#[test]
fn card_list_for_a_batch() {
    assert_eq!(bank_card_list("{\"cards\": [{\"a\": 1}, {\"a\": 2}]}").ok().unwrap().len(), 2);
    assert_eq!(bank_card_list("{\"a\": 1}").ok().unwrap().len(), 1);
    assert_eq!(bank_card_list("{\"cards\": []}").ok().unwrap().len(), 0);
    assert!(bank_card_list("[").is_err());
}

#[test]
fn output_lines_signal_the_code_wait() {
    assert!(waits_for_typed_code("status: 等待前端输入验证码"));
    assert!(waits_for_typed_code("{\"action\": \"request_verification_code\"}"));
    assert!(!waits_for_typed_code("等待验证码"));
    assert!(waits_for_mailed_code("等待验证码..."));
    assert!(!waits_for_mailed_code("请输入验证码"));
    assert!(waits_for_outlook_code("请输入验证码"));
    assert!(waits_for_outlook_code("需要邮箱验证码"));
    assert!(code_wait_timed_out("verification_timeout"));
    assert!(code_wait_timed_out("manual_input_required now"));
    assert!(!code_wait_timed_out("all good"));
}

#[test]
fn joined_lines() {
    assert_eq!(join_lines(&vec![]), "");
    assert_eq!(join_lines(&vec!["a".to_string()]), "a");
    assert_eq!(join_lines(&vec!["a".to_string(), "".to_string(), "b".to_string()]), "a\n\nb");
}

#[test]
fn last_json_line_is_the_report() {
    let out = vec![
        "starting".to_string(),
        "{\"success\": false}".to_string(),
        "  {\"success\": true, \"email\": \"a@x.com\"}  ".to_string(),
        "{broken".to_string(),
        "done".to_string(),
    ];
    match registration_outcome(out, &vec!["warn".to_string()]) {
        RegistrationOutcome::Reported { report, output_lines, raw_output, error_output } => {
            assert_eq!(report["success"], true);
            assert_eq!(report["email"], "a@x.com");
            assert_eq!(output_lines.len(), 5);
            assert!(raw_output.starts_with("starting\n{\"success\": false}\n"));
            assert_eq!(error_output, Some("warn".to_string()));
        }
        _ => panic!("report expected"),
    }
}

#[test]
fn no_json_line_means_no_report() {
    match registration_outcome(vec!["a".to_string(), "b".to_string()], &vec![]) {
        RegistrationOutcome::Unreported { error, output_lines, raw_output } => {
            assert_eq!(error, "未找到有效的JSON输出");
            assert_eq!(output_lines, vec!["a", "b"]);
            assert_eq!(raw_output, "a\nb");
        }
        _ => panic!("no report expected"),
    }
    match registration_outcome(vec!["{\"x\": 1}".to_string()], &vec![String::new()]) {
        RegistrationOutcome::Reported { error_output, .. } => assert_eq!(error_output, None),
        _ => panic!("report expected"),
    }
}

#[test]
fn codes_are_found_in_mail_bodies() {
    assert_eq!(extract_verification_code_from_content("Your code is 123456."), Some("123456".to_string()));
    assert_eq!(extract_verification_code_from_content("验证码为：654321"), Some("654321".to_string()));
    assert_eq!(extract_verification_code_from_content("Your verification code is: 111222"), Some("111222".to_string()));
    assert_eq!(extract_verification_code_from_content("color #414141 and 777888 here"), Some("777888".to_string()));
    assert_eq!(extract_verification_code_from_content("color #414141 only"), None);
    assert_eq!(extract_verification_code_from_content("call +123456 or 999000"), Some("999000".to_string()));
    assert_eq!(extract_verification_code_from_content("call +123456 only"), None);
    assert_eq!(extract_verification_code_from_content("nothing"), None);
}

#[test]
fn codes_are_found_in_temporary_mail() {
    assert_eq!(code_from_mail("code is 123456"), Some("123456".to_string()));
    assert_eq!(code_from_mail("code is:   234567"), Some("234567".to_string()));
    assert_eq!(code_from_mail("#abcdef +111111 @222222 =333333 then 444444"), Some("444444".to_string()));
    assert_eq!(code_from_mail("#abcdef +111111"), None);
    let listing = Some(vec![MailboxMail { raw: Some("code is 555555".to_string()) }, MailboxMail { raw: Some("code is 666666".to_string()) }]);
    assert_eq!(code_from_listing(&listing), Some("555555".to_string()));
    assert_eq!(code_from_listing(&Some(vec![MailboxMail { raw: None }])), None);
    assert_eq!(code_from_listing(&Some(vec![])), None);
    assert_eq!(code_from_listing(&None), None);
}

#[test]
fn outlook_answers_are_searched_in_order() {
    let answer = "{\"data\": [{\"Body\": \"hello\"}, {\"Subject\": \"x\"}, {\"Body\": \"code is 121212\"}, {\"Body\": \"code is 343434\"}]}";
    assert_eq!(code_from_outlook_answer(answer), Some("121212".to_string()));
    assert_eq!(code_from_outlook_answer("{\"data\": []}"), None);
    assert_eq!(code_from_outlook_answer("not json"), None);
    assert_eq!(outlook_mails_url("a b@x.com", 2), "http://query.paopaodw.com/api/GetLastEmails?email=a%20b%40x.com&boxType=2");
}

#[test]
fn polling_stops_on_a_code_or_after_the_limit() {
    assert!(matches!(poll_step(3, 30, Some("123456".to_string())), PollStep::Found(ref c) if c == "123456"));
    assert!(matches!(poll_step(3, 30, None), PollStep::Retry(4)));
    assert!(matches!(poll_step(30, 30, None), PollStep::GiveUp));
}

#[test]
fn exit_status_and_typed_codes() {
    assert_eq!(check_exit(true, Some(0)), Ok(()));
    assert_eq!(check_exit(false, Some(2)), Err("Python脚本执行失败，退出码: Some(2)".to_string()));
    assert_eq!(check_exit(false, Some(-1)), Err("Python脚本执行失败，退出码: Some(-1)".to_string()));
    assert_eq!(check_exit(false, None), Err("Python脚本执行失败，退出码: None".to_string()));
    assert_eq!(check_verification_code("012345"), Ok(()));
    assert_eq!(check_verification_code("12345"), Err("验证码必须是6位数字".to_string()));
    assert_eq!(check_verification_code("12a456"), Err("验证码必须是6位数字".to_string()));
    assert_eq!(check_verification_code("１２３４５６"), Err("验证码必须是6位数字".to_string()));
}

#[test]
fn mailbox_configuration_checks() {
    assert_eq!(stored_email_config(Ok("{}".to_string())), Ok("{}".to_string()));
    assert_eq!(stored_email_config(Ok(String::new())), Err("未找到邮箱配置，请先在前端配置邮箱域名和密码".to_string()));
    assert_eq!(stored_email_config(Err("io".to_string())), Err("未找到邮箱配置，请先在前端配置邮箱域名和密码".to_string()));
    let good = EmailConfig { worker_domain: "w.dev".to_string(), email_domain: "e.dev".to_string(), admin_password: "p".to_string() };
    assert!(checked_email_config(Ok(good)).is_ok());
    let partial = EmailConfig { worker_domain: "w.dev".to_string(), email_domain: String::new(), admin_password: "p".to_string() };
    assert_eq!(checked_email_config(Ok(partial)).err().unwrap(), "邮箱配置不完整，请先在前端配置邮箱域名和密码");
    assert_eq!(checked_email_config(Err("eof".to_string())).err().unwrap(), "解析邮箱配置失败: eof");
    assert_eq!(new_address_url("w.dev"), "https://w.dev/admin/new_address");
    assert_eq!(mails_url("w.dev"), "https://w.dev/api/mails");
}

#[test]
fn temporary_mailbox_answers() {
    assert_eq!(temp_mailbox_refused("500 Internal Server Error", "oops"), "创建邮箱失败，状态码: 500 Internal Server Error | 响应内容: oops");
    let ok = temp_mailbox_from_answer("{..}", Ok(CloudflareAddress { jwt: Some("j".to_string()), address: Some("a@w.dev".to_string()) }));
    assert_eq!(ok, Ok(("j".to_string(), "a@w.dev".to_string())));
    let missing = temp_mailbox_from_answer("{}", Ok(CloudflareAddress { jwt: None, address: Some("a".to_string()) }));
    assert_eq!(missing, Err("响应中缺少JWT或邮箱地址 | 完整响应: {}".to_string()));
    let bad = temp_mailbox_from_answer("x", Err("expected value".to_string()));
    assert_eq!(bad, Err("解析响应JSON失败: expected value | 响应内容: x".to_string()));
}

#[test]
fn random_names_have_the_documented_shape() {
    for _ in 0..50 {
        let name = generate_random_email_name();
        assert!(name.len() >= 7 && name.len() <= 11);
        let chars: Vec<char> = name.chars().collect();
        assert!(chars[..5].iter().all(|c| c.is_ascii_lowercase() || c.is_ascii_digit()));
        assert!(chars[5].is_ascii_digit());
        assert!(chars.iter().all(|c| c.is_ascii_lowercase() || c.is_ascii_digit()));
    }
    let address = random_gmail_address("Ann", "LEE");
    assert!(address.starts_with("annlee"));
    assert!(address.ends_with("@gmail.com"));
    let digits = &address["annlee".len()..address.len() - "@gmail.com".len()];
    assert!(!digits.is_empty() && digits.len() <= 3 && digits.chars().all(|c| c.is_ascii_digit()));
}

#[test]
fn older_flow_result() {
    let (v, email) = cursor_registration_result("{\"success\": true, \"email\": \"a@x.com\"}").ok().unwrap();
    assert_eq!(v["email"], "a@x.com");
    assert_eq!(email, Some("a@x.com".to_string()));
    assert_eq!(cursor_registration_result("{\"success\": false, \"error\": \"blocked\"}").err(), Some("blocked".to_string()));
    assert_eq!(cursor_registration_result("{\"success\": \"yes\"}").err(), Some("未知错误".to_string()));
    assert!(cursor_registration_result("oops").err().unwrap().starts_with("解析注册结果失败: "));
}

#[test]
fn email_types_and_reported_addresses() {
    assert!(email_kind(&Some("cloudflare_temp".to_string())) == EmailKind::CloudflareTemp);
    assert!(email_kind(&Some("outlook".to_string())) == EmailKind::Outlook);
    assert!(email_kind(&Some("custom".to_string())) == EmailKind::Custom);
    assert!(email_kind(&None) == EmailKind::Custom);
    let v: serde_json::Value = serde_json::from_str("{\"accountInfo\": {\"email\": \"real@x.com\"}}").unwrap();
    assert_eq!(actual_email(&v, &"given@x.com".to_string()), "real@x.com");
    let v: serde_json::Value = serde_json::from_str("{\"accountInfo\": \"none\"}").unwrap();
    assert_eq!(actual_email(&v, &"given@x.com".to_string()), "given@x.com");
}

fn strings(v: &[&str]) -> Vec<String> {
    v.iter().map(|s| s.to_string()).collect()
}

#[test]
fn batch_checks_lengths_and_cards() {
    let r = batch_register_with_email(strings(&["a", "b"]), strings(&["A"]), strings(&["X", "Y"]), &None, None, "{}");
    assert!(matches!(r, Err(ref e) if e == "邮箱、姓名数量不一致"));
    let r = batch_register_with_email(strings(&["a", "b"]), strings(&["A", "B"]), strings(&["X", "Y"]), &None, None, "{\"cards\": [{}]}");
    assert!(matches!(r, Err(ref e) if e == "银行卡配置数量(1)少于注册账户数量(2)，请先配置足够的银行卡"));
    let r = batch_register_with_email(strings(&["a", "b"]), strings(&["A", "B"]), strings(&["X", "Y"]), &None, Some(false), "{\"cards\": [{}]}");
    assert!(r.is_ok());
    let r = batch_register_with_email(strings(&["a"]), strings(&["A"]), strings(&["X"]), &None, Some(false), "no json");
    assert!(matches!(r, Err(ref e) if e.starts_with("解析银行卡配置失败: ")));
}

#[test]
fn batch_runs_each_registration_once() {
    let config = "{\"cards\": [{\"n\": 1}, {\"n\": 2}]}";
    let (run, action) = batch_register_with_email(strings(&["a@x.com", "b@x.com"]), strings(&["A", "B"]), strings(&["X", "Y"]), &Some("outlook".to_string()), None, config).ok().unwrap();
    let task = match action {
        BatchAction::Register(t) => t,
        _ => panic!("registration expected"),
    };
    assert_eq!(task.index, 0);
    assert!(task.kind == EmailKind::Outlook);
    assert_eq!(task.email, "a@x.com");
    assert!(!task.pause_first);
    let card: serde_json::Value = serde_json::from_str(task.card.as_ref().unwrap()).unwrap();
    assert_eq!(card["n"], 1);
    let report: serde_json::Value = serde_json::from_str("{\"accountInfo\": {\"email\": \"real@x.com\"}}").unwrap();
    let (run, action) = batch_register_step(run, BatchEvent::Registered(Ok(report)));
    let task = match action {
        BatchAction::Register(t) => t,
        _ => panic!("registration expected"),
    };
    assert_eq!(task.index, 1);
    assert!(task.pause_first);
    let (run, action) = batch_register_step(run, BatchEvent::Registered(Err("captcha".to_string())));
    assert!(matches!(action, BatchAction::RestoreConfig(ref c) if c == config));
    let (_, action) = batch_register_step(run, BatchEvent::ConfigRestored);
    let summary = match action {
        BatchAction::Finish(s) => s,
        _ => panic!("summary expected"),
    };
    assert_eq!((summary.total, summary.succeeded, summary.failed), (2, 1, 1));
    assert!(matches!(&summary.results[0], BatchEntry::Succeeded { index: 0, email, .. } if email == "real@x.com"));
    assert!(matches!(&summary.errors[0], BatchEntry::Failed { index: 1, email, error } if email == "b@x.com" && error == "captcha"));
}

#[test]
fn empty_batch_restores_and_finishes() {
    let (run, action) = batch_register_with_email(vec![], vec![], vec![], &None, None, "{\"cards\": []}").ok().unwrap();
    assert!(matches!(action, BatchAction::RestoreConfig(_)));
    let (_, action) = batch_register_step(run, BatchEvent::ConfigRestored);
    assert!(matches!(action, BatchAction::Finish(ref s) if s.total == 0 && s.succeeded == 0 && s.failed == 0));
}

#[test]
fn replies_after_the_program_exits() {
    let r = cloudflare_registration_reply("a@t.dev".to_string(), true, Some(0)).ok().unwrap();
    assert_eq!(r.success, None);
    assert_eq!(r.message, None);
    assert_eq!(r.email, "a@t.dev");
    assert_eq!(r.email_type, "cloudflare_temp");
    assert_eq!(cloudflare_registration_reply("a@t.dev".to_string(), false, Some(2)).err().unwrap(), "Python脚本执行失败，退出码: Some(2)");
    let o = outlook_registration_reply("b@outlook.com".to_string(), true, Some(0)).ok().unwrap();
    assert_eq!(o.success, Some(false));
    assert_eq!(o.message, Some("注册进程已退出".to_string()));
    assert_eq!(o.email, "b@outlook.com");
    assert_eq!(o.email_type, "outlook-default");
    assert_eq!(outlook_registration_reply("b@outlook.com".to_string(), false, None).err().unwrap(), "Python脚本执行失败，退出码: None");
}

#[test]
fn program_presence_and_code_submission() {
    assert!(check_program("/app/pyBuild/cursor_register", true).is_ok());
    assert_eq!(check_program("/app/pyBuild/cursor_register", false).err().unwrap(), "找不到Python可执行文件: \"/app/pyBuild/cursor_register\"");
    assert_eq!(code_submitted_reply(Ok(())).ok().unwrap(), (true, "验证码已提交".to_string()));
    assert_eq!(code_submitted_reply(Err("disk full".to_string())).err().unwrap(), "保存验证码失败: disk full");
}

#[test]
fn run_limits_per_flow() {
    assert_eq!(run_limit(&RegistrationFlow::Email), Some(150));
    assert_eq!(run_limit(&RegistrationFlow::CloudflareTemp), None);
    assert_eq!(run_limit(&RegistrationFlow::Outlook), None);
    assert!(keeps_running(150_000_000_000, Some(150)));
    assert!(!keeps_running(150_000_000_001, Some(150)));
    assert!(keeps_running(u128::MAX, None));
}

#[test]
fn batch_lengths_are_checked_first() {
    assert!(check_batch_lengths(2, 2, 2).is_ok());
    assert_eq!(check_batch_lengths(2, 1, 2).err().unwrap(), "邮箱、姓名数量不一致");
    assert_eq!(check_batch_lengths(2, 2, 3).err().unwrap(), "邮箱、姓名数量不一致");
}
