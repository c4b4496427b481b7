use auto_cursor::cursor_auth::{
    process_token, sqlite_auth_fields, sqlite_auth_keys, sqlite_email, sqlite_email_fields,
    storage_email, storage_with_auth, storage_without_auth,
};
use auto_cursor::sqlite_fields::{
    field_write_step, start_field_writes, FieldWriter, WriterAction, WriterEvent,
};

#[test]
fn token_processing_keeps_the_part_after_the_separator() {
    assert_eq!(process_token("user_01XXXXXXX%3A%3AeyJhbGciOiJSUzI1NiIsInR5cCI6IkpXVCJ9"), "eyJhbGciOiJSUzI1NiIsInR5cCI6IkpXVCJ9");
    assert_eq!(process_token("user_01::eyJtoken"), "eyJtoken");
    assert_eq!(process_token("plain-token"), "plain-token");
    assert_eq!(process_token("a%3A%3Ab%3A%3Ac"), "b");
    assert_eq!(process_token("%3A%3A"), "");
    assert_eq!(process_token("a::b::c"), "b");
}

#[test]
fn switch_then_read_gives_switched_email() {
    let content = "{\"telemetry.machineId\": \"m\", \"cursorAuth/cachedEmail\": \"old@x.com\"}";
    let written = storage_with_auth(content, "new@x.com", "user_1%3A%3Ajwt").ok().unwrap();
    assert_eq!(storage_email(&written), Some("new@x.com".to_string()));
    let v: serde_json::Value = serde_json::from_str(&written).unwrap();
    assert_eq!(v["cursorAuth/accessToken"], "jwt");
    assert_eq!(v["cursorAuth/refreshToken"], "jwt");
    assert_eq!(v["cursor.accessToken"], "jwt");
    assert_eq!(v["cursorAuth/cachedSignUpType"], "Auth_0");
    assert_eq!(v["cursor.email"], "new@x.com");
    assert_eq!(v["telemetry.machineId"], "m");
}

#[test]
fn sign_out_removes_sign_in_members() {
    let content = "{\"telemetry.machineId\": \"m\"}";
    let written = storage_with_auth(content, "new@x.com", "jwt").ok().unwrap();
    let (cleared, removed) = storage_without_auth(&written).ok().unwrap();
    assert_eq!(removed, 6);
    let v: serde_json::Value = serde_json::from_str(&cleared).unwrap();
    let w: serde_json::Value = serde_json::from_str(content).unwrap();
    assert_eq!(v, w);
    let (_, removed_again) = storage_without_auth(&cleared).ok().unwrap();
    assert_eq!(removed_again, 0);
}

#[test]
fn storage_errors_on_bad_json() {
    assert!(storage_with_auth("not json", "a@x.com", "t").is_err());
    assert!(storage_without_auth("not json").is_err());
    assert_eq!(storage_email("not json"), None);
}

#[test]
fn storage_email_falls_back_to_email_keys() {
    let content = "{\"cursorAuth/cachedEmail\": \"none\", \"b.Email\": \"b@x.com\", \"a.email\": \"a@x.com\", \"c.email\": \"nothing\"}";
    assert_eq!(storage_email(content), Some("a@x.com".to_string()));
    assert_eq!(storage_email("{\"x\": \"y@z\"}"), None);
}

#[test]
fn sqlite_email_scans_values_in_order() {
    let long_cached = format!("{{\"cachedEmail\": \"c@x.com\", \"pad\": \"{}\"}}", "x".repeat(100));
    let values = vec!["short".to_string(), long_cached, "d@x.com".to_string()];
    assert_eq!(sqlite_email(&values), Some("c@x.com".to_string()));
    let long_both = format!("{{\"email\": \"e@x.com\", \"cachedEmail\": \"c@x.com\", \"pad\": \"{}\"}}", "x".repeat(100));
    assert_eq!(sqlite_email(&vec![long_both]), Some("e@x.com".to_string()));
    let values = vec!["a@b".to_string(), "plain@example.com".to_string()];
    assert_eq!(sqlite_email(&values), Some("plain@example.com".to_string()));
    let short_json = "{\"email\": \"e@x.com\"}".to_string();
    assert_eq!(sqlite_email(&vec![short_json.clone()]), Some(short_json));
    assert_eq!(sqlite_email(&vec![]), None);
}

#[test]
fn sqlite_rows_for_switch_and_sign_out() {
    let e = sqlite_email_fields("a@x.com");
    assert_eq!(e, vec![("cursorAuth/cachedEmail".to_string(), "a@x.com".to_string()), ("cursor.email".to_string(), "a@x.com".to_string())]);
    let t = sqlite_auth_fields("u%3A%3Ajwt", "Google");
    assert_eq!(t[0], ("cursorAuth/accessToken".to_string(), "jwt".to_string()));
    assert_eq!(t[1], ("cursorAuth/refreshToken".to_string(), "jwt".to_string()));
    assert_eq!(t[2], ("cursor.accessToken".to_string(), "jwt".to_string()));
    assert_eq!(t[3], ("cursorAuth/cachedSignUpType".to_string(), "Google".to_string()));
    assert_eq!(sqlite_auth_keys().len(), 6);
}

fn run_writer(w: FieldWriter, a: WriterAction, counts: &[i64], writes: &[Result<usize, String>], close: Result<(), String>) -> (Vec<String>, Result<(), String>) {
    let mut seen = Vec::new();
    let (mut w, mut a) = (w, a);
    let mut ci = 0;
    let mut wi = 0;
    loop {
        let event = match &a {
            WriterAction::Begin => { seen.push("BEGIN".to_string()); WriterEvent::Begun(Ok(())) }
            WriterAction::CountRows(k) => { seen.push(format!("COUNT {}", k)); ci += 1; WriterEvent::Counted(Ok(counts[ci - 1])) }
            WriterAction::Update(k, v) => { seen.push(format!("UPDATE {}={}", k, v)); wi += 1; WriterEvent::Written(writes[wi - 1].clone()) }
            WriterAction::Insert(k, v) => { seen.push(format!("INSERT {}={}", k, v)); wi += 1; WriterEvent::Written(writes[wi - 1].clone()) }
            WriterAction::Delete(k) => { seen.push(format!("DELETE {}", k)); wi += 1; WriterEvent::Written(writes[wi - 1].clone()) }
            WriterAction::Commit => { seen.push("COMMIT".to_string()); WriterEvent::Closed(close.clone()) }
            WriterAction::Rollback => { seen.push("ROLLBACK".to_string()); WriterEvent::Closed(close.clone()) }
            WriterAction::Finish(r) => return (seen, r.clone()),
        };
        let next = field_write_step(w, event);
        w = next.0;
        a = next.1;
    }
}

#[test]
fn email_rows_are_updated_or_inserted_then_committed() {
    let (w, a) = start_field_writes(sqlite_email_fields("a@x.com"), false, "Failed to update any email fields".to_string(), true);
    let (seen, out) = run_writer(w, a, &[1, 0], &[Ok(1), Ok(1)], Ok(()));
    assert_eq!(seen, vec![
        "BEGIN",
        "COUNT cursorAuth/cachedEmail",
        "UPDATE cursorAuth/cachedEmail=a@x.com",
        "COUNT cursor.email",
        "INSERT cursor.email=a@x.com",
        "COMMIT",
    ]);
    assert_eq!(out, Ok(()));
}

#[test]
fn nothing_written_rolls_back() {
    let (w, a) = start_field_writes(sqlite_auth_fields("jwt", "Auth_0"), false, "Failed to update any authentication fields".to_string(), true);
    let (seen, out) = run_writer(w, a, &[1, 1, 1, 1], &[Ok(0), Err("busy".to_string()), Ok(0), Ok(0)], Ok(()));
    assert_eq!(seen.last().unwrap(), "ROLLBACK");
    assert_eq!(out, Err("Failed to update any authentication fields".to_string()));
}

#[test]
fn missing_database_and_failed_count() {
    let (_, a) = start_field_writes(sqlite_email_fields("a@x.com"), false, "x".to_string(), false);
    assert!(matches!(a, WriterAction::Finish(Err(ref e)) if e == "SQLite database not found"));
    let (w, _) = start_field_writes(sqlite_email_fields("a@x.com"), false, "x".to_string(), true);
    let (w, a) = field_write_step(w, WriterEvent::Begun(Ok(())));
    assert!(matches!(a, WriterAction::CountRows(_)));
    let (_, a) = field_write_step(w, WriterEvent::Counted(Err("no such table".to_string())));
    assert!(matches!(a, WriterAction::Finish(Err(ref e)) if e == "no such table"));
}

#[test]
fn clearing_deletes_every_key_and_commits() {
    let keys: Vec<(String, String)> = sqlite_auth_keys().into_iter().map(|k| (k, String::new())).collect();
    let (w, a) = start_field_writes(keys, true, String::new(), true);
    let (seen, out) = run_writer(w, a, &[], &[Ok(0), Ok(1), Ok(0), Ok(0), Ok(0), Ok(0)], Ok(()));
    assert_eq!(seen.len(), 8);
    assert_eq!(seen[1], "DELETE cursorAuth/accessToken");
    assert_eq!(seen[7], "COMMIT");
    assert_eq!(out, Ok(()));
}

#[test]
fn sign_in_and_out_keep_members_of_every_kind() {
    let content = "{\"telemetry.machineId\": \"m\", \"window\": {\"size\": [800, 600], \"zoom\": 1}, \"count\": 3, \"flag\": true}";
    let before: serde_json::Value = serde_json::from_str(content).unwrap();
    let written = storage_with_auth(content, "a@x.com", "tok").ok().unwrap();
    let signed_in: serde_json::Value = serde_json::from_str(&written).unwrap();
    for key in ["telemetry.machineId", "window", "count", "flag"] {
        assert_eq!(signed_in[key], before[key]);
    }
    let (cleared, removed) = storage_without_auth(&written).ok().unwrap();
    assert_eq!(removed, 6);
    let signed_out: serde_json::Value = serde_json::from_str(&cleared).unwrap();
    assert_eq!(signed_out, before);
}
