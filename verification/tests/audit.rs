use gamecode_mcp::audit::{AuditEntry, AuditJournal};

fn entry(user: Option<&str>, hostname: Option<&str>) -> AuditEntry {
    AuditEntry {
        timestamp: "2024-05-06T07:08:09.123456Z".to_string(),
        tool_name: "json_format".to_string(),
        user: user.map(|s| s.to_string()),
        hostname: hostname.map(|s| s.to_string()),
    }
}

#[test]
fn a_journal_without_a_directory_is_disabled() {
    let journal = AuditJournal::new(None, true);
    assert!(!journal.is_enabled());
    assert!(journal.get_daily_file_path("2024-05-06").is_none());
    assert!(journal.record("2024-05-06", &entry(None, None)).is_none());
    assert!(journal.log_tool_invocation("t", Some("me".to_string())).is_none());
}

#[test]
fn a_journal_whose_directory_is_not_ready_is_disabled() {
    let journal = AuditJournal::new(Some("/var/log/audit".to_string()), false);
    assert!(!journal.is_enabled());
    assert!(journal.log_tool_invocation("t", None).is_none());
    assert!(!AuditJournal::new(None, false).is_enabled());
}

#[test]
fn the_file_of_a_day_is_named_by_its_date() {
    let journal = AuditJournal::new(Some("/var/log/audit".to_string()), true);
    assert!(journal.is_enabled());
    assert_eq!(
        journal.get_daily_file_path("2024-05-06").unwrap(),
        "/var/log/audit/audit-2024-05-06.jsonl"
    );
    let journal = AuditJournal::new(Some("logs/".to_string()), true);
    assert_eq!(journal.get_daily_file_path("1999-12-31").unwrap(), "logs/audit-1999-12-31.jsonl");
    let journal = AuditJournal::new(Some("".to_string()), true);
    assert_eq!(journal.get_daily_file_path("1999-12-31").unwrap(), "audit-1999-12-31.jsonl");
}

#[test]
fn a_line_holds_the_known_fields_in_order() {
    assert_eq!(
        entry(Some("alice"), Some("box")).to_json_line(),
        r#"{"timestamp":"2024-05-06T07:08:09.123456Z","tool_name":"json_format","user":"alice","hostname":"box"}"#
    );
    assert_eq!(
        entry(None, Some("box")).to_json_line(),
        r#"{"timestamp":"2024-05-06T07:08:09.123456Z","tool_name":"json_format","hostname":"box"}"#
    );
    assert_eq!(
        entry(Some("alice"), None).to_json_line(),
        r#"{"timestamp":"2024-05-06T07:08:09.123456Z","tool_name":"json_format","user":"alice"}"#
    );
    assert_eq!(
        entry(None, None).to_json_line(),
        r#"{"timestamp":"2024-05-06T07:08:09.123456Z","tool_name":"json_format"}"#
    );
}

#[test]
fn a_line_stays_one_line_whatever_the_name() {
    let e = AuditEntry {
        timestamp: "t".to_string(),
        tool_name: "two\nlines \"quoted\" \\ back".to_string(),
        user: Some("tab\tuser".to_string()),
        hostname: None,
    };
    let line = e.to_json_line();
    assert_eq!(
        line,
        r#"{"timestamp":"t","tool_name":"two\nlines \"quoted\" \\ back","user":"tab\tuser"}"#
    );
    assert!(!line.contains('\n'));
    let parsed: serde_json::Value = serde_json::from_str(&line).unwrap();
    assert_eq!(parsed["tool_name"], "two\nlines \"quoted\" \\ back");
}

#[test]
fn a_record_says_what_to_append_where() {
    let journal = AuditJournal::new(Some("/a".to_string()), true);
    let record = journal.record("2024-05-06", &entry(Some("u"), None)).unwrap();
    assert_eq!(record.path, "/a/audit-2024-05-06.jsonl");
    assert_eq!(record.line, entry(Some("u"), None).to_json_line());
}

#[test]
fn an_invocation_is_recorded_with_its_tool_name() {
    let journal = AuditJournal::new(Some("/a".to_string()), true);
    let record = journal.log_tool_invocation("multiply", Some("carol".to_string())).unwrap();

    let name = record.path.strip_prefix("/a/audit-").unwrap().strip_suffix(".jsonl").unwrap();
    let parts: Vec<&str> = name.split('-').collect();
    assert_eq!(parts.len(), 3);
    assert_eq!(parts[0].len(), 4);
    assert_eq!(parts[1].len(), 2);
    assert_eq!(parts[2].len(), 2);
    assert!(parts.iter().all(|p| p.chars().all(|c| c.is_ascii_digit())));

    assert!(!record.line.contains('\n'));
    assert!(record.line.contains("\"tool_name\":\"multiply\""));
    let parsed: serde_json::Value = serde_json::from_str(&record.line).unwrap();
    assert_eq!(parsed["tool_name"], "multiply");
    assert_eq!(parsed["user"], "carol");
    let timestamp = parsed["timestamp"].as_str().unwrap();
    assert!(timestamp.ends_with('Z'));
    assert_eq!(&timestamp[4..5], "-");
    assert_eq!(&timestamp[10..11], "T");

    let record = journal.log_tool_invocation("multiply", None).unwrap();
    let parsed: serde_json::Value = serde_json::from_str(&record.line).unwrap();
    assert!(parsed.get("user").is_none());
}
