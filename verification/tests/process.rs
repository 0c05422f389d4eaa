use gamecode_mcp::error::ToolError;
use gamecode_mcp::handlers::{arithmetic_result, error_response, list_files_result, FileEntry};
use gamecode_mcp::cli_tool::Operation;
use gamecode_mcp::process::{process_result, ProcessOutcome};

fn exited(success: bool, stdout: &str, stderr: &str) -> ProcessOutcome {
    ProcessOutcome::Exited {
        success,
        stdout: stdout.to_string(),
        stderr: stderr.to_string(),
    }
}

#[test]
fn well_formed_output_comes_back_in_compact_form() {
    let out = "{ \"status\" : \"success\",\n  \"result\": {\"files\": 10, \"size\": 1024} }\n";
    assert_eq!(
        process_result("tool", exited(true, out, "")).unwrap(),
        r#"{"status":"success","result":{"files":10,"size":1024}}"#
    );
}

#[test]
fn output_keeps_key_order_and_numbers() {
    let out = r#"{"z": 1.50, "a": 1e2, "m": [3, 2, 1], "n": -0.0, "big": 12345678901234567890}"#;
    assert_eq!(
        process_result("tool", exited(true, out, "ignored")).unwrap(),
        r#"{"z":1.5,"a":100.0,"m":[3,2,1],"n":-0.0,"big":12345678901234567890}"#
    );
    assert_eq!(process_result("tool", exited(true, " 42 ", "")).unwrap(), "42");
    assert_eq!(process_result("tool", exited(true, "\"a\\u0041\"", "")).unwrap(), "\"aA\"");
}

#[test]
fn output_that_is_not_json_is_rejected() {
    for out in ["hello", "", "{\"a\":1} trailing", "{\"a\":", "[1,2,]"] {
        match process_result("mytool", exited(true, out, "")) {
            Err(ToolError::InvalidOutputFormat { command, parse_error }) => {
                assert_eq!(command, "mytool");
                assert!(!parse_error.is_empty());
                let message = ToolError::InvalidOutputFormat { command, parse_error: parse_error.clone() }
                    .message();
                assert_eq!(message, format!("Invalid JSON output: {}", parse_error));
            }
            other => panic!("unexpected for {:?}: {:?}", out, other),
        }
    }
}

#[test]
fn the_parse_error_is_that_of_the_reader() {
    let e = process_result("t", exited(true, "not json", "")).unwrap_err();
    let expected = serde_json::from_str::<serde_json::Value>("not json").unwrap_err().to_string();
    assert_eq!(e.message(), format!("Invalid JSON output: {}", expected));
}

#[test]
fn a_failed_command_reports_its_error_output() {
    let stderr = "fatal: no such file\n  at line 3\n";
    match process_result("cat", exited(false, "{\"ok\":true}", stderr)) {
        Err(e) => {
            assert!(matches!(
                &e,
                ToolError::CommandFailed { command, stderr: s } if command == "cat" && s == stderr
            ));
            assert_eq!(e.message(), format!("Command failed: {}", stderr));
            assert!(e.message().ends_with(stderr));
        }
        other => panic!("unexpected: {:?}", other),
    }
}

#[test]
fn a_command_that_does_not_start_is_reported() {
    let e = process_result(
        "nope",
        ProcessOutcome::SpawnFailed { cause: "No such file or directory (os error 2)".to_string() },
    )
    .unwrap_err();
    assert!(matches!(&e, ToolError::SpawnFailed { command, .. } if command == "nope"));
    assert_eq!(e.message(), "Failed to execute nope: No such file or directory (os error 2)");
}

#[test]
fn arithmetic_answers_name_the_operation() {
    assert_eq!(
        arithmetic_result(Operation::Addition, "8"),
        r#"{"result": 8, "operation": "addition"}"#
    );
    assert_eq!(
        arithmetic_result(Operation::Multiplication, "28"),
        r#"{"result": 28, "operation": "multiplication"}"#
    );
    assert_eq!(
        arithmetic_result(Operation::Addition, "-0.5"),
        r#"{"result": -0.5, "operation": "addition"}"#
    );
}

#[test]
fn an_arithmetic_answer_needs_a_number() {
    for value in ["inf", "-inf", "NaN", "", "eight", "1,5"] {
        let answer = arithmetic_result(Operation::Multiplication, value);
        let parsed: serde_json::Value = serde_json::from_str(&answer).unwrap();
        assert_eq!(parsed["error"], format!("Result is not a number: {}", value));
    }
    let answer = arithmetic_result(Operation::Addition, "179769313486231570000");
    let parsed: serde_json::Value = serde_json::from_str(&answer).unwrap();
    assert_eq!(parsed["operation"], "addition");
}

#[test]
fn an_error_answer_is_json_whatever_the_message() {
    for message in ["Tool not found: a\"b", "line one\nline two\n", "back\\slash\ttab", "é ✓"] {
        let answer = error_response(message);
        assert!(!answer.contains('\n'));
        let parsed: serde_json::Value = serde_json::from_str(&answer).unwrap();
        assert_eq!(parsed["error"], message);
        assert_eq!(parsed.as_object().unwrap().len(), 1);
    }
    assert_eq!(
        error_response("Tool not found: a\"b"),
        r#"{"error": "Tool not found: a\"b"}"#
    );
}

#[test]
fn a_listing_is_json_whatever_the_names() {
    let entries = vec![
        FileEntry { name: "a\"b".to_string(), is_dir: false, size: 1 },
        FileEntry { name: "back\\slash".to_string(), is_dir: true, size: 2 },
        FileEntry { name: "two\nlines".to_string(), is_dir: false, size: 3 },
    ];
    let answer = list_files_result("dir \"x\"\\y", Ok(entries));
    let parsed: serde_json::Value = serde_json::from_str(&answer).unwrap();
    assert_eq!(parsed["path"], "dir \"x\"\\y");
    let files = parsed["files"].as_array().unwrap();
    assert_eq!(files.len(), 3);
    assert_eq!(files[0]["name"], "a\"b");
    assert_eq!(files[0]["is_dir"], false);
    assert_eq!(files[0]["size"], 1);
    assert_eq!(files[1]["name"], "back\\slash");
    assert_eq!(files[1]["is_dir"], true);
    assert_eq!(files[2]["name"], "two\nlines");
    assert_eq!(
        list_files_result("a\"b", Ok(vec![])),
        r#"{"path": "a\"b", "files": []}"#
    );

    let answer = list_files_result("x", Err("cannot read \"x\"\n".to_string()));
    let parsed: serde_json::Value = serde_json::from_str(&answer).unwrap();
    assert_eq!(parsed["error"], "cannot read \"x\"\n");
}

#[test]
fn an_error_answer_carries_the_message() {
    assert_eq!(error_response("Tool not found: x"), r#"{"error": "Tool not found: x"}"#);
    assert_eq!(error_response(""), r#"{"error": ""}"#);
}

#[test]
fn a_listing_names_every_entry() {
    let entries = vec![
        FileEntry { name: "a.txt".to_string(), is_dir: false, size: 120 },
        FileEntry { name: "src".to_string(), is_dir: true, size: 4096 },
        FileEntry { name: "empty".to_string(), is_dir: false, size: 0 },
    ];
    let expected = [
        r#"{"path": "/tmp/x", "files": ["#,
        r#"{"name": "a.txt", "is_dir": false, "size": 120}, "#,
        r#"{"name": "src", "is_dir": true, "size": 4096}, "#,
        r#"{"name": "empty", "is_dir": false, "size": 0}]}"#,
    ]
    .join("");
    assert_eq!(list_files_result("/tmp/x", Ok(entries)), expected);
}

#[test]
fn a_listing_of_nothing_or_of_one() {
    assert_eq!(list_files_result(".", Ok(vec![])), r#"{"path": ".", "files": []}"#);
    assert_eq!(
        list_files_result(
            ".",
            Ok(vec![FileEntry { name: "big".to_string(), is_dir: false, size: u64::MAX }])
        ),
        r#"{"path": ".", "files": [{"name": "big", "is_dir": false, "size": 18446744073709551615}]}"#
    );
}

#[test]
fn a_directory_that_cannot_be_read_gives_an_error_answer() {
    assert_eq!(
        list_files_result("/nowhere", Err("No such file or directory (os error 2)".to_string())),
        r#"{"error": "No such file or directory (os error 2)"}"#
    );
}
