use gamecode_mcp::audit::AuditJournal;
use gamecode_mcp::cli_tool::{Invocation, ParamMap, ParamValue};
use gamecode_mcp::dynamic_tools::{ArgDefinition, ToolConfig, ToolDefinition};
use gamecode_mcp::error::ToolError;
use gamecode_mcp::server::{respond, GameCodeMcpServer};

fn definition(name: &str, description: &str, handler: Option<&str>) -> ToolDefinition {
    ToolDefinition {
        name: name.to_string(),
        description: description.to_string(),
        command: "echo".to_string(),
        args: vec![ArgDefinition {
            name: "message".to_string(),
            description: "Message to echo".to_string(),
            required: true,
            arg_type: "string".to_string(),
            cli_flag: None,
            default: None,
        }],
        static_flags: vec![],
        internal_handler: handler.map(|h| h.to_string()),
    }
}

fn server_with(tools: Vec<ToolDefinition>, directory: Option<&str>) -> GameCodeMcpServer {
    let audit = AuditJournal::new(directory.map(|d| d.to_string()), true);
    let mut server = GameCodeMcpServer::new(audit);
    let warnings = server.initialize(Some(Ok(ToolConfig { tools })));
    assert!(warnings.is_empty());
    server
}

#[test]
fn a_new_server_lists_nothing() {
    let server = GameCodeMcpServer::new(AuditJournal::new(None, true));
    assert_eq!(server.list_tools(), r#"{"tools":[],"total":0}"#);
}

#[test]
fn the_listing_names_every_tool() {
    let server = server_with(
        vec![definition("say", "Says \"it\"", None), definition("add", "Adds", Some("add"))],
        None,
    );
    assert_eq!(
        server.list_tools(),
        r#"{"tools":[{"name":"say","description":"Says \"it\""},{"name":"add","description":"Adds"}],"total":2}"#
    );
    let parsed: serde_json::Value = serde_json::from_str(&server.list_tools()).unwrap();
    assert_eq!(parsed["total"], 2);
    assert_eq!(parsed["tools"][0]["name"], "say");
    assert_eq!(parsed["tools"][0]["description"], "Says \"it\"");
}

#[test]
fn a_listing_counts_more_than_nine_tools() {
    let tools = (0..12).map(|i| definition(&format!("t{}", i), "d", None)).collect();
    let server = server_with(tools, None);
    let parsed: serde_json::Value = serde_json::from_str(&server.list_tools()).unwrap();
    assert_eq!(parsed["total"], 12);
    assert_eq!(parsed["tools"].as_array().unwrap().len(), 12);
    assert!(server.list_tools().ends_with(r#"],"total":12}"#));
}

#[test]
fn initialize_without_a_configuration_warns_and_goes_on() {
    let mut server = GameCodeMcpServer::new(AuditJournal::new(None, true));
    let warnings = server.initialize(None);
    assert_eq!(warnings.len(), 3);
    assert!(warnings[0].starts_with("No tools.yaml found!"));
    assert_eq!(warnings[1], "The server will start but no tools will be available.");
    assert_eq!(warnings[2], "Please create a tools.yaml file to enable tools.");
    assert_eq!(server.list_tools(), r#"{"tools":[],"total":0}"#);
}

#[test]
fn initialize_with_an_unreadable_configuration_warns_and_goes_on() {
    let mut server = server_with(vec![definition("say", "Says it", None)], None);
    let warnings = server.initialize(Some(Err(ToolError::ConfigParse {
        cause: "missing field `command`".to_string(),
    })));
    assert_eq!(warnings.len(), 3);
    assert_eq!(warnings[0], "Failed to parse YAML: missing field `command`");
    assert_eq!(server.list_tools(), r#"{"tools":[{"name":"say","description":"Says it"}],"total":1}"#);
}

#[test]
fn initialize_with_a_bad_definition_warns_and_keeps_the_earlier_tools() {
    let mut server = GameCodeMcpServer::new(AuditJournal::new(None, true));
    let mut bad = definition("bad", "d", None);
    bad.args[0].arg_type = "text".to_string();
    let warnings =
        server.initialize(Some(Ok(ToolConfig { tools: vec![definition("good", "d", None), bad] })));
    assert_eq!(warnings[0], "Unknown arg type: text");
    assert_eq!(warnings.len(), 3);
    assert_eq!(server.list_tools(), r#"{"tools":[{"name":"good","description":"d"}],"total":1}"#);
}

#[test]
fn run_decides_and_prepares_the_journal_line() {
    let server = server_with(vec![definition("say", "Says it", None)], Some("/journal"));
    let mut params = ParamMap::new();
    params.insert("message".to_string(), ParamValue::String("hi".to_string()));
    let dispatch = server.run("say", params, Some("dave".to_string()));
    match dispatch.decision.unwrap() {
        Invocation::Spawn { command, argv } => {
            assert_eq!(command, "echo");
            assert_eq!(argv, vec!["hi"]);
        }
        other => panic!("unexpected: {:?}", other),
    }
    let record = dispatch.audit.unwrap();
    assert!(record.path.starts_with("/journal/audit-"));
    assert!(record.line.contains("\"tool_name\":\"say\""));
    assert!(record.line.contains("\"user\":\"dave\""));
}

#[test]
fn a_rejected_request_is_recorded_too() {
    let server = server_with(vec![definition("say", "Says it", None)], Some("/journal"));
    let dispatch = server.run("say", ParamMap::new(), None);
    assert!(matches!(dispatch.decision, Err(ToolError::MissingRequiredArgument { .. })));
    assert!(dispatch.audit.unwrap().line.contains("\"tool_name\":\"say\""));

    let dispatch = server.run("absent", ParamMap::new(), None);
    assert!(matches!(dispatch.decision, Err(ToolError::ToolNotFound { .. })));
    assert!(dispatch.audit.unwrap().line.contains("\"tool_name\":\"absent\""));
}

#[test]
fn a_server_without_a_journal_records_nothing() {
    let server = server_with(vec![definition("say", "Says it", None)], None);
    let dispatch = server.run("absent", ParamMap::new(), Some("dave".to_string()));
    assert!(dispatch.audit.is_none());
    assert!(dispatch.decision.is_err());
}

#[test]
fn an_error_is_answered_as_json_whatever_it_holds() {
    let server = server_with(vec![definition("say", "Says it", None)], None);
    let dispatch = server.run("a\"b", ParamMap::new(), None);
    let answer = respond(dispatch.decision.map(|_| String::new()));
    assert_eq!(answer, r#"{"error": "Tool not found: a\"b"}"#);
    let parsed: serde_json::Value = serde_json::from_str(&answer).unwrap();
    assert_eq!(parsed["error"], "Tool not found: a\"b");

    let stderr = "fatal: \"x\" not found\n  at C:\\tools\n";
    let answer = respond(Err(ToolError::CommandFailed {
        command: "c".to_string(),
        stderr: stderr.to_string(),
    }));
    let parsed: serde_json::Value = serde_json::from_str(&answer).unwrap();
    assert_eq!(parsed["error"], format!("Command failed: {}", stderr));
}

#[test]
fn a_result_is_answered_as_it_is_and_an_error_as_json() {
    assert_eq!(respond(Ok("{\"a\":1}".to_string())), "{\"a\":1}");
    assert_eq!(
        respond(Err(ToolError::ToolNotFound { name: "nothing".to_string() })),
        r#"{"error": "Tool not found: nothing"}"#
    );
    assert_eq!(
        respond(Err(ToolError::CommandFailed {
            command: "c".to_string(),
            stderr: "boom".to_string()
        })),
        r#"{"error": "Command failed: boom"}"#
    );
}
