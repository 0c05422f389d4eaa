//! What can go wrong, and how each failure reads.

use vstd::prelude::*;
use crate::cli_tool::ArgType;

verus! {

/// A failure of loading the catalogue or of one invocation.
#[derive(Clone, Debug)]
pub enum ToolError {
    /// The configuration file could not be read.
    ConfigRead { cause: String },
    /// The configuration is not a well-formed catalogue.
    ConfigParse { cause: String },
    /// No configuration file exists at any of the default locations.
    ConfigMissing,
    /// An argument is declared with a type that is not one of the four.
    UnknownArgumentType { type_string: String },
    /// No tool of that name is registered.
    ToolNotFound { name: String },
    /// A required argument has no value among the parameters.
    MissingRequiredArgument { tool: String, arg: String },
    /// A parameter's value is not of the argument's declared type.
    InvalidArgumentType { tool: String, arg: String, expected: ArgType },
    /// The command could not be started.
    SpawnFailed { command: String, cause: String },
    /// The command ran and reported failure.
    CommandFailed { command: String, stderr: String },
    /// The command succeeded but did not print one JSON value.
    InvalidOutputFormat { command: String, parse_error: String },
    /// The tool names a built-in handler that does not exist.
    UnknownInternalHandler { tag: String },
    /// A built-in handler lacks a parameter, or it is not a number.
    MissingOrInvalidParameter { name: String },
}

/// A `ToolError` with its texts as sequences of characters.
pub enum ToolErrorView {
    ConfigRead { cause: Seq<char> },
    ConfigParse { cause: Seq<char> },
    ConfigMissing,
    UnknownArgumentType { type_string: Seq<char> },
    ToolNotFound { name: Seq<char> },
    MissingRequiredArgument { tool: Seq<char>, arg: Seq<char> },
    InvalidArgumentType { tool: Seq<char>, arg: Seq<char>, expected: ArgType },
    SpawnFailed { command: Seq<char>, cause: Seq<char> },
    CommandFailed { command: Seq<char>, stderr: Seq<char> },
    InvalidOutputFormat { command: Seq<char>, parse_error: Seq<char> },
    UnknownInternalHandler { tag: Seq<char> },
    MissingOrInvalidParameter { name: Seq<char> },
}

impl View for ToolError {
    type V = ToolErrorView;

    open spec fn view(&self) -> ToolErrorView {
        match *self {
            ToolError::ConfigRead { cause } => ToolErrorView::ConfigRead { cause: cause@ },
            ToolError::ConfigParse { cause } => ToolErrorView::ConfigParse { cause: cause@ },
            ToolError::ConfigMissing => ToolErrorView::ConfigMissing,
            ToolError::UnknownArgumentType { type_string } => ToolErrorView::UnknownArgumentType {
                type_string: type_string@,
            },
            ToolError::ToolNotFound { name } => ToolErrorView::ToolNotFound { name: name@ },
            ToolError::MissingRequiredArgument { tool, arg } => {
                ToolErrorView::MissingRequiredArgument { tool: tool@, arg: arg@ }
            },
            ToolError::InvalidArgumentType { tool, arg, expected } => {
                ToolErrorView::InvalidArgumentType { tool: tool@, arg: arg@, expected }
            },
            ToolError::SpawnFailed { command, cause } => ToolErrorView::SpawnFailed {
                command: command@,
                cause: cause@,
            },
            ToolError::CommandFailed { command, stderr } => ToolErrorView::CommandFailed {
                command: command@,
                stderr: stderr@,
            },
            ToolError::InvalidOutputFormat { command, parse_error } => {
                ToolErrorView::InvalidOutputFormat { command: command@, parse_error: parse_error@ }
            },
            ToolError::UnknownInternalHandler { tag } => ToolErrorView::UnknownInternalHandler {
                tag: tag@,
            },
            ToolError::MissingOrInvalidParameter { name } => {
                ToolErrorView::MissingOrInvalidParameter { name: name@ }
            },
        }
    }
}

/// The word for an argument type in a message.
pub open spec fn type_word(t: ArgType) -> Seq<char> {
    match t {
        ArgType::String => "string"@,
        ArgType::Number => "number"@,
        ArgType::Boolean => "boolean"@,
        ArgType::Array => "array"@,
    }
}

/// The text shown when no configuration file is found.
pub open spec fn config_missing_text() -> Seq<char> {
    "No tools.yaml found!\n\nTo get started:\n1. Copy tools.yaml.example to one of these locations:\n   - $GAMECODE_TOOLS_FILE (if set)\n   - ~/.config/gamecode-mcp/tools.yaml\n   - ./tools.yaml\n2. Customize it with your tools\n3. Restart the server\n\nExample: cp tools.yaml.example ~/.config/gamecode-mcp/tools.yaml"@
}

/// The human-readable message of an error.
pub open spec fn message_text(e: ToolErrorView) -> Seq<char> {
    match e {
        ToolErrorView::ConfigRead { cause } => "Failed to read config file: "@ + cause,
        ToolErrorView::ConfigParse { cause } => "Failed to parse YAML: "@ + cause,
        ToolErrorView::ConfigMissing => config_missing_text(),
        ToolErrorView::UnknownArgumentType { type_string } => "Unknown arg type: "@ + type_string,
        ToolErrorView::ToolNotFound { name } => "Tool not found: "@ + name,
        ToolErrorView::MissingRequiredArgument { tool, arg } => "Missing required argument: "@
            + arg,
        ToolErrorView::InvalidArgumentType { tool, arg, expected } => "Expected "@ + type_word(
            expected,
        ) + " value"@,
        ToolErrorView::SpawnFailed { command, cause } => "Failed to execute "@ + command + ": "@
            + cause,
        ToolErrorView::CommandFailed { command, stderr } => "Command failed: "@ + stderr,
        ToolErrorView::InvalidOutputFormat { command, parse_error } => "Invalid JSON output: "@
            + parse_error,
        ToolErrorView::UnknownInternalHandler { tag } => "Unknown internal handler: "@ + tag,
        ToolErrorView::MissingOrInvalidParameter { name } => "Missing or invalid parameter '"@
            + name + "'"@,
    }
}

pub(crate) fn type_word_str(t: ArgType) -> (r: &'static str)
    ensures
        r@ == type_word(t),
{
    match t {
        ArgType::String => "string",
        ArgType::Number => "number",
        ArgType::Boolean => "boolean",
        ArgType::Array => "array",
    }
}

/// `prefix` followed by `rest`.
fn prefixed(prefix: &str, rest: &str) -> (r: String)
    ensures
        r@ == prefix@ + rest@,
{
    let mut s = String::from_str(prefix);
    s.append(rest);
    s
}

impl ToolError {
    /// The human-readable message of this error.
    pub fn message(&self) -> (r: String)
        ensures
            r@ == message_text(self@),
    {
        match self {
            ToolError::ConfigRead { cause } => prefixed("Failed to read config file: ", cause.as_str()),
            ToolError::ConfigParse { cause } => prefixed("Failed to parse YAML: ", cause.as_str()),
            ToolError::ConfigMissing => String::from_str(
                "No tools.yaml found!\n\nTo get started:\n1. Copy tools.yaml.example to one of these locations:\n   - $GAMECODE_TOOLS_FILE (if set)\n   - ~/.config/gamecode-mcp/tools.yaml\n   - ./tools.yaml\n2. Customize it with your tools\n3. Restart the server\n\nExample: cp tools.yaml.example ~/.config/gamecode-mcp/tools.yaml",
            ),
            ToolError::UnknownArgumentType { type_string } => prefixed(
                "Unknown arg type: ",
                type_string.as_str(),
            ),
            ToolError::ToolNotFound { name } => prefixed("Tool not found: ", name.as_str()),
            ToolError::MissingRequiredArgument { tool: _, arg } => prefixed(
                "Missing required argument: ",
                arg.as_str(),
            ),
            ToolError::InvalidArgumentType { tool: _, arg: _, expected } => {
                let mut s = prefixed("Expected ", type_word_str(*expected));
                s.append(" value");
                s
            },
            ToolError::SpawnFailed { command, cause } => {
                let mut s = prefixed("Failed to execute ", command.as_str());
                s.append(": ");
                s.append(cause.as_str());
                s
            },
            ToolError::CommandFailed { command: _, stderr } => prefixed(
                "Command failed: ",
                stderr.as_str(),
            ),
            ToolError::InvalidOutputFormat { command: _, parse_error } => prefixed(
                "Invalid JSON output: ",
                parse_error.as_str(),
            ),
            ToolError::UnknownInternalHandler { tag } => prefixed(
                "Unknown internal handler: ",
                tag.as_str(),
            ),
            ToolError::MissingOrInvalidParameter { name } => {
                let mut s = prefixed("Missing or invalid parameter '", name.as_str());
                s.append("'");
                s
            },
        }
    }
}

} // verus!
