//! Loading the catalogue from a configuration and dispatching by tool name.

use vstd::prelude::*;
use crate::cli_tool::{
    copy_texts, decides, option_text, plan, texts, ArgType, CliArg, CliArgView, CliTool, CliToolView,
    Invocation, InvocationView, ParamMap, ParamValueView,
};
use crate::error::{message_text, ToolError, ToolErrorView};
use crate::text::{join_path, joined_path, same_text};
use crate::tool_registry::{distinct_names, found, lemma_registered, registered, ToolRegistry};

verus! {

/// One argument as the configuration declares it.
#[derive(Clone, Debug)]
pub struct ArgDefinition {
    pub name: String,
    pub description: String,
    pub required: bool,
    /// The spelling of the type: `string`, `number`, `boolean` or `array`.
    pub arg_type: String,
    pub cli_flag: Option<String>,
    /// Declared for documentation; the mapper does not apply it.
    pub default: Option<String>,
}

/// One tool as the configuration declares it.
#[derive(Clone, Debug)]
pub struct ToolDefinition {
    pub name: String,
    pub description: String,
    pub command: String,
    pub args: Vec<ArgDefinition>,
    pub static_flags: Vec<String>,
    pub internal_handler: Option<String>,
}

/// A configuration: tool definitions in the order in which they are loaded.
#[derive(Clone, Debug)]
pub struct ToolConfig {
    pub tools: Vec<ToolDefinition>,
}

/// An `ArgDefinition` with its texts as sequences of characters.
pub struct ArgDefinitionView {
    pub name: Seq<char>,
    pub description: Seq<char>,
    pub required: bool,
    pub arg_type: Seq<char>,
    pub cli_flag: Option<Seq<char>>,
    pub default: Option<Seq<char>>,
}

/// A `ToolDefinition` with its texts as sequences of characters.
pub struct ToolDefinitionView {
    pub name: Seq<char>,
    pub description: Seq<char>,
    pub command: Seq<char>,
    pub args: Seq<ArgDefinitionView>,
    pub static_flags: Seq<Seq<char>>,
    pub internal_handler: Option<Seq<char>>,
}

impl View for ArgDefinition {
    type V = ArgDefinitionView;

    open spec fn view(&self) -> ArgDefinitionView {
        ArgDefinitionView {
            name: self.name@,
            description: self.description@,
            required: self.required,
            arg_type: self.arg_type@,
            cli_flag: option_text(self.cli_flag),
            default: option_text(self.default),
        }
    }
}

impl View for ToolDefinition {
    type V = ToolDefinitionView;

    open spec fn view(&self) -> ToolDefinitionView {
        ToolDefinitionView {
            name: self.name@,
            description: self.description@,
            command: self.command@,
            args: self.args@.map_values(|a: ArgDefinition| a@),
            static_flags: texts(self.static_flags@),
            internal_handler: option_text(self.internal_handler),
        }
    }
}

impl View for ToolConfig {
    type V = Seq<ToolDefinitionView>;

    open spec fn view(&self) -> Seq<ToolDefinitionView> {
        self.tools@.map_values(|t: ToolDefinition| t@)
    }
}

/// The argument type that a spelling stands for.
pub open spec fn arg_type_of(spelling: Seq<char>) -> Option<ArgType> {
    if spelling == "string"@ {
        Some(ArgType::String)
    } else if spelling == "number"@ {
        Some(ArgType::Number)
    } else if spelling == "boolean"@ {
        Some(ArgType::Boolean)
    } else if spelling == "array"@ {
        Some(ArgType::Array)
    } else {
        None
    }
}

/// The first `n` declared arguments as arguments of a tool, or the failure
/// at the first of them whose type has an unknown spelling.
pub open spec fn converted_args(args: Seq<ArgDefinitionView>, n: nat) -> Result<
    Seq<CliArgView>,
    ToolErrorView,
>
    decreases n,
{
    if n == 0 {
        Ok(Seq::empty())
    } else {
        match converted_args(args, (n - 1) as nat) {
            Err(e) => Err(e),
            Ok(done) => {
                let arg = args[n - 1];
                match arg_type_of(arg.arg_type) {
                    Some(arg_type) => Ok(
                        done.push(
                            CliArgView {
                                name: arg.name,
                                description: arg.description,
                                required: arg.required,
                                arg_type,
                                cli_flag: arg.cli_flag,
                            },
                        ),
                    ),
                    None => Err(ToolErrorView::UnknownArgumentType { type_string: arg.arg_type }),
                }
            },
        }
    }
}

/// The tool that a definition declares. The definition is taken over field
/// by field; the default of an argument is not carried over.
pub open spec fn converted(def: ToolDefinitionView) -> Result<CliToolView, ToolErrorView> {
    match converted_args(def.args, def.args.len()) {
        Ok(args) => Ok(
            CliToolView {
                name: def.name,
                description: def.description,
                command: def.command,
                args,
                static_flags: def.static_flags,
                internal_handler: def.internal_handler,
            },
        ),
        Err(e) => Err(e),
    }
}

/// A catalogue together with the failure that stopped a load, if any.
pub struct LoadState {
    pub catalogue: Seq<CliToolView>,
    pub failure: Option<ToolErrorView>,
}

/// The state after the first `n` definitions are loaded into `catalogue` in
/// turn. Each definition is converted and registered under its name. The
/// load stops at the first definition that cannot be converted: what was
/// registered before it stays, and nothing after it is looked at.
pub open spec fn loaded(catalogue: Seq<CliToolView>, defs: Seq<ToolDefinitionView>, n: nat) -> LoadState
    decreases n,
{
    if n == 0 {
        LoadState { catalogue, failure: None }
    } else {
        let before = loaded(catalogue, defs, (n - 1) as nat);
        if before.failure is Some {
            before
        } else {
            match converted(defs[n - 1]) {
                Ok(tool) => LoadState {
                    catalogue: registered(before.catalogue, tool),
                    failure: None,
                },
                Err(e) => LoadState { catalogue: before.catalogue, failure: Some(e) },
            }
        }
    }
}

/// What was found at the default locations, text for text.
pub open spec fn located_view(located: Option<Result<ToolConfig, ToolError>>) -> Option<
    Result<Seq<ToolDefinitionView>, ToolErrorView>,
> {
    match located {
        Some(Ok(config)) => Some(Ok(config@)),
        Some(Err(e)) => Some(Err(e@)),
        None => None,
    }
}

/// The state after a load from the default locations: that of loading the
/// configuration found; where none was found, or the one found could not be
/// read, the catalogue as it was, with the reason.
pub open spec fn located_state(
    catalogue: Seq<CliToolView>,
    located: Option<Result<Seq<ToolDefinitionView>, ToolErrorView>>,
) -> LoadState {
    match located {
        Some(Ok(defs)) => loaded(catalogue, defs, defs.len()),
        Some(Err(e)) => LoadState { catalogue, failure: Some(e) },
        None => LoadState { catalogue, failure: Some(ToolErrorView::ConfigMissing) },
    }
}

/// Once a load has failed, further definitions change nothing.
pub proof fn lemma_load_stops(
    catalogue: Seq<CliToolView>,
    defs: Seq<ToolDefinitionView>,
    n: nat,
    m: nat,
)
    requires
        n <= m,
        loaded(catalogue, defs, n).failure is Some,
    ensures
        loaded(catalogue, defs, m) == loaded(catalogue, defs, n),
    decreases m,
{
    if n < m {
        lemma_load_stops(catalogue, defs, n, (m - 1) as nat);
    }
}

proof fn lemma_conversion_stops(args: Seq<ArgDefinitionView>, n: nat, m: nat)
    requires
        n <= m,
        converted_args(args, n) is Err,
    ensures
        converted_args(args, m) == converted_args(args, n),
    decreases m,
{
    if n < m {
        lemma_conversion_stops(args, n, (m - 1) as nat);
    }
}

fn parse_arg_type(spelling: &str) -> (r: Option<ArgType>)
    ensures
        r == arg_type_of(spelling@),
{
    if same_text(spelling, "string") {
        Some(ArgType::String)
    } else if same_text(spelling, "number") {
        Some(ArgType::Number)
    } else if same_text(spelling, "boolean") {
        Some(ArgType::Boolean)
    } else if same_text(spelling, "array") {
        Some(ArgType::Array)
    } else {
        None
    }
}

fn copy_option(o: &Option<String>) -> (r: Option<String>)
    ensures
        option_text(r) == option_text(*o),
{
    match o {
        Some(s) => Some(s.clone()),
        None => None,
    }
}

/// The catalogue the server works with: tools are loaded from
/// configurations and invocations are dispatched by tool name.
#[derive(Debug)]
pub struct DynamicToolManager {
    tools: ToolRegistry,
}

impl View for DynamicToolManager {
    type V = Seq<CliToolView>;

    /// The entries in the order in which they are listed.
    closed spec fn view(&self) -> Seq<CliToolView> {
        self.tools@
    }
}

/// What invoking the tool `name` of `catalogue` with `params` amounts to.
pub open spec fn dispatched(
    catalogue: Seq<CliToolView>,
    name: Seq<char>,
    params: Map<Seq<char>, ParamValueView>,
) -> Result<InvocationView, ToolErrorView> {
    match found(catalogue, name) {
        Some(tool) => plan(tool, params),
        None => Err(ToolErrorView::ToolNotFound { name }),
    }
}

impl Default for DynamicToolManager {
    /// A manager with an empty catalogue.
    fn default() -> (r: Self)
        ensures
            r@ == Seq::<CliToolView>::empty(),
            distinct_names(r@),
    {
        DynamicToolManager::new()
    }
}

impl DynamicToolManager {
    /// A manager with an empty catalogue.
    pub fn new() -> (r: Self)
        ensures
            r@ == Seq::<CliToolView>::empty(),
            distinct_names(r@),
    {
        DynamicToolManager { tools: ToolRegistry::new() }
    }

    /// Turns a definition into a tool, or fails at the first argument whose
    /// type has an unknown spelling.
    pub fn convert_to_cli_tool(&self, def: &ToolDefinition) -> (r: Result<CliTool, ToolError>)
        ensures
            match r {
                Ok(tool) => converted(def@) == Ok::<CliToolView, ToolErrorView>(tool@),
                Err(e) => converted(def@) == Err::<CliToolView, ToolErrorView>(e@),
            },
    {
        let mut args: Vec<CliArg> = Vec::new();
        let mut i: usize = 0;
        while i < def.args.len()
            invariant
                i <= def.args.len(),
                converted_args(def@.args, i as nat) matches Ok(done) && done
                    == args@.map_values(|a: CliArg| a@),
            decreases def.args.len() - i,
        {
            let arg_def = &def.args[i];
            assert(def@.args[i as int] == arg_def@);
            match parse_arg_type(arg_def.arg_type.as_str()) {
                Some(arg_type) => {
                    let ghost before = args@.map_values(|a: CliArg| a@);
                    let arg = CliArg {
                        name: arg_def.name.clone(),
                        description: arg_def.description.clone(),
                        required: arg_def.required,
                        arg_type,
                        cli_flag: copy_option(&arg_def.cli_flag),
                    };
                    args.push(arg);
                    assert(args@.map_values(|a: CliArg| a@) =~= before.push(arg@));
                },
                None => {
                    proof {
                        assert(converted_args(def@.args, (i + 1) as nat) is Err);
                        lemma_conversion_stops(def@.args, (i + 1) as nat, def@.args.len());
                    }
                    return Err(
                        ToolError::UnknownArgumentType { type_string: arg_def.arg_type.clone() },
                    );
                },
            }
            i += 1;
        }
        Ok(
            CliTool {
                name: def.name.clone(),
                description: def.description.clone(),
                command: def.command.clone(),
                args,
                static_flags: copy_texts(&def.static_flags),
                internal_handler: copy_option(&def.internal_handler),
            },
        )
    }

    /// Loads the definitions of `config` in turn. A tool whose name is
    /// already registered replaces the earlier one. The load stops at the
    /// first definition that cannot be converted and returns its error; the
    /// tools registered before it stay registered.
    pub fn load_from_yaml(&mut self, config: ToolConfig) -> (r: Result<(), ToolError>)
        ensures
            final(self)@ == loaded(old(self)@, config@, config@.len()).catalogue,
            match r {
                Ok(_) => loaded(old(self)@, config@, config@.len()).failure is None,
                Err(e) => loaded(old(self)@, config@, config@.len()).failure == Some(e@),
            },
            distinct_names(old(self)@),
            distinct_names(final(self)@),
    {
        proof {
            use_type_invariant(&self.tools);
        }
        let mut i: usize = 0;
        while i < config.tools.len()
            invariant
                i <= config.tools.len(),
                loaded(old(self)@, config@, i as nat) == (LoadState {
                    catalogue: self@,
                    failure: None,
                }),
                distinct_names(old(self)@),
                distinct_names(self@),
            decreases config.tools.len() - i,
        {
            assert(config@[i as int] == config.tools[i as int]@);
            match self.convert_to_cli_tool(&config.tools[i]) {
                Ok(tool) => {
                    self.tools.register(tool);
                },
                Err(e) => {
                    proof {
                        assert(loaded(old(self)@, config@, (i + 1) as nat).failure is Some);
                        lemma_load_stops(old(self)@, config@, (i + 1) as nat, config@.len());
                    }
                    return Err(e);
                },
            }
            i += 1;
        }
        Ok(())
    }

    /// Loads the configuration found at the default locations. `located`
    /// says what was found there: nothing, a configuration, or the reason
    /// why the file found could not be read. Unless a configuration was
    /// found the catalogue stays as it is and the reason is returned.
    pub fn load_from_default_locations(
        &mut self,
        located: Option<Result<ToolConfig, ToolError>>,
    ) -> (r: Result<(), ToolError>)
        ensures
            final(self)@ == located_state(old(self)@, located_view(located)).catalogue,
            match r {
                Ok(_) => located_state(old(self)@, located_view(located)).failure is None,
                Err(e) => located_state(old(self)@, located_view(located)).failure == Some(e@),
            },
            distinct_names(old(self)@),
            distinct_names(final(self)@),
    {
        proof {
            use_type_invariant(&self.tools);
        }
        match located {
            Some(Ok(config)) => self.load_from_yaml(config),
            Some(Err(e)) => Err(e),
            None => Err(ToolError::ConfigMissing),
        }
    }

    /// The tool registered under `name`.
    pub fn resolve(&self, name: &str) -> (r: Option<&CliTool>)
        ensures
            match r {
                Some(tool) => found(self@, name@) == Some(tool@),
                None => found(self@, name@) is None,
            },
            distinct_names(self@),
    {
        proof {
            use_type_invariant(&self.tools);
        }
        self.tools.get(name)
    }

    /// Decides what invoking the tool `tool_name` with `params` amounts to.
    /// A name that is not registered is an error.
    pub fn execute_tool(&self, tool_name: &str, params: ParamMap) -> (r: Result<
        Invocation,
        ToolError,
    >)
        ensures
            decides(r, dispatched(self@, tool_name@, params@)),
    {
        match self.tools.get(tool_name) {
            Some(tool) => tool.execute(params),
            None => Err(ToolError::ToolNotFound { name: String::from_str(tool_name) }),
        }
    }

    /// The name and description of every registered tool.
    pub fn list_tools(&self) -> (r: Vec<(String, String)>)
        ensures
            r@.len() == self@.len(),
            forall|i: int|
                0 <= i < r@.len() ==> r@[i].0@ == self@[i].name && r@[i].1@ == self@[i].description,
            distinct_names(self@),
    {
        let tools = self.tools.list_tools();
        let mut r: Vec<(String, String)> = Vec::new();
        let mut i: usize = 0;
        while i < tools.len()
            invariant
                i <= tools.len(),
                tools@.len() == self@.len(),
                forall|j: int| 0 <= j < tools@.len() ==> tools@[j]@ == self@[j],
                r@.len() == i,
                forall|j: int|
                    0 <= j < i ==> r@[j].0@ == self@[j].name && r@[j].1@ == self@[j].description,
            decreases tools.len() - i,
        {
            let tool = tools[i];
            r.push((tool.name.clone(), tool.description.clone()));
            i += 1;
        }
        r
    }
}

/// An invocation of a name that is not in the catalogue is rejected with a
/// message that names it.
pub proof fn lemma_unknown_tool_is_reported(
    catalogue: Seq<CliToolView>,
    name: Seq<char>,
    params: Map<Seq<char>, ParamValueView>,
)
    requires
        found(catalogue, name) is None,
    ensures
        dispatched(catalogue, name, params) == Err::<InvocationView, ToolErrorView>(
            ToolErrorView::ToolNotFound { name },
        ),
        message_text(ToolErrorView::ToolNotFound { name }) == "Tool not found: "@ + name,
{
}


/// Loading keeps the names of a catalogue distinct.
pub proof fn lemma_loaded_distinct(
    catalogue: Seq<CliToolView>,
    defs: Seq<ToolDefinitionView>,
    n: nat,
)
    requires
        distinct_names(catalogue),
    ensures
        distinct_names(loaded(catalogue, defs, n).catalogue),
    decreases n,
{
    if n > 0 {
        lemma_loaded_distinct(catalogue, defs, (n - 1) as nat);
        let before = loaded(catalogue, defs, (n - 1) as nat);
        if before.failure is None {
            if let Ok(tool) = converted(defs[n - 1]) {
                lemma_registered(before.catalogue, tool, tool.name);
            }
        }
    }
}

proof fn lemma_last_definition_stays(
    catalogue: Seq<CliToolView>,
    defs: Seq<ToolDefinitionView>,
    k: int,
    n: nat,
)
    requires
        distinct_names(catalogue),
        0 <= k < n <= defs.len(),
        loaded(catalogue, defs, n).failure is None,
        forall|j: int| k < j < n ==> defs[j].name != defs[k].name,
    ensures
        converted(defs[k]) is Ok,
        found(loaded(catalogue, defs, n).catalogue, defs[k].name) == Some(
            converted(defs[k])->Ok_0,
        ),
    decreases n,
{
    let before = loaded(catalogue, defs, (n - 1) as nat);
    lemma_loaded_distinct(catalogue, defs, (n - 1) as nat);
    let tool = converted(defs[n - 1])->Ok_0;
    if n - 1 == k {
        lemma_registered(before.catalogue, tool, tool.name);
    } else {
        lemma_last_definition_stays(catalogue, defs, k, (n - 1) as nat);
        lemma_registered(before.catalogue, tool, defs[k].name);
    }
}

/// Last write wins: after a load that did not fail, each name that the
/// configuration defines stands for the last definition of that name,
/// whatever the catalogue held under it before.
pub proof fn lemma_last_definition_wins(
    catalogue: Seq<CliToolView>,
    defs: Seq<ToolDefinitionView>,
    k: int,
)
    requires
        distinct_names(catalogue),
        loaded(catalogue, defs, defs.len()).failure is None,
        0 <= k < defs.len(),
        forall|j: int| k < j < defs.len() ==> defs[j].name != defs[k].name,
    ensures
        converted(defs[k]) is Ok,
        found(loaded(catalogue, defs, defs.len()).catalogue, defs[k].name) == Some(
            converted(defs[k])->Ok_0,
        ),
{
    lemma_last_definition_stays(catalogue, defs, k, defs.len());
}


/// The name of the environment variable that may point at a configuration.
pub fn tools_file_variable() -> (r: &'static str)
    ensures
        r@ == "GAMECODE_TOOLS_FILE"@,
{
    "GAMECODE_TOOLS_FILE"
}

/// Where a configuration is looked for, in order of precedence: the file
/// that the environment names, the file in the user's configuration
/// directory, the file in the current directory. The first two are left out
/// where the environment names none or no home directory is known.
pub open spec fn locations(env_file: Option<Seq<char>>, home: Option<Seq<char>>) -> Seq<Seq<char>> {
    (match env_file {
        Some(file) => seq![file],
        None => Seq::empty(),
    }) + (match home {
        Some(dir) => seq![joined_path(dir, ".config/gamecode-mcp/tools.yaml"@)],
        None => Seq::empty(),
    }) + seq!["./tools.yaml"@]
}

/// Trusted: `home::home_dir`, the path turned into text. The directory
/// depends on the environment, so the contract says nothing of it.
#[verifier::external_body]
fn home_directory() -> (r: Option<String>) {
    home::home_dir().map(|dir| dir.to_string_lossy().into_owned())
}

/// The default locations for a user whose home directory is `home`.
pub fn locations_for(env_file: Option<String>, home: Option<String>) -> (r: Vec<String>)
    ensures
        texts(r@) == locations(option_text(env_file), option_text(home)),
{
    let mut r: Vec<String> = Vec::new();
    match env_file {
        Some(file) => {
            r.push(file);
        },
        None => {},
    }
    match home {
        Some(dir) => {
            r.push(join_path(dir.as_str(), ".config/gamecode-mcp/tools.yaml"));
        },
        None => {},
    }
    r.push(String::from_str("./tools.yaml"));
    assert(texts(r@) =~= locations(option_text(env_file), option_text(home)));
    r
}

/// The default locations for the current user; `env_file` is the value of
/// the environment variable, if it is set.
pub fn default_locations(env_file: Option<String>) -> (r: Vec<String>)
    ensures
        exists|home: Option<Seq<char>>|
            texts(r@) == #[trigger] locations(option_text(env_file), home),
{
    let home = home_directory();
    locations_for(env_file, home)
}

/// The first location that exists, given for each location whether it
/// does.
pub fn first_existing(exists: &Vec<bool>) -> (r: Option<usize>)
    ensures
        match r {
            Some(i) => i < exists@.len() && exists@[i as int] && forall|j: int|
                0 <= j < i ==> !exists@[j],
            None => forall|j: int| 0 <= j < exists@.len() ==> !exists@[j],
        },
{
    let mut i: usize = 0;
    while i < exists.len()
        invariant
            i <= exists.len(),
            forall|j: int| 0 <= j < i ==> !exists@[j],
        decreases exists.len() - i,
    {
        if exists[i] {
            return Some(i);
        }
        i += 1;
    }
    None
}

} // verus!
