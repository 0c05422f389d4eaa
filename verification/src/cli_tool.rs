//! Tool definitions and the mapping of parameters onto an invocation.

use vstd::prelude::*;
use vstd::hash_map::StringHashMap;
use crate::error::{message_text, ToolError, ToolErrorView};
use crate::json::{canonical, json_canonical, json_number_text, number_text};
use crate::text::{integer_literal, is_integer_literal, same_text};

verus! {

/// How a parameter value is turned into a command-line token.
#[derive(Clone, Copy, Debug, PartialEq, Eq, Structural)]
pub enum ArgType {
    String,
    Number,
    Boolean,
    Array,
}

/// One declared argument of a tool.
#[derive(Clone, Debug)]
pub struct CliArg {
    pub name: String,
    pub description: String,
    pub required: bool,
    pub arg_type: ArgType,
    /// The flag that precedes the value, such as `--input`; a positional
    /// argument has none.
    pub cli_flag: Option<String>,
}

/// One entry of the catalogue.
#[derive(Clone, Debug)]
pub struct CliTool {
    pub name: String,
    pub description: String,
    pub command: String,
    pub args: Vec<CliArg>,
    /// Tokens that every invocation carries, ahead of the mapped arguments.
    pub static_flags: Vec<String>,
    /// The built-in handler that answers in place of `command`.
    pub internal_handler: Option<String>,
}

/// A parameter value as it arrives with an invocation. Scalars are held as
/// values; a number is held as its JSON literal, an array or object as its
/// JSON text.
#[derive(Clone, Debug)]
pub enum ParamValue {
    Null,
    Bool(bool),
    Number(String),
    String(String),
    Array(String),
    Object(String),
}

/// A `CliArg` with its texts as sequences of characters.
pub struct CliArgView {
    pub name: Seq<char>,
    pub description: Seq<char>,
    pub required: bool,
    pub arg_type: ArgType,
    pub cli_flag: Option<Seq<char>>,
}

/// A `CliTool` with its texts as sequences of characters.
pub struct CliToolView {
    pub name: Seq<char>,
    pub description: Seq<char>,
    pub command: Seq<char>,
    pub args: Seq<CliArgView>,
    pub static_flags: Seq<Seq<char>>,
    pub internal_handler: Option<Seq<char>>,
}

/// A `ParamValue` with its texts as sequences of characters.
pub enum ParamValueView {
    Null,
    Bool(bool),
    Number(Seq<char>),
    String(Seq<char>),
    Array(Seq<char>),
    Object(Seq<char>),
}

/// The characters of an optional text.
pub open spec fn option_text(o: Option<String>) -> Option<Seq<char>> {
    match o {
        Some(s) => Some(s@),
        None => None,
    }
}

/// The characters of each text of a list.
pub open spec fn texts(v: Seq<String>) -> Seq<Seq<char>> {
    v.map_values(|s: String| s@)
}

impl View for CliArg {
    type V = CliArgView;

    open spec fn view(&self) -> CliArgView {
        CliArgView {
            name: self.name@,
            description: self.description@,
            required: self.required,
            arg_type: self.arg_type,
            cli_flag: option_text(self.cli_flag),
        }
    }
}

impl View for CliTool {
    type V = CliToolView;

    open spec fn view(&self) -> CliToolView {
        CliToolView {
            name: self.name@,
            description: self.description@,
            command: self.command@,
            args: self.args@.map_values(|a: CliArg| a@),
            static_flags: texts(self.static_flags@),
            internal_handler: option_text(self.internal_handler),
        }
    }
}

impl View for ParamValue {
    type V = ParamValueView;

    open spec fn view(&self) -> ParamValueView {
        match *self {
            ParamValue::Null => ParamValueView::Null,
            ParamValue::Bool(b) => ParamValueView::Bool(b),
            ParamValue::Number(s) => ParamValueView::Number(s@),
            ParamValue::String(s) => ParamValueView::String(s@),
            ParamValue::Array(s) => ParamValueView::Array(s@),
            ParamValue::Object(s) => ParamValueView::Object(s@),
        }
    }
}

/// The parameters of one invocation, by name.
pub struct ParamMap {
    entries: StringHashMap<ParamValue>,
}

impl View for ParamMap {
    type V = Map<Seq<char>, ParamValueView>;

    /// The value of each name that has one.
    closed spec fn view(&self) -> Map<Seq<char>, ParamValueView> {
        self.entries@.map_values(|v: ParamValue| v@)
    }
}

impl ParamMap {
    /// No parameters.
    pub fn new() -> (r: Self)
        ensures
            r@ == Map::<Seq<char>, ParamValueView>::empty(),
    {
        let r = ParamMap { entries: StringHashMap::new() };
        assert(r@ =~= Map::<Seq<char>, ParamValueView>::empty());
        r
    }

    /// Gives `name` the value `value`, in place of any earlier one.
    pub fn insert(&mut self, name: String, value: ParamValue)
        ensures
            final(self)@ == old(self)@.insert(name@, value@),
    {
        self.entries.insert(name, value);
        assert(self@ =~= old(self)@.insert(name@, value@));
    }

    /// The value of `name`, if it has one.
    pub fn get(&self, name: &str) -> (r: Option<&ParamValue>)
        ensures
            match r {
                Some(v) => self@.contains_key(name@) && self@[name@] == v@,
                None => !self@.contains_key(name@),
            },
    {
        self.entries.get(name)
    }

    /// Whether `name` has a value.
    pub fn contains_key(&self, name: &str) -> (r: bool)
        ensures
            r == self@.contains_key(name@),
    {
        self.entries.contains_key(name)
    }
}

/// The decimal text of the number whose JSON literal is `literal`: an
/// integer literal stands for itself, digit for digit; a literal with a
/// fraction or an exponent is read as a double and written out in decimal.
/// `None` where `literal` is not a number.
pub open spec fn number_token(literal: Seq<char>) -> Option<Seq<char>> {
    if is_integer_literal(literal) {
        Some(literal)
    } else {
        json_number_text(literal)
    }
}

/// The token that stands for `value` where an argument of type `arg_type`
/// is expected; `None` where the value is not of that type.
///
/// A string is taken as it is, a boolean becomes `true` or `false`, a number
/// becomes its decimal text, and an array becomes its compact JSON text. A
/// value of any other kind than the declared one is not accepted, and
/// neither is an array whose text is not well-formed.
pub open spec fn coerce(value: ParamValueView, arg_type: ArgType) -> Option<Seq<char>> {
    match arg_type {
        ArgType::String => match value {
            ParamValueView::String(s) => Some(s),
            _ => None,
        },
        ArgType::Number => match value {
            ParamValueView::Number(literal) => number_token(literal),
            _ => None,
        },
        ArgType::Boolean => match value {
            ParamValueView::Bool(b) => Some(
                if b {
                    "true"@
                } else {
                    "false"@
                },
            ),
            _ => None,
        },
        ArgType::Array => match value {
            ParamValueView::Array(text) => match json_canonical(text) {
                Ok(compact) => if compact.len() > 0 && compact[0] == '[' {
                    Some(compact)
                } else {
                    None
                },
                Err(_) => None,
            },
            _ => None,
        },
    }
}

/// What is said of a value that is not of the declared type.
pub open spec fn expected_text(arg_type: ArgType) -> Seq<char> {
    message_text(
        ToolErrorView::InvalidArgumentType { tool: Seq::empty(), arg: Seq::empty(), expected: arg_type },
    )
}

fn number_token_of(literal: &String) -> (r: Option<String>)
    ensures
        match r {
            Some(s) => number_token(literal@) == Some(s@),
            None => number_token(literal@) is None,
        },
{
    if integer_literal(literal.as_str()) {
        Some(literal.clone())
    } else {
        number_text(literal.as_str())
    }
}

fn expected(arg_type: ArgType) -> (r: String)
    ensures
        r@ == expected_text(arg_type),
{
    let e = ToolError::InvalidArgumentType {
        tool: String::new(),
        arg: String::new(),
        expected: arg_type,
    };
    e.message()
}

impl CliTool {
    /// Turns `value` into the token for an argument of type `arg_type`, or
    /// says what was expected in its place.
    pub fn format_value(&self, value: &ParamValue, arg_type: &ArgType) -> (r: Result<String, String>)
        ensures
            match coerce(value@, *arg_type) {
                Some(token) => r matches Ok(s) && s@ == token,
                None => r matches Err(m) && m@ == expected_text(*arg_type),
            },
    {
        match arg_type {
            ArgType::String => match value {
                ParamValue::String(s) => Ok(s.clone()),
                _ => Err(expected(*arg_type)),
            },
            ArgType::Number => match value {
                ParamValue::Number(literal) => match number_token_of(literal) {
                    Some(s) => Ok(s),
                    None => Err(expected(*arg_type)),
                },
                _ => Err(expected(*arg_type)),
            },
            ArgType::Boolean => match value {
                ParamValue::Bool(b) => if *b {
                    Ok(String::from_str("true"))
                } else {
                    Ok(String::from_str("false"))
                },
                _ => Err(expected(*arg_type)),
            },
            ArgType::Array => match value {
                ParamValue::Array(text) => match canonical(text.as_str()) {
                    Ok(compact) => {
                        if !compact.as_str().is_empty() && compact.as_str().get_char(0) == '[' {
                            Ok(compact)
                        } else {
                            Err(expected(*arg_type))
                        }
                    },
                    Err(_) => Err(expected(*arg_type)),
                },
                _ => Err(expected(*arg_type)),
            },
        }
    }
}

/// A built-in arithmetic operation.
#[derive(Clone, Copy, Debug, PartialEq, Eq, Structural)]
pub enum Operation {
    Addition,
    Multiplication,
}

/// What has to be done to answer an invocation that passed validation. The
/// library decides it; the caller carries it out and reports the outcome.
#[derive(Clone, Debug)]
pub enum Invocation {
    /// Run `command` with the arguments `argv` and wait for it to exit.
    Spawn { command: String, argv: Vec<String> },
    /// Apply `operation` to the numbers whose decimal texts are `a` and `b`.
    Arithmetic { operation: Operation, a: String, b: String },
    /// List the entries of the directory `path`.
    ListFiles { path: String },
}

/// An `Invocation` with its texts as sequences of characters.
pub enum InvocationView {
    Spawn { command: Seq<char>, argv: Seq<Seq<char>> },
    Arithmetic { operation: Operation, a: Seq<char>, b: Seq<char> },
    ListFiles { path: Seq<char> },
}

impl View for Invocation {
    type V = InvocationView;

    open spec fn view(&self) -> InvocationView {
        match *self {
            Invocation::Spawn { command, argv } => InvocationView::Spawn {
                command: command@,
                argv: texts(argv@),
            },
            Invocation::Arithmetic { operation, a, b } => InvocationView::Arithmetic {
                operation,
                a: a@,
                b: b@,
            },
            Invocation::ListFiles { path } => InvocationView::ListFiles { path: path@ },
        }
    }
}

/// The tokens that one argument contributes: its flag, if it has one, then
/// the value.
pub open spec fn arg_tokens(flag: Option<Seq<char>>, token: Seq<char>) -> Seq<Seq<char>> {
    match flag {
        Some(f) => seq![f, token],
        None => seq![token],
    }
}

/// The outcome of mapping the first `n` declared arguments of `tool`, in
/// declaration order: the tokens they contribute, or the first failure.
///
/// An argument with a value contributes the tokens of that value, or fails
/// if the value is not of the declared type. One without a value fails if it
/// is required and contributes nothing if it is not.
pub open spec fn mapped_prefix(
    tool: CliToolView,
    params: Map<Seq<char>, ParamValueView>,
    n: nat,
) -> Result<Seq<Seq<char>>, ToolErrorView>
    decreases n,
{
    if n == 0 {
        Ok(Seq::empty())
    } else {
        match mapped_prefix(tool, params, (n - 1) as nat) {
            Err(e) => Err(e),
            Ok(tokens) => {
                let arg = tool.args[n - 1];
                if params.contains_key(arg.name) {
                    match coerce(params[arg.name], arg.arg_type) {
                        Some(token) => Ok(tokens + arg_tokens(arg.cli_flag, token)),
                        None => Err(
                            ToolErrorView::InvalidArgumentType {
                                tool: tool.name,
                                arg: arg.name,
                                expected: arg.arg_type,
                            },
                        ),
                    }
                } else if arg.required {
                    Err(ToolErrorView::MissingRequiredArgument { tool: tool.name, arg: arg.name })
                } else {
                    Ok(tokens)
                }
            },
        }
    }
}

/// The outcome of mapping all declared arguments of `tool`.
pub open spec fn mapped(tool: CliToolView, params: Map<Seq<char>, ParamValueView>) -> Result<
    Seq<Seq<char>>,
    ToolErrorView,
> {
    mapped_prefix(tool, params, tool.args.len())
}

/// The number that the parameter `name` holds, as decimal text.
pub open spec fn number_param(params: Map<Seq<char>, ParamValueView>, name: Seq<char>) -> Option<
    Seq<char>,
> {
    if params.contains_key(name) {
        coerce(params[name], ArgType::Number)
    } else {
        None
    }
}

/// The directory that `list_files` is asked for: the parameter `path` where
/// it is a string, the current directory otherwise.
pub open spec fn path_param(params: Map<Seq<char>, ParamValueView>) -> Seq<char> {
    if params.contains_key("path"@) {
        match params["path"@] {
            ParamValueView::String(s) => s,
            _ => "."@,
        }
    } else {
        "."@
    }
}

/// What an arithmetic handler decides: both `a` and `b` must be numbers.
pub open spec fn arithmetic_plan(
    operation: Operation,
    params: Map<Seq<char>, ParamValueView>,
) -> Result<InvocationView, ToolErrorView> {
    match number_param(params, "a"@) {
        None => Err(ToolErrorView::MissingOrInvalidParameter { name: "a"@ }),
        Some(a) => match number_param(params, "b"@) {
            None => Err(ToolErrorView::MissingOrInvalidParameter { name: "b"@ }),
            Some(b) => Ok(InvocationView::Arithmetic { operation, a, b }),
        },
    }
}

/// What the built-in handler `handler` decides for `params`.
pub open spec fn internal_plan(handler: Seq<char>, params: Map<Seq<char>, ParamValueView>) -> Result<
    InvocationView,
    ToolErrorView,
> {
    if handler == "add"@ {
        arithmetic_plan(Operation::Addition, params)
    } else if handler == "multiply"@ {
        arithmetic_plan(Operation::Multiplication, params)
    } else if handler == "list_files"@ {
        Ok(InvocationView::ListFiles { path: path_param(params) })
    } else {
        Err(ToolErrorView::UnknownInternalHandler { tag: handler })
    }
}

/// What `tool` decides for `params`: a tool with a built-in handler leaves
/// the decision to the handler; any other maps its arguments and, if that
/// succeeds, asks for its command to be run with the static flags followed
/// by the mapped tokens.
pub open spec fn plan(tool: CliToolView, params: Map<Seq<char>, ParamValueView>) -> Result<
    InvocationView,
    ToolErrorView,
> {
    match tool.internal_handler {
        Some(handler) => internal_plan(handler, params),
        None => match mapped(tool, params) {
            Ok(tokens) => Ok(
                InvocationView::Spawn { command: tool.command, argv: tool.static_flags + tokens },
            ),
            Err(e) => Err(e),
        },
    }
}

/// Whether `r` is the decision `expected`, text for text.
pub open spec fn decides(
    r: Result<Invocation, ToolError>,
    expected: Result<InvocationView, ToolErrorView>,
) -> bool {
    match r {
        Ok(i) => expected == Ok::<InvocationView, ToolErrorView>(i@),
        Err(e) => expected == Err::<InvocationView, ToolErrorView>(e@),
    }
}

/// A failure among the first `n` arguments is the failure of the whole
/// mapping.
pub proof fn lemma_first_failure_stays(
    tool: CliToolView,
    params: Map<Seq<char>, ParamValueView>,
    n: nat,
    m: nat,
)
    requires
        n <= m,
        mapped_prefix(tool, params, n) is Err,
    ensures
        mapped_prefix(tool, params, m) == mapped_prefix(tool, params, n),
    decreases m,
{
    if n < m {
        lemma_first_failure_stays(tool, params, n, (m - 1) as nat);
    }
}

/// Whether the argument at `i` is required and has no value.
pub open spec fn missing_at(tool: CliToolView, params: Map<Seq<char>, ParamValueView>, i: int) -> bool {
    &&& 0 <= i < tool.args.len()
    &&& tool.args[i].required
    &&& !params.contains_key(tool.args[i].name)
}

/// Whether each of the first `n` arguments that has a value has one of its
/// declared type.
pub open spec fn well_typed_before(
    tool: CliToolView,
    params: Map<Seq<char>, ParamValueView>,
    n: int,
) -> bool {
    forall|j: int|
        0 <= j < n && j < tool.args.len() && params.contains_key(#[trigger] tool.args[j].name)
            ==> coerce(params[tool.args[j].name], tool.args[j].arg_type) is Some
}

/// Whether `e` says that `tool` lacks one of its first `n` arguments, one
/// that is required and has no value.
pub open spec fn reports_missing(
    e: ToolErrorView,
    tool: CliToolView,
    params: Map<Seq<char>, ParamValueView>,
    n: int,
) -> bool {
    exists|k: int|
        0 <= k < n && #[trigger] missing_at(tool, params, k) && e
            == (ToolErrorView::MissingRequiredArgument { tool: tool.name, arg: tool.args[k].name })
}

proof fn lemma_prefix_of_well_typed(
    tool: CliToolView,
    params: Map<Seq<char>, ParamValueView>,
    n: nat,
)
    requires
        n <= tool.args.len(),
        well_typed_before(tool, params, n as int),
    ensures
        mapped_prefix(tool, params, n) matches Err(e) ==> reports_missing(
            e,
            tool,
            params,
            n as int,
        ),
    decreases n,
{
    if n > 0 {
        lemma_prefix_of_well_typed(tool, params, (n - 1) as nat);
        match mapped_prefix(tool, params, (n - 1) as nat) {
            Ok(_) => {
                let arg = tool.args[n - 1];
                if params.contains_key(arg.name) {
                    assert(coerce(params[arg.name], arg.arg_type) is Some);
                } else if arg.required {
                    assert(missing_at(tool, params, n - 1));
                }
            },
            Err(e) => {
                let k = choose|k: int|
                    0 <= k < n - 1 && #[trigger] missing_at(tool, params, k) && e == (
                    ToolErrorView::MissingRequiredArgument {
                        tool: tool.name,
                        arg: tool.args[k].name,
                    });
                assert(missing_at(tool, params, k));
            },
        }
    }
}

/// An external tool that is invoked without a value for a required argument
/// asks for no command to be run: the invocation is rejected.
pub proof fn lemma_missing_required_is_rejected(
    tool: CliToolView,
    params: Map<Seq<char>, ParamValueView>,
    i: int,
)
    requires
        tool.internal_handler is None,
        missing_at(tool, params, i),
    ensures
        plan(tool, params) is Err,
{
    assert(mapped_prefix(tool, params, (i + 1) as nat) is Err);
    lemma_first_failure_stays(tool, params, (i + 1) as nat, tool.args.len());
}

/// An external tool that is invoked without a value for a required argument
/// rejects the invocation for want of a required argument, provided that
/// the arguments declared before it were given values of their types.
pub proof fn lemma_missing_required_is_reported(
    tool: CliToolView,
    params: Map<Seq<char>, ParamValueView>,
    i: int,
)
    requires
        tool.internal_handler is None,
        missing_at(tool, params, i),
        well_typed_before(tool, params, i),
    ensures
        plan(tool, params) matches Err(e) && reports_missing(e, tool, params, i + 1),
{
    lemma_prefix_of_well_typed(tool, params, i as nat);
    match mapped_prefix(tool, params, i as nat) {
        Ok(_) => {
            assert(missing_at(tool, params, i));
        },
        Err(e) => {
            let k = choose|k: int|
                0 <= k < i && #[trigger] missing_at(tool, params, k) && e == (
                ToolErrorView::MissingRequiredArgument { tool: tool.name, arg: tool.args[k].name });
            assert(missing_at(tool, params, k));
        },
    }
    let upto = mapped_prefix(tool, params, (i + 1) as nat);
    assert(upto matches Err(e) && reports_missing(e, tool, params, i + 1));
    lemma_first_failure_stays(tool, params, (i + 1) as nat, tool.args.len());
}

pub(crate) fn copy_texts(v: &Vec<String>) -> (r: Vec<String>)
    ensures
        texts(r@) == texts(v@),
{
    let mut r: Vec<String> = Vec::new();
    let mut i: usize = 0;
    while i < v.len()
        invariant
            i <= v.len(),
            r@.len() == i,
            forall|j: int| 0 <= j < i ==> r@[j]@ == v@[j]@,
        decreases v.len() - i,
    {
        r.push(v[i].clone());
        i += 1;
    }
    assert(texts(r@) =~= texts(v@));
    r
}

impl CliTool {
    /// Decides what an invocation with `params` amounts to: the action to
    /// carry out, or the reason why the invocation is rejected. Nothing is
    /// run here.
    pub fn execute(&self, params: ParamMap) -> (r: Result<Invocation, ToolError>)
        ensures
            decides(r, plan(self@, params@)),
    {
        match &self.internal_handler {
            Some(handler) => self.execute_internal(handler.as_str(), params),
            None => {
                let mut argv = copy_texts(&self.static_flags);
                let ghost flags = texts(argv@);
                let mut i: usize = 0;
                while i < self.args.len()
                    invariant
                        i <= self.args.len(),
                        self.internal_handler is None,
                        flags == self@.static_flags,
                        mapped_prefix(self@, params@, i as nat) matches Ok(tokens) && texts(argv@)
                            == flags + tokens,
                    decreases self.args.len() - i,
                {
                    let arg = &self.args[i];
                    let ghost before = mapped_prefix(self@, params@, i as nat)->Ok_0;
                    assert(self@.args[i as int] == arg@);
                    match params.get(arg.name.as_str()) {
                        Some(value) => {
                            match self.format_value(value, &arg.arg_type) {
                                Ok(token) => {
                                    let ghost old_argv = texts(argv@);
                                    match &arg.cli_flag {
                                        Some(flag) => {
                                            argv.push(flag.clone());
                                        },
                                        None => {},
                                    }
                                    argv.push(token);
                                    assert(texts(argv@) =~= old_argv + arg_tokens(
                                        arg@.cli_flag,
                                        token@,
                                    ));
                                    assert(flags + (before + arg_tokens(arg@.cli_flag, token@))
                                        =~= (flags + before) + arg_tokens(arg@.cli_flag, token@));
                                },
                                Err(_) => {
                                    proof {
                                        assert(mapped_prefix(self@, params@, (i + 1) as nat)
                                            is Err);
                                        lemma_first_failure_stays(
                                            self@,
                                            params@,
                                            (i + 1) as nat,
                                            self@.args.len(),
                                        );
                                    }
                                    return Err(
                                        ToolError::InvalidArgumentType {
                                            tool: self.name.clone(),
                                            arg: arg.name.clone(),
                                            expected: arg.arg_type,
                                        },
                                    );
                                },
                            }
                        },
                        None => {
                            if arg.required {
                                proof {
                                    assert(mapped_prefix(self@, params@, (i + 1) as nat) is Err);
                                    lemma_first_failure_stays(
                                        self@,
                                        params@,
                                        (i + 1) as nat,
                                        self@.args.len(),
                                    );
                                }
                                return Err(
                                    ToolError::MissingRequiredArgument {
                                        tool: self.name.clone(),
                                        arg: arg.name.clone(),
                                    },
                                );
                            }
                        },
                    }
                    i += 1;
                }
                Ok(Invocation::Spawn { command: self.command.clone(), argv })
            },
        }
    }

    /// Decides what the built-in handler `handler` does with `params`.
    pub fn execute_internal(&self, handler: &str, params: ParamMap) -> (r: Result<
        Invocation,
        ToolError,
    >)
        ensures
            decides(r, internal_plan(handler@, params@)),
    {
        if same_text(handler, "add") {
            arithmetic(Operation::Addition, &params)
        } else if same_text(handler, "multiply") {
            arithmetic(Operation::Multiplication, &params)
        } else if same_text(handler, "list_files") {
            let path = match params.get("path") {
                Some(ParamValue::String(s)) => s.clone(),
                _ => String::from_str("."),
            };
            Ok(Invocation::ListFiles { path })
        } else {
            Err(ToolError::UnknownInternalHandler { tag: String::from_str(handler) })
        }
    }
}

fn number_of(params: &ParamMap, name: &str) -> (r: Option<String>)
    ensures
        match r {
            Some(s) => number_param(params@, name@) == Some(s@),
            None => number_param(params@, name@) is None,
        },
{
    match params.get(name) {
        Some(ParamValue::Number(literal)) => number_token_of(literal),
        _ => None,
    }
}

fn arithmetic(operation: Operation, params: &ParamMap) -> (r: Result<Invocation, ToolError>)
    ensures
        decides(r, arithmetic_plan(operation, params@)),
{
    match number_of(params, "a") {
        None => Err(ToolError::MissingOrInvalidParameter { name: String::from_str("a") }),
        Some(a) => match number_of(params, "b") {
            None => Err(ToolError::MissingOrInvalidParameter { name: String::from_str("b") }),
            Some(b) => Ok(Invocation::Arithmetic { operation, a, b }),
        },
    }
}

} // verus!
