//! The catalogue: tools by name.

use vstd::prelude::*;
use crate::cli_tool::{ArgType, CliArg, CliArgView, CliTool, CliToolView};
use crate::error::{type_word, type_word_str};
use crate::json::{json_string_literal, quote};
use crate::text::same_text;

verus! {

/// Whether no two entries of `s` have the same name.
pub open spec fn distinct_names(s: Seq<CliToolView>) -> bool {
    forall|i: int, j: int| 0 <= i < j < s.len() ==> s[i].name != s[j].name
}

/// Whether `s` has an entry named `name`.
pub open spec fn has_name(s: Seq<CliToolView>, name: Seq<char>) -> bool {
    exists|i: int| 0 <= i < s.len() && s[i].name == name
}

/// The place of an entry named `name` in `s`, where there is one.
pub open spec fn position(s: Seq<CliToolView>, name: Seq<char>) -> int {
    choose|i: int| 0 <= i < s.len() && s[i].name == name
}

/// The entry of `s` that is named `name`.
pub open spec fn found(s: Seq<CliToolView>, name: Seq<char>) -> Option<CliToolView> {
    if has_name(s, name) {
        Some(s[position(s, name)])
    } else {
        None
    }
}

/// The catalogue `s` after `tool` is registered: `tool` takes the place of
/// the entry of its name, or comes last where there is none.
pub open spec fn registered(s: Seq<CliToolView>, tool: CliToolView) -> Seq<CliToolView> {
    if has_name(s, tool.name) {
        s.update(position(s, tool.name), tool)
    } else {
        s.push(tool)
    }
}

/// In a catalogue of distinct names, an entry is found at the one place
/// where its name stands.
pub proof fn lemma_position_is_unique(s: Seq<CliToolView>, i: int)
    requires
        distinct_names(s),
        0 <= i < s.len(),
    ensures
        has_name(s, s[i].name),
        position(s, s[i].name) == i,
        found(s, s[i].name) == Some(s[i]),
{
    let p = position(s, s[i].name);
    assert(0 <= p < s.len() && s[p].name == s[i].name);
    if p < i {
        assert(s[p].name != s[i].name);
    } else if i < p {
        assert(s[i].name != s[p].name);
    }
}

/// Registering keeps the names of a catalogue distinct. Afterwards the tool
/// is found under its name, and under any other name what was found before.
pub proof fn lemma_registered(s: Seq<CliToolView>, tool: CliToolView, name: Seq<char>)
    requires
        distinct_names(s),
    ensures
        distinct_names(registered(s, tool)),
        found(registered(s, tool), tool.name) == Some(tool),
        name != tool.name ==> found(registered(s, tool), name) == found(s, name),
        registered(s, tool).len() == if has_name(s, tool.name) {
            s.len()
        } else {
            s.len() + 1
        },
{
    let after = registered(s, tool);
    let at = if has_name(s, tool.name) {
        position(s, tool.name)
    } else {
        s.len() as int
    };
    assert(0 <= at < after.len() && after[at] == tool);
    assert forall|j: int| 0 <= j < after.len() && j != at implies after[j] == s[j] && s[j].name
        != tool.name by {
        if has_name(s, tool.name) {
            lemma_position_is_unique(s, at);
            if j < at {
                assert(s[j].name != s[at].name);
            } else {
                assert(s[at].name != s[j].name);
            }
        }
    }
    assert(distinct_names(after)) by {
        assert forall|i: int, j: int| 0 <= i < j < after.len() implies after[i].name
            != after[j].name by {
            if i != at && j != at {
                assert(s[i].name != s[j].name);
            }
        }
    }
    lemma_position_is_unique(after, at);
    if name != tool.name {
        if has_name(s, name) {
            let p = position(s, name);
            assert(p != at);
            assert(after[p] == s[p]);
            lemma_position_is_unique(after, p);
        } else {
            if has_name(after, name) {
                let q = position(after, name);
                assert(q != at);
                assert(s[q].name == name);
            }
        }
    }
}

/// Last write wins: after two tools of one name are registered in turn, the
/// catalogue holds the second under that name and no trace of the first,
/// whatever it held before; all other entries are as they were after the
/// first registration.
pub proof fn lemma_last_write_wins(s: Seq<CliToolView>, first: CliToolView, second: CliToolView)
    requires
        distinct_names(s),
        first.name == second.name,
    ensures
        ({
            let once = registered(s, first);
            let twice = registered(once, second);
            &&& found(twice, second.name) == Some(second)
            &&& twice.len() == once.len()
            &&& forall|i: int|
                0 <= i < twice.len() ==> (if once[i].name == second.name {
                    twice[i] == second
                } else {
                    twice[i] == once[i]
                })
        }),
{
    let once = registered(s, first);
    let twice = registered(once, second);
    lemma_registered(s, first, first.name);
    lemma_registered(once, second, second.name);
    assert(has_name(once, second.name));
    let at = position(once, second.name);
    assert forall|i: int| 0 <= i < twice.len() implies (if once[i].name == second.name {
        twice[i] == second
    } else {
        twice[i] == once[i]
    }) by {
        if once[i].name == second.name {
            lemma_position_is_unique(once, i);
        }
    }
}

/// A catalogue of tools, each under its own name.
#[derive(Debug)]
pub struct ToolRegistry {
    tools: Vec<CliTool>,
}

impl View for ToolRegistry {
    type V = Seq<CliToolView>;

    /// The entries in the order in which they are listed.
    closed spec fn view(&self) -> Seq<CliToolView> {
        self.tools@.map_values(|t: CliTool| t@)
    }
}

impl ToolRegistry {
    /// What holds of every registry: no two of its tools have one name.
    #[verifier::type_invariant]
    pub open spec fn names_are_distinct(self) -> bool {
        distinct_names(self@)
    }

    /// An empty catalogue.
    pub fn new() -> (r: Self)
        ensures
            r@ == Seq::<CliToolView>::empty(),
    {
        let r = ToolRegistry { tools: Vec::new() };
        assert(r@ =~= Seq::<CliToolView>::empty());
        r
    }

    fn find(&self, name: &str) -> (r: Option<usize>)
        ensures
            match r {
                Some(i) => i < self@.len() && self@[i as int].name == name@ && has_name(
                    self@,
                    name@,
                ) && position(self@, name@) == i,
                None => !has_name(self@, name@),
            },
    {
        proof {
            use_type_invariant(self);
        }
        let mut i: usize = 0;
        while i < self.tools.len()
            invariant
                i <= self.tools.len(),
                distinct_names(self@),
                forall|j: int| 0 <= j < i ==> self@[j].name != name@,
            decreases self.tools.len() - i,
        {
            assert(self@[i as int] == self.tools[i as int]@);
            if same_text(self.tools[i].name.as_str(), name) {
                proof {
                    lemma_position_is_unique(self@, i as int);
                }
                return Some(i);
            }
            i += 1;
        }
        None
    }

    /// Puts `tool` into the catalogue under its name, in place of any tool
    /// registered under that name before.
    pub fn register(&mut self, tool: CliTool)
        ensures
            final(self)@ == registered(old(self)@, tool@),
            distinct_names(final(self)@),
    {
        proof {
            use_type_invariant(&*self);
            lemma_registered(self@, tool@, tool@.name);
        }
        let place = self.find(tool.name.as_str());
        let mut tools: Vec<CliTool> = Vec::new();
        core::mem::swap(&mut self.tools, &mut tools);
        match place {
            Some(i) => {
                tools.set(i, tool);
            },
            None => {
                tools.push(tool);
            },
        }
        assert(tools@.map_values(|t: CliTool| t@) =~= registered(old(self)@, tool@));
        self.tools = tools;
    }

    /// The tool registered under `name`.
    pub fn get(&self, name: &str) -> (r: Option<&CliTool>)
        ensures
            match r {
                Some(tool) => found(self@, name@) == Some(tool@),
                None => found(self@, name@) is None,
            },
            distinct_names(self@),
    {
        proof {
            use_type_invariant(self);
        }
        match self.find(name) {
            Some(i) => {
                assert(self@[i as int] == self.tools[i as int]@);
                Some(&self.tools[i])
            },
            None => None,
        }
    }

    /// All registered tools, each once.
    pub fn list_tools(&self) -> (r: Vec<&CliTool>)
        ensures
            r@.len() == self@.len(),
            forall|i: int| 0 <= i < r@.len() ==> r@[i]@ == self@[i],
            distinct_names(self@),
    {
        proof {
            use_type_invariant(self);
        }
        let mut r: Vec<&CliTool> = Vec::new();
        let mut i: usize = 0;
        while i < self.tools.len()
            invariant
                i <= self.tools.len(),
                r@.len() == i,
                forall|j: int| 0 <= j < i ==> r@[j]@ == self@[j],
            decreases self.tools.len() - i,
        {
            assert(self@[i as int] == self.tools[i as int]@);
            r.push(&self.tools[i]);
            i += 1;
        }
        r
    }
}


/// The first sample tool: a JSON formatter with a positional filter and an
/// optional flag.
pub open spec fn example_json_format() -> CliToolView {
    CliToolView {
        name: "json_format"@,
        description: "Format JSON data"@,
        command: "jq"@,
        args: seq![
            CliArgView {
                name: "filter"@,
                description: "JQ filter expression"@,
                required: true,
                arg_type: ArgType::String,
                cli_flag: None,
            },
            CliArgView {
                name: "compact"@,
                description: "Compact output"@,
                required: false,
                arg_type: ArgType::Boolean,
                cli_flag: Some("-c"@),
            },
        ],
        static_flags: Seq::empty(),
        internal_handler: None,
    }
}

/// The second sample tool: file information with a positional path and an
/// optional output format.
pub open spec fn example_file_info() -> CliToolView {
    CliToolView {
        name: "file_info"@,
        description: "Get file information"@,
        command: "stat"@,
        args: seq![
            CliArgView {
                name: "path"@,
                description: "File path"@,
                required: true,
                arg_type: ArgType::String,
                cli_flag: None,
            },
            CliArgView {
                name: "format"@,
                description: "Output format"@,
                required: false,
                arg_type: ArgType::String,
                cli_flag: Some("-f"@),
            },
        ],
        static_flags: Seq::empty(),
        internal_handler: None,
    }
}

fn argument(
    name: &str,
    description: &str,
    required: bool,
    arg_type: ArgType,
    cli_flag: Option<&str>,
) -> (r: CliArg)
    ensures
        r@ == (CliArgView {
            name: name@,
            description: description@,
            required,
            arg_type,
            cli_flag: match cli_flag {
                Some(f) => Some(f@),
                None => None,
            },
        }),
{
    CliArg {
        name: String::from_str(name),
        description: String::from_str(description),
        required,
        arg_type,
        cli_flag: match cli_flag {
            Some(f) => Some(String::from_str(f)),
            None => None,
        },
    }
}

fn external_tool(name: &str, description: &str, command: &str, first: CliArg, second: CliArg) -> (r:
    CliTool)
    ensures
        r@ == (CliToolView {
            name: name@,
            description: description@,
            command: command@,
            args: seq![first@, second@],
            static_flags: Seq::empty(),
            internal_handler: None,
        }),
{
    let mut args: Vec<CliArg> = Vec::new();
    args.push(first);
    args.push(second);
    let r = CliTool {
        name: String::from_str(name),
        description: String::from_str(description),
        command: String::from_str(command),
        args,
        static_flags: Vec::new(),
        internal_handler: None,
    };
    assert(r@.args =~= seq![first@, second@]);
    assert(r@.static_flags =~= Seq::<Seq<char>>::empty());
    r
}

impl ToolRegistry {
    /// A catalogue that holds the two sample tools.
    pub fn with_examples() -> (r: Self)
        ensures
            r@ == seq![example_json_format(), example_file_info()],
    {
        let mut registry = ToolRegistry::new();
        registry.register(
            external_tool(
                "json_format",
                "Format JSON data",
                "jq",
                argument("filter", "JQ filter expression", true, ArgType::String, None),
                argument("compact", "Compact output", false, ArgType::Boolean, Some("-c")),
            ),
        );
        assert(!has_name(Seq::<CliToolView>::empty(), example_json_format().name));
        assert(registry@ =~= seq![example_json_format()]);
        registry.register(
            external_tool(
                "file_info",
                "Get file information",
                "stat",
                argument("path", "File path", true, ArgType::String, None),
                argument("format", "Output format", false, ArgType::String, Some("-f")),
            ),
        );
        proof {
            reveal_strlit("json_format");
            reveal_strlit("file_info");
            assert("json_format"@.len() != "file_info"@.len());
            assert(!has_name(seq![example_json_format()], example_file_info().name));
        }
        assert(registry@ =~= seq![example_json_format(), example_file_info()]);
        registry
    }
}


/// The member of `properties` that describes one argument.
pub open spec fn property_text(arg: CliArgView) -> Seq<char> {
    json_string_literal(arg.name) + ":{\"description\":"@ + json_string_literal(arg.description)
        + ",\"type\":\""@ + type_word(arg.arg_type) + "\"}"@
}

/// The members that describe the first `n` arguments, separated by commas.
pub open spec fn properties_text(args: Seq<CliArgView>, n: nat) -> Seq<char>
    decreases n,
{
    if n == 0 {
        Seq::empty()
    } else if n == 1 {
        property_text(args[0])
    } else {
        properties_text(args, (n - 1) as nat) + ","@ + property_text(args[n - 1])
    }
}

/// How many of the first `n` arguments are required.
pub open spec fn required_count(args: Seq<CliArgView>, n: nat) -> nat
    decreases n,
{
    if n == 0 {
        0
    } else {
        required_count(args, (n - 1) as nat) + if args[n - 1].required {
            1nat
        } else {
            0nat
        }
    }
}

/// The names of those of the first `n` arguments that are required, as JSON
/// strings separated by commas.
pub open spec fn required_text(args: Seq<CliArgView>, n: nat) -> Seq<char>
    decreases n,
{
    if n == 0 {
        Seq::empty()
    } else if !args[n - 1].required {
        required_text(args, (n - 1) as nat)
    } else if required_count(args, (n - 1) as nat) == 0 {
        json_string_literal(args[n - 1].name)
    } else {
        required_text(args, (n - 1) as nat) + ","@ + json_string_literal(args[n - 1].name)
    }
}

proof fn lemma_none_required(args: Seq<CliArgView>, n: nat)
    requires
        required_count(args, n) == 0,
    ensures
        required_text(args, n) == Seq::<char>::empty(),
    decreases n,
{
    if n > 0 {
        lemma_none_required(args, (n - 1) as nat);
    }
}

/// The description of a tool for a client, as compact JSON text: the
/// members `name`, `description` and `parameters`, the last an object
/// schema whose `properties` give description and type of each argument in
/// declaration order and whose `required` lists the required arguments.
pub open spec fn metadata_text(tool: CliToolView) -> Seq<char> {
    "{\"name\":"@ + json_string_literal(tool.name) + ",\"description\":"@
        + json_string_literal(tool.description)
        + ",\"parameters\":{\"type\":\"object\",\"properties\":{"@ + properties_text(
        tool.args,
        tool.args.len(),
    ) + "},\"required\":["@ + required_text(tool.args, tool.args.len()) + "]}}"@
}

fn property(arg: &CliArg) -> (r: String)
    ensures
        r@ == property_text(arg@),
{
    let mut s = quote(arg.name.as_str());
    s.append(":{\"description\":");
    let description = quote(arg.description.as_str());
    s.append(description.as_str());
    s.append(",\"type\":\"");
    s.append(type_word_str(arg.arg_type));
    s.append("\"}");
    s
}

impl CliTool {
    /// Describes this tool for a client.
    pub fn to_mcp_metadata(&self) -> (r: String)
        ensures
            r@ == metadata_text(self@),
    {
        let mut s = String::from_str("{\"name\":");
        let name = quote(self.name.as_str());
        s.append(name.as_str());
        s.append(",\"description\":");
        let description = quote(self.description.as_str());
        s.append(description.as_str());
        s.append(",\"parameters\":{\"type\":\"object\",\"properties\":{");
        let ghost head = s@;
        let mut i: usize = 0;
        while i < self.args.len()
            invariant
                i <= self.args.len(),
                s@ == head + properties_text(self@.args, i as nat),
            decreases self.args.len() - i,
        {
            if i > 0 {
                s.append(",");
            }
            assert(self@.args[i as int] == self.args[i as int]@);
            let p = property(&self.args[i]);
            s.append(p.as_str());
            assert(s@ =~= head + properties_text(self@.args, (i + 1) as nat));
            i += 1;
        }
        s.append("},\"required\":[");
        let ghost middle = s@;
        let mut any = false;
        let mut j: usize = 0;
        while j < self.args.len()
            invariant
                j <= self.args.len(),
                any == (required_count(self@.args, j as nat) > 0),
                s@ == middle + required_text(self@.args, j as nat),
            decreases self.args.len() - j,
        {
            assert(self@.args[j as int] == self.args[j as int]@);
            if self.args[j].required {
                if any {
                    s.append(",");
                } else {
                    proof {
                        lemma_none_required(self@.args, j as nat);
                    }
                }
                let name = quote(self.args[j].name.as_str());
                s.append(name.as_str());
                any = true;
            }
            assert(s@ =~= middle + required_text(self@.args, (j + 1) as nat));
            j += 1;
        }
        s.append("]}}");
        assert(s@ =~= metadata_text(self@));
        s
    }
}

} // verus!
