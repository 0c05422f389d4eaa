//! The server's two operations: running a tool and listing the catalogue.

use vstd::prelude::*;
use crate::audit::{recorded, AuditEntryView, AuditJournal, AuditRecord};
use crate::cli_tool::{
    decides, option_text, texts, CliToolView, Invocation, ParamMap,
};
use crate::dynamic_tools::{
    dispatched, located_state, located_view, DynamicToolManager, ToolConfig,
};
use crate::error::{message_text, ToolError, ToolErrorView};
use crate::handlers::{error_response, error_text};
use crate::json::{json_string_literal, quote};
use crate::text::{decimal, decimal_text, single_line};
use crate::tool_registry::distinct_names;

verus! {

/// The catalogue together with the audit journal.
#[derive(Debug)]
pub struct GameCodeMcpServer {
    tool_manager: DynamicToolManager,
    audit: AuditJournal,
}

/// What the server decided for one request: the line for the journal, if
/// one is due, and what the invocation amounts to.
#[derive(Debug)]
pub struct Dispatch {
    pub audit: Option<AuditRecord>,
    pub decision: Result<Invocation, ToolError>,
}

/// The answer that the caller of a tool sees: the result as it is, or the
/// message of the error framed as JSON.
pub open spec fn response_text(result: Result<Seq<char>, ToolErrorView>) -> Seq<char> {
    match result {
        Ok(s) => s,
        Err(e) => error_text(message_text(e)),
    }
}

/// The answer for the result of an invocation.
pub fn respond(result: Result<String, ToolError>) -> (r: String)
    ensures
        r@ == response_text(
            match result {
                Ok(s) => Ok(s@),
                Err(e) => Err(e@),
            },
        ),
{
    match result {
        Ok(s) => s,
        Err(e) => {
            let message = e.message();
            error_response(message.as_str())
        },
    }
}

/// One tool in the listing.
pub open spec fn listed_tool_text(tool: CliToolView) -> Seq<char> {
    "{\"name\":"@ + json_string_literal(tool.name) + ",\"description\":"@
        + json_string_literal(tool.description) + "}"@
}

/// The first `n` tools of the listing, separated by commas.
pub open spec fn listed_tools_text(tools: Seq<CliToolView>, n: nat) -> Seq<char>
    decreases n,
{
    if n == 0 {
        Seq::empty()
    } else if n == 1 {
        listed_tool_text(tools[0])
    } else {
        listed_tools_text(tools, (n - 1) as nat) + ","@ + listed_tool_text(tools[n - 1])
    }
}

/// The listing of a catalogue as compact JSON text: every tool with its
/// name and description, and their number.
pub open spec fn listing_text(tools: Seq<CliToolView>) -> Seq<char> {
    "{\"tools\":["@ + listed_tools_text(tools, tools.len()) + "],\"total\":"@ + decimal_text(
        tools.len(),
    ) + "}"@
}

/// What is said when no tools could be loaded, after the error itself.
pub open spec fn load_warnings(e: ToolErrorView) -> Seq<Seq<char>> {
    seq![
        message_text(e),
        "The server will start but no tools will be available."@,
        "Please create a tools.yaml file to enable tools."@,
    ]
}

impl GameCodeMcpServer {
    /// The tools that the server offers, in the order in which they are
    /// listed.
    pub closed spec fn catalogue(&self) -> Seq<CliToolView> {
        self.tool_manager@
    }

    /// The directory of the audit journal, if it is enabled.
    pub closed spec fn journal(&self) -> Option<Seq<char>> {
        self.audit@
    }

    /// A server without tools that records invocations in `audit`.
    pub fn new(audit: AuditJournal) -> (r: Self)
        ensures
            r.catalogue() == Seq::<CliToolView>::empty(),
            distinct_names(r.catalogue()),
            r.journal() == audit@,
    {
        GameCodeMcpServer { tool_manager: DynamicToolManager::new(), audit }
    }

    /// Loads the configuration found at the default locations; `located`
    /// says what was found there. A failure does not stop the server: it is
    /// returned as the lines of a warning, and the server goes on with the
    /// tools it has.
    pub fn initialize(&mut self, located: Option<Result<ToolConfig, ToolError>>) -> (r: Vec<String>)
        ensures
            final(self).journal() == old(self).journal(),
            final(self).catalogue() == located_state(
                old(self).catalogue(),
                located_view(located),
            ).catalogue,
            texts(r@) == match located_state(old(self).catalogue(), located_view(located)).failure {
                Some(e) => load_warnings(e),
                None => Seq::empty(),
            },
            distinct_names(old(self).catalogue()),
            distinct_names(final(self).catalogue()),
    {
        let mut warnings: Vec<String> = Vec::new();
        match self.tool_manager.load_from_default_locations(located) {
            Ok(_) => {
                assert(texts(warnings@) =~= Seq::<Seq<char>>::empty());
            },
            Err(e) => {
                warnings.push(e.message());
                warnings.push(
                    String::from_str("The server will start but no tools will be available."),
                );
                warnings.push(String::from_str("Please create a tools.yaml file to enable tools."));
                assert(texts(warnings@) =~= load_warnings(e@));
            },
        }
        warnings
    }

    /// Handles a request to run `tool` with `params`, made by `user`. Where
    /// the journal is enabled one line is prepared for it, whatever the
    /// decision is; the decision is that of the catalogue.
    pub fn run(&self, tool: &str, params: ParamMap, user: Option<String>) -> (r: Dispatch)
        ensures
            decides(r.decision, dispatched(self.catalogue(), tool@, params@)),
            r.audit is Some <==> self.journal() is Some,
            r.audit matches Some(rec) ==> single_line(rec.line@),
            r.audit matches Some(rec) ==> exists|
                date: Seq<char>,
                timestamp: Seq<char>,
                hostname: Option<Seq<char>>,
            |
                #[trigger] recorded(
                    self.journal(),
                    date,
                    AuditEntryView {
                        timestamp,
                        tool_name: tool@,
                        user: option_text(user),
                        hostname,
                    },
                ) == Some((rec.path@, rec.line@)),
    {
        let audit = self.audit.log_tool_invocation(tool, user);
        let decision = self.tool_manager.execute_tool(tool, params);
        Dispatch { audit, decision }
    }

    /// Lists the catalogue.
    pub fn list_tools(&self) -> (r: String)
        ensures
            r@ == listing_text(self.catalogue()),
    {
        let tools = self.tool_manager.list_tools();
        let ghost views = self.catalogue();
        let mut s = String::from_str("{\"tools\":[");
        let ghost head = s@;
        let mut i: usize = 0;
        while i < tools.len()
            invariant
                i <= tools.len(),
                tools@.len() == views.len(),
                forall|j: int|
                    0 <= j < tools@.len() ==> tools@[j].0@ == views[j].name && tools@[j].1@
                        == views[j].description,
                s@ == head + listed_tools_text(views, i as nat),
            decreases tools.len() - i,
        {
            if i > 0 {
                s.append(",");
            }
            s.append("{\"name\":");
            let name = quote(tools[i].0.as_str());
            s.append(name.as_str());
            s.append(",\"description\":");
            let description = quote(tools[i].1.as_str());
            s.append(description.as_str());
            s.append("}");
            assert(s@ =~= head + listed_tools_text(views, (i + 1) as nat));
            i += 1;
        }
        s.append("],\"total\":");
        let total = decimal(tools.len() as u64);
        s.append(total.as_str());
        s.append("}");
        assert(s@ =~= listing_text(views));
        s
    }
}

} // verus!
