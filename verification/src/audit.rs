//! The audit journal: one line per invocation, one file per day.

use vstd::prelude::*;
use crate::cli_tool::option_text;
use crate::json::{json_string_literal, quote};
use crate::text::{join_path, joined_path, lemma_single_line_concat, single_line};

verus! {

/// One invocation as the journal records it.
#[derive(Clone, Debug)]
pub struct AuditEntry {
    /// The time of the invocation in UTC, as an RFC 3339 text.
    pub timestamp: String,
    pub tool_name: String,
    /// Who invoked the tool, where that is known.
    pub user: Option<String>,
    /// The machine the tool was invoked on, where that is known.
    pub hostname: Option<String>,
}

/// An `AuditEntry` with its texts as sequences of characters.
pub struct AuditEntryView {
    pub timestamp: Seq<char>,
    pub tool_name: Seq<char>,
    pub user: Option<Seq<char>>,
    pub hostname: Option<Seq<char>>,
}

impl View for AuditEntry {
    type V = AuditEntryView;

    open spec fn view(&self) -> AuditEntryView {
        AuditEntryView {
            timestamp: self.timestamp@,
            tool_name: self.tool_name@,
            user: option_text(self.user),
            hostname: option_text(self.hostname),
        }
    }
}

/// A line to append to a file of the journal.
#[derive(Clone, Debug)]
pub struct AuditRecord {
    /// The file of the day.
    pub path: String,
    /// The line, without the line break that ends it.
    pub line: String,
}

/// A member of the line that is left out where there is no value.
pub open spec fn optional_member(key: Seq<char>, value: Option<Seq<char>>) -> Seq<char> {
    match value {
        Some(v) => key + json_string_literal(v),
        None => Seq::empty(),
    }
}

/// The line for an entry: a JSON object in compact form, with the members
/// `timestamp`, `tool_name`, `user` and `hostname` in this order, the last
/// two only where they are known.
pub open spec fn audit_line(e: AuditEntryView) -> Seq<char> {
    "{\"timestamp\":"@ + json_string_literal(e.timestamp) + ",\"tool_name\":"@
        + json_string_literal(e.tool_name) + optional_member(",\"user\":"@, e.user)
        + optional_member(",\"hostname\":"@, e.hostname) + "}"@
}

/// The name of the file that holds the lines of the day `date`.
pub open spec fn daily_file_name(date: Seq<char>) -> Seq<char> {
    "audit-"@ + date + ".jsonl"@
}

/// Trusted: `chrono::Local::now`, `DateTime::date_naive` and the date
/// written out, which chrono documents as year, month and day joined by
/// hyphens. The date depends on the clock and the time zone, so the
/// contract says nothing of it.
#[verifier::external_body]
fn local_date() -> (r: String) {
    chrono::Local::now().date_naive().to_string()
}

/// Trusted: `chrono::Utc::now` and `DateTime::to_rfc3339_opts` with
/// automatic precision and `Z` for the offset. The text depends on the
/// clock, so the contract says nothing of it.
#[verifier::external_body]
fn utc_timestamp() -> (r: String) {
    chrono::Utc::now().to_rfc3339_opts(chrono::SecondsFormat::AutoSi, true)
}

/// Trusted: `hostname::get`, with a name that is not UTF-8 taken as
/// unknown. The name depends on the machine, so the contract says nothing
/// of it.
#[verifier::external_body]
fn host_name() -> (r: Option<String>) {
    hostname::get().ok().and_then(|h| h.into_string().ok())
}

/// Appends a piece without line breaks to text that has none.
fn put(s: &mut String, piece: &str)
    requires
        single_line(old(s)@),
        single_line(piece@),
    ensures
        final(s)@ == old(s)@ + piece@,
        single_line(final(s)@),
{
    proof {
        lemma_single_line_concat(s@, piece@);
    }
    s.append(piece);
}

/// Appends the JSON string for `value`.
fn put_quoted(s: &mut String, value: &str)
    requires
        single_line(old(s)@),
    ensures
        final(s)@ == old(s)@ + json_string_literal(value@),
        single_line(final(s)@),
{
    let literal = quote(value);
    put(s, literal.as_str());
}

impl AuditEntry {
    /// The line that records this entry. It holds no line break.
    pub fn to_json_line(&self) -> (r: String)
        ensures
            r@ == audit_line(self@),
            single_line(r@),
    {
        proof {
            reveal_strlit("{\"timestamp\":");
            reveal_strlit(",\"tool_name\":");
            reveal_strlit(",\"user\":");
            reveal_strlit(",\"hostname\":");
            reveal_strlit("}");
        }
        let mut s = String::from_str("{\"timestamp\":");
        put_quoted(&mut s, self.timestamp.as_str());
        put(&mut s, ",\"tool_name\":");
        put_quoted(&mut s, self.tool_name.as_str());
        match &self.user {
            Some(user) => {
                put(&mut s, ",\"user\":");
                put_quoted(&mut s, user.as_str());
            },
            None => {},
        }
        match &self.hostname {
            Some(hostname) => {
                put(&mut s, ",\"hostname\":");
                put_quoted(&mut s, hostname.as_str());
            },
            None => {},
        }
        put(&mut s, "}");
        assert(s@ =~= audit_line(self@));
        s
    }
}

/// The journal of invocations. It is enabled by giving it a directory.
#[derive(Clone, Debug)]
pub struct AuditJournal {
    directory: Option<String>,
}

impl View for AuditJournal {
    type V = Option<Seq<char>>;

    /// The directory of the journal; `None` where the journal is disabled.
    closed spec fn view(&self) -> Option<Seq<char>> {
        option_text(self.directory)
    }
}

/// What is appended where, for `entry` on the day `date`, by a journal kept
/// in `directory`.
pub open spec fn recorded(directory: Option<Seq<char>>, date: Seq<char>, entry: AuditEntryView) -> Option<
    (Seq<char>, Seq<char>),
> {
    match directory {
        Some(dir) => Some((joined_path(dir, daily_file_name(date)), audit_line(entry))),
        None => None,
    }
}

impl AuditJournal {
    /// A journal kept in `directory`. It is disabled where no directory is
    /// given, and also where `directory_ready` is false: the caller says so
    /// when the directory neither exists nor could be created.
    pub fn new(directory: Option<String>, directory_ready: bool) -> (r: Self)
        ensures
            r@ == if directory_ready {
                option_text(directory)
            } else {
                None
            },
    {
        if directory_ready {
            AuditJournal { directory }
        } else {
            AuditJournal { directory: None }
        }
    }

    /// Whether invocations are recorded.
    pub fn is_enabled(&self) -> (r: bool)
        ensures
            r == (self@ is Some),
    {
        self.directory.is_some()
    }

    /// The file that holds the lines of the day `date`; `None` where the
    /// journal is disabled.
    pub fn get_daily_file_path(&self, date: &str) -> (r: Option<String>)
        ensures
            match self@ {
                Some(dir) => r matches Some(path) && path@ == joined_path(
                    dir,
                    daily_file_name(date@),
                ),
                None => r is None,
            },
    {
        match &self.directory {
            Some(dir) => {
                let mut name = String::from_str("audit-");
                name.append(date);
                name.append(".jsonl");
                Some(join_path(dir.as_str(), name.as_str()))
            },
            None => None,
        }
    }

    /// What is to be appended for `entry` on the day `date`; `None` where
    /// the journal is disabled.
    pub fn record(&self, date: &str, entry: &AuditEntry) -> (r: Option<AuditRecord>)
        ensures
            match r {
                Some(rec) => recorded(self@, date@, entry@) == Some((rec.path@, rec.line@))
                    && single_line(rec.line@),
                None => recorded(self@, date@, entry@) is None,
            },
    {
        match self.get_daily_file_path(date) {
            Some(path) => Some(AuditRecord { path, line: entry.to_json_line() }),
            None => None,
        }
    }

    /// Prepares the record of an invocation of `tool_name` by `user`, made
    /// now on this machine: one line for the file of the local day. A
    /// disabled journal records nothing. The caller appends the line to the
    /// file; whether that succeeds has no bearing on the invocation.
    pub fn log_tool_invocation(&self, tool_name: &str, user: Option<String>) -> (r: Option<
        AuditRecord,
    >)
        ensures
            r is Some <==> self@ is Some,
            r matches Some(rec) ==> single_line(rec.line@),
            r matches Some(rec) ==> exists|date: Seq<char>, timestamp: Seq<char>, hostname: Option<Seq<char>>|
                #[trigger] recorded(
                    self@,
                    date,
                    AuditEntryView {
                        timestamp,
                        tool_name: tool_name@,
                        user: option_text(user),
                        hostname,
                    },
                ) == Some((rec.path@, rec.line@)),
    {
        if !self.is_enabled() {
            return None;
        }
        let date = local_date();
        let entry = AuditEntry {
            timestamp: utc_timestamp(),
            tool_name: String::from_str(tool_name),
            user,
            hostname: host_name(),
        };
        let r = self.record(date.as_str(), &entry);
        assert(r matches Some(rec) ==> recorded(self@, date@, entry@) == Some(
            (rec.path@, rec.line@),
        ));
        r
    }
}

/// The line of an entry holds the tool's name as a JSON string.
pub proof fn lemma_line_names_tool(e: AuditEntryView)
    ensures
        exists|at: int|
            0 <= at && at + json_string_literal(e.tool_name).len() <= audit_line(e).len()
                && #[trigger] audit_line(e).subrange(
                at,
                at + json_string_literal(e.tool_name).len(),
            ) == json_string_literal(e.tool_name),
{
    let head = "{\"timestamp\":"@ + json_string_literal(e.timestamp) + ",\"tool_name\":"@;
    let name = json_string_literal(e.tool_name);
    let rest = optional_member(",\"user\":"@, e.user) + optional_member(
        ",\"hostname\":"@,
        e.hostname,
    ) + "}"@;
    let line = audit_line(e);
    assert(line =~= head + name + rest);
    let at = head.len() as int;
    assert(line.subrange(at, at + name.len()) =~= name);
}

} // verus!
