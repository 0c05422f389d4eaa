//! The answers of the built-in handlers.

use vstd::prelude::*;
use crate::cli_tool::Operation;
use crate::json::{json_number_text, json_string_literal, number_text, quote};
use crate::text::{decimal, decimal_text};

verus! {

/// One entry of a directory.
#[derive(Clone, Debug)]
pub struct FileEntry {
    pub name: String,
    pub is_dir: bool,
    pub size: u64,
}

/// A `FileEntry` with its name as a sequence of characters.
pub struct FileEntryView {
    pub name: Seq<char>,
    pub is_dir: bool,
    pub size: nat,
}

impl View for FileEntry {
    type V = FileEntryView;

    open spec fn view(&self) -> FileEntryView {
        FileEntryView { name: self.name@, is_dir: self.is_dir, size: self.size as nat }
    }
}

/// The name of an operation in an answer.
pub open spec fn operation_word(operation: Operation) -> Seq<char> {
    match operation {
        Operation::Addition => "addition"@,
        Operation::Multiplication => "multiplication"@,
    }
}

/// The answer of an arithmetic handler whose result is the number `value`.
pub open spec fn arithmetic_text(operation: Operation, value: Seq<char>) -> Seq<char> {
    "{\"result\": "@ + value + ", \"operation\": \""@ + operation_word(operation) + "\"}"@
}

/// What is said of a result that is no number, such as an infinite one.
pub open spec fn not_a_number_text(value: Seq<char>) -> Seq<char> {
    "Result is not a number: "@ + value
}

/// The answer of an arithmetic handler whose result reads `value`: the
/// result with the operation where `value` is a JSON number, an error
/// answer where it is not.
pub open spec fn arithmetic_answer(operation: Operation, value: Seq<char>) -> Seq<char> {
    if json_number_text(value) is Some {
        arithmetic_text(operation, value)
    } else {
        error_text(not_a_number_text(value))
    }
}

/// `true` or `false`.
pub open spec fn bool_text(b: bool) -> Seq<char> {
    if b {
        "true"@
    } else {
        "false"@
    }
}

/// One directory entry in an answer, its name written as a JSON string.
pub open spec fn entry_text(e: FileEntryView) -> Seq<char> {
    "{\"name\": "@ + json_string_literal(e.name) + ", \"is_dir\": "@ + bool_text(e.is_dir)
        + ", \"size\": "@ + decimal_text(e.size) + "}"@
}

/// The first `n` entries, each followed by a comma and a space but the last.
pub open spec fn entries_text(entries: Seq<FileEntryView>, n: nat) -> Seq<char>
    decreases n,
{
    if n == 0 {
        Seq::empty()
    } else if n == 1 {
        entry_text(entries[0])
    } else {
        entries_text(entries, (n - 1) as nat) + ", "@ + entry_text(entries[n - 1])
    }
}

/// The answer that carries nothing but an error message, written as a JSON
/// string.
pub open spec fn error_text(message: Seq<char>) -> Seq<char> {
    "{\"error\": "@ + json_string_literal(message) + "}"@
}

/// The answer of `list_files` for the directory `path`: the path as a JSON
/// string and the entries in the order given, or the reason why the
/// directory could not be read.
pub open spec fn directory_text(path: Seq<char>, listing: Result<Seq<FileEntryView>, Seq<char>>) -> Seq<
    char,
> {
    match listing {
        Ok(entries) => "{\"path\": "@ + json_string_literal(path) + ", \"files\": ["@
            + entries_text(entries, entries.len()) + "]}"@,
        Err(cause) => error_text(cause),
    }
}

/// The views of the entries of a listing.
pub open spec fn directory_view(listing: Result<Vec<FileEntry>, String>) -> Result<
    Seq<FileEntryView>,
    Seq<char>,
> {
    match listing {
        Ok(entries) => Ok(entries@.map_values(|e: FileEntry| e@)),
        Err(cause) => Err(cause@),
    }
}

fn operation_str(operation: Operation) -> (r: &'static str)
    ensures
        r@ == operation_word(operation),
{
    match operation {
        Operation::Addition => "addition",
        Operation::Multiplication => "multiplication",
    }
}

/// Frames the result of an arithmetic handler, given as text. A result
/// that is no JSON number, as the text of an infinite one is not, gives an
/// error answer.
pub fn arithmetic_result(operation: Operation, value: &str) -> (r: String)
    ensures
        r@ == arithmetic_answer(operation, value@),
{
    match number_text(value) {
        Some(_) => {
            let mut s = String::from_str("{\"result\": ");
            s.append(value);
            s.append(", \"operation\": \"");
            s.append(operation_str(operation));
            s.append("\"}");
            s
        },
        None => {
            let mut message = String::from_str("Result is not a number: ");
            message.append(value);
            error_response(message.as_str())
        },
    }
}

/// Frames an error message as an answer.
pub fn error_response(message: &str) -> (r: String)
    ensures
        r@ == error_text(message@),
{
    let mut s = String::from_str("{\"error\": ");
    let message = quote(message);
    s.append(message.as_str());
    s.append("}");
    s
}

fn entry_string(e: &FileEntry) -> (r: String)
    ensures
        r@ == entry_text(e@),
{
    let mut s = String::from_str("{\"name\": ");
    let name = quote(e.name.as_str());
    s.append(name.as_str());
    s.append(", \"is_dir\": ");
    if e.is_dir {
        s.append("true");
    } else {
        s.append("false");
    }
    s.append(", \"size\": ");
    let size = decimal(e.size);
    s.append(size.as_str());
    s.append("}");
    s
}

/// Frames the answer of `list_files` for the directory `path`.
pub fn list_files_result(path: &str, listing: Result<Vec<FileEntry>, String>) -> (r: String)
    ensures
        r@ == directory_text(path@, directory_view(listing)),
{
    match listing {
        Err(cause) => error_response(cause.as_str()),
        Ok(entries) => {
            let ghost views = entries@.map_values(|e: FileEntry| e@);
            let mut s = String::from_str("{\"path\": ");
            let quoted = quote(path);
            s.append(quoted.as_str());
            s.append(", \"files\": [");
            let ghost head = s@;
            let mut i: usize = 0;
            while i < entries.len()
                invariant
                    i <= entries.len(),
                    views == entries@.map_values(|e: FileEntry| e@),
                    s@ == head + entries_text(views, i as nat),
                decreases entries.len() - i,
            {
                if i > 0 {
                    s.append(", ");
                }
                let e = entry_string(&entries[i]);
                s.append(e.as_str());
                assert(views[i as int] == entries[i as int]@);
                assert(s@ =~= head + entries_text(views, (i + 1) as nat));
                i += 1;
            }
            s.append("]}");
            assert(s@ =~= directory_text(path@, Ok(views)));
            s
        },
    }
}

} // verus!
