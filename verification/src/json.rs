//! The JSON reader and writer that the library relies on.
//!
//! Reading and writing JSON is done by `serde_json`. Its results are pure
//! functions of the text handed in, so each gets a name that the contracts
//! of the library can speak of; nothing here is proved about them.

use vstd::prelude::*;
use crate::text::single_line;

verus! {

/// What reading `text` as one JSON value and writing it again in compact
/// form gives: the compact text, or the reader's complaint.
pub uninterp spec fn json_canonical(text: Seq<char>) -> Result<Seq<char>, Seq<char>>;

/// The JSON string literal for `s`: quoted, with what must be escaped
/// escaped.
pub uninterp spec fn json_string_literal(s: Seq<char>) -> Seq<char>;

/// The decimal text of the number that the JSON number `literal` denotes,
/// read as a double; `None` where the reader does not take `literal` for a
/// number.
pub uninterp spec fn json_number_text(literal: Seq<char>) -> Option<Seq<char>>;

/// Trusted: `serde_json::from_str::<Value>` followed by `Value::to_string`.
/// The contract only names the outcome: the value's compact text where the
/// whole of `text` is one well-formed JSON value, the text of
/// `serde_json::Error` where it is not.
#[verifier::external_body]
pub(crate) fn canonical(text: &str) -> (r: Result<String, String>)
    ensures
        match r {
            Ok(s) => json_canonical(text@) == Ok::<Seq<char>, Seq<char>>(s@),
            Err(e) => json_canonical(text@) == Err::<Seq<char>, Seq<char>>(e@),
        },
{
    match serde_json::from_str::<serde_json::Value>(text) {
        Ok(value) => Ok(value.to_string()),
        Err(e) => Err(e.to_string()),
    }
}

/// Trusted: `Value::to_string` on `serde_json::Value::String`. The contract
/// names the literal that comes back and says one thing of it: it holds no
/// line break, because the writer escapes control characters.
#[verifier::external_body]
pub(crate) fn quote(s: &str) -> (r: String)
    ensures
        r@ == json_string_literal(s@),
        single_line(r@),
{
    serde_json::Value::String(s.to_owned()).to_string()
}

/// Trusted: `serde_json::from_str::<Number>`, then `Number::as_f64`, then the
/// standard decimal rendering of the double. The contract only names the
/// outcome; it is `None` where the reader rejects `literal`.
#[verifier::external_body]
pub(crate) fn number_text(literal: &str) -> (r: Option<String>)
    ensures
        match r {
            Some(s) => json_number_text(literal@) == Some(s@),
            None => json_number_text(literal@) is None,
        },
{
    serde_json::from_str::<serde_json::Number>(literal)
        .ok()
        .and_then(|n| n.as_f64())
        .map(|x| x.to_string())
}

} // verus!
