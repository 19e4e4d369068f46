//! Topic-change detection: reads the verdict of a context-manager model
//! reply, a JSON document of the form `{"topic_changed": "Y"}`. A reply
//! that is not well-formed JSON is given a second chance through a pattern
//! search for the same field.

use vstd::prelude::*;
use crate::text::str_eq;

verus! {

/// The pattern of the fallback search: the `topic_changed` field written
/// with a `Y` or `N` value, anywhere in the malformed document.
pub open spec fn spec_topic_pattern() -> Seq<char> {
    "\"topic_changed\":\\s*\"([YN])\""@
}

pub uninterp spec fn spec_json_string_field(text: Seq<char>, key: Seq<char>) -> Result<
    Option<Seq<char>>,
    (),
>;

/// Relies on `serde_json::from_str::<Value>`, `serde_json::Value::get` and
/// `serde_json::Value::as_str`: the string value of the field named `key`
/// at the top of the JSON document `text`. `Err` when the document does
/// not parse, `Ok(None)` when it parses but the field is absent or not a
/// string. The outcome is a function of the two arguments alone.
#[verifier::external_body]
fn json_string_field(text: &str, key: &str) -> (r: Result<Option<String>, ()>)
    ensures
        r is Ok == spec_json_string_field(text@, key@) is Ok,
        r matches Ok(field) ==> field.deep_view() == spec_json_string_field(text@, key@)->Ok_0,
{
    match serde_json::from_str::<serde_json::Value>(text) {
        Ok(doc) => match doc.get(key) {
            Some(field) => match field.as_str() {
                Some(s) => Ok(Some(s.to_string())),
                None => Ok(None),
            },
            None => Ok(None),
        },
        Err(_) => Err(()),
    }
}

pub uninterp spec fn spec_regex_first_capture(pattern: Seq<char>, text: Seq<char>) -> Option<
    Seq<char>,
>;

/// Relies on `regex::Regex::new`, `regex::Regex::captures` and
/// `regex::Captures::get`: the text of capture group 1 at the first match
/// of `pattern` in `text`; `None` when the pattern does not compile, does
/// not match, or has no group 1. The outcome is a function of the two
/// arguments alone.
#[verifier::external_body]
fn regex_first_capture(pattern: &str, text: &str) -> (r: Option<String>)
    ensures
        r.deep_view() == spec_regex_first_capture(pattern@, text@),
{
    match regex::Regex::new(pattern) {
        Ok(re) => match re.captures(text) {
            Some(caps) => match caps.get(1) {
                Some(m) => Some(m.as_str().to_string()),
                None => None,
            },
            None => None,
        },
        Err(_) => None,
    }
}

/// The verdict read from a context-manager reply: the `topic_changed`
/// field equal to `Y` means a topic change. A parseable document with the
/// field absent, not a string, or holding any other value means no change;
/// an unparseable document falls back to the pattern search and means a
/// change only when that search captures `Y`.
pub open spec fn spec_topic_changed(input: Seq<char>) -> bool {
    match spec_json_string_field(input, "topic_changed"@) {
        Result::Ok(field) => match field {
            Some(v) => v == "Y"@,
            None => false,
        },
        Result::Err(_) => match spec_regex_first_capture(spec_topic_pattern(), input) {
            Some(c) => c == "Y"@,
            None => false,
        },
    }
}

/// Reads a context-manager reply and reports whether it declares a topic
/// change, as [`spec_topic_changed`] describes it.
pub fn parse_topic_change_from_json(input: &str) -> (r: bool)
    ensures
        r == spec_topic_changed(input@),
{
    match json_string_field(input, "topic_changed") {
        Ok(Some(v)) => str_eq(v.as_str(), "Y"),
        Ok(None) => false,
        Err(()) => {
            match regex_first_capture("\"topic_changed\":\\s*\"([YN])\"", input) {
                Some(c) => str_eq(c.as_str(), "Y"),
                None => false,
            }
        },
    }
}

} // verus!
