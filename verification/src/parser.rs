//! Parsing the remote endpoint's reply into a suggestion.
//!
//! The reply is a JSON object with optional string fields `command` and
//! `explanation`. A payload that is not valid JSON is an error — the caller
//! treats it as fatal. A field that is missing, or present with a non-string
//! value, degrades to the empty string and is never an error.

use vstd::prelude::*;

verus! {

/// Whether the payload text is valid JSON. Named for the result of
/// `serde_json::from_str::<Value>`, which depends on the text alone.
pub uninterp spec fn json_parses(s: Seq<char>) -> bool;

/// The top-level string-valued fields of a valid JSON payload, keyed by field
/// name. Named for the result of `serde_json::from_str::<Value>`, which
/// depends on the text alone; a payload that is not an object has no fields.
pub uninterp spec fn json_str_fields(s: Seq<char>) -> Map<Seq<char>, Seq<char>>;

/// The top-level string-valued fields held by a parsed `serde_json::Value`,
/// keyed by field name; empty when the value is not an object.
pub uninterp spec fn value_str_fields(v: serde_json::Value) -> Map<Seq<char>, Seq<char>>;

#[verifier::external_type_specification]
#[verifier::external_body]
pub struct ExValue(serde_json::Value);

#[verifier::external_type_specification]
#[verifier::external_body]
pub struct ExJsonError(serde_json::Error);

/// Relies on `serde_json::from_str::<Value>`: it returns `Ok` exactly on
/// valid JSON text, and both the outcome and the parsed value's fields depend
/// on the text alone.
#[verifier::external_body]
fn parse_value(raw: &str) -> (r: Result<serde_json::Value, serde_json::Error>)
    ensures
        r is Ok <==> json_parses(raw@),
        r is Ok ==> value_str_fields(r->Ok_0) == json_str_fields(raw@),
{
    serde_json::from_str(raw)
}

/// Relies on `serde_json::Value::get` and `serde_json::Value::as_str`:
/// `get` returns the field of an object under the given key, or `None` when
/// the key is absent or the value is not an object, and `as_str` returns the
/// text of a string value, or `None` for any other value.
#[verifier::external_body]
fn value_str_field(v: &serde_json::Value, key: &str) -> (r: Option<String>)
    ensures
        r is Some <==> value_str_fields(*v).contains_key(key@),
        r is Some ==> r->0@ == value_str_fields(*v)[key@],
{
    match v.get(key).and_then(serde_json::Value::as_str) {
        Some(s) => Some(s.to_string()),
        None => None,
    }
}

/// Relies on the `Display` implementation of `serde_json::Error` for a
/// human-readable description of what made the payload unparseable.
#[verifier::external_body]
fn json_error_text(e: &serde_json::Error) -> String {
    format!("{}", e)
}

/// The text of the string field `key` of payload `s`, or the empty string
/// where the field is missing or not a string.
pub open spec fn field_or_empty(s: Seq<char>, key: Seq<char>) -> Seq<char> {
    if json_str_fields(s).contains_key(key) {
        json_str_fields(s)[key]
    } else {
        Seq::empty()
    }
}

/// The suggestion carried by a valid payload: its `command` and
/// `explanation` string fields, each the empty string where absent.
pub open spec fn suggestion_of(s: Seq<char>) -> SuggestionView {
    SuggestionView {
        command: field_or_empty(s, "command"@),
        explanation: field_or_empty(s, "explanation"@),
    }
}

/// What the remote endpoint proposed: a shell command and an explanation of
/// it. Either part may be empty when the reply omitted it.
#[derive(Debug)]
pub struct Suggestion {
    pub command: String,
    pub explanation: String,
}

/// The mathematical content of a `Suggestion`.
pub ghost struct SuggestionView {
    pub command: Seq<char>,
    pub explanation: Seq<char>,
}

impl View for Suggestion {
    type V = SuggestionView;

    open spec fn view(&self) -> SuggestionView {
        SuggestionView { command: self.command@, explanation: self.explanation@ }
    }
}

/// The reply was not valid JSON. The caller treats this as fatal: no
/// suggestion is produced from an unparseable payload.
#[derive(Debug)]
pub struct ParseError {
    cause: serde_json::Error,
}

impl ParseError {
    /// A human-readable description of the failure, for the final message
    /// before the program stops.
    pub fn message(&self) -> String {
        json_error_text(&self.cause)
    }
}

/// Extracts the suggestion from the endpoint's reply: fails exactly on text
/// that is not valid JSON, and otherwise returns the `command` and
/// `explanation` string fields, substituting the empty string for a field
/// that is missing or not a string.
pub fn parse_gpt_response(raw: &str) -> (r: Result<Suggestion, ParseError>)
    ensures
        r is Ok <==> json_parses(raw@),
        r is Ok ==> (r->Ok_0)@ == suggestion_of(raw@),
{
    match parse_value(raw) {
        Ok(v) => {
            let command = match value_str_field(&v, "command") {
                Some(c) => c,
                None => String::new(),
            };
            let explanation = match value_str_field(&v, "explanation") {
                Some(e) => e,
                None => String::new(),
            };
            Ok(Suggestion { command, explanation })
        },
        Err(e) => Err(ParseError { cause: e }),
    }
}

/// Law: when both fields are present as strings, the suggestion holds exactly
/// those two strings, unchanged.
pub proof fn lemma_present_fields_kept(s: Seq<char>)
    requires
        json_str_fields(s).contains_key("command"@),
        json_str_fields(s).contains_key("explanation"@),
    ensures
        suggestion_of(s).command == json_str_fields(s)["command"@],
        suggestion_of(s).explanation == json_str_fields(s)["explanation"@],
{
}

/// Law: a field that is missing, or not a string, degrades to the empty
/// string — with the contract of `parse_gpt_response`, never an error.
pub proof fn lemma_missing_field_defaults_empty(s: Seq<char>, key: Seq<char>)
    requires
        !json_str_fields(s).contains_key(key),
    ensures
        field_or_empty(s, key) == Seq::<char>::empty(),
{
}

} // verus!
