//! JSON, as far as the client needs it: whether a text is JSON, what is
//! wrong with it where it is not, and how it reads when laid out for
//! display. The reading and the writing are `serde_json`'s; what is said of
//! them here is not proved.

use vstd::prelude::*;

verus! {

/// A JSON value of `serde_json`, taken as it is.
#[verifier::external_type_specification]
#[verifier::external_body]
pub struct ExJsonValue(serde_json::Value);

/// The error of `serde_json`, taken as it is.
#[verifier::external_type_specification]
#[verifier::external_body]
pub struct ExJsonError(serde_json::Error);

/// What `serde_json::from_str` makes of a text: the value it reads, or the
/// error it reports.
pub uninterp spec fn json_parse(text: Seq<char>) -> Result<serde_json::Value, serde_json::Error>;

/// The text that `serde_json::to_string_pretty` writes for a value, where
/// it writes one.
pub uninterp spec fn json_pretty(value: serde_json::Value) -> Option<Seq<char>>;

/// The message of a `serde_json` error, as its `to_string` gives it.
pub uninterp spec fn json_error_text(error: serde_json::Error) -> Seq<char>;

/// `serde_json::from_str`, reading a `Value`.
#[verifier::external_body]
fn parse_value(text: &str) -> (r: Result<serde_json::Value, serde_json::Error>)
    ensures
        r == json_parse(text@),
{
    serde_json::from_str::<serde_json::Value>(text)
}

/// `serde_json::to_string_pretty`, on a `Value`.
#[verifier::external_body]
fn write_pretty(value: &serde_json::Value) -> (r: Result<String, serde_json::Error>)
    ensures
        r matches Ok(s) ==> json_pretty(*value) == Some(s@),
        r is Err ==> json_pretty(*value) is None,
{
    serde_json::to_string_pretty(value)
}

/// `to_string` on a `serde_json::Error`: its message.
#[verifier::external_body]
fn error_message(error: &serde_json::Error) -> (s: String)
    ensures
        s@ == json_error_text(*error),
{
    error.to_string()
}

/// What is wrong with `text` as JSON: the parser's message, or `None`
/// where the text is JSON.
pub open spec fn json_problem_of(text: Seq<char>) -> Option<Seq<char>> {
    match json_parse(text) {
        Ok(_) => None,
        Err(e) => Some(json_error_text(e)),
    }
}

/// The text laid out as JSON, where it is JSON and can be written again.
pub open spec fn json_layout_of(text: Seq<char>) -> Option<Seq<char>> {
    match json_parse(text) {
        Ok(v) => json_pretty(v),
        Err(_) => None,
    }
}

/// The text to show for a decoded body, given its layout as JSON if it has
/// one: the layout, or else the body as it is.
pub open spec fn display_choice(decoded: Seq<char>, layout: Option<Seq<char>>) -> Seq<char> {
    match layout {
        Some(p) => p,
        None => decoded,
    }
}

/// The text to show for a decoded body.
pub open spec fn display_text(decoded: Seq<char>) -> Seq<char> {
    display_choice(decoded, json_layout_of(decoded))
}

/// Checks `text` as JSON: `None` where it is JSON, else the message of the
/// parser.
pub fn json_problem(text: &str) -> (r: Option<String>)
    ensures
        r is Some <==> json_parse(text@) is Err,
        match r {
            Some(m) => json_problem_of(text@) == Some(m@),
            None => json_problem_of(text@) is None,
        },
{
    match parse_value(text) {
        Ok(_) => None,
        Err(e) => Some(error_message(&e)),
    }
}

/// Lays `text` out as JSON with an indentation of two spaces, where it is
/// JSON.
pub fn json_layout(text: &str) -> (r: Option<String>)
    ensures
        match r {
            Some(p) => json_layout_of(text@) == Some(p@),
            None => json_layout_of(text@) is None,
        },
{
    match parse_value(text) {
        Ok(v) => match write_pretty(&v) {
            Ok(p) => Some(p),
            Err(_) => None,
        },
        Err(_) => None,
    }
}

/// Picks the text to show: the layout where there is one, else the decoded
/// body unchanged.
pub fn choose_display(decoded: String, layout: Option<String>) -> (out: String)
    ensures
        out@ == display_choice(
            decoded@,
            match layout {
                Some(p) => Some(p@),
                None => None,
            },
        ),
{
    match layout {
        Some(p) => p,
        None => decoded,
    }
}

/// The text to show for a decoded body: laid out as JSON where it is JSON,
/// and as it is where it is not. This never fails.
pub fn format_body(decoded: String) -> (out: String)
    ensures
        out@ == display_text(decoded@),
{
    let layout = json_layout(decoded.as_str());
    choose_display(decoded, layout)
}

} // verus!
