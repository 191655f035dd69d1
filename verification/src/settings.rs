//! The startup policy: whether the shell starts minimized to the tray.
//!
//! The policy is one boolean field of a JSON settings document. The host reads
//! the document; this module says where it lies and what it means. Parsing is
//! left to `serde_json`, whose results are described here by a mathematical
//! model of a JSON value.

use vstd::prelude::*;

verus! {

/// The name of the directory, below the user's data directory, that holds the
/// application's files.
pub const SETTINGS_DIR: &'static str = "PauseTime";

/// The name of the settings document inside [`SETTINGS_DIR`].
pub const SETTINGS_FILE: &'static str = "settings.json";

/// The field of the settings document that holds the startup policy.
pub const START_MINIMIZED_KEY: &'static str = "start_minimized_to_tray";

/// The user's data directory: the value of `APPDATA` where the host found that
/// variable, else the value of `HOME`, else none.
pub fn data_dir<'a>(appdata: Option<&'a str>, home: Option<&'a str>) -> (r: Option<&'a str>)
    ensures
        r == (if appdata is Some {
            appdata
        } else {
            home
        }),
{
    match appdata {
        Some(dir) => Some(dir),
        None => home,
    }
}

/// A JSON value as contracts see it. Numbers are not told apart: nothing in
/// the shell reads one.
pub enum Json {
    Null,
    Bool(bool),
    Number,
    String(Seq<char>),
    Array(Seq<Json>),
    Object(Map<Seq<char>, Json>),
}

/// `serde_json::Value`, a parsed JSON value. Contracts see what it holds only
/// through [`json_model`].
#[verifier::external_type_specification]
#[verifier::external_body]
pub struct ExValue(serde_json::Value);

/// `serde_json::Error`, the reason why a text is not a JSON document. The
/// shell never looks inside.
#[verifier::external_type_specification]
#[verifier::external_body]
pub struct ExError(serde_json::Error);

/// The JSON value that a `serde_json::Value` holds.
pub uninterp spec fn json_model(value: serde_json::Value) -> Json;

/// What `serde_json::from_str` makes of a text: the value of the document, or
/// `None` where the text is not one JSON document.
pub uninterp spec fn json_parse(text: Seq<char>) -> Option<Json>;

/// Calls `serde_json::from_str` for a `serde_json::Value`. The result is a
/// function of the text alone: a value that holds `json_parse` of the text, or
/// an error exactly where `json_parse` gives `None`.
#[verifier::external_body]
fn parse_document(text: &str) -> (r: Result<serde_json::Value, serde_json::Error>)
    ensures
        match r {
            Ok(value) => json_parse(text@) == Some(json_model(value)),
            Err(_) => json_parse(text@) is None,
        },
{
    serde_json::from_str::<serde_json::Value>(text)
}

/// Calls `serde_json::Value::get` with a string index. It finds the member of
/// an object that is stored under `key`; a value that is not an object, or an
/// object without that key, gives `None`.
#[verifier::external_body]
fn member<'a>(value: &'a serde_json::Value, key: &str) -> (r: Option<&'a serde_json::Value>)
    ensures
        match json_model(*value) {
            Json::Object(members) => match r {
                Some(found) => members.contains_key(key@) && json_model(*found) == members[key@],
                None => !members.contains_key(key@),
            },
            _ => r is None,
        },
{
    value.get(key)
}

/// `serde_json::Value::as_bool` returns the boolean that a JSON boolean holds,
/// and `None` for every other value.
pub assume_specification[ serde_json::Value::as_bool ](value: &serde_json::Value) -> (r: Option<bool>)
    ensures
        r == match json_model(*value) {
            Json::Bool(b) => Some(b),
            _ => None::<bool>,
        },
;

/// The startup policy that a parsed settings document states: `true` exactly
/// where the document is an object whose field [`START_MINIMIZED_KEY`] is the
/// boolean `true`.
pub open spec fn start_minimized_in(document: Json) -> bool {
    document matches Json::Object(members) && members.contains_key(START_MINIMIZED_KEY@)
        && members[START_MINIMIZED_KEY@] == Json::Bool(true)
}

/// The startup policy of a settings document's text, if the host could read
/// one: `false` without a document, for a text that is not JSON, and for a
/// document that does not state the policy.
pub open spec fn start_minimized_spec(content: Option<Seq<char>>) -> bool {
    match content {
        Some(text) => match json_parse(text) {
            Some(document) => start_minimized_in(document),
            None => false,
        },
        None => false,
    }
}

/// Reads the startup policy out of a parsed settings document.
pub fn start_minimized_setting(document: &serde_json::Value) -> (r: bool)
    ensures
        r == start_minimized_in(json_model(*document)),
{
    match member(document, START_MINIMIZED_KEY) {
        Some(field) => match field.as_bool() {
            Some(flag) => flag,
            None => false,
        },
        None => false,
    }
}

/// Decides whether the shell starts minimized to the tray, from the text of
/// the settings document, or `None` where the host found no document. It never
/// fails: whatever is wrong with the document, the answer is `false`.
pub fn should_start_minimized(content: Option<&str>) -> (r: bool)
    ensures
        r == start_minimized_spec(
            match content {
                Some(text) => Some(text@),
                None => None,
            },
        ),
{
    match content {
        Some(text) => match parse_document(text) {
            Ok(document) => start_minimized_setting(&document),
            Err(_) => false,
        },
        None => false,
    }
}

} // verus!
