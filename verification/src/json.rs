//! The configuration as pretty-printed JSON text, for the data pane.

use crate::store::{Config, Pair};
use vstd::prelude::*;

verus! {

/// The error type of `serde_json`, carried through without looking inside.
#[verifier::external_type_specification]
#[verifier::external_body]
pub struct ExJsonError(serde_json::Error);

/// The text that `serde_json::to_string_pretty` gives for the JSON object
/// `{"schema": [{"key": .., "value": ..}, ..]}` whose array holds one object
/// for each of `rows`, in order.
pub uninterp spec fn pretty_json(rows: Seq<Pair>) -> Seq<char>;

/// Calls `serde_json::to_string_pretty` on the JSON value of `config`: an
/// object with the one member `schema`, an array with one object per row,
/// each with the members `key` and `value` as JSON strings. The contract
/// claims that the call succeeds and that its text depends on the rows alone.
/// Success rests on the serialiser's source: it fails only where its writer
/// fails or a map key is no string, and here it writes into a byte vector
/// and every key is a `String`.
#[verifier::external_body]
fn to_pretty_json(config: &Config) -> (out: Result<String, serde_json::Error>)
    ensures
        out is Ok,
        out matches Ok(text) ==> text@ == pretty_json(config@),
{
    let rows: Vec<serde_json::Value> = config.schema.iter().map(|item| {
        let mut row = serde_json::Map::new();
        row.insert("key".to_string(), item.key.clone().into());
        row.insert("value".to_string(), item.value.clone().into());
        row.into()
    }).collect();
    let mut root = serde_json::Map::new();
    root.insert("schema".to_string(), rows.into());
    serde_json::to_string_pretty(&serde_json::Value::Object(root))
}

/// What the data pane shows when no JSON text could be made.
pub open spec fn fallback_text() -> Seq<char> {
    "Error generating a json"@
}

/// The text of the data pane for an attempt at serialising: the JSON text
/// where there is one, the fallback message where there is none.
pub open spec fn pane_text(rendered: Option<Seq<char>>) -> Seq<char> {
    match rendered {
        Some(text) => text,
        None => fallback_text(),
    }
}

/// Chooses the text of the data pane from the outcome of serialising.
pub fn text_or_fallback(rendered: Option<String>) -> (text: String)
    ensures
        text@ == pane_text(
            match rendered {
                Some(t) => Some(t@),
                None => None,
            },
        ),
{
    match rendered {
        Some(text) => text,
        None => "Error generating a json".to_owned(),
    }
}

/// The text of the data pane for `config`: its pretty-printed JSON.
pub fn data_representation(config: &Config) -> (text: String)
    ensures
        text@ == pretty_json(config@),
{
    let rendered = match to_pretty_json(config) {
        Ok(json) => Some(json),
        Err(_) => None,
    };
    text_or_fallback(rendered)
}

} // verus!
