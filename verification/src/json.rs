use vstd::prelude::*;

verus! {

/// The string at the JSON path `data.url` of a body, if the body parses as
/// JSON and holds a string there; a function of the body text alone.
pub uninterp spec fn data_url_of(body: Seq<char>) -> Option<Seq<char>>;

/// Relies on serde_json: `from_str::<Value>` parses the body text, `Value`'s
/// `[..]` indexing yields `Null` for an absent or ill-typed step, and
/// `Value::as_str` is `Some` exactly on JSON strings. None of the calls
/// panics, and the outcome depends on the body text alone.
#[verifier::external_body]
pub(crate) fn extract_data_url(body: &str) -> (r: Option<String>)
    ensures
        match r {
            Some(u) => data_url_of(body@) == Some(u@),
            None => data_url_of(body@) is None,
        },
{
    match serde_json::from_str::<serde_json::Value>(body) {
        Ok(value) => match value["data"]["url"].as_str() {
            Some(url) => Some(url.to_string()),
            None => None,
        },
        Err(_) => None,
    }
}

} // verus!
