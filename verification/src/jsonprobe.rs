//! Probes into JSON text. The decision oracle answers with untrusted
//! text; the step engine reads single fields out of it. Each probe here
//! parses the whole text anew and extracts one plain value, so that the
//! decoding logic itself can be verified over the named results below.

use serde_json::Value;
use vstd::prelude::*;

verus! {

/// Whether the text is one well-formed JSON document.
pub uninterp spec fn json_parses(s: Seq<char>) -> bool;

/// The top-level field `key` read as a boolean, if the text parses, the
/// field is there and it is a boolean.
pub uninterp spec fn json_bool_field(s: Seq<char>, key: Seq<char>) -> Option<bool>;

/// The top-level field `key` read as a string, under the same conditions.
pub uninterp spec fn json_str_field(s: Seq<char>, key: Seq<char>) -> Option<Seq<char>>;

/// The top-level field `key` rendered back into JSON text, if the text
/// parses and the field is there.
pub uninterp spec fn json_field_text(s: Seq<char>, key: Seq<char>) -> Option<Seq<char>>;

/// The field `sub` inside the top-level field `key`, read as a string.
pub uninterp spec fn json_str_field2(s: Seq<char>, key: Seq<char>, sub: Seq<char>) -> Option<
    Seq<char>,
>;

/// The array under `key`/`sub`, each item read as a string where it is one.
pub uninterp spec fn json_str_items2(s: Seq<char>, key: Seq<char>, sub: Seq<char>) -> Option<
    Seq<Option<Seq<char>>>,
>;

/// The array under `key`/`sub`, from each item the string fields `f1` and
/// `f2` where they are strings.
pub uninterp spec fn json_pair_items2(
    s: Seq<char>,
    key: Seq<char>,
    sub: Seq<char>,
    f1: Seq<char>,
    f2: Seq<char>,
) -> Option<Seq<(Option<Seq<char>>, Option<Seq<char>>)>>;

/// Relies on serde_json::from_str::<Value>: it returns Ok exactly on
/// well-formed JSON text.
#[verifier::external_body]
pub(crate) fn json_is_valid(s: &str) -> (r: bool)
    ensures
        r == json_parses(s@),
{
    serde_json::from_str::<Value>(s).is_ok()
}

/// Relies on serde_json::from_str, Value::get and Value::as_bool.
#[verifier::external_body]
pub(crate) fn json_get_bool(s: &str, key: &str) -> (r: Option<bool>)
    ensures
        r == json_bool_field(s@, key@),
        !json_parses(s@) ==> r is None,
{
    match serde_json::from_str::<Value>(s) {
        Ok(v) => v.get(key).and_then(|f| f.as_bool()),
        Err(_) => None,
    }
}

/// Relies on serde_json::from_str, Value::get and Value::as_str.
#[verifier::external_body]
pub(crate) fn json_get_str(s: &str, key: &str) -> (r: Option<String>)
    ensures
        r.deep_view() == json_str_field(s@, key@),
        !json_parses(s@) ==> r is None,
{
    match serde_json::from_str::<Value>(s) {
        Ok(v) => v.get(key).and_then(|f| f.as_str()).map(|x| x.to_string()),
        Err(_) => None,
    }
}

/// Relies on serde_json::from_str, Value::get and Value::to_string: the
/// field is rendered back into JSON text.
#[verifier::external_body]
pub(crate) fn json_get_text(s: &str, key: &str) -> (r: Option<String>)
    ensures
        r.deep_view() == json_field_text(s@, key@),
        !json_parses(s@) ==> r is None,
{
    match serde_json::from_str::<Value>(s) {
        Ok(v) => v.get(key).map(|f| f.to_string()),
        Err(_) => None,
    }
}

/// Relies on serde_json::from_str, Value::get and Value::as_str, one
/// level deeper.
#[verifier::external_body]
pub(crate) fn json_get_str2(s: &str, key: &str, sub: &str) -> (r: Option<String>)
    ensures
        r.deep_view() == json_str_field2(s@, key@, sub@),
        !json_parses(s@) ==> r is None,
{
    match serde_json::from_str::<Value>(s) {
        Ok(v) => v.get(key).and_then(|a| a.get(sub)).and_then(|f| f.as_str()).map(
            |x| x.to_string(),
        ),
        Err(_) => None,
    }
}

/// Relies on serde_json::from_str, Value::get, Value::as_array and
/// Value::as_str: each array item carried over as a string where it is one.
#[verifier::external_body]
pub(crate) fn json_get_str_items2(s: &str, key: &str, sub: &str) -> (r: Option<Vec<Option<String>>>)
    ensures
        r.deep_view() == json_str_items2(s@, key@, sub@),
        !json_parses(s@) ==> r is None,
{
    match serde_json::from_str::<Value>(s) {
        Ok(v) => v.get(key).and_then(|a| a.get(sub)).and_then(|f| f.as_array()).map(
            |items| items.iter().map(|it| it.as_str().map(|x| x.to_string())).collect(),
        ),
        Err(_) => None,
    }
}

/// Relies on serde_json::from_str, Value::get, Value::as_array and
/// Value::as_str: from each array item the two named string fields.
#[verifier::external_body]
pub(crate) fn json_get_pair_items2(s: &str, key: &str, sub: &str, f1: &str, f2: &str) -> (r: Option<
    Vec<(Option<String>, Option<String>)>,
>)
    ensures
        r.deep_view() == json_pair_items2(s@, key@, sub@, f1@, f2@),
        !json_parses(s@) ==> r is None,
{
    match serde_json::from_str::<Value>(s) {
        Ok(v) => v.get(key).and_then(|a| a.get(sub)).and_then(|f| f.as_array()).map(
            |items| items.iter().map(
                |it| (
                    it.get(f1).and_then(|x| x.as_str()).map(|x| x.to_string()),
                    it.get(f2).and_then(|x| x.as_str()).map(|x| x.to_string()),
                ),
            ).collect(),
        ),
        Err(_) => None,
    }
}

} // verus!
