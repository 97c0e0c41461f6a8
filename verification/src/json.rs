use vstd::prelude::*;
use vstd::string::*;

verus! {

#[verifier::external_type_specification]
#[verifier::external_body]
pub struct ExJsonValue(serde_json::Value);

#[verifier::external_type_specification]
#[verifier::external_body]
pub struct ExJsonError(serde_json::Error);

/// The text that `serde_json::to_string` gives for a JSON value, or `None`
/// when it reports an error. It depends on the value alone.
pub uninterp spec fn json_text_of(value: serde_json::Value) -> Option<Seq<char>>;

/// Calls `serde_json::to_string` on a JSON value: its text on success, an
/// error when serialising the value fails. Both are tied to the value through
/// `json_text_of`; the text itself is not spelled out.
#[verifier::external_body]
fn json_text(value: &serde_json::Value) -> (r: Result<String, serde_json::Error>)
    ensures
        match r {
            Ok(t) => json_text_of(*value) == Some(t@),
            Err(_) => json_text_of(*value) is None,
        },
{
    serde_json::to_string(value)
}

/// The empty JSON object, stored when there is no metadata to store.
pub open spec fn empty_object_text() -> Seq<char> {
    seq!['{', '}']
}

/// The serialisation's text, or `{}` when serialising failed.
pub fn text_or_empty_object(r: Result<String, serde_json::Error>) -> (s: String)
    ensures
        r matches Ok(t) ==> s == t,
        r is Err ==> s@ == empty_object_text(),
{
    match r {
        Ok(text) => text,
        Err(_) => {
            let s = String::from_str("{}");
            proof {
                reveal_strlit("{}");
            }
            s
        },
    }
}

/// The text stored for a JSON value: its serialisation, or `{}` when
/// serialising fails.
pub open spec fn metadata_text_of(value: serde_json::Value) -> Seq<char> {
    match json_text_of(value) {
        Some(t) => t,
        None => empty_object_text(),
    }
}

/// The stored text of an issue's extension metadata: the value serialised as
/// JSON, or `{}` when serialising fails.
pub fn extension_metadata_text(value: &serde_json::Value) -> (s: String)
    ensures
        s@ == metadata_text_of(*value),
{
    text_or_empty_object(json_text(value))
}

} // verus!
