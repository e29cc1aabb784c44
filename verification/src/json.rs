//! The body of the request that creates a pipeline.

use crate::text::text_of;
use vstd::prelude::*;
use vstd::string::*;

verus! {

/// `serde_json::Error`, the error of the serialiser. Nothing is claimed of
/// it.
#[verifier::external_type_specification]
#[verifier::external_body]
pub struct ExJsonError(serde_json::Error);

/// The JSON text that `serde_json::to_string` writes for a string: the
/// string between double quotes, with the characters that JSON reserves
/// escaped. `None` where the serialiser reports an error.
pub uninterp spec fn json_string(text: Seq<char>) -> Option<Seq<char>>;

/// The characters of a serialiser's output, if it gave any.
pub open spec fn written(outcome: Result<String, serde_json::Error>) -> Option<Seq<char>> {
    match outcome {
        Ok(text) => Some(text@),
        Err(_) => None,
    }
}

/// `serde_json::to_string` on a string slice. The claim is only that the
/// same string always serialises to the same text, or always fails.
#[verifier::external_body]
pub(crate) fn to_json_string(text: &str) -> (outcome: Result<String, serde_json::Error>)
    ensures
        written(outcome) == json_string(text@),
{
    serde_json::to_string(text)
}

/// The body that asks for a pipeline on `branch`: a JSON object whose only
/// member, `ref`, names the branch. `None` where the branch name cannot be
/// serialised.
pub open spec fn ref_payload(branch: Seq<char>) -> Option<Seq<char>> {
    match json_string(branch) {
        Some(quoted) => Some("{\"ref\":"@ + quoted + "}"@),
        None => None,
    }
}

/// Writes the body that asks for a pipeline on `branch`.
pub fn pipeline_payload(branch: &str) -> (payload: Option<String>)
    ensures
        text_of(payload) == ref_payload(branch@),
{
    match to_json_string(branch) {
        Ok(quoted) => {
            let mut payload = String::from_str("{\"ref\":");
            payload.append(quoted.as_str());
            payload.append("}");
            Some(payload)
        },
        Err(_) => None,
    }
}

} // verus!
