//! The response contract: where the generated text sits in a response body,
//! and extraction of it.

use vstd::prelude::*;

use crate::json::{first_of, get_first, get_key, get_text, key_of, text_of, JsonValue};
use crate::text::{trim_chars, trim_spec, chars_to_string, str_to_chars};

verus! {

/// The text that the expected response shape holds: the string under
/// `candidates[0].content.parts[0].text`, not yet trimmed. `None` wherever a
/// link of that chain is missing, an array is empty, or the leaf is not
/// text. Candidates and parts past the first are deliberately ignored.
pub open spec fn extracted(v: JsonValue) -> Option<Seq<char>> {
    match key_of(v, "candidates"@) {
        Some(cands) => match first_of(cands) {
            Some(cand) => match key_of(cand, "content"@) {
                Some(content) => match key_of(content, "parts"@) {
                    Some(parts) => match first_of(parts) {
                        Some(part) => match key_of(part, "text"@) {
                            Some(leaf) => text_of(leaf),
                            None => None,
                        },
                        None => None,
                    },
                    None => None,
                },
                None => None,
            },
            None => None,
        },
        None => None,
    }
}

/// Why extraction failed.
#[derive(Debug, PartialEq)]
pub enum ExtractionError {
    /// The response does not hold text at the expected place; the original
    /// response is carried for diagnosis.
    MalformedResponse(JsonValue),
}

/// Everything `extract_text` promises: the trimmed text exactly when the
/// expected shape is present, and otherwise the error carrying the original
/// response.
pub open spec fn extract_text_post(v: JsonValue, r: Result<String, ExtractionError>) -> bool {
    match extracted(v) {
        Some(s) => r matches Ok(t) && t@ == trim_spec(s),
        None => r == Err::<String, ExtractionError>(ExtractionError::MalformedResponse(v)),
    }
}

/// Walk the expected path and hand back the trimmed text, if the whole
/// chain is present.
fn find_text(v: &JsonValue) -> (r: Option<String>)
    ensures
        match extracted(*v) {
            Some(s) => r matches Some(t) && t@ == trim_spec(s),
            None => r is None,
        },
{
    let cands = match get_key(v, &"candidates".to_owned()) {
        Some(x) => x,
        None => {
            return None;
        },
    };
    let cand = match get_first(cands) {
        Some(x) => x,
        None => {
            return None;
        },
    };
    let content = match get_key(cand, &"content".to_owned()) {
        Some(x) => x,
        None => {
            return None;
        },
    };
    let parts = match get_key(content, &"parts".to_owned()) {
        Some(x) => x,
        None => {
            return None;
        },
    };
    let part = match get_first(parts) {
        Some(x) => x,
        None => {
            return None;
        },
    };
    let leaf = match get_key(part, &"text".to_owned()) {
        Some(x) => x,
        None => {
            return None;
        },
    };
    let text = match get_text(leaf) {
        Some(x) => x,
        None => {
            return None;
        },
    };
    let raw = str_to_chars(text.as_str());
    let trimmed = trim_chars(&raw);
    Some(chars_to_string(&trimmed))
}

/// Extract the generated text from a response body: the string under
/// `candidates[0].content.parts[0].text`, trimmed of surrounding
/// whitespace. Fails, carrying the response, when any link of that chain is
/// missing or of the wrong kind.
pub fn extract_text(v: JsonValue) -> (r: Result<String, ExtractionError>)
    ensures
        extract_text_post(v, r),
{
    match find_text(&v) {
        Some(t) => Ok(t),
        None => Err(ExtractionError::MalformedResponse(v)),
    }
}

/// Extraction is a pure function of the response: any two results that the
/// contract of `extract_text` allows for one input agree — as character
/// sequences on success, as values on failure.
pub proof fn lemma_extract_text_deterministic(
    v: JsonValue,
    r1: Result<String, ExtractionError>,
    r2: Result<String, ExtractionError>,
)
    requires
        extract_text_post(v, r1),
        extract_text_post(v, r2),
    ensures
        r1 is Ok <==> r2 is Ok,
        r1 matches Ok(t1) ==> (r2 matches Ok(t2) && t1@ == t2@),
        r1 is Err ==> r1 == r2,
{
}

} // verus!
