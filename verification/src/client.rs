//! The generation client: credential and endpoint, the fixed request
//! envelope, classification of a completed exchange, and the error taxonomy.

use vstd::prelude::*;
use vstd::string::StringExecFns;

use crate::json::JsonValue;
use crate::response::{extract_text, extracted, ExtractionError};
use crate::text::{
    chars_to_string, dec_rep, escape_chars, escape_seq, push_decimal, str_to_chars, trim_spec,
};

verus! {

/// How a call to the generation service can fail.
#[derive(Debug, PartialEq)]
pub enum GenerationError {
    /// The network exchange could not be completed; carries the rendering of
    /// the underlying cause.
    TransportError(String),
    /// The service answered with a non-success status; carries that status
    /// and the raw body text, never parsed.
    ServiceError { status: u16, body: String },
    /// The service answered, but the body did not hold text at the expected
    /// place.
    MalformedResponse(ExtractionError),
}

/// The capability that any generation backend offers: turn a prompt into
/// generated text, or fail with a classified error.
pub trait LLMClient {
    fn generate(&self, prompt: &str) -> Result<String, GenerationError>;
}

/// A client of the Gemini generation service: the credential it was
/// constructed with and the endpoint derived from it. Construction performs
/// no network activity and cannot fail; both fields are immutable for the
/// client's lifetime.
pub struct GeminiClient {
    pub api_key: String,
    pub endpoint: String,
}

/// The fixed request target, up to the embedded credential.
pub open spec fn endpoint_prefix() -> Seq<char> {
    "https://generativelanguage.googleapis.com/v1beta/models/gemini-2.5-flash:generateContent?key="@
}

/// Opening of the fixed request envelope, up to the prompt text.
pub open spec fn body_prefix() -> Seq<char> {
    "{\"contents\":[{\"parts\":[{\"text\":\""@
}

/// Close of the fixed request envelope: the generation parameters, with
/// deterministic sampling and at most 4096 output tokens.
pub open spec fn body_suffix() -> Seq<char> {
    "\"}]}],\"generationConfig\":{\"temperature\":0.0,\"maxOutputTokens\":4096}}"@
}

/// A status in the HTTP success range.
pub open spec fn http_success(status: u16) -> bool {
    200 <= status < 300
}

impl GeminiClient {
    /// Build a client from a credential. The endpoint is the fixed request
    /// target with the credential embedded.
    pub fn new(api_key: String) -> (r: GeminiClient)
        ensures
            r.api_key == api_key,
            r.endpoint@ == endpoint_prefix() + api_key@,
    {
        let mut endpoint = String::new();
        endpoint.append(
            "https://generativelanguage.googleapis.com/v1beta/models/gemini-2.5-flash:generateContent?key=",
        );
        endpoint.append(api_key.as_str());
        proof {
            assert(endpoint@ =~= endpoint_prefix() + api_key@);
        }
        GeminiClient { api_key, endpoint }
    }

    /// The fixed request envelope around a prompt: a single-turn request
    /// holding the prompt verbatim as a JSON string, with temperature 0.0
    /// and a 4096-token output cap.
    pub fn request_body(prompt: &str) -> (r: String)
        ensures
            r@ == body_prefix() + escape_seq(prompt@) + body_suffix(),
    {
        let raw = str_to_chars(prompt);
        let escaped = escape_chars(&raw);
        let middle = chars_to_string(&escaped);
        let mut r = String::new();
        r.append("{\"contents\":[{\"parts\":[{\"text\":\"");
        r.append(middle.as_str());
        r.append("\"}]}],\"generationConfig\":{\"temperature\":0.0,\"maxOutputTokens\":4096}}");
        proof {
            assert(r@ =~= body_prefix() + escape_seq(prompt@) + body_suffix());
        }
        r
    }

    /// Sort a completed exchange by its status: a success status hands the
    /// raw body on for decoding; any other status is a service failure
    /// carrying the status and the body, which is never parsed.
    pub fn classify_status(status: u16, body: String) -> (r: Result<String, GenerationError>)
        ensures
            http_success(status) ==> r == Ok::<String, GenerationError>(body),
            !http_success(status) ==> r == Err::<String, GenerationError>(
                (GenerationError::ServiceError { status, body }),
            ),
    {
        if 200 <= status && status < 300 {
            Ok(body)
        } else {
            Err(GenerationError::ServiceError { status, body })
        }
    }

    /// Extract the generated text from a decoded response body, or fail with
    /// the malformed-response error carrying that body.
    pub fn parse_response_json(v: JsonValue) -> (r: Result<String, GenerationError>)
        ensures
            match extracted(v) {
                Some(s) => r matches Ok(t) && t@ == trim_spec(s),
                None => r == Err::<String, GenerationError>(
                    GenerationError::MalformedResponse(ExtractionError::MalformedResponse(v)),
                ),
            },
    {
        match extract_text(v) {
            Ok(t) => Ok(t),
            Err(e) => Err(GenerationError::MalformedResponse(e)),
        }
    }
}

impl GenerationError {
    /// The human-readable rendering of the error.
    pub open spec fn message_spec(&self) -> Seq<char> {
        match self {
            GenerationError::TransportError(m) => m@,
            GenerationError::ServiceError { status, body } => "Gemini API returned HTTP "@
                + dec_rep(*status as nat) + ":\n"@ + body@,
            GenerationError::MalformedResponse(_) => "Failed to extract message from the response."@,
        }
    }

    /// Render the error for direct display.
    pub fn message(&self) -> (r: String)
        ensures
            r@ == self.message_spec(),
    {
        match self {
            GenerationError::TransportError(m) => m.clone(),
            GenerationError::ServiceError { status, body } => {
                let mut digits: Vec<char> = Vec::new();
                push_decimal(&mut digits, *status);
                let rendered = chars_to_string(&digits);
                let mut r = String::new();
                r.append("Gemini API returned HTTP ");
                r.append(rendered.as_str());
                r.append(":\n");
                r.append(body.as_str());
                proof {
                    assert(r@ =~= self.message_spec());
                }
                r
            },
            GenerationError::MalformedResponse(_) => "Failed to extract message from the response.".to_owned(),
        }
    }
}

} // verus!
