use gemini_commit::client::{GeminiClient, GenerationError};
use gemini_commit::json::JsonValue;
use gemini_commit::response::{extract_text, ExtractionError};
use gemini_commit::text::{escape_chars, is_space_char, push_decimal, trim_chars};

fn pair(key: &str, value: JsonValue) -> (String, JsonValue) {
    (key.to_string(), value)
}

fn response_with_text(text: &str) -> JsonValue {
    JsonValue::Object(vec![pair(
        "candidates",
        JsonValue::Array(vec![JsonValue::Object(vec![pair(
            "content",
            JsonValue::Object(vec![pair(
                "parts",
                JsonValue::Array(vec![JsonValue::Object(vec![pair(
                    "text",
                    JsonValue::Text(text.to_string()),
                )])]),
            )]),
        )])]),
    )])
}

#[test]
fn extract_text_trims_surrounding_whitespace() {
    let data = response_with_text("  feat: add parser \n");
    assert_eq!(extract_text(data).unwrap(), "feat: add parser");
}

#[test]
fn extract_text_accepts_unicode_whitespace() {
    let data = response_with_text("\u{3000}fix: tidy\u{2028}");
    assert_eq!(extract_text(data).unwrap(), "fix: tidy");
}

#[test]
fn extract_text_keeps_inner_whitespace() {
    let data = response_with_text(" a  b ");
    assert_eq!(extract_text(data).unwrap(), "a  b");
}

#[test]
fn extract_text_of_all_whitespace_is_empty() {
    let data = response_with_text("   \t ");
    assert_eq!(extract_text(data).unwrap(), "");
}

#[test]
fn extract_text_uses_only_the_first_candidate() {
    let good = JsonValue::Object(vec![pair(
        "content",
        JsonValue::Object(vec![pair(
            "parts",
            JsonValue::Array(vec![JsonValue::Object(vec![pair(
                "text",
                JsonValue::Text("first".to_string()),
            )])]),
        )]),
    )]);
    let data = JsonValue::Object(vec![pair(
        "candidates",
        JsonValue::Array(vec![good, JsonValue::Null]),
    )]);
    assert_eq!(extract_text(data).unwrap(), "first");
}

#[test]
fn extract_text_uses_only_the_first_part() {
    let data = JsonValue::Object(vec![pair(
        "candidates",
        JsonValue::Array(vec![JsonValue::Object(vec![pair(
            "content",
            JsonValue::Object(vec![pair(
                "parts",
                JsonValue::Array(vec![
                    JsonValue::Object(vec![pair("text", JsonValue::Text("one".to_string()))]),
                    JsonValue::Object(vec![pair("text", JsonValue::Text("two".to_string()))]),
                ]),
            )]),
        )])]),
    )]);
    assert_eq!(extract_text(data).unwrap(), "one");
}

#[test]
fn extract_text_fails_when_candidates_is_no_array() {
    let data = JsonValue::Object(vec![pair("candidates", JsonValue::Text("x".to_string()))]);
    assert!(extract_text(data).is_err());
}

#[test]
fn extract_text_fails_on_a_scalar_response() {
    assert!(extract_text(JsonValue::Null).is_err());
}

#[test]
fn extract_text_fails_when_parts_is_missing() {
    let data = JsonValue::Object(vec![pair(
        "candidates",
        JsonValue::Array(vec![JsonValue::Object(vec![pair(
            "content",
            JsonValue::Object(vec![]),
        )])]),
    )]);
    assert!(extract_text(data).is_err());
}

#[test]
fn extraction_error_carries_the_original_response() {
    let data = JsonValue::Object(vec![pair("wrong_key", JsonValue::Array(vec![]))]);
    let copy = JsonValue::Object(vec![pair("wrong_key", JsonValue::Array(vec![]))]);
    let err = extract_text(data).unwrap_err();
    assert_eq!(err, ExtractionError::MalformedResponse(copy));
}

#[test]
fn new_embeds_the_credential_in_the_endpoint() {
    let client = GeminiClient::new("KEY".to_string());
    assert_eq!(client.api_key, "KEY");
    assert_eq!(
        client.endpoint,
        "https://generativelanguage.googleapis.com/v1beta/models/gemini-2.5-flash:generateContent?key=KEY"
    );
}

#[test]
fn request_body_wraps_the_prompt_in_the_fixed_envelope() {
    assert_eq!(
        GeminiClient::request_body("hello"),
        "{\"contents\":[{\"parts\":[{\"text\":\"hello\"}]}],\"generationConfig\":{\"temperature\":0.0,\"maxOutputTokens\":4096}}"
    );
}

#[test]
fn request_body_escapes_the_prompt() {
    let body = GeminiClient::request_body("say \"hi\"\\\n\tnow\u{1}");
    assert_eq!(
        body,
        "{\"contents\":[{\"parts\":[{\"text\":\"say \\\"hi\\\"\\\\\\n\\tnow\\u0001\"}]}],\"generationConfig\":{\"temperature\":0.0,\"maxOutputTokens\":4096}}"
    );
}

#[test]
fn request_body_of_the_empty_prompt() {
    assert_eq!(
        GeminiClient::request_body(""),
        "{\"contents\":[{\"parts\":[{\"text\":\"\"}]}],\"generationConfig\":{\"temperature\":0.0,\"maxOutputTokens\":4096}}"
    );
}

#[test]
fn http_500_is_a_service_error_with_the_raw_body() {
    let result = GeminiClient::classify_status(500, "internal error".to_string());
    assert_eq!(
        result.unwrap_err(),
        GenerationError::ServiceError { status: 500, body: "internal error".to_string() }
    );
}

#[test]
fn success_statuses_hand_the_body_on() {
    assert_eq!(
        GeminiClient::classify_status(200, "b".to_string()).unwrap(),
        "b"
    );
    assert_eq!(
        GeminiClient::classify_status(299, "c".to_string()).unwrap(),
        "c"
    );
}

#[test]
fn non_success_statuses_fail() {
    assert!(GeminiClient::classify_status(300, "r".to_string()).is_err());
    assert_eq!(
        GeminiClient::classify_status(404, "missing".to_string()).unwrap_err(),
        GenerationError::ServiceError { status: 404, body: "missing".to_string() }
    );
}

#[test]
fn service_error_message_names_status_and_body() {
    let err = GenerationError::ServiceError { status: 500, body: "internal error".to_string() };
    assert_eq!(err.message(), "Gemini API returned HTTP 500:\ninternal error");
}

#[test]
fn transport_error_message_is_its_cause() {
    let err = GenerationError::TransportError("connection refused".to_string());
    assert_eq!(err.message(), "connection refused");
}

#[test]
fn malformed_response_message_is_fixed() {
    let err = GenerationError::MalformedResponse(ExtractionError::MalformedResponse(
        JsonValue::Null,
    ));
    assert_eq!(err.message(), "Failed to extract message from the response.");
}

#[test]
fn trim_chars_drops_whitespace_at_both_ends() {
    let input: Vec<char> = " \tabc d\n ".chars().collect();
    let trimmed: String = trim_chars(&input).into_iter().collect();
    assert_eq!(trimmed, "abc d");
}

#[test]
fn escape_chars_rewrites_specials() {
    let input: Vec<char> = "a\"b\\c\u{8}\u{c}\r\u{1f}".chars().collect();
    let escaped: String = escape_chars(&input).into_iter().collect();
    assert_eq!(escaped, "a\\\"b\\\\c\\b\\f\\r\\u001f");
}

#[test]
fn is_space_char_matches_the_standard_set() {
    assert!(is_space_char(' '));
    assert!(is_space_char('\u{a0}'));
    assert!(!is_space_char('x'));
    assert!(!is_space_char('\u{200B}'));
}

#[test]
fn push_decimal_renders_numbers() {
    let mut out: Vec<char> = Vec::new();
    push_decimal(&mut out, 0);
    push_decimal(&mut out, 7);
    push_decimal(&mut out, 65535);
    let rendered: String = out.into_iter().collect();
    assert_eq!(rendered, "0765535");
}
