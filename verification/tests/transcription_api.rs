//! Tests of the transcription request framing and the interpretation of the
//! service's replies.

use openvoice::transcription::{
    build_transcription_request, interpret_response, json_escape, u32_decimal, ResponseFields,
};

fn fields(
    api_error: Option<Option<&str>>,
    content: Option<&str>,
    parse_error: Option<&str>,
) -> ResponseFields {
    ResponseFields {
        api_error: api_error.map(|m| m.map(|s| s.to_string())),
        content: content.map(|s| s.to_string()),
        parse_error: parse_error.map(|s| s.to_string()),
    }
}

#[test]
fn test_request_serialization() {
    let json = build_transcription_request("base64data", Some("test-model"));
    assert!(json.contains("input_audio"));
    assert!(json.contains("test-model"));
}

#[test]
fn the_request_is_valid_json_with_the_expected_fields() {
    let json = build_transcription_request("AAAA====", Some("some/model-x"));
    let v: serde_json::Value = serde_json::from_str(&json).expect("the body must be valid JSON");
    assert_eq!(v["model"], "some/model-x");
    assert_eq!(v["messages"][0]["role"], "user");
    assert_eq!(v["messages"][0]["content"][0]["type"], "text");
    assert_eq!(v["messages"][0]["content"][1]["type"], "input_audio");
    assert_eq!(v["messages"][0]["content"][1]["input_audio"]["data"], "AAAA====");
    assert_eq!(v["messages"][0]["content"][1]["input_audio"]["format"], "wav");
}

#[test]
fn without_a_model_the_default_is_asked_for() {
    let json = build_transcription_request("xyz", None);
    let v: serde_json::Value = serde_json::from_str(&json).unwrap();
    assert_eq!(v["model"], "google/gemini-2.5-flash");
}

#[test]
fn inserted_strings_are_escaped() {
    let tricky = "a\"b\\c\nd\te\r\u{8}\u{c}\u{1}";
    let json = build_transcription_request("data", Some(tricky));
    let v: serde_json::Value = serde_json::from_str(&json).expect("escaping must keep it valid");
    assert_eq!(v["model"], tricky);
    assert_eq!(json_escape("plain"), "plain");
    assert_eq!(json_escape("a\"b"), "a\\\"b");
    assert_eq!(json_escape("a\\b"), "a\\\\b");
    assert_eq!(json_escape("\u{1f}"), "\\u001f");
}

#[test]
fn decimal_formatting_is_exact() {
    assert_eq!(u32_decimal(0), "0");
    assert_eq!(u32_decimal(7), "7");
    assert_eq!(u32_decimal(404), "404");
    assert_eq!(u32_decimal(65535), "65535");
    assert_eq!(u32_decimal(4294967295), "4294967295");
}

#[test]
fn a_successful_reply_yields_the_trimmed_transcription() {
    let r = interpret_response(200, "{}", &fields(None, Some("  hello there \n"), None));
    assert_eq!(r, Ok("hello there".to_string()));
}

#[test]
fn a_failing_status_with_an_error_message_names_it() {
    let r = interpret_response(404, "ignored", &fields(Some(Some("not found")), None, None));
    assert_eq!(r, Err("API error (404): not found".to_string()));
    let r = interpret_response(404, "ignored", &fields(Some(None), None, None));
    assert_eq!(r, Err("API error (404): Unknown error".to_string()));
}

#[test]
fn a_failing_status_without_an_error_message_reports_the_body() {
    let r = interpret_response(500, "oops", &fields(None, None, None));
    assert_eq!(r, Err("API request failed with status 500: oops".to_string()));
}

#[test]
fn an_unparseable_successful_reply_reports_the_parser_and_the_body() {
    let r = interpret_response(200, "<html>", &fields(None, None, Some("expected value")));
    assert_eq!(
        r,
        Err("Failed to parse response: expected value - Body: <html>".to_string())
    );
}

#[test]
fn a_successful_reply_with_an_error_object_reports_it() {
    let r = interpret_response(200, "{}", &fields(Some(Some("quota")), None, None));
    assert_eq!(r, Err("API error: quota".to_string()));
}

#[test]
fn a_successful_reply_without_choices_fails() {
    let r = interpret_response(200, "{}", &fields(None, None, None));
    assert_eq!(r, Err("No transcription in response".to_string()));
}
