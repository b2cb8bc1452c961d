use auth_errors::ErrorResponse;

fn response(message: &str, status: &str) -> ErrorResponse {
    ErrorResponse { message: message.to_string(), status: status.to_string() }
}

#[test]
fn plain_texts_stand_between_quotation_marks() {
    let body = response("no permission", "401 Unauthorized").to_json();
    assert_eq!(body, "{\"message\":\"no permission\",\"status\":\"401 Unauthorized\"}");
}

#[test]
fn empty_texts_give_empty_strings() {
    assert_eq!(response("", "").to_json(), "{\"message\":\"\",\"status\":\"\"}");
}

#[test]
fn quotation_marks_and_backslashes_are_escaped() {
    let body = response("say \"no\"", "a\\b").to_json();
    assert_eq!(body, "{\"message\":\"say \\\"no\\\"\",\"status\":\"a\\\\b\"}");
}

#[test]
fn control_characters_are_escaped() {
    let body = response("line\nbreak\ttab", "bell\u{7}").to_json();
    assert_eq!(body, "{\"message\":\"line\\nbreak\\ttab\",\"status\":\"bell\\u0007\"}");
}

#[test]
fn other_characters_are_kept() {
    let body = response("caf\u{e9} \u{7f}", "\u{1f600}").to_json();
    assert_eq!(body, "{\"message\":\"caf\u{e9} \u{7f}\",\"status\":\"\u{1f600}\"}");
}

#[test]
fn the_body_reads_back_as_the_two_strings() {
    let cases = [
        ("wrong credentials", "403 Forbidden"),
        ("say \"no\"", "a\\b"),
        ("line\nbreak", "{\"message\":\"x\"}"),
        ("", "\u{0}"),
    ];
    for (message, status) in cases {
        let body = response(message, status).to_json();
        let value: serde_json::Value = serde_json::from_str(&body).unwrap();
        let object = value.as_object().unwrap();
        assert_eq!(object.len(), 2);
        assert_eq!(object.get("message").and_then(|v| v.as_str()), Some(message));
        assert_eq!(object.get("status").and_then(|v| v.as_str()), Some(status));
    }
}

#[test]
fn the_members_come_in_order() {
    let body = response("m", "s").to_json();
    let message_at = body.find("\"message\"").unwrap();
    let status_at = body.find("\"status\"").unwrap();
    assert_eq!(message_at, 1);
    assert!(message_at < status_at);
}
