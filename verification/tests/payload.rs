use pointer_gestures::icon_events::IconRequest;
use pointer_gestures::payload::{assemble_request, decode_icon_request, PayloadError};

fn request(text: &str, x: i64, y: i64) -> Result<IconRequest, PayloadError> {
    Ok(IconRequest { text: text.to_string(), x, y })
}

#[test]
fn payload_with_all_members_is_decoded() {
    assert_eq!(
        decode_icon_request(r#"{"text":"hello world","x":105,"y":195}"#),
        request("hello world", 105, 195)
    );
    assert_eq!(
        decode_icon_request(r#" { "y": -7, "extra": [1, 2], "x": 0, "text": "" } "#),
        request("", 0, -7)
    );
    assert_eq!(
        decode_icon_request(r#"{"text":"a\"b\n","x":9223372036854775807,"y":-9223372036854775808}"#),
        request("a\"b\n", i64::MAX, i64::MIN)
    );
}

#[test]
fn payload_that_is_not_json_is_unparsable() {
    for payload in ["", "{", "text", r#"{"text":"a","x":1,"y":2} trailing"#, "{'text':'a'}"] {
        assert_eq!(decode_icon_request(payload), Err(PayloadError::Unparsable));
    }
}

#[test]
fn payload_without_the_three_members_is_invalid() {
    for payload in [
        "{}",
        "null",
        "[]",
        r#""text""#,
        r#"["a", 1, 2]"#,
        r#"{"text":"a","x":1}"#,
        r#"{"text":"a","y":2}"#,
        r#"{"x":1,"y":2}"#,
        r#"{"text":5,"x":1,"y":2}"#,
        r#"{"text":"a","x":"1","y":2}"#,
        r#"{"text":"a","x":1.5,"y":2}"#,
        r#"{"text":"a","x":1,"y":2.0}"#,
        r#"{"text":"a","x":1,"y":null}"#,
        r#"{"text":"a","x":9223372036854775808,"y":2}"#,
        r#"{"Text":"a","X":1,"Y":2}"#,
    ] {
        assert_eq!(decode_icon_request(payload), Err(PayloadError::Invalid), "{payload}");
    }
}

#[test]
fn request_needs_all_three_members() {
    assert_eq!(assemble_request(Some("a".to_string()), Some(1), Some(2)), request("a", 1, 2));
    assert_eq!(assemble_request(None, Some(1), Some(2)), Err(PayloadError::Invalid));
    assert_eq!(assemble_request(Some("a".to_string()), None, Some(2)), Err(PayloadError::Invalid));
    assert_eq!(assemble_request(Some("a".to_string()), Some(1), None), Err(PayloadError::Invalid));
    assert_eq!(assemble_request(None, None, None), Err(PayloadError::Invalid));
}
