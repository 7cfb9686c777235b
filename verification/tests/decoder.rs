use mqtt_ws_bridge::json::text_field;
use mqtt_ws_bridge::mqtt::{
    decode, decode_text, extract_client_from_topic, DecodeError, DecodeMode, MqttMessage,
};
use serde_json::Value;

#[test]
fn topic_suffix_takes_the_last_segment() {
    let event = decode(DecodeMode::TopicSuffix, "sensors/room1/c1", b"hi").unwrap();
    assert_eq!(event.destination_id, "c1");
    assert_eq!(event.body, "hi");
}

#[test]
fn topic_suffix_keeps_the_payload_verbatim() {
    let payload = "{\"client_id\":\"other\",\"message\":\"x\"}\n";
    let event = decode(DecodeMode::TopicSuffix, "t/c9", payload.as_bytes()).unwrap();
    assert_eq!(event.destination_id, "c9");
    assert_eq!(event.body, payload);
}

#[test]
fn topic_without_separator_is_its_own_segment() {
    let event = decode(DecodeMode::TopicSuffix, "c1", b"hello").unwrap();
    assert_eq!(event.destination_id, "c1");
    assert_eq!(event.body, "hello");
}

#[test]
fn empty_topic_gives_the_empty_identifier() {
    let event = decode(DecodeMode::TopicSuffix, "", b"hello").unwrap();
    assert_eq!(event.destination_id, "");
    assert_eq!(event.body, "hello");
}

#[test]
fn last_segment_edge_cases() {
    assert_eq!(extract_client_from_topic("c1"), Some("c1"));
    assert_eq!(extract_client_from_topic(""), Some(""));
    assert_eq!(extract_client_from_topic("a/b/"), Some(""));
    assert_eq!(extract_client_from_topic("/"), Some(""));
    assert_eq!(extract_client_from_topic("/c1"), Some("c1"));
    assert_eq!(extract_client_from_topic("a//b"), Some("b"));
    assert_eq!(extract_client_from_topic("sensors/room1/c1"), Some("c1"));
    assert_eq!(extract_client_from_topic("caf\u{e9}/\u{fc}ser"), Some("\u{fc}ser"));
    assert_eq!(extract_client_from_topic("\u{1f600}/\u{1f601}\u{1f602}"), Some("\u{1f601}\u{1f602}"));
}

#[test]
fn well_formed_envelope_decodes() {
    let payload = br#"{"client_id":"c1","message":"hi"}"#;
    let event = decode(DecodeMode::Envelope, "any/topic", payload).unwrap();
    assert_eq!(event.destination_id, "c1");
    assert_eq!(event.body, "hi");
}

#[test]
fn envelope_try_from_reads_both_fields() {
    let payload = br#"{"client_id":"c1","message":"hi"}"#;
    let envelope = MqttMessage::<String>::try_from(&payload[..]).unwrap();
    assert_eq!(envelope.client_id, "c1");
    assert_eq!(envelope.message, "hi");
}

#[test]
fn envelope_ignores_the_topic_and_other_members() {
    let payload = " { \"extra\": [1, 2], \"message\": \"a \\\"b\\\" \u{e9}\", \"client_id\": \"c/2\" } ";
    let event = decode(DecodeMode::Envelope, "sensors/room1/c1", payload.as_bytes()).unwrap();
    assert_eq!(event.destination_id, "c/2");
    assert_eq!(event.body, "a \"b\" \u{e9}");
}

#[test]
fn envelope_without_a_field_is_malformed() {
    let no_message = br#"{"client_id":"c1"}"#;
    let no_id = br#"{"message":"hi"}"#;
    let empty = br#"{}"#;
    for payload in [&no_message[..], &no_id[..], &empty[..]] {
        assert_eq!(
            decode(DecodeMode::Envelope, "t", payload).unwrap_err(),
            DecodeError::MalformedEnvelope
        );
        assert_eq!(
            MqttMessage::<String>::try_from(payload).unwrap_err(),
            DecodeError::MalformedEnvelope
        );
    }
}

#[test]
fn envelope_with_a_field_that_is_no_string_is_malformed() {
    let number_message = br#"{"client_id":"c1","message":5}"#;
    let null_id = br#"{"client_id":null,"message":"hi"}"#;
    let nested = br#"{"client_id":{"id":"c1"},"message":"hi"}"#;
    for payload in [&number_message[..], &null_id[..], &nested[..]] {
        assert_eq!(
            decode(DecodeMode::Envelope, "t", payload).unwrap_err(),
            DecodeError::MalformedEnvelope
        );
    }
}

#[test]
fn payload_that_is_no_json_object_is_malformed() {
    let truncated = br#"{"client_id":"c1","message":"hi""#;
    let array = br#"["c1","hi"]"#;
    let text = br#""hi""#;
    let trailing = br#"{"client_id":"c1","message":"hi"} x"#;
    let nothing = b"";
    for payload in [&truncated[..], &array[..], &text[..], &trailing[..], &nothing[..]] {
        assert_eq!(
            decode(DecodeMode::Envelope, "t", payload).unwrap_err(),
            DecodeError::MalformedEnvelope
        );
    }
}

#[test]
fn non_utf8_payload_is_rejected_in_both_modes() {
    let payloads: [&[u8]; 4] = [
        &[0xff, 0xfe, 0x00],
        &[b'h', b'i', 0x80],
        &[0xc0, 0xaf],
        &[0xed, 0xa0, 0x80],
    ];
    for payload in payloads {
        assert_eq!(
            decode(DecodeMode::TopicSuffix, "a/b", payload).unwrap_err(),
            DecodeError::InvalidPayloadEncoding
        );
        assert_eq!(
            decode(DecodeMode::Envelope, "a/b", payload).unwrap_err(),
            DecodeError::MalformedEnvelope
        );
        assert_eq!(decode_text(payload), None);
    }
}

#[test]
fn decode_text_reads_utf8() {
    assert_eq!(decode_text(b"hi"), Some("hi".to_string()));
    assert_eq!(decode_text(b""), Some(String::new()));
    assert_eq!(decode_text("gr\u{fc}\u{df}e \u{1f600}".as_bytes()), Some("gr\u{fc}\u{df}e \u{1f600}".to_string()));
}

#[test]
fn decode_never_reports_a_missing_segment() {
    let topics = ["", "/", "a", "a/", "/a", "a/b/c", "//"];
    let payloads: [&[u8]; 3] = [b"hi", b"", &[0xff]];
    for topic in topics {
        for payload in payloads {
            for mode in [DecodeMode::TopicSuffix, DecodeMode::Envelope] {
                let decoded = decode(mode, topic, payload);
                assert!(!matches!(decoded, Err(DecodeError::MissingTopicSegment)));
            }
        }
    }
}

#[test]
fn envelope_from_fields_needs_both() {
    let made = MqttMessage::from_fields(Some("c1".to_string()), Some("hi".to_string())).unwrap();
    assert_eq!(made.client_id, "c1");
    assert_eq!(made.message, "hi");
    assert_eq!(
        MqttMessage::from_fields(None, Some("hi".to_string())).unwrap_err(),
        DecodeError::MalformedEnvelope
    );
    assert_eq!(
        MqttMessage::from_fields(Some("c1".to_string()), None).unwrap_err(),
        DecodeError::MalformedEnvelope
    );
    assert_eq!(MqttMessage::from_fields(None, None).unwrap_err(), DecodeError::MalformedEnvelope);
}

#[test]
fn envelope_from_document_reads_string_members() {
    let mut members = serde_json::Map::new();
    members.insert("client_id".to_string(), Value::String("c7".to_string()));
    members.insert("message".to_string(), Value::String("seven".to_string()));
    members.insert("count".to_string(), Value::Bool(true));
    let document = Value::Object(members);
    let made = MqttMessage::from_document(&document).unwrap();
    assert_eq!(made.client_id, "c7");
    assert_eq!(made.message, "seven");
    assert_eq!(text_field(&document, "client_id"), Some("c7".to_string()));
    assert_eq!(text_field(&document, "count"), None);
    assert_eq!(text_field(&document, "absent"), None);
    assert_eq!(text_field(&Value::String("client_id".to_string()), "client_id"), None);
    assert_eq!(
        MqttMessage::from_document(&Value::Array(vec![document])).unwrap_err(),
        DecodeError::MalformedEnvelope
    );
}
