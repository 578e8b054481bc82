use oars::bakery::{deflate, leaven, leaven_file, Deflated, Deflation, FileRead, Leavenable};
use oars::bakery::{bytes_round_trip, text_round_trip};
use oars::error::DecodeError;

#[test]
fn test_deserialize_from_str() {
    let json_str = r#"{"name":"John","age":30}"#;
    let result = leaven(Leavenable::Text(json_str.to_string()));
    assert!(result.is_ok());
    let value = result.unwrap();
    assert_eq!(value["name"], "John");
    assert_eq!(value["age"], 30);
}

#[test]
fn test_deserialize_from_string() {
    let json_string = String::from(r#"{"name":"Jane","age":25}"#);
    let result = leaven(Leavenable::Text(json_string));
    assert!(result.is_ok());
    let value = result.unwrap();
    assert_eq!(value["name"], "Jane");
    assert_eq!(value["age"], 25);
}

#[test]
fn test_deserialize_from_value() {
    let json_value: serde_json::Value =
        serde_json::from_str(r#"{"name":"Doe","age":40}"#).expect("building the value tree");
    let result = leaven(Leavenable::JsonValue(json_value));
    assert!(result.is_ok());
    let value = result.unwrap();
    assert_eq!(value["name"], "Doe");
    assert_eq!(value["age"], 40);
}

#[test]
fn leaven_from_bytes() {
    let bytes = br#"{"name":"John","age":30}"#.to_vec();
    let value = leaven(Leavenable::ByteArray(bytes)).expect("well-formed bytes decode");
    assert_eq!(value["name"], "John");
    assert_eq!(value["age"], 30);
}

#[test]
fn malformed_text_is_rejected_whole() {
    let truncated = r#"{"name":"John","age"#;
    let result = leaven(Leavenable::Text(truncated.to_string()));
    assert_eq!(result.unwrap_err(), DecodeError::Malformed);
}

#[test]
fn malformed_bytes_are_rejected_whole() {
    let result = leaven(Leavenable::ByteArray(b"[1, 2,".to_vec()));
    assert_eq!(result.unwrap_err(), DecodeError::Malformed);
}

#[test]
fn unreadable_file_is_not_a_parse_failure() {
    let unreadable = leaven_file(FileRead::Unreadable);
    assert_eq!(unreadable.unwrap_err(), DecodeError::Unreadable);

    let malformed = leaven_file(FileRead::Content(r#"{"name""#.to_string()));
    assert_eq!(malformed.unwrap_err(), DecodeError::Malformed);

    assert_ne!(DecodeError::Unreadable, DecodeError::Malformed);
}

#[test]
fn readable_file_content_decodes_as_text() {
    let value = leaven_file(FileRead::Content(r#"{"id":"W1"}"#.to_string()))
        .expect("well-formed content decodes");
    assert_eq!(value["id"], "W1");
}

#[test]
fn deflate_to_string_produces_the_document() {
    let value: serde_json::Value =
        serde_json::from_str(r#"{"age":30,"name":"John"}"#).expect("building the value tree");
    let deflated = deflate(&value, Deflation::ToString).expect("emission succeeds");
    let text = deflated.to_string().expect("the text variant was requested");
    assert_eq!(text, r#"{"age":30,"name":"John"}"#);
}

#[test]
fn deflate_to_json_value_is_lossless() {
    let value: serde_json::Value =
        serde_json::from_str(r#"{"id":"A5","works_count":12}"#).expect("building the value tree");
    let deflated = deflate(&value, Deflation::ToJsonValue).expect("emission succeeds");
    let copy = deflated.to_json().expect("the structured variant was requested");
    assert_eq!(copy, value);
}

#[test]
fn deflate_to_bytes_produces_the_document() {
    let value: serde_json::Value =
        serde_json::from_str(r#"{"a":1}"#).expect("building the value tree");
    let deflated = deflate(&value, Deflation::ToByteArray).expect("emission succeeds");
    let bytes = deflated.to_bytes().expect("the byte variant was requested");
    assert_eq!(bytes, br#"{"a":1}"#.to_vec());
}

#[test]
fn projections_narrow_and_never_convert() {
    let value: serde_json::Value = serde_json::from_str("7").expect("building the value tree");
    let as_text = deflate(&value, Deflation::ToString).expect("emission succeeds");
    assert!(as_text.to_json().is_none());
    let as_text = deflate(&value, Deflation::ToString).expect("emission succeeds");
    assert!(as_text.to_bytes().is_none());

    let as_value = deflate(&value, Deflation::ToJsonValue).expect("emission succeeds");
    assert!(as_value.to_string().is_none());

    let as_bytes = deflate(&value, Deflation::ToByteArray).expect("emission succeeds");
    assert!(as_bytes.to_string().is_none());
    let as_bytes = deflate(&value, Deflation::ToByteArray).expect("emission succeeds");
    assert!(as_bytes.to_json().is_none());
}

#[test]
fn text_round_trip_reproduces_the_payload() {
    let source = r#"{
        "id": "https://openalex.org/W2741809807",
        "display_name": "An example work",
        "publication_year": 2018,
        "is_oa": true,
        "referenced_works": ["https://openalex.org/W1", "https://openalex.org/W2"],
        "biblio": {"volume": "495", "issue": null}
    }"#;
    let payload: serde_json::Value = serde_json::from_str(source).expect("building the payload");
    let back = text_round_trip(&payload).expect("the round trip parses");
    assert_eq!(back, payload);
}

#[test]
fn bytes_round_trip_reproduces_the_payload() {
    let payload: serde_json::Value =
        serde_json::from_str(r#"{"counts_by_year":[{"year":2020,"works_count":3}],"level":0}"#)
            .expect("building the payload");
    let back = bytes_round_trip(&payload).expect("the round trip parses");
    assert_eq!(back, payload);
}

#[test]
fn round_trip_by_hand_loses_no_field() {
    let payload: serde_json::Value =
        serde_json::from_str(r#"{"name":"Doe","age":40,"tags":["a","b"]}"#)
            .expect("building the payload");
    let deflated = deflate(&payload, Deflation::ToString).expect("emission succeeds");
    let text = match deflated {
        Deflated::String(s) => s,
        _ => panic!("the text variant was requested"),
    };
    let back = leaven(Leavenable::Text(text)).expect("the emitted text parses");
    assert_eq!(back["name"], "Doe");
    assert_eq!(back["age"], 40);
    assert_eq!(back["tags"][0], "a");
    assert_eq!(back["tags"][1], "b");
    assert_eq!(back, payload);
}
