use gitlab_mcp::error::ErrorKind;
use gitlab_mcp::json::Json;
use gitlab_mcp::tools::gitlab::{
    decode_position, default_position_type, discussion_payload, note_payload,
    parse_discussion_position, CreateMergeRequestDiscussionRequest, CreateMergeRequestNoteRequest,
    DiscussionLinePositionType, DiscussionPositionType, MergeRequestLocator, RawPosition,
};

fn from_serde(v: serde_json::Value) -> Json {
    match v {
        serde_json::Value::Null => Json::Null,
        serde_json::Value::Bool(b) => Json::Bool(b),
        serde_json::Value::Number(n) => match (n.as_u64(), n.as_i64()) {
            (Some(u), _) => Json::UInt(u),
            (None, Some(i)) => Json::NegInt(i),
            _ => Json::Decimal(n.to_string()),
        },
        serde_json::Value::String(s) => Json::Str(s),
        serde_json::Value::Array(items) => Json::Array(items.into_iter().map(from_serde).collect()),
        serde_json::Value::Object(map) => {
            Json::Object(map.into_iter().map(|(k, v)| (k, from_serde(v))).collect())
        }
    }
}

fn to_serde(j: &Json) -> serde_json::Value {
    match j {
        Json::Null => serde_json::Value::Null,
        Json::Bool(b) => serde_json::Value::Bool(*b),
        Json::UInt(u) => serde_json::Value::from(*u),
        Json::NegInt(i) => serde_json::Value::from(*i),
        Json::Decimal(t) => serde_json::from_str(t).unwrap(),
        Json::Str(s) => serde_json::Value::String(s.clone()),
        Json::Array(items) => serde_json::Value::Array(items.iter().map(to_serde).collect()),
        Json::Object(fields) => serde_json::Value::Object(
            fields.iter().map(|(k, v)| (k.clone(), to_serde(v))).collect(),
        ),
    }
}

fn parse(text: &str) -> Result<Json, String> {
    serde_json::from_str::<serde_json::Value>(text).map(from_serde).map_err(|e| e.to_string())
}

fn raw(text: &str) -> RawPosition {
    RawPosition::Value(parse(text).unwrap())
}

fn locator() -> MergeRequestLocator {
    MergeRequestLocator { project: "group/proj".to_string(), merge_request_iid: 5 }
}

fn discussion(position: RawPosition, resolve: Option<bool>) -> CreateMergeRequestDiscussionRequest {
    CreateMergeRequestDiscussionRequest { locator: locator(), body: "Looks off".to_string(), position, resolve }
}

const FULL: &str = r#"{"base_sha":"a","head_sha":"b","start_sha":"c","new_path":"f","old_path":"f","new_line":12}"#;

#[test]
fn default_type_is_text() {
    assert_eq!(default_position_type(), DiscussionPositionType::Text);
}

#[test]
fn missing_line_locator_is_refused() {
    let text = r#"{"base_sha":"a","head_sha":"b","start_sha":"c","new_path":"f","old_path":"f"}"#;
    let err = discussion_payload(&discussion(raw(text), None)).unwrap_err();
    assert_eq!(err.kind, ErrorKind::InvalidParams);
    assert_eq!(
        err.message,
        "GitLab discussion position requires at least one of new_line, old_line, or line_range"
    );
    assert!(err.detail.is_none());
}

#[test]
fn missing_base_sha_is_refused() {
    let text = r#"{"head_sha":"b","start_sha":"c","new_path":"f","old_path":"f","new_line":1}"#;
    let err = discussion_payload(&discussion(raw(text), None)).unwrap_err();
    assert_eq!(err.kind, ErrorKind::InvalidParams);
    assert_eq!(err.message, "GitLab discussion position requires base_sha, head_sha, and start_sha");
    assert!(err.detail.is_none());
}

#[test]
fn missing_path_is_a_schema_failure_with_detail() {
    let text = r#"{"base_sha":"a","head_sha":"b","start_sha":"c","old_path":"f","new_line":1}"#;
    let err = parse_discussion_position(&raw(text)).unwrap_err();
    assert_eq!(err.kind, ErrorKind::InvalidParams);
    assert_eq!(err.message, "position must be a GitLab discussion position object");
    assert!(matches!(err.detail, Some(Json::Str(ref s)) if s == "missing field `new_path`"));
}

#[test]
fn string_and_object_give_the_same_error() {
    let text = r#"{"base_sha":"a","head_sha":"b","start_sha":"c","new_path":7,"old_path":"f","new_line":1}"#;
    let a = parse_discussion_position(&raw(text)).unwrap_err();
    let b = parse_discussion_position(&RawPosition::Encoded(parse(text))).unwrap_err();
    assert_eq!(a.kind, b.kind);
    assert_eq!(a.message, b.message);
    assert_eq!(format!("{:?}", a.detail), format!("{:?}", b.detail));
    assert!(matches!(a.detail, Some(Json::Str(ref s)) if s == "invalid value for field `new_path`"));
}

#[test]
fn exact_payload_without_resolve() {
    let text = r#"{"base_sha":"a","head_sha":"b","start_sha":"c","new_path":"f","old_path":"f","new_line":3}"#;
    let req = CreateMergeRequestDiscussionRequest {
        locator: MergeRequestLocator { project: "p".to_string(), merge_request_iid: 1 },
        body: "hi".to_string(),
        position: raw(text),
        resolve: None,
    };
    let payload = to_serde(&discussion_payload(&req).unwrap());
    let expected: serde_json::Value = serde_json::from_str(
        r#"{"body":"hi","position":{"base_sha":"a","head_sha":"b","start_sha":"c","position_type":"text","new_path":"f","old_path":"f","new_line":3}}"#,
    )
    .unwrap();
    assert_eq!(payload, expected);
}

#[test]
fn blank_sha_is_refused() {
    let text = r#"{"base_sha":"  ","head_sha":"b","start_sha":"c","new_path":"f","old_path":"f","new_line":1}"#;
    let err = discussion_payload(&discussion(raw(text), None)).unwrap_err();
    assert_eq!(err.kind, ErrorKind::InvalidParams);
    assert_eq!(err.message, "GitLab discussion position requires base_sha, head_sha, and start_sha");
}

#[test]
fn blank_path_is_refused() {
    let text = r#"{"base_sha":"a","head_sha":"b","start_sha":"c","new_path":"f","old_path":"","new_line":1}"#;
    let err = discussion_payload(&discussion(raw(text), None)).unwrap_err();
    assert_eq!(err.message, "GitLab discussion position requires both new_path and old_path");
}

#[test]
fn encoded_string_reads_like_object() {
    let from_object = parse_discussion_position(&raw(FULL)).unwrap();
    let from_string = parse_discussion_position(&RawPosition::Encoded(parse(FULL))).unwrap();
    assert_eq!(format!("{:?}", from_object), format!("{:?}", from_string));
    assert_eq!(from_string.base_sha, "a");
    assert_eq!(from_string.new_line, Some(12));
    assert_eq!(from_string.old_line, None);
}

#[test]
fn encoded_string_that_is_not_json() {
    let err = parse_discussion_position(&RawPosition::Encoded(parse("{base_sha"))).unwrap_err();
    assert_eq!(err.kind, ErrorKind::InvalidParams);
    assert_eq!(err.message, "position string is not valid JSON");
    assert!(matches!(err.detail, Some(Json::Str(_))));
}

#[test]
fn non_object_position_is_refused() {
    let err = parse_discussion_position(&raw("[1,2]")).unwrap_err();
    assert_eq!(err.message, "position must be a GitLab discussion position object");
}

#[test]
fn unknown_position_type_is_refused() {
    let text = r#"{"base_sha":"a","head_sha":"b","start_sha":"c","position_type":"video","new_path":"f","old_path":"f","new_line":1}"#;
    let err = parse_discussion_position(&raw(text)).unwrap_err();
    assert_eq!(err.message, "position must be a GitLab discussion position object");
}

#[test]
fn line_number_too_large_is_refused() {
    let text = r#"{"base_sha":"a","head_sha":"b","start_sha":"c","new_path":"f","old_path":"f","new_line":4294967296}"#;
    assert!(parse_discussion_position(&raw(text)).is_err());
    let text = r#"{"base_sha":"a","head_sha":"b","start_sha":"c","new_path":"f","old_path":"f","new_line":-1}"#;
    assert!(parse_discussion_position(&raw(text)).is_err());
}

#[test]
fn null_line_counts_as_absent() {
    let text = r#"{"base_sha":"a","head_sha":"b","start_sha":"c","new_path":"f","old_path":"f","new_line":null,"old_line":3}"#;
    let p = parse_discussion_position(&raw(text)).unwrap();
    assert_eq!(p.new_line, None);
    assert_eq!(p.old_line, Some(3));
}

#[test]
fn omitted_position_type_becomes_text() {
    let p = parse_discussion_position(&raw(FULL)).unwrap();
    assert_eq!(p.position_type, DiscussionPositionType::Text);
    assert_eq!(to_serde(&p.to_json())["position_type"], "text");
}

#[test]
fn image_position_type_round_trips() {
    let text = r#"{"base_sha":"a","head_sha":"b","start_sha":"c","position_type":"image","new_path":"f","old_path":"f","old_line":2}"#;
    let p = parse_discussion_position(&raw(text)).unwrap();
    assert_eq!(p.position_type, DiscussionPositionType::Image);
    let again = decode_position(&p.to_json()).unwrap();
    assert_eq!(again.position_type, DiscussionPositionType::Image);
    assert_eq!(to_serde(&p.to_json())["position_type"], "image");
}

#[test]
fn line_range_is_read_and_written() {
    let text = r#"{"base_sha":"a","head_sha":"b","start_sha":"c","new_path":"f","old_path":"f",
        "line_range":{"start":{"line_code":"x_1_1","type":"new","new_line":1},
                      "end":{"line_code":"x_3_3","type":"old","old_line":3}}}"#;
    let p = parse_discussion_position(&raw(text)).unwrap();
    let range = p.line_range.as_ref().unwrap();
    assert_eq!(range.start.position_type, DiscussionLinePositionType::New);
    assert_eq!(range.end.position_type, DiscussionLinePositionType::Old);
    assert_eq!(range.end.old_line, Some(3));
    let written = to_serde(&p.to_json());
    let expected: serde_json::Value = serde_json::from_str(
        r#"{"base_sha":"a","head_sha":"b","start_sha":"c","position_type":"text","new_path":"f","old_path":"f",
        "line_range":{"start":{"line_code":"x_1_1","type":"new","new_line":1},
                      "end":{"line_code":"x_3_3","type":"old","old_line":3}}}"#,
    )
    .unwrap();
    assert_eq!(written, expected);
}

#[test]
fn payload_without_resolve_omits_key() {
    let payload = to_serde(&discussion_payload(&discussion(raw(FULL), None)).unwrap());
    let obj = payload.as_object().unwrap();
    assert_eq!(obj.len(), 2);
    assert!(!obj.contains_key("resolve"));
    assert_eq!(obj["body"], "Looks off");
    assert_eq!(obj["position"]["new_line"], 12);
    assert!(!obj["position"].as_object().unwrap().contains_key("old_line"));
}

#[test]
fn payload_with_resolve_includes_it() {
    let payload = to_serde(&discussion_payload(&discussion(raw(FULL), Some(true))).unwrap());
    assert_eq!(payload["resolve"], true);
    let payload = to_serde(&discussion_payload(&discussion(raw(FULL), Some(false))).unwrap());
    assert_eq!(payload["resolve"], false);
    assert_eq!(payload.as_object().unwrap().len(), 3);
}

#[test]
fn note_payload_confidential_only_when_given() {
    let plain = CreateMergeRequestNoteRequest { locator: locator(), body: "hi".to_string(), confidential: None };
    let v = to_serde(&note_payload(&plain));
    assert_eq!(v, serde_json::from_str::<serde_json::Value>(r#"{"body":"hi"}"#).unwrap());
    let secret = CreateMergeRequestNoteRequest { locator: locator(), body: "hi".to_string(), confidential: Some(false) };
    let v = to_serde(&note_payload(&secret));
    assert_eq!(v, serde_json::from_str::<serde_json::Value>(r#"{"body":"hi","confidential":false}"#).unwrap());
}
