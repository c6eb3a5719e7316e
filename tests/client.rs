use gitlab_mcp::error::ErrorKind;
use gitlab_mcp::gitlab::{
    error_kind_for_status, handle_response, read_failure, send_failure, GitLabClient, HttpMethod,
};
use gitlab_mcp::json::Json;

fn from_serde(v: serde_json::Value) -> Json {
    match v {
        serde_json::Value::Null => Json::Null,
        serde_json::Value::Bool(b) => Json::Bool(b),
        serde_json::Value::Number(n) => match (n.as_u64(), n.as_i64()) {
            (Some(u), _) => Json::UInt(u),
            (None, Some(i)) => Json::NegInt(i),
            _ => Json::Decimal(n.to_string()),
        },
        serde_json::Value::String(s) => Json::Str(s),
        serde_json::Value::Array(items) => Json::Array(items.into_iter().map(from_serde).collect()),
        serde_json::Value::Object(map) => {
            Json::Object(map.into_iter().map(|(k, v)| (k, from_serde(v))).collect())
        }
    }
}

fn to_serde(j: &Json) -> serde_json::Value {
    match j {
        Json::Null => serde_json::Value::Null,
        Json::Bool(b) => serde_json::Value::Bool(*b),
        Json::UInt(u) => serde_json::Value::from(*u),
        Json::NegInt(i) => serde_json::Value::from(*i),
        Json::Decimal(t) => serde_json::from_str(t).unwrap(),
        Json::Str(s) => serde_json::Value::String(s.clone()),
        Json::Array(items) => serde_json::Value::Array(items.iter().map(to_serde).collect()),
        Json::Object(fields) => serde_json::Value::Object(
            fields.iter().map(|(k, v)| (k.clone(), to_serde(v))).collect(),
        ),
    }
}

fn parse(text: &str) -> Result<Json, String> {
    serde_json::from_str::<serde_json::Value>(text).map(from_serde).map_err(|e| e.to_string())
}

fn client(url: &str) -> GitLabClient {
    GitLabClient::new(url.to_string(), "tok".to_string()).unwrap()
}

#[test]
fn base_url_with_trailing_slash_gets_api_root() {
    assert_eq!(client("https://gitlab.com/").base_url(), "https://gitlab.com/api/v4");
}

#[test]
fn base_url_ending_in_api_gets_version() {
    assert_eq!(client("https://gitlab.com/api").base_url(), "https://gitlab.com/api/v4");
}

#[test]
fn base_url_with_api_root_and_slash_is_kept() {
    assert_eq!(client("https://gitlab.com/api/v4/").base_url(), "https://gitlab.com/api/v4");
}

#[test]
fn base_url_with_many_slashes_and_no_api() {
    assert_eq!(client("https://example.org/gitlab///").base_url(), "https://example.org/gitlab/api/v4");
}

#[test]
fn empty_url_is_refused() {
    let err = GitLabClient::new(String::new(), "tok".to_string()).unwrap_err();
    assert_eq!(err.message, "GITLAB_URL environment variable is empty");
}

#[test]
fn whitespace_url_is_refused() {
    let err = GitLabClient::new(" \t\u{a0}".to_string(), "tok".to_string()).unwrap_err();
    assert_eq!(err.message, "GITLAB_URL environment variable is empty");
}

#[test]
fn empty_token_is_refused() {
    let err = GitLabClient::new("url".to_string(), String::new()).unwrap_err();
    assert_eq!(err.message, "GITLAB_TOKEN environment variable is empty");
}

#[test]
fn merge_request_url_encodes_project_path() {
    let c = client("https://gitlab.com");
    let req = c.get_merge_request("group/proj", 5);
    assert_eq!(req.method, HttpMethod::Get);
    assert_eq!(req.url, "https://gitlab.com/api/v4/projects/group%2Fproj/merge_requests/5");
    assert_eq!(req.token, "tok");
    assert!(req.body.is_none());
}

#[test]
fn sub_resource_urls() {
    let c = client("https://gitlab.com/api/v4");
    assert_eq!(
        c.get_merge_request_changes("42", 1234567890).url,
        "https://gitlab.com/api/v4/projects/42/merge_requests/1234567890/changes"
    );
    assert_eq!(
        c.get_merge_request_versions("a b", 0).url,
        "https://gitlab.com/api/v4/projects/a%20b/merge_requests/0/versions"
    );
}

#[test]
fn create_requests_post_their_payload() {
    let c = client("https://gitlab.com");
    let d = c.create_merge_request_discussion("g/p", 7, Json::Null);
    assert_eq!(d.method, HttpMethod::Post);
    assert_eq!(d.url, "https://gitlab.com/api/v4/projects/g%2Fp/merge_requests/7/discussions");
    assert!(matches!(d.body, Some(Json::Null)));
    let n = c.create_merge_request_note("g/p", 7, Json::Bool(true));
    assert_eq!(n.url, "https://gitlab.com/api/v4/projects/g%2Fp/merge_requests/7/notes");
    assert!(matches!(n.body, Some(Json::Bool(true))));
}

#[test]
fn status_kinds() {
    assert_eq!(error_kind_for_status(404), ErrorKind::InvalidParams);
    assert_eq!(error_kind_for_status(401), ErrorKind::InvalidRequest);
    assert_eq!(error_kind_for_status(403), ErrorKind::InvalidRequest);
    assert_eq!(error_kind_for_status(400), ErrorKind::InvalidParams);
    assert_eq!(error_kind_for_status(422), ErrorKind::InvalidParams);
    assert_eq!(error_kind_for_status(500), ErrorKind::Internal);
    assert_eq!(error_kind_for_status(502), ErrorKind::Internal);
    assert_eq!(error_kind_for_status(409), ErrorKind::Internal);
}

#[test]
fn success_returns_body() {
    let text = r#"{"iid":5,"title":"fix bug"}"#;
    let value = handle_response(200, text.to_string(), Some("OK".to_string()), parse(text)).unwrap();
    let expected: serde_json::Value = serde_json::from_str(text).unwrap();
    assert_eq!(to_serde(&value), expected);
}

#[test]
fn success_with_malformed_body_is_internal() {
    let text = "{not json";
    let err = handle_response(200, text.to_string(), Some("OK".to_string()), parse(text)).unwrap_err();
    assert_eq!(err.kind, ErrorKind::Internal);
    assert_eq!(err.message, "GitLab returned invalid JSON");
    assert!(matches!(err.detail, Some(Json::Str(_))));
}

#[test]
fn not_found_carries_gitlab_body() {
    let text = r#"{"message":"404 Not found"}"#;
    let err = handle_response(404, text.to_string(), Some("Not Found".to_string()), parse(text)).unwrap_err();
    assert_eq!(err.kind, ErrorKind::InvalidParams);
    assert_eq!(err.message, "GitLab resource not found");
    let detail = to_serde(err.detail.as_ref().unwrap());
    assert_eq!(detail["message"], "404 Not found");
}

#[test]
fn unauthorized_with_empty_body_uses_reason() {
    let err = handle_response(401, String::new(), Some("Unauthorized".to_string()), parse("")).unwrap_err();
    assert_eq!(err.kind, ErrorKind::InvalidRequest);
    assert_eq!(err.message, "GitLab authentication failed");
    assert!(matches!(err.detail, Some(Json::Str(ref s)) if s == "Unauthorized"));
}

#[test]
fn empty_body_without_reason() {
    let err = handle_response(599, String::new(), None, parse("")).unwrap_err();
    assert_eq!(err.kind, ErrorKind::Internal);
    assert_eq!(err.message, "GitLab request failed");
    assert!(matches!(err.detail, Some(Json::Str(ref s)) if s == "Unknown GitLab error"));
}

#[test]
fn validation_error_with_text_body() {
    let err = handle_response(422, "bad thing".to_string(), None, parse("bad thing")).unwrap_err();
    assert_eq!(err.kind, ErrorKind::InvalidParams);
    assert_eq!(err.message, "GitLab reported a validation error");
    assert!(matches!(err.detail, Some(Json::Str(ref s)) if s == "bad thing"));
}

#[test]
fn transport_failures_are_internal() {
    let e = send_failure("connection refused".to_string());
    assert_eq!(e.kind, ErrorKind::Internal);
    assert_eq!(e.message, "Failed to reach GitLab");
    assert!(matches!(e.detail, Some(Json::Str(ref s)) if s == "connection refused"));
    let e = read_failure("eof".to_string());
    assert_eq!(e.kind, ErrorKind::Internal);
    assert_eq!(e.message, "Failed to read GitLab response body");
}

#[test]
fn get_merge_request_scenario() {
    let c = client("https://gitlab.example.com/");
    let req = c.get_merge_request("group/proj", 5);
    assert_eq!(req.url, "https://gitlab.example.com/api/v4/projects/group%2Fproj/merge_requests/5");
    let text = r#"{"iid":5,"title":"fix bug"}"#;
    let value = handle_response(200, text.to_string(), Some("OK".to_string()), parse(text)).unwrap();
    let pretty = serde_json::to_string_pretty(&to_serde(&value)).unwrap();
    assert_eq!(pretty, "{\n  \"iid\": 5,\n  \"title\": \"fix bug\"\n}");
}
