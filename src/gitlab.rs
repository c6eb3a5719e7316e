//! The GitLab REST gateway: base-URL normalization, the requests for each
//! merge-request operation, and the reading of GitLab's answers.
use vstd::prelude::*;
use vstd::string::StringExecFns;
use crate::error::{ConfigError, ErrorKind, ToolError};
use crate::json::Json;
use crate::text::{
    blank, decimal, ends_with, has_suffix, is_blank, push_decimal, strip_trailing_slashes,
    trim_trailing_slashes,
};

verus! {

/// What `urlencoding::encode` makes of a string.
pub uninterp spec fn percent_encoded(s: Seq<char>) -> Seq<char>;

/// ASCII letters and digits and `-`, `_`, `.`, `~`: the characters that
/// percent-encoding leaves as they are.
pub open spec fn is_unreserved(c: char) -> bool {
    ('a' <= c && c <= 'z') || ('A' <= c && c <= 'Z') || ('0' <= c && c <= '9') || c == '-'
        || c == '_' || c == '.' || c == '~'
}

/// An uppercase hexadecimal digit.
pub open spec fn hex_digit(d: u32) -> char {
    "0123456789ABCDEF"@[d as int]
}

/// How percent-encoding writes one ASCII character: as it is when
/// unreserved, else as `%` and its code in two uppercase hexadecimal digits.
pub open spec fn percent_encoded_ascii_char(c: char) -> Seq<char> {
    if is_unreserved(c) {
        seq![c]
    } else {
        seq!['%', hex_digit((c as u32) / 16), hex_digit((c as u32) % 16)]
    }
}

/// The percent-encoding of an ASCII string, character by character.
pub open spec fn percent_encoded_ascii(s: Seq<char>) -> Seq<char>
    decreases s.len(),
{
    if s.len() == 0 {
        Seq::empty()
    } else {
        percent_encoded_ascii(s.drop_last()) + percent_encoded_ascii_char(s.last())
    }
}

/// Relies on `urlencoding::encode`, which percent-encodes every byte of the
/// UTF-8 text except ASCII letters, digits and `-`, `_`, `.`, `~`, so that a
/// path such as `group/project` becomes a single path segment.
#[verifier::external_body]
fn encode_segment(s: &str) -> (r: String)
    ensures
        r@ == percent_encoded(s@),
        (forall|i: int| 0 <= i < s@.len() ==> is_unreserved(#[trigger] s@[i])) ==> r@ == s@,
        (forall|i: int| 0 <= i < s@.len() ==> (#[trigger] s@[i] as u32) < 128) ==> r@
            == percent_encoded_ascii(s@),
{
    urlencoding::encode(s).into_owned()
}

/// The API root for a configured GitLab URL: trailing slashes go, and
/// `/api/v4` is completed or appended.
pub open spec fn normalized_base_url(s: Seq<char>) -> Seq<char> {
    let t = strip_trailing_slashes(s);
    if ends_with(t, "/api/v4"@) {
        t
    } else if ends_with(t, "/api"@) {
        t + "/v4"@
    } else {
        t + "/api/v4"@
    }
}

pub open spec fn msg_url_empty() -> Seq<char> {
    "GITLAB_URL environment variable is empty"@
}

pub open spec fn msg_token_empty() -> Seq<char> {
    "GITLAB_TOKEN environment variable is empty"@
}

/// The gateway to one GitLab instance: its API root and the private token
/// sent with every request. It does not change once built.
#[derive(Debug)]
pub struct GitLabClient {
    base_url: String,
    token: String,
}

#[derive(Debug, Clone, Copy, PartialEq, Eq, Structural)]
pub enum HttpMethod {
    Get,
    Post,
}

/// One call to make: the method, the full URL, the value of the
/// `PRIVATE-TOKEN` header, and the JSON body of a `POST`.
#[derive(Debug)]
pub struct ApiRequest {
    pub method: HttpMethod,
    pub url: String,
    pub token: String,
    pub body: Option<Json>,
}

/// The URL of a merge request's resource; `tail` is empty or a sub-resource
/// such as `/changes`.
pub open spec fn merge_request_url(base: Seq<char>, project: Seq<char>, iid: u64, tail: Seq<char>) -> Seq<char> {
    base + "/projects/"@ + percent_encoded(project) + "/merge_requests/"@ + decimal(iid as nat) + tail
}

impl GitLabClient {
    /// The API root that requests go to.
    pub closed spec fn spec_base_url(&self) -> Seq<char> {
        self.base_url@
    }

    /// The private token sent with every request.
    pub closed spec fn spec_token(&self) -> Seq<char> {
        self.token@
    }

    /// Builds a client, refusing an empty or whitespace-only URL or token.
    pub fn new(base_url: String, token: String) -> (r: Result<GitLabClient, ConfigError>)
        ensures
            r is Err <==> is_blank(base_url@) || is_blank(token@),
            is_blank(base_url@) ==> r is Err && r->Err_0.message@ == msg_url_empty(),
            !is_blank(base_url@) && is_blank(token@) ==> r is Err && r->Err_0.message@
                == msg_token_empty(),
            r is Ok ==> r->Ok_0.spec_base_url() == normalized_base_url(base_url@)
                && r->Ok_0.spec_token() == token@,
    {
        if blank(base_url.as_str()) {
            return Err(ConfigError { message: String::from_str("GITLAB_URL environment variable is empty") });
        }
        if blank(token.as_str()) {
            return Err(ConfigError { message: String::from_str("GITLAB_TOKEN environment variable is empty") });
        }
        let trimmed = trim_trailing_slashes(base_url.as_str());
        let base = if has_suffix(trimmed, "/api/v4") {
            String::from_str(trimmed)
        } else if has_suffix(trimmed, "/api") {
            String::from_str(trimmed).concat("/v4")
        } else {
            String::from_str(trimmed).concat("/api/v4")
        };
        Ok(GitLabClient { base_url: base, token })
    }

    /// The API root that requests go to.
    pub fn base_url(&self) -> (r: &str)
        ensures
            r@ == self.spec_base_url(),
    {
        self.base_url.as_str()
    }

    fn projects_base(&self, project: &str) -> (r: String)
        ensures
            r@ == self.spec_base_url() + "/projects/"@ + percent_encoded(project@),
    {
        let encoded = encode_segment(project);
        self.base_url.clone().concat("/projects/").concat(encoded.as_str())
    }

    fn merge_request_url(&self, project: &str, merge_request_iid: u64, tail: &str) -> (r: String)
        ensures
            r@ == merge_request_url(self.spec_base_url(), project@, merge_request_iid, tail@),
    {
        let mut url = self.projects_base(project).concat("/merge_requests/");
        push_decimal(&mut url, merge_request_iid);
        url.concat(tail)
    }

    fn request(&self, method: HttpMethod, url: String, body: Option<Json>) -> (r: ApiRequest)
        ensures
            r.method == method,
            r.url == url,
            r.token@ == self.spec_token(),
            r.body == body,
    {
        ApiRequest { method, url, token: self.token.clone(), body }
    }

    /// `GET` of a merge request's metadata.
    pub fn get_merge_request(&self, project: &str, merge_request_iid: u64) -> (r: ApiRequest)
        ensures
            r.method == HttpMethod::Get,
            r.url@ == merge_request_url(self.spec_base_url(), project@, merge_request_iid, ""@),
            r.token@ == self.spec_token(),
            r.body is None,
    {
        let url = self.merge_request_url(project, merge_request_iid, "");
        self.request(HttpMethod::Get, url, None)
    }

    /// `GET` of a merge request's diff.
    pub fn get_merge_request_changes(&self, project: &str, merge_request_iid: u64) -> (r: ApiRequest)
        ensures
            r.method == HttpMethod::Get,
            r.url@ == merge_request_url(self.spec_base_url(), project@, merge_request_iid, "/changes"@),
            r.token@ == self.spec_token(),
            r.body is None,
    {
        let url = self.merge_request_url(project, merge_request_iid, "/changes");
        self.request(HttpMethod::Get, url, None)
    }

    /// `GET` of a merge request's diff versions.
    pub fn get_merge_request_versions(&self, project: &str, merge_request_iid: u64) -> (r: ApiRequest)
        ensures
            r.method == HttpMethod::Get,
            r.url@ == merge_request_url(self.spec_base_url(), project@, merge_request_iid, "/versions"@),
            r.token@ == self.spec_token(),
            r.body is None,
    {
        let url = self.merge_request_url(project, merge_request_iid, "/versions");
        self.request(HttpMethod::Get, url, None)
    }

    /// `POST` of a new discussion with the given body.
    pub fn create_merge_request_discussion(&self, project: &str, merge_request_iid: u64, payload: Json) -> (r: ApiRequest)
        ensures
            r.method == HttpMethod::Post,
            r.url@ == merge_request_url(self.spec_base_url(), project@, merge_request_iid, "/discussions"@),
            r.token@ == self.spec_token(),
            r.body == Some(payload),
    {
        let url = self.merge_request_url(project, merge_request_iid, "/discussions");
        self.request(HttpMethod::Post, url, Some(payload))
    }

    /// `POST` of a new note with the given body.
    pub fn create_merge_request_note(&self, project: &str, merge_request_iid: u64, payload: Json) -> (r: ApiRequest)
        ensures
            r.method == HttpMethod::Post,
            r.url@ == merge_request_url(self.spec_base_url(), project@, merge_request_iid, "/notes"@),
            r.token@ == self.spec_token(),
            r.body == Some(payload),
    {
        let url = self.merge_request_url(project, merge_request_iid, "/notes");
        self.request(HttpMethod::Post, url, Some(payload))
    }
}

/// Every accepted base URL normalizes to an API root that ends in `/api/v4`.
pub proof fn lemma_normalized_ends_in_api_v4(s: Seq<char>)
    requires
        !is_blank(s),
    ensures
        ends_with(normalized_base_url(s), "/api/v4"@),
{
    reveal_strlit("/api/v4");
    reveal_strlit("/api");
    reveal_strlit("/v4");
    let t = strip_trailing_slashes(s);
    let n = normalized_base_url(s);
    if ends_with(t, "/api/v4"@) {
    } else if ends_with(t, "/api"@) {
        assert(n.subrange(n.len() - 7, n.len() as int) =~= t.subrange(t.len() - 4, t.len() as int)
            + "/v4"@);
        assert("/api"@ + "/v4"@ =~= "/api/v4"@);
    } else {
        assert(n.subrange(n.len() - 7, n.len() as int) =~= "/api/v4"@);
    }
}

/// Trailing slashes on a base URL make no difference.
pub proof fn lemma_normalized_ignores_trailing_slash(s: Seq<char>)
    ensures
        normalized_base_url(s.push('/')) == normalized_base_url(s),
{
    assert(s.push('/').drop_last() =~= s);
}

/// Normalizing an API root leaves it as it is.
pub proof fn lemma_normalized_idempotent(s: Seq<char>)
    requires
        !is_blank(s),
    ensures
        normalized_base_url(normalized_base_url(s)) == normalized_base_url(s),
{
    reveal_strlit("/api/v4");
    lemma_normalized_ends_in_api_v4(s);
    let n = normalized_base_url(s);
    assert(n.last() == n.subrange(n.len() - 7, n.len() as int)[6]);
    assert(n.last() == '4');
    assert(strip_trailing_slashes(n) == n);
}

/// A status in the 2xx range.
pub open spec fn is_success(status: u16) -> bool {
    200 <= status <= 299
}

/// The kind of error a failed status stands for: not found and validation
/// failures are the caller's input, rejected credentials its configuration,
/// and anything else a fault upstream.
pub open spec fn status_kind(status: u16) -> ErrorKind {
    if status == 404 || status == 400 || status == 422 {
        ErrorKind::InvalidParams
    } else if status == 401 || status == 403 {
        ErrorKind::InvalidRequest
    } else {
        ErrorKind::Internal
    }
}

pub open spec fn status_message(status: u16) -> Seq<char> {
    if status == 404 {
        "GitLab resource not found"@
    } else if status == 401 || status == 403 {
        "GitLab authentication failed"@
    } else if status == 400 || status == 422 {
        "GitLab reported a validation error"@
    } else {
        "GitLab request failed"@
    }
}

pub open spec fn msg_invalid_json() -> Seq<char> {
    "GitLab returned invalid JSON"@
}

/// The error kind for a status that is not a success.
pub fn error_kind_for_status(status: u16) -> (r: ErrorKind)
    ensures
        r == status_kind(status),
{
    if status == 404 || status == 400 || status == 422 {
        ErrorKind::InvalidParams
    } else if status == 401 || status == 403 {
        ErrorKind::InvalidRequest
    } else {
        ErrorKind::Internal
    }
}

fn error_message_for_status(status: u16) -> (r: &'static str)
    ensures
        r@ == status_message(status),
{
    if status == 404 {
        "GitLab resource not found"
    } else if status == 401 || status == 403 {
        "GitLab authentication failed"
    } else if status == 400 || status == 422 {
        "GitLab reported a validation error"
    } else {
        "GitLab request failed"
    }
}

/// The diagnostic text of a failed response whose body is empty: the status's
/// reason phrase, if it has one.
pub open spec fn empty_body_detail(reason: Option<String>) -> Seq<char> {
    match reason {
        Some(r) => r@,
        None => "Unknown GitLab error"@,
    }
}

/// Reads GitLab's answer: its status, its body text, the status's reason
/// phrase, and the outcome of decoding the body as JSON. A success yields the
/// decoded body; anything else an error of the kind the status stands for,
/// carrying GitLab's own error body (decoded if it is JSON) as its detail.
pub fn handle_response(status: u16, text: String, reason: Option<String>, parsed: Result<Json, String>) -> (r: Result<Json, ToolError>)
    ensures
        is_success(status) && parsed is Ok ==> r is Ok && r->Ok_0 == parsed->Ok_0,
        is_success(status) && parsed is Err ==> r is Err && r->Err_0.kind == ErrorKind::Internal
            && r->Err_0.message@ == msg_invalid_json()
            && (r->Err_0.detail matches Some(Json::Str(d)) && d@ == parsed->Err_0@),
        !is_success(status) ==> r is Err && r->Err_0.kind == status_kind(status)
            && r->Err_0.message@ == status_message(status),
        !is_success(status) && text@.len() == 0 ==> r is Err
            && (r->Err_0.detail matches Some(Json::Str(d)) && d@ == empty_body_detail(reason)),
        !is_success(status) && text@.len() > 0 && parsed is Ok ==> r is Err
            && r->Err_0.detail == Some(parsed->Ok_0),
        !is_success(status) && text@.len() > 0 && parsed is Err ==> r is Err
            && (r->Err_0.detail matches Some(Json::Str(d)) && d@ == text@),
{
    if 200 <= status && status <= 299 {
        return match parsed {
            Ok(value) => Ok(value),
            Err(why) => Err(ToolError::with_text(ErrorKind::Internal, "GitLab returned invalid JSON", why)),
        };
    }
    let detail = if text.as_str().is_empty() {
        match reason {
            Some(phrase) => Json::Str(phrase),
            None => Json::Str(String::from_str("Unknown GitLab error")),
        }
    } else {
        match parsed {
            Ok(value) => value,
            Err(_) => Json::Str(text),
        }
    };
    Err(ToolError::new(error_kind_for_status(status), error_message_for_status(status), Some(detail)))
}

/// The error for a request that never got an answer.
pub fn send_failure(description: String) -> (r: ToolError)
    ensures
        r.kind == ErrorKind::Internal,
        r.message@ == "Failed to reach GitLab"@,
        r.detail matches Some(Json::Str(d)) && d@ == description@,
{
    ToolError::with_text(ErrorKind::Internal, "Failed to reach GitLab", description)
}

/// The error for an answer whose body could not be read.
pub fn read_failure(description: String) -> (r: ToolError)
    ensures
        r.kind == ErrorKind::Internal,
        r.message@ == "Failed to read GitLab response body"@,
        r.detail matches Some(Json::Str(d)) && d@ == description@,
{
    ToolError::with_text(ErrorKind::Internal, "Failed to read GitLab response body", description)
}

} // verus!
