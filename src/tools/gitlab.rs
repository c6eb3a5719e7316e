//! Operation inputs, the discussion position with its decoding, validation and
//! encoding, and the bodies sent for new discussions and notes.
use vstd::prelude::*;
use vstd::string::StringExecFns;
use crate::error::{ErrorKind, ToolError};
use crate::json::{field, get_field, keys_of, push_member, Json};
use crate::text::{blank, is_blank, str_equal};

verus! {

/// Names a merge request: a project ID or full path, and the merge request's IID.
#[derive(Debug)]
pub struct MergeRequestLocator {
    pub project: String,
    pub merge_request_iid: u64,
}

#[derive(Debug)]
pub struct GetMergeRequestRequest {
    pub locator: MergeRequestLocator,
}

#[derive(Debug)]
pub struct GetMergeRequestChangesRequest {
    pub locator: MergeRequestLocator,
}

#[derive(Debug)]
pub struct GetMergeRequestVersionsRequest {
    pub locator: MergeRequestLocator,
}

/// A position as a caller gave it: a JSON value, or a JSON-encoded string
/// together with the outcome of decoding its text (the value, or the decoder's
/// complaint).
#[derive(Debug)]
pub enum RawPosition {
    Value(Json),
    Encoded(Result<Json, String>),
}

#[derive(Debug)]
pub struct CreateMergeRequestDiscussionRequest {
    pub locator: MergeRequestLocator,
    /// Markdown body of the discussion comment.
    pub body: String,
    /// Position payload for line-specific comments.
    pub position: RawPosition,
    /// Resolve the discussion immediately, when given.
    pub resolve: Option<bool>,
}

#[derive(Debug)]
pub struct CreateMergeRequestNoteRequest {
    pub locator: MergeRequestLocator,
    /// Markdown body of the note.
    pub body: String,
    /// Make the note confidential, when given.
    pub confidential: Option<bool>,
}

#[derive(Debug, Clone, Copy, PartialEq, Eq, Structural)]
pub enum DiscussionPositionType {
    Text,
    Image,
}

#[derive(Debug, Clone, Copy, PartialEq, Eq, Structural)]
pub enum DiscussionLinePositionType {
    New,
    Old,
}

#[derive(Debug)]
pub struct DiscussionLineReference {
    pub line_code: String,
    pub position_type: DiscussionLinePositionType,
    pub old_line: Option<u32>,
    pub new_line: Option<u32>,
}

#[derive(Debug)]
pub struct DiscussionLineRange {
    pub start: DiscussionLineReference,
    pub end: DiscussionLineReference,
}

#[derive(Debug)]
pub struct DiscussionPosition {
    pub base_sha: String,
    pub head_sha: String,
    pub start_sha: String,
    pub position_type: DiscussionPositionType,
    pub new_path: String,
    pub old_path: String,
    pub new_line: Option<u32>,
    pub old_line: Option<u32>,
    pub line_range: Option<DiscussionLineRange>,
}

pub struct LineReferenceView {
    pub line_code: Seq<char>,
    pub position_type: DiscussionLinePositionType,
    pub old_line: Option<u32>,
    pub new_line: Option<u32>,
}

pub struct LineRangeView {
    pub start: LineReferenceView,
    pub end: LineReferenceView,
}

pub struct PositionView {
    pub base_sha: Seq<char>,
    pub head_sha: Seq<char>,
    pub start_sha: Seq<char>,
    pub position_type: DiscussionPositionType,
    pub new_path: Seq<char>,
    pub old_path: Seq<char>,
    pub new_line: Option<u32>,
    pub old_line: Option<u32>,
    pub line_range: Option<LineRangeView>,
}

impl View for DiscussionLineReference {
    type V = LineReferenceView;

    open spec fn view(&self) -> LineReferenceView {
        LineReferenceView {
            line_code: self.line_code@,
            position_type: self.position_type,
            old_line: self.old_line,
            new_line: self.new_line,
        }
    }
}

impl View for DiscussionLineRange {
    type V = LineRangeView;

    open spec fn view(&self) -> LineRangeView {
        LineRangeView { start: self.start@, end: self.end@ }
    }
}

pub open spec fn range_view(r: Option<DiscussionLineRange>) -> Option<LineRangeView> {
    match r {
        Some(x) => Some(x@),
        None => None,
    }
}

impl View for DiscussionPosition {
    type V = PositionView;

    open spec fn view(&self) -> PositionView {
        PositionView {
            base_sha: self.base_sha@,
            head_sha: self.head_sha@,
            start_sha: self.start_sha@,
            position_type: self.position_type,
            new_path: self.new_path@,
            old_path: self.old_path@,
            new_line: self.new_line,
            old_line: self.old_line,
            line_range: range_view(self.line_range),
        }
    }
}

/// The position type used when a position names none.
pub fn default_position_type() -> (r: DiscussionPositionType)
    ensures
        r == DiscussionPositionType::Text,
{
    DiscussionPositionType::Text
}

// What each member of a position decodes to: the value, or the complaint that
// names what is wrong with it.

pub open spec fn missing_text(key: Seq<char>) -> Seq<char> {
    "missing field `"@ + key + "`"@
}

pub open spec fn wrong_text(key: Seq<char>) -> Seq<char> {
    "invalid value for field `"@ + key + "`"@
}

pub open spec fn unknown_position_type_text() -> Seq<char> {
    "unknown variant of `position_type`, expected `text` or `image`"@
}

pub open spec fn unknown_line_type_text() -> Seq<char> {
    "unknown variant of `type`, expected `new` or `old`"@
}

pub open spec fn not_object_text() -> Seq<char> {
    "invalid type: expected a position object"@
}

/// A required string member.
pub open spec fn spec_string(v: Option<Json>, key: Seq<char>) -> Result<Seq<char>, Seq<char>> {
    match v {
        Some(Json::Str(s)) => Ok(s@),
        Some(_) => Err(wrong_text(key)),
        None => Err(missing_text(key)),
    }
}

/// A commit SHA member: when absent it reads as empty, which the position's
/// invariant then refuses.
pub open spec fn spec_sha(v: Option<Json>, key: Seq<char>) -> Result<Seq<char>, Seq<char>> {
    match v {
        Some(Json::Str(s)) => Ok(s@),
        Some(_) => Err(wrong_text(key)),
        None => Ok(Seq::empty()),
    }
}

/// An optional line number: absent or `null` is none; otherwise a non-negative
/// integer that fits in 32 bits.
pub open spec fn spec_line(v: Option<Json>, key: Seq<char>) -> Result<Option<u32>, Seq<char>> {
    match v {
        None => Ok(None),
        Some(Json::Null) => Ok(None),
        Some(Json::UInt(n)) => if n <= u32::MAX as u64 {
            Ok(Some(n as u32))
        } else {
            Err(wrong_text(key))
        },
        _ => Err(wrong_text(key)),
    }
}

pub open spec fn spec_position_type(v: Option<Json>) -> Result<DiscussionPositionType, Seq<char>> {
    match v {
        None => Ok(DiscussionPositionType::Text),
        Some(Json::Str(s)) => if s@ == "text"@ {
            Ok(DiscussionPositionType::Text)
        } else if s@ == "image"@ {
            Ok(DiscussionPositionType::Image)
        } else {
            Err(unknown_position_type_text())
        },
        _ => Err(wrong_text("position_type"@)),
    }
}

pub open spec fn spec_line_type(v: Option<Json>) -> Result<DiscussionLinePositionType, Seq<char>> {
    match v {
        Some(Json::Str(s)) => if s@ == "new"@ {
            Ok(DiscussionLinePositionType::New)
        } else if s@ == "old"@ {
            Ok(DiscussionLinePositionType::Old)
        } else {
            Err(unknown_line_type_text())
        },
        Some(_) => Err(wrong_text("type"@)),
        None => Err(missing_text("type"@)),
    }
}

/// A line reference object; members are read in order and the first one
/// that fails names the complaint.
pub open spec fn spec_line_reference(v: Option<Json>, key: Seq<char>) -> Result<LineReferenceView, Seq<char>> {
    match v {
        Some(Json::Object(fs)) => {
            let line_code = spec_string(field(fs@, "line_code"@), "line_code"@);
            let position_type = spec_line_type(field(fs@, "type"@));
            let old_line = spec_line(field(fs@, "old_line"@), "old_line"@);
            let new_line = spec_line(field(fs@, "new_line"@), "new_line"@);
            if line_code is Err {
                Err(line_code->Err_0)
            } else if position_type is Err {
                Err(position_type->Err_0)
            } else if old_line is Err {
                Err(old_line->Err_0)
            } else if new_line is Err {
                Err(new_line->Err_0)
            } else {
                Ok(LineReferenceView {
                    line_code: line_code->Ok_0,
                    position_type: position_type->Ok_0,
                    old_line: old_line->Ok_0,
                    new_line: new_line->Ok_0,
                })
            }
        },
        Some(_) => Err(wrong_text(key)),
        None => Err(missing_text(key)),
    }
}

/// An optional line range: absent or `null` is none; otherwise an object with
/// a `start` and an `end` line reference.
pub open spec fn spec_line_range(v: Option<Json>) -> Result<Option<LineRangeView>, Seq<char>> {
    match v {
        None => Ok(None),
        Some(Json::Null) => Ok(None),
        Some(Json::Object(fs)) => {
            let start = spec_line_reference(field(fs@, "start"@), "start"@);
            let end = spec_line_reference(field(fs@, "end"@), "end"@);
            if start is Err {
                Err(start->Err_0)
            } else if end is Err {
                Err(end->Err_0)
            } else {
                Ok(Some(LineRangeView { start: start->Ok_0, end: end->Ok_0 }))
            }
        },
        _ => Err(wrong_text("line_range"@)),
    }
}

/// The position that a JSON value describes, if it is an object whose members
/// have the required shape, or else the complaint about the first member, in
/// declaration order, that does not. Unknown members are ignored.
pub open spec fn spec_position(j: Json) -> Result<PositionView, Seq<char>> {
    match j {
        Json::Object(fs) => {
            let base_sha = spec_sha(field(fs@, "base_sha"@), "base_sha"@);
            let head_sha = spec_sha(field(fs@, "head_sha"@), "head_sha"@);
            let start_sha = spec_sha(field(fs@, "start_sha"@), "start_sha"@);
            let position_type = spec_position_type(field(fs@, "position_type"@));
            let new_path = spec_string(field(fs@, "new_path"@), "new_path"@);
            let old_path = spec_string(field(fs@, "old_path"@), "old_path"@);
            let new_line = spec_line(field(fs@, "new_line"@), "new_line"@);
            let old_line = spec_line(field(fs@, "old_line"@), "old_line"@);
            let line_range = spec_line_range(field(fs@, "line_range"@));
            if base_sha is Err {
                Err(base_sha->Err_0)
            } else if head_sha is Err {
                Err(head_sha->Err_0)
            } else if start_sha is Err {
                Err(start_sha->Err_0)
            } else if position_type is Err {
                Err(position_type->Err_0)
            } else if new_path is Err {
                Err(new_path->Err_0)
            } else if old_path is Err {
                Err(old_path->Err_0)
            } else if new_line is Err {
                Err(new_line->Err_0)
            } else if old_line is Err {
                Err(old_line->Err_0)
            } else if line_range is Err {
                Err(line_range->Err_0)
            } else {
                Ok(PositionView {
                    base_sha: base_sha->Ok_0,
                    head_sha: head_sha->Ok_0,
                    start_sha: start_sha->Ok_0,
                    position_type: position_type->Ok_0,
                    new_path: new_path->Ok_0,
                    old_path: old_path->Ok_0,
                    new_line: new_line->Ok_0,
                    old_line: old_line->Ok_0,
                    line_range: line_range->Ok_0,
                })
            }
        },
        _ => Err(not_object_text()),
    }
}

fn missing(key: &str) -> (r: String)
    ensures
        r@ == missing_text(key@),
{
    String::from_str("missing field `").concat(key).concat("`")
}

fn wrong_type(key: &str) -> (r: String)
    ensures
        r@ == wrong_text(key@),
{
    String::from_str("invalid value for field `").concat(key).concat("`")
}

fn read_string(fields: &Vec<(String, Json)>, key: &str) -> (r: Result<String, String>)
    ensures
        r is Ok ==> spec_string(field(fields@, key@), key@) == Ok::<Seq<char>, Seq<char>>(r->Ok_0@),
        r is Err ==> spec_string(field(fields@, key@), key@) == Err::<Seq<char>, Seq<char>>(r->Err_0@),
{
    match get_field(fields, key) {
        Some(Json::Str(s)) => Ok(s.clone()),
        Some(_) => Err(wrong_type(key)),
        None => Err(missing(key)),
    }
}

fn read_sha(fields: &Vec<(String, Json)>, key: &str) -> (r: Result<String, String>)
    ensures
        r is Ok ==> spec_sha(field(fields@, key@), key@) == Ok::<Seq<char>, Seq<char>>(r->Ok_0@),
        r is Err ==> spec_sha(field(fields@, key@), key@) == Err::<Seq<char>, Seq<char>>(r->Err_0@),
{
    match get_field(fields, key) {
        Some(Json::Str(s)) => Ok(s.clone()),
        Some(_) => Err(wrong_type(key)),
        None => Ok(String::new()),
    }
}

fn read_line(fields: &Vec<(String, Json)>, key: &str) -> (r: Result<Option<u32>, String>)
    ensures
        r is Ok ==> spec_line(field(fields@, key@), key@) == Ok::<Option<u32>, Seq<char>>(r->Ok_0),
        r is Err ==> spec_line(field(fields@, key@), key@) == Err::<Option<u32>, Seq<char>>(r->Err_0@),
{
    match get_field(fields, key) {
        None => Ok(None),
        Some(Json::Null) => Ok(None),
        Some(Json::UInt(n)) => {
            if *n <= u32::MAX as u64 {
                Ok(Some(*n as u32))
            } else {
                Err(wrong_type(key))
            }
        },
        Some(_) => Err(wrong_type(key)),
    }
}

fn read_position_type(fields: &Vec<(String, Json)>) -> (r: Result<DiscussionPositionType, String>)
    ensures
        r is Ok ==> spec_position_type(field(fields@, "position_type"@)) == Ok::<
            DiscussionPositionType,
            Seq<char>,
        >(r->Ok_0),
        r is Err ==> spec_position_type(field(fields@, "position_type"@)) == Err::<
            DiscussionPositionType,
            Seq<char>,
        >(r->Err_0@),
{
    match get_field(fields, "position_type") {
        None => Ok(default_position_type()),
        Some(Json::Str(s)) => {
            if str_equal(s.as_str(), "text") {
                Ok(DiscussionPositionType::Text)
            } else if str_equal(s.as_str(), "image") {
                Ok(DiscussionPositionType::Image)
            } else {
                Err(String::from_str("unknown variant of `position_type`, expected `text` or `image`"))
            }
        },
        Some(_) => Err(wrong_type("position_type")),
    }
}

fn read_line_type(fields: &Vec<(String, Json)>) -> (r: Result<DiscussionLinePositionType, String>)
    ensures
        r is Ok ==> spec_line_type(field(fields@, "type"@)) == Ok::<
            DiscussionLinePositionType,
            Seq<char>,
        >(r->Ok_0),
        r is Err ==> spec_line_type(field(fields@, "type"@)) == Err::<
            DiscussionLinePositionType,
            Seq<char>,
        >(r->Err_0@),
{
    match get_field(fields, "type") {
        Some(Json::Str(s)) => {
            if str_equal(s.as_str(), "new") {
                Ok(DiscussionLinePositionType::New)
            } else if str_equal(s.as_str(), "old") {
                Ok(DiscussionLinePositionType::Old)
            } else {
                Err(String::from_str("unknown variant of `type`, expected `new` or `old`"))
            }
        },
        Some(_) => Err(wrong_type("type")),
        None => Err(missing("type")),
    }
}

fn read_line_reference(fields: &Vec<(String, Json)>, key: &str) -> (r: Result<
    DiscussionLineReference,
    String,
>)
    ensures
        r is Ok ==> spec_line_reference(field(fields@, key@), key@) == Ok::<
            LineReferenceView,
            Seq<char>,
        >(r->Ok_0@),
        r is Err ==> spec_line_reference(field(fields@, key@), key@) == Err::<
            LineReferenceView,
            Seq<char>,
        >(r->Err_0@),
{
    match get_field(fields, key) {
        Some(Json::Object(inner)) => {
            let line_code = read_string(inner, "line_code")?;
            let position_type = read_line_type(inner)?;
            let old_line = read_line(inner, "old_line")?;
            let new_line = read_line(inner, "new_line")?;
            Ok(DiscussionLineReference { line_code, position_type, old_line, new_line })
        },
        Some(_) => Err(wrong_type(key)),
        None => Err(missing(key)),
    }
}

fn read_line_range(fields: &Vec<(String, Json)>) -> (r: Result<Option<DiscussionLineRange>, String>)
    ensures
        r is Ok ==> spec_line_range(field(fields@, "line_range"@)) == Ok::<
            Option<LineRangeView>,
            Seq<char>,
        >(range_view(r->Ok_0)),
        r is Err ==> spec_line_range(field(fields@, "line_range"@)) == Err::<
            Option<LineRangeView>,
            Seq<char>,
        >(r->Err_0@),
{
    match get_field(fields, "line_range") {
        None => Ok(None),
        Some(Json::Null) => Ok(None),
        Some(Json::Object(inner)) => {
            let start = read_line_reference(inner, "start")?;
            let end = read_line_reference(inner, "end")?;
            Ok(Some(DiscussionLineRange { start, end }))
        },
        Some(_) => Err(wrong_type("line_range")),
    }
}

/// Reads a position out of a JSON value; on failure, says what is wrong.
pub fn decode_position(j: &Json) -> (r: Result<DiscussionPosition, String>)
    ensures
        r is Ok ==> spec_position(*j) == Ok::<PositionView, Seq<char>>(r->Ok_0@),
        r is Err ==> spec_position(*j) == Err::<PositionView, Seq<char>>(r->Err_0@),
{
    match j {
        Json::Object(fs) => {
            let base_sha = read_sha(fs, "base_sha")?;
            let head_sha = read_sha(fs, "head_sha")?;
            let start_sha = read_sha(fs, "start_sha")?;
            let position_type = read_position_type(fs)?;
            let new_path = read_string(fs, "new_path")?;
            let old_path = read_string(fs, "old_path")?;
            let new_line = read_line(fs, "new_line")?;
            let old_line = read_line(fs, "old_line")?;
            let line_range = read_line_range(fs)?;
            Ok(DiscussionPosition {
                base_sha,
                head_sha,
                start_sha,
                position_type,
                new_path,
                old_path,
                new_line,
                old_line,
                line_range,
            })
        },
        _ => Err(String::from_str("invalid type: expected a position object")),
    }
}

pub open spec fn shas_present(p: PositionView) -> bool {
    !is_blank(p.base_sha) && !is_blank(p.head_sha) && !is_blank(p.start_sha)
}

pub open spec fn paths_present(p: PositionView) -> bool {
    !is_blank(p.new_path) && !is_blank(p.old_path)
}

pub open spec fn line_present(p: PositionView) -> bool {
    p.new_line is Some || p.old_line is Some || p.line_range is Some
}

/// A position that GitLab can anchor: its commits and paths are named and it
/// points at a line or a range of lines.
pub open spec fn valid_position(p: PositionView) -> bool {
    shas_present(p) && paths_present(p) && line_present(p)
}

pub open spec fn msg_shas() -> Seq<char> {
    "GitLab discussion position requires base_sha, head_sha, and start_sha"@
}

pub open spec fn msg_paths() -> Seq<char> {
    "GitLab discussion position requires both new_path and old_path"@
}

pub open spec fn msg_line() -> Seq<char> {
    "GitLab discussion position requires at least one of new_line, old_line, or line_range"@
}

pub open spec fn msg_not_json() -> Seq<char> {
    "position string is not valid JSON"@
}

pub open spec fn msg_not_position() -> Seq<char> {
    "position must be a GitLab discussion position object"@
}

/// The message of the first invariant that a position breaks.
pub open spec fn invalid_position_message(p: PositionView) -> Seq<char> {
    if !shas_present(p) {
        msg_shas()
    } else if !paths_present(p) {
        msg_paths()
    } else {
        msg_line()
    }
}

impl DiscussionPosition {
    /// Checks the invariants: the three commit SHAs and both paths are not
    /// blank, and a line, an old line or a line range is given.
    pub fn validate(&self) -> (r: Result<(), ToolError>)
        ensures
            r is Ok <==> valid_position(self@),
            r is Err ==> r->Err_0.kind == ErrorKind::InvalidParams
                && r->Err_0.message@ == invalid_position_message(self@)
                && r->Err_0.detail is None,
    {
        if blank(self.base_sha.as_str()) || blank(self.head_sha.as_str()) || blank(
            self.start_sha.as_str(),
        ) {
            return Err(
                ToolError::new(
                    ErrorKind::InvalidParams,
                    "GitLab discussion position requires base_sha, head_sha, and start_sha",
                    None,
                ),
            );
        }
        if blank(self.new_path.as_str()) || blank(self.old_path.as_str()) {
            return Err(
                ToolError::new(
                    ErrorKind::InvalidParams,
                    "GitLab discussion position requires both new_path and old_path",
                    None,
                ),
            );
        }
        let has_line = self.new_line.is_some() || self.old_line.is_some()
            || self.line_range.is_some();
        if !has_line {
            return Err(
                ToolError::new(
                    ErrorKind::InvalidParams,
                    "GitLab discussion position requires at least one of new_line, old_line, or line_range",
                    None,
                ),
            );
        }
        Ok(())
    }
}

/// The lengths and distinguishing characters of the member names, from which
/// their pairwise difference follows.
proof fn lemma_member_names()
    ensures
        "base_sha"@.len() == 8,
        "base_sha"@[0] == 'b',
        "base_sha"@[4] == '_',
        "head_sha"@.len() == 8,
        "head_sha"@[0] == 'h',
        "head_sha"@[4] == '_',
        "start_sha"@.len() == 9,
        "start_sha"@[0] == 's',
        "start_sha"@[4] == 't',
        "position_type"@.len() == 13,
        "position_type"@[0] == 'p',
        "position_type"@[4] == 't',
        "new_path"@.len() == 8,
        "new_path"@[0] == 'n',
        "new_path"@[4] == 'p',
        "old_path"@.len() == 8,
        "old_path"@[0] == 'o',
        "old_path"@[4] == 'p',
        "new_line"@.len() == 8,
        "new_line"@[0] == 'n',
        "new_line"@[4] == 'l',
        "old_line"@.len() == 8,
        "old_line"@[0] == 'o',
        "old_line"@[4] == 'l',
        "line_range"@.len() == 10,
        "line_range"@[0] == 'l',
        "line_range"@[4] == '_',
        "line_code"@.len() == 9,
        "line_code"@[0] == 'l',
        "line_code"@[4] == '_',
        "type"@.len() == 4,
        "type"@[0] == 't',
        "start"@.len() == 5,
        "start"@[0] == 's',
        "start"@[4] == 't',
        "end"@.len() == 3,
        "end"@[0] == 'e',
        "new"@.len() == 3,
        "new"@[0] == 'n',
        "old"@.len() == 3,
        "old"@[0] == 'o',
        "text"@.len() == 4,
        "image"@.len() == 5,
        "body"@.len() == 4,
        "position"@.len() == 8,
        "resolve"@.len() == 7,
        "confidential"@.len() == 12,
{
    reveal_strlit("base_sha");
    reveal_strlit("head_sha");
    reveal_strlit("start_sha");
    reveal_strlit("position_type");
    reveal_strlit("new_path");
    reveal_strlit("old_path");
    reveal_strlit("new_line");
    reveal_strlit("old_line");
    reveal_strlit("line_range");
    reveal_strlit("line_code");
    reveal_strlit("type");
    reveal_strlit("start");
    reveal_strlit("end");
    reveal_strlit("new");
    reveal_strlit("old");
    reveal_strlit("text");
    reveal_strlit("image");
    reveal_strlit("body");
    reveal_strlit("position");
    reveal_strlit("resolve");
    reveal_strlit("confidential");
}

/// A string member with the given value.
pub open spec fn str_member(fs: Seq<(String, Json)>, key: Seq<char>, value: Seq<char>) -> bool {
    field(fs, key) matches Some(Json::Str(s)) && s@ == value
}

/// A line member, when the line is given, holds its number.
pub open spec fn line_member(fs: Seq<(String, Json)>, key: Seq<char>, line: Option<u32>) -> bool {
    line is Some ==> field(fs, key) == Some(Json::UInt(line->0 as u64))
}

pub open spec fn line_type_name(t: DiscussionLinePositionType) -> Seq<char> {
    match t {
        DiscussionLinePositionType::New => "new"@,
        DiscussionLinePositionType::Old => "old"@,
    }
}

pub open spec fn position_type_name(t: DiscussionPositionType) -> Seq<char> {
    match t {
        DiscussionPositionType::Text => "text"@,
        DiscussionPositionType::Image => "image"@,
    }
}

/// The members of a written line reference: the line numbers that are given.
pub open spec fn line_reference_keys(r: LineReferenceView) -> Seq<Seq<char>> {
    let base = seq!["line_code"@, "type"@];
    let a = if r.old_line is Some { base.push("old_line"@) } else { base };
    if r.new_line is Some { a.push("new_line"@) } else { a }
}

/// `j` is the line reference `r` written out: exactly its members, each with
/// its value, and nothing for a line number that is not given.
pub open spec fn written_line_reference(j: Json, r: LineReferenceView) -> bool {
    j matches Json::Object(fs) && keys_of(fs@) == line_reference_keys(r)
        && str_member(fs@, "line_code"@, r.line_code)
        && str_member(fs@, "type"@, line_type_name(r.position_type))
        && line_member(fs@, "old_line"@, r.old_line)
        && line_member(fs@, "new_line"@, r.new_line)
}

/// `j` is the line range `r` written out.
pub open spec fn written_line_range(j: Json, r: LineRangeView) -> bool {
    j matches Json::Object(fs) && keys_of(fs@) == seq!["start"@, "end"@]
        && (field(fs@, "start"@) matches Some(s) && written_line_reference(s, r.start))
        && (field(fs@, "end"@) matches Some(e) && written_line_reference(e, r.end))
}

/// The members of a written position, in declaration order: the optional
/// ones only when given.
pub open spec fn position_keys(p: PositionView) -> Seq<Seq<char>> {
    let base = seq![
        "base_sha"@,
        "head_sha"@,
        "start_sha"@,
        "position_type"@,
        "new_path"@,
        "old_path"@,
    ];
    let a = if p.new_line is Some { base.push("new_line"@) } else { base };
    let b = if p.old_line is Some { a.push("old_line"@) } else { a };
    if p.line_range is Some { b.push("line_range"@) } else { b }
}

/// `j` is the position `p` written out: exactly its members, each with its
/// value, and nothing (not even `null`) for an optional member not given.
pub open spec fn written_position(j: Json, p: PositionView) -> bool {
    j matches Json::Object(fs) && keys_of(fs@) == position_keys(p)
        && str_member(fs@, "base_sha"@, p.base_sha)
        && str_member(fs@, "head_sha"@, p.head_sha)
        && str_member(fs@, "start_sha"@, p.start_sha)
        && str_member(fs@, "position_type"@, position_type_name(p.position_type))
        && str_member(fs@, "new_path"@, p.new_path)
        && str_member(fs@, "old_path"@, p.old_path)
        && line_member(fs@, "new_line"@, p.new_line)
        && line_member(fs@, "old_line"@, p.old_line)
        && (p.line_range is Some ==> (field(fs@, "line_range"@) matches Some(x)
            && written_line_range(x, p.line_range->0)))
}

fn line_json(line: Option<u32>) -> (r: Json)
    requires
        line is Some,
    ensures
        r == Json::UInt(line->0 as u64),
{
    match line {
        Some(n) => Json::UInt(n as u64),
        None => Json::Null,
    }
}

/// A string member's value.
fn text_json(s: &String) -> (r: Json)
    ensures
        r matches Json::Str(t) && t@ == s@,
{
    Json::Str(s.clone())
}

impl DiscussionLineReference {
    /// The reference as a JSON object; line numbers that are not given are left out.
    pub fn to_json(&self) -> (r: Json)
        ensures
            written_line_reference(r, self@),
            spec_line_reference(Some(r), "start"@) == Ok::<LineReferenceView, Seq<char>>(self@),
            spec_line_reference(Some(r), "end"@) == Ok::<LineReferenceView, Seq<char>>(self@),
    {
        proof {
            lemma_member_names();
        }
        let mut fs: Vec<(String, Json)> = Vec::new();
        assert(keys_of(fs@) =~= Seq::<Seq<char>>::empty());
        push_member(&mut fs, "line_code", text_json(&self.line_code));
        let kind = match self.position_type {
            DiscussionLinePositionType::New => "new",
            DiscussionLinePositionType::Old => "old",
        };
        push_member(&mut fs, "type", Json::Str(String::from_str(kind)));
        if self.old_line.is_some() {
            push_member(&mut fs, "old_line", line_json(self.old_line));
        }
        if self.new_line.is_some() {
            push_member(&mut fs, "new_line", line_json(self.new_line));
        }
        assert(keys_of(fs@) =~= line_reference_keys(self@));
        Json::Object(fs)
    }
}

impl DiscussionLineRange {
    /// The range as a JSON object of its two written references.
    pub fn to_json(&self) -> (r: Json)
        ensures
            written_line_range(r, self@),
            spec_line_range(Some(r)) == Ok::<Option<LineRangeView>, Seq<char>>(Some(self@)),
    {
        proof {
            lemma_member_names();
        }
        let mut fs: Vec<(String, Json)> = Vec::new();
        assert(keys_of(fs@) =~= Seq::<Seq<char>>::empty());
        push_member(&mut fs, "start", self.start.to_json());
        push_member(&mut fs, "end", self.end.to_json());
        assert(keys_of(fs@) =~= seq!["start"@, "end"@]);
        Json::Object(fs)
    }
}

impl DiscussionPosition {
    /// The position as a JSON object, members in declaration order; line
    /// numbers and the line range are left out when not given. Reading it
    /// back gives the same position.
    pub fn to_json(&self) -> (r: Json)
        ensures
            written_position(r, self@),
            spec_position(r) == Ok::<PositionView, Seq<char>>(self@),
    {
        proof {
            lemma_member_names();
        }
        let mut fs: Vec<(String, Json)> = Vec::new();
        assert(keys_of(fs@) =~= Seq::<Seq<char>>::empty());
        push_member(&mut fs, "base_sha", text_json(&self.base_sha));
        push_member(&mut fs, "head_sha", text_json(&self.head_sha));
        push_member(&mut fs, "start_sha", text_json(&self.start_sha));
        let kind = match self.position_type {
            DiscussionPositionType::Text => "text",
            DiscussionPositionType::Image => "image",
        };
        push_member(&mut fs, "position_type", Json::Str(String::from_str(kind)));
        push_member(&mut fs, "new_path", text_json(&self.new_path));
        push_member(&mut fs, "old_path", text_json(&self.old_path));
        if self.new_line.is_some() {
            push_member(&mut fs, "new_line", line_json(self.new_line));
        }
        if self.old_line.is_some() {
            push_member(&mut fs, "old_line", line_json(self.old_line));
        }
        match &self.line_range {
            Some(range) => {
                push_member(&mut fs, "line_range", range.to_json());
            },
            None => {},
        }
        assert(keys_of(fs@) =~= position_keys(self@));
        Json::Object(fs)
    }
}

/// The JSON value a position argument stands for; none when it was a string
/// that does not hold JSON.
pub open spec fn position_source(raw: RawPosition) -> Option<Json> {
    match raw {
        RawPosition::Value(j) => Some(j),
        RawPosition::Encoded(Ok(j)) => Some(j),
        RawPosition::Encoded(Err(_)) => None,
    }
}

/// The position a position argument describes, if it can be read.
pub open spec fn spec_raw_position(raw: RawPosition) -> Option<PositionView> {
    match position_source(raw) {
        Some(j) => match spec_position(j) {
            Ok(p) => Some(p),
            Err(_) => None,
        },
        None => None,
    }
}

/// Reads a position argument. A JSON-encoded string is read exactly as the
/// value its text holds. A failure carries the underlying complaint as its
/// detail: the JSON decoder's, or the one naming the member that is wrong.
pub fn parse_discussion_position(raw: &RawPosition) -> (r: Result<DiscussionPosition, ToolError>)
    ensures
        r is Ok <==> spec_raw_position(*raw) is Some,
        r is Ok ==> spec_raw_position(*raw) == Some(r->Ok_0@),
        r is Err ==> r->Err_0.kind == ErrorKind::InvalidParams,
        raw matches RawPosition::Encoded(Err(e)) ==> r is Err && r->Err_0.message@ == msg_not_json()
            && (r->Err_0.detail matches Some(Json::Str(d)) && d@ == e@),
        position_source(*raw) is Some && r is Err ==> r->Err_0.message@ == msg_not_position()
            && (r->Err_0.detail matches Some(Json::Str(d)) && spec_position(
            position_source(*raw)->0,
        ) == Err::<PositionView, Seq<char>>(d@)),
{
    let value = match raw {
        RawPosition::Value(j) => j,
        RawPosition::Encoded(Ok(j)) => j,
        RawPosition::Encoded(Err(e)) => {
            return Err(
                ToolError::with_text(
                    ErrorKind::InvalidParams,
                    "position string is not valid JSON",
                    e.clone(),
                ),
            );
        },
    };
    match decode_position(value) {
        Ok(p) => Ok(p),
        Err(why) => Err(
            ToolError::with_text(
                ErrorKind::InvalidParams,
                "position must be a GitLab discussion position object",
                why,
            ),
        ),
    }
}

/// Wraps the members of a payload into a JSON object.
pub fn map_to_payload(fields: Vec<(String, Json)>) -> (r: Json)
    ensures
        r == Json::Object(fields),
{
    Json::Object(fields)
}

/// An optional flag as a member value: left out when not given.
pub open spec fn flag_member(b: Option<bool>) -> Option<Json> {
    match b {
        Some(v) => Some(Json::Bool(v)),
        None => None,
    }
}

/// The members of a body with an optional flag: the flag only when given.
pub open spec fn keys_with_flag(first: Seq<Seq<char>>, flag: Seq<char>, b: Option<bool>) -> Seq<Seq<char>> {
    if b is Some {
        first.push(flag)
    } else {
        first
    }
}

/// The body for a new discussion: the comment, the validated position written
/// out again, and `resolve` only when the caller gave it. A failure is the
/// first failing step's error, unchanged.
pub fn discussion_payload(req: &CreateMergeRequestDiscussionRequest) -> (r: Result<Json, ToolError>)
    ensures
        r is Ok <==> (spec_raw_position(req.position) matches Some(p) && valid_position(p)),
        r is Err ==> r->Err_0.kind == ErrorKind::InvalidParams,
        req.position matches RawPosition::Encoded(Err(e)) ==> r is Err && r->Err_0.message@
            == msg_not_json() && (r->Err_0.detail matches Some(Json::Str(d)) && d@ == e@),
        position_source(req.position) is Some && spec_raw_position(req.position) is None ==> r is Err
            && r->Err_0.message@ == msg_not_position() && (r->Err_0.detail matches Some(Json::Str(d))
            && spec_position(position_source(req.position)->0) == Err::<PositionView, Seq<char>>(d@)),
        spec_raw_position(req.position) is Some && !valid_position(spec_raw_position(req.position)->0)
            ==> r is Err && r->Err_0.message@ == invalid_position_message(
            spec_raw_position(req.position)->0,
        ) && r->Err_0.detail is None,
        r is Ok ==> (r->Ok_0 matches Json::Object(fs)
            && keys_of(fs@) == keys_with_flag(seq!["body"@, "position"@], "resolve"@, req.resolve)
            && str_member(fs@, "body"@, req.body@)
            && (field(fs@, "position"@) matches Some(pj) && written_position(
            pj,
            spec_raw_position(req.position)->0,
        )) && field(fs@, "resolve"@) == flag_member(req.resolve)),
{
    let position = parse_discussion_position(&req.position)?;
    position.validate()?;
    proof {
        lemma_member_names();
    }
    let mut fs: Vec<(String, Json)> = Vec::new();
    assert(keys_of(fs@) =~= Seq::<Seq<char>>::empty());
    push_member(&mut fs, "body", text_json(&req.body));
    push_member(&mut fs, "position", position.to_json());
    match req.resolve {
        Some(resolve) => {
            push_member(&mut fs, "resolve", Json::Bool(resolve));
        },
        None => {},
    }
    assert(keys_of(fs@) =~= keys_with_flag(seq!["body"@, "position"@], "resolve"@, req.resolve));
    Ok(map_to_payload(fs))
}

/// The body for a new note: the comment, and `confidential` only when the
/// caller gave it.
pub fn note_payload(req: &CreateMergeRequestNoteRequest) -> (r: Json)
    ensures
        r matches Json::Object(fs)
            && keys_of(fs@) == keys_with_flag(seq!["body"@], "confidential"@, req.confidential)
            && str_member(fs@, "body"@, req.body@)
            && field(fs@, "confidential"@) == flag_member(req.confidential),
{
    proof {
        lemma_member_names();
    }
    let mut fs: Vec<(String, Json)> = Vec::new();
    assert(keys_of(fs@) =~= Seq::<Seq<char>>::empty());
    push_member(&mut fs, "body", text_json(&req.body));
    match req.confidential {
        Some(confidential) => {
            push_member(&mut fs, "confidential", Json::Bool(confidential));
        },
        None => {},
    }
    assert(keys_of(fs@) =~= keys_with_flag(seq!["body"@], "confidential"@, req.confidential));
    map_to_payload(fs)
}

/// A position given as a JSON-encoded string stands for the value its text
/// holds, so it is read, and refused, exactly as that value given directly.
pub proof fn lemma_encoded_position_reads_as_value(j: Json)
    ensures
        position_source(RawPosition::Encoded(Ok(j))) == position_source(RawPosition::Value(j)),
        spec_raw_position(RawPosition::Encoded(Ok(j))) == spec_raw_position(RawPosition::Value(j)),
{
}

/// A position that names no type is a text position.
pub proof fn lemma_position_type_defaults_to_text(fields: Vec<(String, Json)>)
    requires
        spec_position(Json::Object(fields)) is Ok,
        field(fields@, "position_type"@) is None,
    ensures
        spec_position(Json::Object(fields))->Ok_0.position_type == DiscussionPositionType::Text,
{
}

/// The position type a position names is the one it is written out with
/// again.
pub proof fn lemma_position_type_round_trips(fields: Vec<(String, Json)>, p: DiscussionPosition, j: Json)
    requires
        spec_position(Json::Object(fields)) == Ok::<PositionView, Seq<char>>(p@),
        field(fields@, "position_type"@) matches Some(Json::Str(_)),
        written_position(j, p@),
    ensures
        j matches Json::Object(fs) && str_member(fs@, "position_type"@, spec_string(field(fields@, "position_type"@), "position_type"@)->Ok_0),
{
}

/// A position without a commit SHA member is read as one with an empty SHA,
/// which its invariant refuses with the SHA message.
pub proof fn lemma_missing_sha_fails_validation(fields: Vec<(String, Json)>)
    requires
        spec_position(Json::Object(fields)) is Ok,
        field(fields@, "base_sha"@) is None || field(fields@, "head_sha"@) is None
            || field(fields@, "start_sha"@) is None,
    ensures
        !valid_position(spec_position(Json::Object(fields))->Ok_0),
        invalid_position_message(spec_position(Json::Object(fields))->Ok_0) == msg_shas(),
{
}

} // verus!
