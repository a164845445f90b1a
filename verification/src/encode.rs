//! The JSON form of the transcript values that the rows hold as JSON text.
//!
//! Two forms occur. A value written out directly keeps its fields in
//! declaration order. A value first turned into a JSON tree (as the `json!`
//! macro does) has its object keys sorted, since JSON objects keep their keys
//! in a sorted map; the functions below whose names end in `_tree` build that
//! form.

use crate::json::{
    copy_json, lemma_view_items_ext, lemma_view_items_index, view_items, view_members, view_value,
    JsonNumber, JsonValue, JsonView, NumberView,
};
use crate::types::{
    Diagnostic, DiagnosticPosition, DiagnosticRange, DiagnosticsFile, DocumentSource,
    FileAttachmentContent, FileHistorySnapshot, ImageSource, InvokedSkill, PersistedWorktreeSession,
    StagedSpan,
};
use vstd::prelude::*;

verus! {

pub open spec fn text_view(s: String) -> JsonView {
    JsonView::String(s@)
}

pub open spec fn uint_view(n: nat) -> JsonView {
    JsonView::Number(NumberView::PosInt(n))
}

/// A list of strings as a JSON array of strings.
pub open spec fn strings_view(v: Seq<String>) -> JsonView {
    JsonView::Array(Seq::new(v.len(), |i: int| JsonView::String(v[i]@)))
}

/// A list of integers as a JSON array of numbers.
pub open spec fn uints_view(v: Seq<u64>) -> JsonView {
    JsonView::Array(Seq::new(v.len(), |i: int| uint_view(v[i] as nat)))
}

/// A list of JSON values as a JSON array.
pub open spec fn values_view(v: Seq<JsonValue>) -> JsonView {
    JsonView::Array(view_items(v))
}

/// Adds `"key": text` when the text is present.
pub open spec fn with_opt_text(m: Seq<(Seq<char>, JsonView)>, key: Seq<char>, v: Option<String>) -> Seq<(Seq<char>, JsonView)> {
    match v {
        Some(t) => m.push((key, JsonView::String(t@))),
        None => m,
    }
}

/// Adds `"key": number` when the number is present.
pub open spec fn with_opt_uint(m: Seq<(Seq<char>, JsonView)>, key: Seq<char>, v: Option<u64>) -> Seq<(Seq<char>, JsonView)> {
    match v {
        Some(n) => m.push((key, uint_view(n as nat))),
        None => m,
    }
}

/// Adds `"key": value` when the value is present.
pub open spec fn with_opt_json(m: Seq<(Seq<char>, JsonView)>, key: Seq<char>, v: Option<JsonValue>) -> Seq<(Seq<char>, JsonView)> {
    match v {
        Some(x) => m.push((key, x@)),
        None => m,
    }
}

pub proof fn lemma_view_members_push(s: Seq<(String, JsonValue)>, x: (String, JsonValue))
    ensures
        view_members(s.push(x)) == view_members(s).push((x.0@, x.1@)),
{
    assert(s.push(x).subrange(0, s.len() as int) =~= s);
}

/// A string value holding a copy of `s`.
pub fn text_value(s: &str) -> (r: JsonValue)
    ensures
        r@ == JsonView::String(s@),
{
    JsonValue::String(String::from_str(s))
}

fn push_member(members: &mut Vec<(String, JsonValue)>, key: &str, value: JsonValue)
    ensures
        view_members(final(members)@) == view_members(old(members)@).push((key@, value@)),
{
    let ghost old_m = members@;
    let k = String::from_str(key);
    let ghost pair = (k, value);
    members.push((k, value));
    proof {
        lemma_view_members_push(old_m, pair);
    }
}

fn push_opt_text(members: &mut Vec<(String, JsonValue)>, key: &str, value: &Option<String>)
    ensures
        view_members(final(members)@) == with_opt_text(view_members(old(members)@), key@, *value),
{
    match value {
        Some(t) => push_member(members, key, text_value(t.as_str())),
        None => {},
    }
}

fn push_opt_uint(members: &mut Vec<(String, JsonValue)>, key: &str, value: Option<u64>)
    ensures
        view_members(final(members)@) == with_opt_uint(view_members(old(members)@), key@, value),
{
    match value {
        Some(n) => push_member(members, key, JsonValue::Number(JsonNumber::PosInt(n))),
        None => {},
    }
}

fn push_opt_json(members: &mut Vec<(String, JsonValue)>, key: &str, value: &Option<JsonValue>)
    ensures
        view_members(final(members)@) == with_opt_json(view_members(old(members)@), key@, *value),
{
    match value {
        Some(x) => push_member(members, key, copy_json(x)),
        None => {},
    }
}

/// A JSON array of strings.
pub fn strings_json(v: &Vec<String>) -> (r: JsonValue)
    ensures
        r@ == strings_view(v@),
{
    let mut out: Vec<JsonValue> = Vec::new();
    let mut i: usize = 0;
    while i < v.len()
        invariant
            i <= v.len(),
            out@.len() == i,
            forall|j: int| 0 <= j < i ==> view_value(#[trigger] out@[j]) == JsonView::String(v@[j]@),
        decreases v.len() - i,
    {
        out.push(text_value(v[i].as_str()));
        i += 1;
    }
    proof {
        lemma_view_items_index(out@);
        assert(view_items(out@) =~= Seq::new(v@.len(), |i: int| JsonView::String(v@[i]@)));
    }
    JsonValue::Array(out)
}

/// A JSON array of integers.
pub fn uints_json(v: &Vec<u64>) -> (r: JsonValue)
    ensures
        r@ == uints_view(v@),
{
    let mut out: Vec<JsonValue> = Vec::new();
    let mut i: usize = 0;
    while i < v.len()
        invariant
            i <= v.len(),
            out@.len() == i,
            forall|j: int| 0 <= j < i ==> view_value(#[trigger] out@[j]) == uint_view(v@[j] as nat),
        decreases v.len() - i,
    {
        out.push(JsonValue::Number(JsonNumber::PosInt(v[i])));
        i += 1;
    }
    proof {
        lemma_view_items_index(out@);
        assert(view_items(out@) =~= Seq::new(v@.len(), |i: int| uint_view(v@[i] as nat)));
    }
    JsonValue::Array(out)
}

/// A JSON array holding copies of the values.
pub fn values_json(v: &Vec<JsonValue>) -> (r: JsonValue)
    ensures
        r@ == values_view(v@),
{
    let mut out: Vec<JsonValue> = Vec::new();
    let mut i: usize = 0;
    while i < v.len()
        invariant
            i <= v.len(),
            out@.len() == i,
            forall|j: int| 0 <= j < i ==> view_value(#[trigger] out@[j]) == view_value(v@[j]),
        decreases v.len() - i,
    {
        out.push(copy_json(&v[i]));
        i += 1;
    }
    proof {
        lemma_view_items_ext(out@, v@);
    }
    JsonValue::Array(out)
}

// ─── Sources of user content blocks ──────────────────────────────────────

pub open spec fn image_source_view(s: ImageSource) -> JsonView {
    JsonView::Object(image_source_members(s))
}

pub open spec fn image_source_members(s: ImageSource) -> Seq<(Seq<char>, JsonView)> {
        match s {
            ImageSource::Base64 { media_type, data } => seq![
                ("type"@, JsonView::String("base64"@)),
                ("media_type"@, JsonView::String(media_type@)),
                ("data"@, JsonView::String(data@)),
            ],
            ImageSource::Url { url } => seq![
                ("type"@, JsonView::String("url"@)),
                ("url"@, JsonView::String(url@)),
            ],
            ImageSource::Unknown => seq![("type"@, JsonView::String("unknown"@))],
        }
}

/// An image source written out directly: the `type` tag first, then its fields.
pub fn image_source_json(s: &ImageSource) -> (r: JsonValue)
    ensures
        r@ == image_source_view(*s),
{
    let mut m: Vec<(String, JsonValue)> = Vec::new();
    assert(view_members(m@) == Seq::<(Seq<char>, JsonView)>::empty());
    match s {
        ImageSource::Base64 { media_type, data } => {
            push_member(&mut m, "type", text_value("base64"));
            push_member(&mut m, "media_type", text_value(media_type.as_str()));
            push_member(&mut m, "data", text_value(data.as_str()));
        },
        ImageSource::Url { url } => {
            push_member(&mut m, "type", text_value("url"));
            push_member(&mut m, "url", text_value(url.as_str()));
        },
        ImageSource::Unknown => {
            push_member(&mut m, "type", text_value("unknown"));
        },
    }
    assert(view_members(m@) =~= image_source_members(*s));
    JsonValue::Object(m)
}

pub open spec fn document_source_view(s: DocumentSource) -> JsonView {
    JsonView::Object(document_source_members(s))
}

pub open spec fn document_source_members(s: DocumentSource) -> Seq<(Seq<char>, JsonView)> {
        match s {
            DocumentSource::Base64 { media_type, data } => seq![
                ("type"@, JsonView::String("base64"@)),
                ("media_type"@, JsonView::String(media_type@)),
                ("data"@, JsonView::String(data@)),
            ],
            DocumentSource::Text { data } => seq![
                ("type"@, JsonView::String("text"@)),
                ("data"@, JsonView::String(data@)),
            ],
            DocumentSource::Url { url } => seq![
                ("type"@, JsonView::String("url"@)),
                ("url"@, JsonView::String(url@)),
            ],
            DocumentSource::Unknown => seq![("type"@, JsonView::String("unknown"@))],
        }
}

/// A document source written out directly: the `type` tag first, then its fields.
pub fn document_source_json(s: &DocumentSource) -> (r: JsonValue)
    ensures
        r@ == document_source_view(*s),
{
    let mut m: Vec<(String, JsonValue)> = Vec::new();
    assert(view_members(m@) == Seq::<(Seq<char>, JsonView)>::empty());
    match s {
        DocumentSource::Base64 { media_type, data } => {
            push_member(&mut m, "type", text_value("base64"));
            push_member(&mut m, "media_type", text_value(media_type.as_str()));
            push_member(&mut m, "data", text_value(data.as_str()));
        },
        DocumentSource::Text { data } => {
            push_member(&mut m, "type", text_value("text"));
            push_member(&mut m, "data", text_value(data.as_str()));
        },
        DocumentSource::Url { url } => {
            push_member(&mut m, "type", text_value("url"));
            push_member(&mut m, "url", text_value(url.as_str()));
        },
        DocumentSource::Unknown => {
            push_member(&mut m, "type", text_value("unknown"));
        },
    }
    assert(view_members(m@) =~= document_source_members(*s));
    JsonValue::Object(m)
}

// ─── Values written out directly ─────────────────────────────────────────

/// Adds `"key": bool` when the flag is present.
pub open spec fn with_opt_bool(m: Seq<(Seq<char>, JsonView)>, key: Seq<char>, v: Option<bool>) -> Seq<(Seq<char>, JsonView)> {
    match v {
        Some(b) => m.push((key, JsonView::Bool(b))),
        None => m,
    }
}

fn push_opt_bool(members: &mut Vec<(String, JsonValue)>, key: &str, value: Option<bool>)
    ensures
        view_members(final(members)@) == with_opt_bool(view_members(old(members)@), key@, value),
{
    match value {
        Some(b) => push_member(members, key, JsonValue::Bool(b)),
        None => {},
    }
}

pub open spec fn worktree_session_members(w: PersistedWorktreeSession) -> Seq<(Seq<char>, JsonView)> {
    let m = seq![
        ("originalCwd"@, text_view(w.original_cwd)),
        ("worktreePath"@, text_view(w.worktree_path)),
        ("worktreeName"@, text_view(w.worktree_name)),
        ("sessionId"@, text_view(w.session_id)),
    ];
    let m = with_opt_text(m, "worktreeBranch"@, w.worktree_branch);
    let m = with_opt_text(m, "originalBranch"@, w.original_branch);
    let m = with_opt_text(m, "originalHeadCommit"@, w.original_head_commit);
    let m = with_opt_text(m, "tmuxSessionName"@, w.tmux_session_name);
    with_opt_bool(m, "hookBased"@, w.hook_based)
}

pub open spec fn worktree_session_view(w: PersistedWorktreeSession) -> JsonView {
    JsonView::Object(worktree_session_members(w))
}

/// A worktree session written out directly, absent optional fields left out.
pub fn worktree_session_json(w: &PersistedWorktreeSession) -> (r: JsonValue)
    ensures
        r@ == worktree_session_view(*w),
{
    let mut m: Vec<(String, JsonValue)> = Vec::new();
    assert(view_members(m@) == Seq::<(Seq<char>, JsonView)>::empty());
    push_member(&mut m, "originalCwd", text_value(w.original_cwd.as_str()));
    push_member(&mut m, "worktreePath", text_value(w.worktree_path.as_str()));
    push_member(&mut m, "worktreeName", text_value(w.worktree_name.as_str()));
    push_member(&mut m, "sessionId", text_value(w.session_id.as_str()));
    push_opt_text(&mut m, "worktreeBranch", &w.worktree_branch);
    push_opt_text(&mut m, "originalBranch", &w.original_branch);
    push_opt_text(&mut m, "originalHeadCommit", &w.original_head_commit);
    push_opt_text(&mut m, "tmuxSessionName", &w.tmux_session_name);
    push_opt_bool(&mut m, "hookBased", w.hook_based);
    assert(view_members(m@) =~= worktree_session_members(*w));
    JsonValue::Object(m)
}

pub open spec fn snapshot_members(s: FileHistorySnapshot) -> Seq<(Seq<char>, JsonView)> {
    seq![
        ("messageId"@, text_view(s.message_id)),
        ("trackedFileBackups"@, s.tracked_file_backups@),
        ("timestamp"@, text_view(s.timestamp)),
    ]
}

pub open spec fn snapshot_view(s: FileHistorySnapshot) -> JsonView {
    JsonView::Object(snapshot_members(s))
}

/// A file-history snapshot written out directly.
pub fn snapshot_json(s: &FileHistorySnapshot) -> (r: JsonValue)
    ensures
        r@ == snapshot_view(*s),
{
    let mut m: Vec<(String, JsonValue)> = Vec::new();
    assert(view_members(m@) == Seq::<(Seq<char>, JsonView)>::empty());
    push_member(&mut m, "messageId", text_value(s.message_id.as_str()));
    push_member(&mut m, "trackedFileBackups", copy_json(&s.tracked_file_backups));
    push_member(&mut m, "timestamp", text_value(s.timestamp.as_str()));
    assert(view_members(m@) =~= snapshot_members(*s));
    JsonValue::Object(m)
}

pub open spec fn file_content_members(c: FileAttachmentContent) -> Seq<(Seq<char>, JsonView)> {
    let f = c.file;
    let fm = seq![("filePath"@, text_view(f.file_path))];
    let fm = with_opt_text(fm, "content"@, f.content);
    let fm = with_opt_uint(fm, "numLines"@, f.num_lines);
    let fm = with_opt_uint(fm, "startLine"@, f.start_line);
    let fm = with_opt_uint(fm, "totalLines"@, f.total_lines);
    seq![("type"@, text_view(c.content_type)), ("file"@, JsonView::Object(fm))]
}

pub open spec fn file_content_view(c: FileAttachmentContent) -> JsonView {
    JsonView::Object(file_content_members(c))
}

/// The content of a file attachment written out directly.
pub fn file_content_json(c: &FileAttachmentContent) -> (r: JsonValue)
    ensures
        r@ == file_content_view(*c),
{
    let f = &c.file;
    let mut fm: Vec<(String, JsonValue)> = Vec::new();
    assert(view_members(fm@) == Seq::<(Seq<char>, JsonView)>::empty());
    push_member(&mut fm, "filePath", text_value(f.file_path.as_str()));
    push_opt_text(&mut fm, "content", &f.content);
    push_opt_uint(&mut fm, "numLines", f.num_lines);
    push_opt_uint(&mut fm, "startLine", f.start_line);
    push_opt_uint(&mut fm, "totalLines", f.total_lines);
    let ghost fmv = view_members(fm@);
    let mut m: Vec<(String, JsonValue)> = Vec::new();
    assert(view_members(m@) == Seq::<(Seq<char>, JsonView)>::empty());
    push_member(&mut m, "type", text_value(c.content_type.as_str()));
    push_member(&mut m, "file", JsonValue::Object(fm));
    assert(view_members(m@) =~= file_content_members(*c));
    JsonValue::Object(m)
}

// ─── Values turned into JSON trees (sorted keys) ─────────────────────────

pub open spec fn staged_span_view(s: StagedSpan) -> JsonView {
    JsonView::Object(
        seq![
            ("endUuid"@, text_view(s.end_uuid)),
            ("risk"@, JsonView::Number(s.risk@)),
            ("stagedAt"@, uint_view(s.staged_at as nat)),
            ("startUuid"@, text_view(s.start_uuid)),
            ("summary"@, text_view(s.summary)),
        ],
    )
}

pub fn staged_span_tree(s: &StagedSpan) -> (r: JsonValue)
    ensures
        r@ == staged_span_view(*s),
{
    let mut m: Vec<(String, JsonValue)> = Vec::new();
    assert(view_members(m@) == Seq::<(Seq<char>, JsonView)>::empty());
    push_member(&mut m, "endUuid", text_value(s.end_uuid.as_str()));
    push_member(&mut m, "risk", JsonValue::Number(s.risk.clone_number()));
    push_member(&mut m, "stagedAt", JsonValue::Number(JsonNumber::PosInt(s.staged_at)));
    push_member(&mut m, "startUuid", text_value(s.start_uuid.as_str()));
    push_member(&mut m, "summary", text_value(s.summary.as_str()));
    let r = JsonValue::Object(m);
    assert(view_members(m@) =~= seq![
        ("endUuid"@, text_view(s.end_uuid)),
        ("risk"@, JsonView::Number(s.risk@)),
        ("stagedAt"@, uint_view(s.staged_at as nat)),
        ("startUuid"@, text_view(s.start_uuid)),
        ("summary"@, text_view(s.summary)),
    ]);
    r
}

pub open spec fn staged_spans_view(v: Seq<StagedSpan>) -> JsonView {
    JsonView::Array(Seq::new(v.len(), |i: int| staged_span_view(v[i])))
}

pub fn staged_spans_tree(v: &Vec<StagedSpan>) -> (r: JsonValue)
    ensures
        r@ == staged_spans_view(v@),
{
    let mut out: Vec<JsonValue> = Vec::new();
    let mut i: usize = 0;
    while i < v.len()
        invariant
            i <= v.len(),
            out@.len() == i,
            forall|j: int| 0 <= j < i ==> view_value(#[trigger] out@[j]) == staged_span_view(v@[j]),
        decreases v.len() - i,
    {
        out.push(staged_span_tree(&v[i]));
        i += 1;
    }
    proof {
        lemma_view_items_index(out@);
        assert(view_items(out@) =~= Seq::new(v@.len(), |i: int| staged_span_view(v@[i])));
    }
    JsonValue::Array(out)
}

pub open spec fn invoked_skill_view(s: InvokedSkill) -> JsonView {
    JsonView::Object(
        seq![
            ("content"@, text_view(s.content)),
            ("name"@, text_view(s.name)),
            ("path"@, text_view(s.path)),
        ],
    )
}

pub fn invoked_skill_tree(s: &InvokedSkill) -> (r: JsonValue)
    ensures
        r@ == invoked_skill_view(*s),
{
    let mut m: Vec<(String, JsonValue)> = Vec::new();
    assert(view_members(m@) == Seq::<(Seq<char>, JsonView)>::empty());
    push_member(&mut m, "content", text_value(s.content.as_str()));
    push_member(&mut m, "name", text_value(s.name.as_str()));
    push_member(&mut m, "path", text_value(s.path.as_str()));
    assert(view_members(m@) =~= seq![
        ("content"@, text_view(s.content)),
        ("name"@, text_view(s.name)),
        ("path"@, text_view(s.path)),
    ]);
    JsonValue::Object(m)
}

pub open spec fn invoked_skills_view(v: Seq<InvokedSkill>) -> JsonView {
    JsonView::Array(Seq::new(v.len(), |i: int| invoked_skill_view(v[i])))
}

pub fn invoked_skills_tree(v: &Vec<InvokedSkill>) -> (r: JsonValue)
    ensures
        r@ == invoked_skills_view(v@),
{
    let mut out: Vec<JsonValue> = Vec::new();
    let mut i: usize = 0;
    while i < v.len()
        invariant
            i <= v.len(),
            out@.len() == i,
            forall|j: int| 0 <= j < i ==> view_value(#[trigger] out@[j]) == invoked_skill_view(v@[j]),
        decreases v.len() - i,
    {
        out.push(invoked_skill_tree(&v[i]));
        i += 1;
    }
    proof {
        lemma_view_items_index(out@);
        assert(view_items(out@) =~= Seq::new(v@.len(), |i: int| invoked_skill_view(v@[i])));
    }
    JsonValue::Array(out)
}

/// The path and content of an invoked skill, as one JSON object.
pub open spec fn skill_invocation_view(s: InvokedSkill) -> JsonView {
    JsonView::Object(seq![("content"@, text_view(s.content)), ("path"@, text_view(s.path))])
}

pub fn skill_invocation_tree(s: &InvokedSkill) -> (r: JsonValue)
    ensures
        r@ == skill_invocation_view(*s),
{
    let mut m: Vec<(String, JsonValue)> = Vec::new();
    assert(view_members(m@) == Seq::<(Seq<char>, JsonView)>::empty());
    push_member(&mut m, "content", text_value(s.content.as_str()));
    push_member(&mut m, "path", text_value(s.path.as_str()));
    assert(view_members(m@) =~= seq![("content"@, text_view(s.content)), ("path"@, text_view(s.path))]);
    JsonValue::Object(m)
}

pub open spec fn position_view(p: DiagnosticPosition) -> JsonView {
    JsonView::Object(
        seq![("character"@, uint_view(p.character as nat)), ("line"@, uint_view(p.line as nat))],
    )
}

pub fn position_tree(p: &DiagnosticPosition) -> (r: JsonValue)
    ensures
        r@ == position_view(*p),
{
    let mut m: Vec<(String, JsonValue)> = Vec::new();
    assert(view_members(m@) == Seq::<(Seq<char>, JsonView)>::empty());
    push_member(&mut m, "character", JsonValue::Number(JsonNumber::PosInt(p.character as u64)));
    push_member(&mut m, "line", JsonValue::Number(JsonNumber::PosInt(p.line as u64)));
    assert(view_members(m@) =~= seq![("character"@, uint_view(p.character as nat)), ("line"@, uint_view(p.line as nat))]);
    JsonValue::Object(m)
}

pub open spec fn range_view(r: DiagnosticRange) -> JsonView {
    JsonView::Object(seq![("end"@, position_view(r.end)), ("start"@, position_view(r.start))])
}

pub fn range_tree(r: &DiagnosticRange) -> (out: JsonValue)
    ensures
        out@ == range_view(*r),
{
    let mut m: Vec<(String, JsonValue)> = Vec::new();
    assert(view_members(m@) == Seq::<(Seq<char>, JsonView)>::empty());
    push_member(&mut m, "end", position_tree(&r.end));
    push_member(&mut m, "start", position_tree(&r.start));
    assert(view_members(m@) =~= seq![("end"@, position_view(r.end)), ("start"@, position_view(r.start))]);
    JsonValue::Object(m)
}

pub open spec fn diagnostic_members(d: Diagnostic) -> Seq<(Seq<char>, JsonView)> {
    let m = with_opt_json(Seq::empty(), "code"@, d.code);
    let m = m.push(("message"@, text_view(d.message)));
    let m = m.push(("range"@, range_view(d.range)));
    let m = m.push(("severity"@, text_view(d.severity)));
    with_opt_text(m, "source"@, d.source)
}

pub open spec fn diagnostic_view(d: Diagnostic) -> JsonView {
    JsonView::Object(diagnostic_members(d))
}

pub fn diagnostic_tree(d: &Diagnostic) -> (r: JsonValue)
    ensures
        r@ == diagnostic_view(*d),
{
    let mut m: Vec<(String, JsonValue)> = Vec::new();
    assert(view_members(m@) == Seq::<(Seq<char>, JsonView)>::empty());
    push_opt_json(&mut m, "code", &d.code);
    push_member(&mut m, "message", text_value(d.message.as_str()));
    push_member(&mut m, "range", range_tree(&d.range));
    push_member(&mut m, "severity", text_value(d.severity.as_str()));
    push_opt_text(&mut m, "source", &d.source);
    assert(view_members(m@) =~= diagnostic_members(*d));
    JsonValue::Object(m)
}

pub open spec fn diagnostics_view(v: Seq<Diagnostic>) -> JsonView {
    JsonView::Array(Seq::new(v.len(), |i: int| diagnostic_view(v[i])))
}

pub fn diagnostics_tree(v: &Vec<Diagnostic>) -> (r: JsonValue)
    ensures
        r@ == diagnostics_view(v@),
{
    let mut out: Vec<JsonValue> = Vec::new();
    let mut i: usize = 0;
    while i < v.len()
        invariant
            i <= v.len(),
            out@.len() == i,
            forall|j: int| 0 <= j < i ==> view_value(#[trigger] out@[j]) == diagnostic_view(v@[j]),
        decreases v.len() - i,
    {
        out.push(diagnostic_tree(&v[i]));
        i += 1;
    }
    proof {
        lemma_view_items_index(out@);
        assert(view_items(out@) =~= Seq::new(v@.len(), |i: int| diagnostic_view(v@[i])));
    }
    JsonValue::Array(out)
}

pub open spec fn diagnostics_file_view(f: DiagnosticsFile) -> JsonView {
    JsonView::Object(seq![("diagnostics"@, diagnostics_view(f.diagnostics@)), ("uri"@, text_view(f.uri))])
}

pub fn diagnostics_file_tree(f: &DiagnosticsFile) -> (r: JsonValue)
    ensures
        r@ == diagnostics_file_view(*f),
{
    let mut m: Vec<(String, JsonValue)> = Vec::new();
    assert(view_members(m@) == Seq::<(Seq<char>, JsonView)>::empty());
    push_member(&mut m, "diagnostics", diagnostics_tree(&f.diagnostics));
    push_member(&mut m, "uri", text_value(f.uri.as_str()));
    assert(view_members(m@) =~= seq![("diagnostics"@, diagnostics_view(f.diagnostics@)), ("uri"@, text_view(f.uri))]);
    JsonValue::Object(m)
}

pub open spec fn diagnostics_files_view(v: Seq<DiagnosticsFile>) -> JsonView {
    JsonView::Array(Seq::new(v.len(), |i: int| diagnostics_file_view(v[i])))
}

pub fn diagnostics_files_tree(v: &Vec<DiagnosticsFile>) -> (r: JsonValue)
    ensures
        r@ == diagnostics_files_view(v@),
{
    let mut out: Vec<JsonValue> = Vec::new();
    let mut i: usize = 0;
    while i < v.len()
        invariant
            i <= v.len(),
            out@.len() == i,
            forall|j: int| 0 <= j < i ==> view_value(#[trigger] out@[j]) == diagnostics_file_view(v@[j]),
        decreases v.len() - i,
    {
        out.push(diagnostics_file_tree(&v[i]));
        i += 1;
    }
    proof {
        lemma_view_items_index(out@);
        assert(view_items(out@) =~= Seq::new(v@.len(), |i: int| diagnostics_file_view(v@[i])));
    }
    JsonValue::Array(out)
}

} // verus!
