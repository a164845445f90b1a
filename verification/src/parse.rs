//! Turning the entries of one transcript file into table rows.
//!
//! Every row is a list of cells in the column order of its table, with the
//! `entry_id` placeholder (NULL) at index 0; whoever writes the rows assigns
//! the ids.

use crate::cells::{
    cell_bool, cell_int, cell_opt_bool, cell_opt_seq, cell_opt_text, cell_text, int_cell, nulls, ob,
    opt_text_of, s_str, text_of,
};
use crate::json::{str_equal, JsonNumber, JsonValue, JsonView};
use crate::paths::{
    agent_id_of, detect_subagent, extract_agent_id_from_filename, iso_from_systime, subagent_info,
    utc_iso_text, PathPart,
};
use crate::types::{Entry, Envelope};
use crate::variants::{
    build_variant, entry_unknowns, models_after, subtype_name, subtype_str, variant_rows,
};
use vstd::prelude::*;

verus! {

/// The rows of one entry: its `entries` row, its variant-table row and its
/// child-table rows.
pub struct EntryRows {
    pub entry: Vec<JsonValue>,
    pub variant: Option<(&'static str, Vec<JsonValue>)>,
    pub children: Vec<(&'static str, Vec<Vec<JsonValue>>)>,
}

/// Model of the rows of one entry.
pub struct RowsView {
    pub entry: Seq<JsonView>,
    pub variant: Option<(Seq<char>, Seq<JsonView>)>,
    pub children: Seq<(Seq<char>, Seq<Seq<JsonView>>)>,
}

impl View for EntryRows {
    type V = RowsView;

    open spec fn view(&self) -> RowsView {
        RowsView {
            entry: self.entry.deep_view(),
            variant: self.variant.deep_view(),
            children: self.children.deep_view(),
        }
    }
}

impl DeepView for EntryRows {
    type V = RowsView;

    open spec fn deep_view(&self) -> RowsView {
        self@
    }
}

/// The `transcripts` row of one file.
#[derive(Clone, Debug, PartialEq, Eq)]
pub struct TranscriptCols {
    pub file_path: String,
    pub session_id: Option<String>,
    pub is_subagent: bool,
    pub agent_id: Option<String>,
    pub parent_session_id: Option<String>,
    pub entry_count: u32,
    pub first_timestamp: Option<String>,
    pub last_timestamp: Option<String>,
    pub mtime: Option<String>,
}

// ─── Kinds of entries ────────────────────────────────────────────────────

/// The stored `type` of an entry.
pub open spec fn entry_type_name(e: Entry) -> Seq<char> {
    match e {
        Entry::User(_) => "user"@,
        Entry::Assistant(_) => "assistant"@,
        Entry::System(_) => "system"@,
        Entry::Attachment(_) => "attachment"@,
        Entry::Progress(_) => "progress"@,
        Entry::PermissionMode(_) => "permission-mode"@,
        Entry::LastPrompt(_) => "last-prompt"@,
        Entry::AiTitle(_) => "ai-title"@,
        Entry::CustomTitle(_) => "custom-title"@,
        Entry::AgentName(_) => "agent-name"@,
        Entry::AgentColor(_) => "agent-color"@,
        Entry::AgentSetting(_) => "agent-setting"@,
        Entry::Tag(_) => "tag"@,
        Entry::Summary(_) => "summary"@,
        Entry::TaskSummary(_) => "task-summary"@,
        Entry::PrLink(_) => "pr-link"@,
        Entry::Mode(_) => "mode"@,
        Entry::WorktreeState(_) => "worktree-state"@,
        Entry::ContentReplacement(_) => "content-replacement"@,
        Entry::FileHistorySnapshot(_) => "file-history-snapshot"@,
        Entry::AttributionSnapshot(_) => "attribution-snapshot"@,
        Entry::QueueOperation(_) => "queue-operation"@,
        Entry::ContextCollapseCommit(_) => "marble-origami-commit"@,
        Entry::ContextCollapseSnapshot(_) => "marble-origami-snapshot"@,
        Entry::SpeculationAccept(_) => "speculation-accept"@,
        Entry::Unknown => Seq::empty(),
    }
}

/// The stored subtype: only system entries have one.
pub open spec fn entry_subtype(e: Entry) -> Option<Seq<char>> {
    match e {
        Entry::System(s) => Some(subtype_name(s.subtype)),
        _ => None,
    }
}

/// The type and subtype of an entry that is not of unknown type.
pub fn entry_type_and_subtype(e: &Entry) -> (r: (&'static str, Option<String>))
    requires
        !(*e is Unknown),
    ensures
        r.0@ == entry_type_name(*e),
        r.1.deep_view() == entry_subtype(*e),
{
    match e {
        Entry::User(_) => ("user", None),
        Entry::Assistant(_) => ("assistant", None),
        Entry::System(s) => ("system", Some(String::from_str(subtype_str(s.subtype)))),
        Entry::Attachment(_) => ("attachment", None),
        Entry::Progress(_) => ("progress", None),
        Entry::PermissionMode(_) => ("permission-mode", None),
        Entry::LastPrompt(_) => ("last-prompt", None),
        Entry::AiTitle(_) => ("ai-title", None),
        Entry::CustomTitle(_) => ("custom-title", None),
        Entry::AgentName(_) => ("agent-name", None),
        Entry::AgentColor(_) => ("agent-color", None),
        Entry::AgentSetting(_) => ("agent-setting", None),
        Entry::Tag(_) => ("tag", None),
        Entry::Summary(_) => ("summary", None),
        Entry::TaskSummary(_) => ("task-summary", None),
        Entry::PrLink(_) => ("pr-link", None),
        Entry::Mode(_) => ("mode", None),
        Entry::WorktreeState(_) => ("worktree-state", None),
        Entry::ContentReplacement(_) => ("content-replacement", None),
        Entry::FileHistorySnapshot(_) => ("file-history-snapshot", None),
        Entry::AttributionSnapshot(_) => ("attribution-snapshot", None),
        Entry::QueueOperation(_) => ("queue-operation", None),
        Entry::ContextCollapseCommit(_) => ("marble-origami-commit", None),
        Entry::ContextCollapseSnapshot(_) => ("marble-origami-snapshot", None),
        Entry::SpeculationAccept(_) => ("speculation-accept", None),
        Entry::Unknown => ("", None),
    }
}

/// The envelope of a message-bearing entry.
pub open spec fn entry_envelope(e: Entry) -> Option<Envelope> {
    match e {
        Entry::User(x) => Some(x.envelope),
        Entry::Assistant(x) => Some(x.envelope),
        Entry::System(x) => Some(x.envelope),
        Entry::Attachment(x) => Some(x.envelope),
        Entry::Progress(x) => Some(x.envelope),
        _ => None,
    }
}

pub fn envelope_of(e: &Entry) -> (r: Option<&Envelope>)
    ensures
        match r {
            Some(env) => entry_envelope(*e) == Some(*env),
            None => entry_envelope(*e) is None,
        },
{
    match e {
        Entry::User(x) => Some(&x.envelope),
        Entry::Assistant(x) => Some(&x.envelope),
        Entry::System(x) => Some(&x.envelope),
        Entry::Attachment(x) => Some(&x.envelope),
        Entry::Progress(x) => Some(&x.envelope),
        _ => None,
    }
}

/// The session id that a metadata-only entry carries.
pub open spec fn metadata_sid(e: Entry) -> Option<Seq<char>> {
    match e {
        Entry::PermissionMode(x) => Some(x.session_id@),
        Entry::LastPrompt(x) => Some(x.session_id@),
        Entry::AiTitle(x) => Some(x.session_id@),
        Entry::CustomTitle(x) => Some(x.session_id@),
        Entry::AgentName(x) => Some(x.session_id@),
        Entry::AgentColor(x) => Some(x.session_id@),
        Entry::AgentSetting(x) => Some(x.session_id@),
        Entry::Tag(x) => Some(x.session_id@),
        Entry::Summary(x) => Some(x.session_id@),
        Entry::TaskSummary(x) => Some(x.session_id@),
        Entry::PrLink(x) => Some(x.session_id@),
        Entry::Mode(x) => Some(x.session_id@),
        Entry::WorktreeState(x) => Some(x.session_id@),
        Entry::ContentReplacement(x) => Some(x.session_id@),
        Entry::QueueOperation(x) => Some(x.session_id@),
        Entry::ContextCollapseCommit(x) => Some(x.session_id@),
        Entry::ContextCollapseSnapshot(x) => Some(x.session_id@),
        _ => None,
    }
}

pub fn metadata_session_id(e: &Entry) -> (r: Option<&String>)
    ensures
        match r {
            Some(sid) => metadata_sid(*e) == Some(sid@),
            None => metadata_sid(*e) is None,
        },
{
    match e {
        Entry::PermissionMode(x) => Some(&x.session_id),
        Entry::LastPrompt(x) => Some(&x.session_id),
        Entry::AiTitle(x) => Some(&x.session_id),
        Entry::CustomTitle(x) => Some(&x.session_id),
        Entry::AgentName(x) => Some(&x.session_id),
        Entry::AgentColor(x) => Some(&x.session_id),
        Entry::AgentSetting(x) => Some(&x.session_id),
        Entry::Tag(x) => Some(&x.session_id),
        Entry::Summary(x) => Some(&x.session_id),
        Entry::TaskSummary(x) => Some(&x.session_id),
        Entry::PrLink(x) => Some(&x.session_id),
        Entry::Mode(x) => Some(&x.session_id),
        Entry::WorktreeState(x) => Some(&x.session_id),
        Entry::ContentReplacement(x) => Some(&x.session_id),
        Entry::QueueOperation(x) => Some(&x.session_id),
        Entry::ContextCollapseCommit(x) => Some(&x.session_id),
        Entry::ContextCollapseSnapshot(x) => Some(&x.session_id),
        _ => None,
    }
}

// ─── Ordering of timestamps ──────────────────────────────────────────────

/// Lexicographic order of strings by character code, which for UTF-8 text
/// is the byte order in which Rust orders strings.
pub open spec fn text_less(a: Seq<char>, b: Seq<char>) -> bool
    decreases a.len(),
{
    if a.len() == 0 {
        b.len() > 0
    } else if b.len() == 0 {
        false
    } else if a[0] != b[0] {
        (a[0] as u32) < (b[0] as u32)
    } else {
        text_less(a.drop_first(), b.drop_first())
    }
}

pub proof fn lemma_text_less_skip(a: Seq<char>, b: Seq<char>, i: int)
    requires
        0 <= i <= a.len(),
        i <= b.len(),
        forall|j: int| 0 <= j < i ==> a[j] == b[j],
    ensures
        text_less(a, b) == text_less(a.skip(i), b.skip(i)),
    decreases i,
{
    if i > 0 {
        assert(a[0] == b[0]);
        assert(a.drop_first().skip(i - 1) =~= a.skip(i));
        assert(b.drop_first().skip(i - 1) =~= b.skip(i));
        lemma_text_less_skip(a.drop_first(), b.drop_first(), i - 1);
    } else {
        assert(a.skip(0) =~= a);
        assert(b.skip(0) =~= b);
    }
}

/// Whether `a` comes before `b`.
pub fn str_less(a: &str, b: &str) -> (r: bool)
    ensures
        r == text_less(a@, b@),
{
    let na = a.unicode_len();
    let nb = b.unicode_len();
    let mut i: usize = 0;
    while i < na && i < nb
        invariant
            i <= na,
            i <= nb,
            na == a@.len(),
            nb == b@.len(),
            forall|j: int| 0 <= j < i ==> a@[j] == b@[j],
        decreases na - i,
    {
        let ca = a.get_char(i);
        let cb = b.get_char(i);
        if ca != cb {
            proof {
                lemma_text_less_skip(a@, b@, i as int);
                assert(a@.skip(i as int)[0] == ca);
                assert(b@.skip(i as int)[0] == cb);
            }
            return (ca as u32) < (cb as u32);
        }
        i += 1;
    }
    proof {
        lemma_text_less_skip(a@, b@, i as int);
    }
    i == na && i < nb
}

// ─── The `entries` row and the transcript header ─────────────────────────

/// The twenty envelope cells of an `entries` row (from `uuid` on).
pub open spec fn envelope_cells(env: Envelope) -> Seq<JsonView> {
    seq![
        cell_text(env.uuid@),
        cell_opt_text(env.parent_uuid),
        cell_opt_text(env.logical_parent_uuid),
        cell_bool(env.is_sidechain),
        cell_text(env.session_id@),
        cell_text(env.timestamp@),
        cell_opt_text(env.user_type),
        cell_opt_text(env.entrypoint),
        cell_opt_text(env.cwd),
        cell_opt_text(env.version),
        cell_opt_text(env.git_branch),
        cell_opt_text(env.slug),
        cell_opt_text(env.agent_id),
        cell_opt_text(env.team_name),
        cell_opt_text(env.agent_name),
        cell_opt_text(env.agent_color),
        cell_opt_text(env.prompt_id),
        cell_opt_bool(env.is_meta),
        match env.forked_from {
            Some(f) => cell_text(f.message_uuid@),
            None => JsonView::Null,
        },
        match env.forked_from {
            Some(f) => cell_text(f.session_id@),
            None => JsonView::Null,
        },
    ]
}

/// The `entries` row: entry id, file, line, type, subtype, then the envelope
/// cells, or NULLs but for the session id of a metadata-only entry.
pub open spec fn entry_row(e: Entry, line_no: int, file_path: Seq<char>) -> Seq<JsonView> {
    let head = seq![
        JsonView::Null,
        cell_text(file_path),
        cell_int(line_no),
        cell_text(entry_type_name(e)),
        cell_opt_seq(entry_subtype(e)),
    ];
    match entry_envelope(e) {
        Some(env) => head + envelope_cells(env),
        None => match metadata_sid(e) {
            Some(sid) => (head + nulls(20)).update(9, cell_text(sid)),
            None => head + nulls(20),
        },
    }
}

/// The session id of the transcript: the first one any entry carries.
pub open spec fn next_session_id(sid: Option<Seq<char>>, e: Entry) -> Option<Seq<char>> {
    if sid is Some {
        sid
    } else {
        match entry_envelope(e) {
            Some(env) => Some(env.session_id@),
            None => metadata_sid(e),
        }
    }
}

/// The earliest envelope timestamp so far.
pub open spec fn next_first_ts(first: Option<Seq<char>>, e: Entry) -> Option<Seq<char>> {
    match entry_envelope(e) {
        Some(env) => match first {
            Some(f) => if text_less(env.timestamp@, f) {
                Some(env.timestamp@)
            } else {
                first
            },
            None => Some(env.timestamp@),
        },
        None => first,
    }
}

/// The latest envelope timestamp so far.
pub open spec fn next_last_ts(last: Option<Seq<char>>, e: Entry) -> Option<Seq<char>> {
    match entry_envelope(e) {
        Some(env) => match last {
            Some(l) => if text_less(l, env.timestamp@) {
                Some(env.timestamp@)
            } else {
                last
            },
            None => Some(env.timestamp@),
        },
        None => last,
    }
}

/// The rows of an entry, as `build_rows` makes them.
pub open spec fn rows_of(e: Entry, line_no: int, file_path: Seq<char>, cost: Option<JsonNumber>) -> RowsView {
    let (variant, children) = variant_rows(e, cost);
    RowsView { entry: entry_row(e, line_no, file_path), variant, children }
}

fn envelope_row_cells(env: &Envelope, row: &mut Vec<JsonValue>)
    ensures
        final(row).deep_view() == old(row).deep_view() + envelope_cells(*env),
{
    let mut cells = vec![
        text_of(&env.uuid),
        opt_text_of(&env.parent_uuid),
        opt_text_of(&env.logical_parent_uuid),
        JsonValue::Bool(env.is_sidechain),
        text_of(&env.session_id),
        text_of(&env.timestamp),
        opt_text_of(&env.user_type),
        opt_text_of(&env.entrypoint),
        opt_text_of(&env.cwd),
        opt_text_of(&env.version),
        opt_text_of(&env.git_branch),
        opt_text_of(&env.slug),
        opt_text_of(&env.agent_id),
        opt_text_of(&env.team_name),
        opt_text_of(&env.agent_name),
        opt_text_of(&env.agent_color),
        opt_text_of(&env.prompt_id),
        ob(env.is_meta),
        match &env.forked_from {
            Some(f) => text_of(&f.message_uuid),
            None => JsonValue::Null,
        },
        match &env.forked_from {
            Some(f) => text_of(&f.session_id),
            None => JsonValue::Null,
        },
    ];
    assert(cells.deep_view() =~= envelope_cells(*env));
    let ghost before = row.deep_view();
    let ghost added = cells.deep_view();
    row.append(&mut cells);
    assert(row.deep_view() =~= before + added);
}

fn update_first(first_ts: &mut Option<String>, ts: &String)
    ensures
        final(first_ts).deep_view() == match old(first_ts).deep_view() {
            Some(f) => if text_less(ts@, f) {
                Some(ts@)
            } else {
                old(first_ts).deep_view()
            },
            None => Some(ts@),
        },
{
    let replace = match first_ts {
        Some(f) => str_less(ts.as_str(), f.as_str()),
        None => true,
    };
    if replace {
        *first_ts = Some(ts.clone());
    }
}

fn update_last(last_ts: &mut Option<String>, ts: &String)
    ensures
        final(last_ts).deep_view() == match old(last_ts).deep_view() {
            Some(l) => if text_less(l, ts@) {
                Some(ts@)
            } else {
                old(last_ts).deep_view()
            },
            None => Some(ts@),
        },
{
    let replace = match last_ts {
        Some(l) => str_less(l.as_str(), ts.as_str()),
        None => true,
    };
    if replace {
        *last_ts = Some(ts.clone());
    }
}

/// The rows of an entry that is not of unknown type, together with the
/// transcript header (session id, first and last timestamp) and the lists of
/// unpriced models and dropped variants updated by it. `cost` is what the
/// price table gives for an assistant message. The result is always `Ok`.
pub fn build_rows(
    entry: &Entry,
    line_no: i64,
    file_path: &str,
    cost: &Option<JsonNumber>,
    session_id_out: &mut Option<String>,
    first_ts: &mut Option<String>,
    last_ts: &mut Option<String>,
    unknown_models: &mut Vec<String>,
    unknown_variants: &mut Vec<String>,
) -> (r: Result<EntryRows, String>)
    requires
        !(*entry is Unknown),
    ensures
        r is Ok,
        r.unwrap()@ == rows_of(*entry, line_no as int, file_path@, *cost),
        final(session_id_out).deep_view() == next_session_id(old(session_id_out).deep_view(), *entry),
        final(first_ts).deep_view() == next_first_ts(old(first_ts).deep_view(), *entry),
        final(last_ts).deep_view() == next_last_ts(old(last_ts).deep_view(), *entry),
        final(unknown_models).deep_view() == models_after(old(unknown_models).deep_view(), *entry, *cost),
        final(unknown_variants).deep_view() == old(unknown_variants).deep_view() + entry_unknowns(*entry),
{
    let mut e_row: Vec<JsonValue> = Vec::new();
    e_row.push(JsonValue::Null);
    e_row.push(s_str(file_path));
    e_row.push(int_cell(line_no));
    let (kind, subtype) = entry_type_and_subtype(entry);
    e_row.push(s_str(kind));
    e_row.push(
        match subtype {
            Some(t) => JsonValue::String(t),
            None => JsonValue::Null,
        },
    );
    let ghost head = e_row.deep_view();
    assert(head =~= seq![
        JsonView::Null,
        cell_text(file_path@),
        cell_int(line_no as int),
        cell_text(entry_type_name(*entry)),
        cell_opt_seq(entry_subtype(*entry)),
    ]);

    match envelope_of(entry) {
        Some(env) => {
            envelope_row_cells(env, &mut e_row);
            if session_id_out.is_none() {
                *session_id_out = Some(env.session_id.clone());
            }
            update_first(first_ts, &env.timestamp);
            update_last(last_ts, &env.timestamp);
        },
        None => {
            let mut k: usize = 0;
            while k < 20
                invariant
                    k <= 20,
                    e_row.deep_view() == head + nulls(k as nat),
                decreases 20 - k,
            {
                let ghost before = e_row.deep_view();
                e_row.push(JsonValue::Null);
                assert(e_row.deep_view() =~= before.push(JsonView::Null));
                assert(head + nulls((k + 1) as nat) =~= (head + nulls(k as nat)).push(JsonView::Null));
                k += 1;
            }
            if let Some(sid) = metadata_session_id(entry) {
                let ghost before = e_row.deep_view();
                e_row.set(9, text_of(sid));
                assert(e_row.deep_view() =~= before.update(9, cell_text(sid@)));
                if session_id_out.is_none() {
                    *session_id_out = Some(sid.clone());
                }
            }
        },
    }
    assert(e_row.deep_view() =~= entry_row(*entry, line_no as int, file_path@));

    let built = build_variant(entry, cost, unknown_models, unknown_variants);
    match built {
        Ok((variant, children)) => Ok(EntryRows { entry: e_row, variant, children }),
        Err(msg) => Err(msg),
    }
}

// ─── One file, line by line ──────────────────────────────────────────────

/// What became of one non-empty line of a transcript file.
pub enum LineEvent {
    /// Reading the line failed, with this message; reading stops there.
    ReadError(String),
    /// The line is not JSON, with the parser's message.
    NotJson(String),
    /// The line is JSON but not an entry, with the parser's message.
    TypedParseError(String),
    /// The line holds this entry.
    Parsed(Entry),
    /// The line holds nothing to parse once cleaned.
    Blank,
}

impl LineEvent {
    /// Whether reading stops after this event: it does after a read error.
    pub fn ends_reading(&self) -> (r: bool)
        ensures
            r == (*self is ReadError),
    {
        match self {
            LineEvent::ReadError(_) => true,
            _ => false,
        }
    }
}

/// Everything gathered from a file so far.
pub struct ParseState {
    pub file_path: String,
    pub entries: Vec<EntryRows>,
    pub failures: Vec<(usize, String)>,
    pub session_id: Option<String>,
    pub first_ts: Option<String>,
    pub last_ts: Option<String>,
    pub unknown_models: Vec<String>,
    pub unknown_variants: Vec<String>,
}

/// Model of the gathered state.
pub struct StateView {
    pub file_path: Seq<char>,
    pub entries: Seq<RowsView>,
    pub failures: Seq<(usize, Seq<char>)>,
    pub session_id: Option<Seq<char>>,
    pub first_ts: Option<Seq<char>>,
    pub last_ts: Option<Seq<char>>,
    pub unknown_models: Seq<Seq<char>>,
    pub unknown_variants: Seq<Seq<char>>,
}

impl View for ParseState {
    type V = StateView;

    open spec fn view(&self) -> StateView {
        StateView {
            file_path: self.file_path@,
            entries: self.entries.deep_view(),
            failures: self.failures.deep_view(),
            session_id: self.session_id.deep_view(),
            first_ts: self.first_ts.deep_view(),
            last_ts: self.last_ts.deep_view(),
            unknown_models: self.unknown_models.deep_view(),
            unknown_variants: self.unknown_variants.deep_view(),
        }
    }
}

/// Nothing gathered yet.
pub open spec fn empty_state(file_path: Seq<char>) -> StateView {
    StateView {
        file_path,
        entries: Seq::empty(),
        failures: Seq::empty(),
        session_id: None,
        first_ts: None,
        last_ts: None,
        unknown_models: Seq::empty(),
        unknown_variants: Seq::empty(),
    }
}

/// A failure recorded at `line_no`.
pub open spec fn with_failure(st: StateView, line_no: usize, msg: Seq<char>) -> StateView {
    StateView { failures: st.failures.push((line_no, msg)), ..st }
}

/// The state after an entry at `line_no`: an entry of unknown type is
/// skipped; any other adds its rows and updates the header and the lists.
pub open spec fn with_entry(st: StateView, line_no: usize, e: Entry, cost: Option<JsonNumber>) -> StateView {
    if e is Unknown {
        st
    } else {
        StateView {
            entries: st.entries.push(rows_of(e, (line_no as i64) as int, st.file_path, cost)),
            session_id: next_session_id(st.session_id, e),
            first_ts: next_first_ts(st.first_ts, e),
            last_ts: next_last_ts(st.last_ts, e),
            unknown_models: models_after(st.unknown_models, e, cost),
            unknown_variants: st.unknown_variants + entry_unknowns(e),
            ..st
        }
    }
}

/// The state after one event at `line_no`.
pub open spec fn next_state(st: StateView, line_no: usize, ev: LineEvent, cost: Option<JsonNumber>) -> StateView {
    match ev {
        LineEvent::ReadError(m) => with_failure(st, line_no, "io: "@ + m@),
        LineEvent::NotJson(m) => with_failure(st, line_no, "not json: "@ + m@),
        LineEvent::TypedParseError(m) => with_failure(st, line_no, "typed parse: "@ + m@),
        LineEvent::Parsed(e) => with_entry(st, line_no, e, cost),
        LineEvent::Blank => st,
    }
}

/// The state after the events `evs`, each with its line number and the
/// price-table cost handed in with it, taken in order.
pub open spec fn run(st: StateView, evs: Seq<(usize, LineEvent, Option<JsonNumber>)>) -> StateView
    decreases evs.len(),
{
    if evs.len() == 0 {
        st
    } else {
        let (line_no, ev, cost) = evs.last();
        next_state(run(st, evs.drop_last()), line_no, ev, cost)
    }
}

/// The events up to and including the first read error; all of them when
/// there is none.
pub open spec fn read_prefix(evs: Seq<(usize, LineEvent, Option<JsonNumber>)>) -> Seq<(usize, LineEvent, Option<JsonNumber>)>
    decreases evs.len(),
{
    if evs.len() == 0 {
        evs
    } else if evs[0].1 is ReadError {
        evs.take(1)
    } else {
        seq![evs[0]] + read_prefix(evs.drop_first())
    }
}

/// What a file yields: from its read lines, or, when it could not be
/// opened, the one failure saying why.
pub open spec fn file_state(file_path: Seq<char>, lines: Result<Seq<(usize, LineEvent, Option<JsonNumber>)>, Seq<char>>) -> StateView {
    match lines {
        Ok(evs) => run(empty_state(file_path), read_prefix(evs)),
        Err(msg) => with_failure(empty_state(file_path), 0, "open: "@ + msg),
    }
}

proof fn lemma_read_prefix(evs: Seq<(usize, LineEvent, Option<JsonNumber>)>, i: int)
    requires
        0 <= i <= evs.len(),
        forall|j: int| 0 <= j < i ==> !(#[trigger] evs[j].1 is ReadError),
    ensures
        i == evs.len() ==> read_prefix(evs) == evs,
        i < evs.len() && evs[i].1 is ReadError ==> read_prefix(evs) == evs.take(i + 1),
    decreases i,
{
    if i > 0 {
        let rest = evs.drop_first();
        assert forall|j: int| 0 <= j < i - 1 implies !(#[trigger] rest[j].1 is ReadError) by {
            assert(rest[j] == evs[j + 1]);
        }
        lemma_read_prefix(rest, i - 1);
        assert(seq![evs[0]] + rest =~= evs);
        if i < evs.len() && evs[i].1 is ReadError {
            assert(rest[i - 1] == evs[i]);
            assert(seq![evs[0]] + rest.take(i) =~= evs.take(i + 1));
        }
    } else {
        if evs.len() == 0 {
            assert(read_prefix(evs) == evs);
        }
    }
}

fn prefixed(prefix: &str, msg: &String) -> (r: String)
    ensures
        r@ == prefix@ + msg@,
{
    let mut out = String::from_str(prefix);
    out.append(msg.as_str());
    out
}

impl ParseState {
    pub fn new(file_path: String) -> (r: ParseState)
        ensures
            r@ == empty_state(file_path@),
    {
        let r = ParseState {
            file_path,
            entries: Vec::new(),
            failures: Vec::new(),
            session_id: None,
            first_ts: None,
            last_ts: None,
            unknown_models: Vec::new(),
            unknown_variants: Vec::new(),
        };
        assert(r@.entries =~= Seq::<RowsView>::empty());
        assert(r@.failures =~= Seq::<(usize, Seq<char>)>::empty());
        assert(r@.unknown_models =~= Seq::<Seq<char>>::empty());
        assert(r@.unknown_variants =~= Seq::<Seq<char>>::empty());
        r
    }

    /// Records that the file could not be opened, with the reason.
    pub fn record_open_error(&mut self, msg: &String)
        ensures
            final(self)@ == with_failure(old(self)@, 0, "open: "@ + msg@),
    {
        let m = prefixed("open: ", msg);
        let ghost mv = m@;
        self.failures.push((0, m));
        assert(self.failures.deep_view() =~= old(self).failures.deep_view().push((0usize, mv)));
    }

    /// Takes in one event for the line numbered `line_no`; `cost` is what the
    /// price table gives for the message when the event is an assistant
    /// entry. Returns whether to go on reading.
    pub fn step(&mut self, line_no: usize, ev: LineEvent, cost: &Option<JsonNumber>) -> (go_on: bool)
        ensures
            final(self)@ == next_state(old(self)@, line_no, ev, *cost),
            go_on == !(ev is ReadError),
    {
        match ev {
            LineEvent::ReadError(m) => {
                let msg = prefixed("io: ", &m);
                let ghost mv = msg@;
                self.failures.push((line_no, msg));
                assert(self.failures.deep_view() =~= old(self).failures.deep_view().push((line_no, mv)));
                false
            },
            LineEvent::NotJson(m) => {
                let msg = prefixed("not json: ", &m);
                let ghost mv = msg@;
                self.failures.push((line_no, msg));
                assert(self.failures.deep_view() =~= old(self).failures.deep_view().push((line_no, mv)));
                true
            },
            LineEvent::TypedParseError(m) => {
                let msg = prefixed("typed parse: ", &m);
                let ghost mv = msg@;
                self.failures.push((line_no, msg));
                assert(self.failures.deep_view() =~= old(self).failures.deep_view().push((line_no, mv)));
                true
            },
            LineEvent::Blank => true,
            LineEvent::Parsed(entry) => {
                if let Entry::Unknown = entry {
                    return true;
                }
                let built = build_rows(
                    &entry,
                    line_no as i64,
                    self.file_path.as_str(),
                    cost,
                    &mut self.session_id,
                    &mut self.first_ts,
                    &mut self.last_ts,
                    &mut self.unknown_models,
                    &mut self.unknown_variants,
                );
                match built {
                    Ok(rows) => {
                        let ghost rv = rows@;
                        self.entries.push(rows);
                        assert(self.entries.deep_view() =~= old(self).entries.deep_view().push(rv));
                    },
                    Err(e) => {
                        self.failures.push((line_no, e));
                    },
                }
                true
            },
        }
    }

    /// The gathered rows, with the `transcripts` row made of the header and
    /// the facts about the file given here.
    pub fn finish(
        self,
        is_subagent: bool,
        agent_id: Option<String>,
        parent_session_id: Option<String>,
        mtime: Option<String>,
    ) -> (r: ParsedFile)
        ensures
            r.transcript.file_path@ == self@.file_path,
            r.transcript.session_id.deep_view() == self@.session_id,
            r.transcript.is_subagent == is_subagent,
            r.transcript.agent_id == agent_id,
            r.transcript.parent_session_id == parent_session_id,
            r.transcript.entry_count == self.entries.len() as u32,
            r.transcript.first_timestamp.deep_view() == self@.first_ts,
            r.transcript.last_timestamp.deep_view() == self@.last_ts,
            r.transcript.mtime == mtime,
            r.entries.deep_view() == self@.entries,
            r.failures.deep_view() == self@.failures,
            r.unknown_models.deep_view() == self@.unknown_models,
            r.unknown_variants.deep_view() == self@.unknown_variants,
    {
        let entry_count = self.entries.len() as u32;
        ParsedFile {
            transcript: TranscriptCols {
                file_path: self.file_path,
                session_id: self.session_id,
                is_subagent,
                agent_id,
                parent_session_id,
                entry_count,
                first_timestamp: self.first_ts,
                last_timestamp: self.last_ts,
                mtime,
            },
            entries: self.entries,
            failures: self.failures,
            unknown_models: self.unknown_models,
            unknown_variants: self.unknown_variants,
        }
    }
}

/// The state after the events up to and including the first read error.
fn take_events(file_path: String, events: Vec<(usize, LineEvent, Option<JsonNumber>)>) -> (state: ParseState)
    ensures
        state@ == run(empty_state(file_path@), read_prefix(events@)),
        state@.file_path == file_path@,
{
    let ghost fp = file_path@;
    let ghost evs = events@;
    let mut state = ParseState::new(file_path);
    let mut stopped = false;
    for item in iter: events
        invariant
            iter.seq() == evs,
            state@.file_path == fp,
            !stopped ==> state@ == run(empty_state(fp), evs.take(iter.index())),
            !stopped ==> forall|j: int| 0 <= j < iter.index() ==> !(#[trigger] evs[j].1 is ReadError),
            stopped ==> state@ == run(empty_state(fp), read_prefix(evs)),
    {
        if !stopped {
            let ghost k = iter.index();
            let (line_no, ev, cost) = item;
            let ends = ev.ends_reading();
            let ghost st0 = state@;
            state.step(line_no, ev, &cost);
            proof {
                assert(evs.take(k + 1).drop_last() =~= evs.take(k));
                assert(evs.take(k + 1).last() == evs[k]);
                assert(state@ == run(empty_state(fp), evs.take(k + 1)));
                if ends {
                    lemma_read_prefix(evs, k);
                }
            }
            if ends {
                stopped = true;
            }
        }
    }
    proof {
        if !stopped {
            lemma_read_prefix(evs, evs.len() as int);
            assert(evs.take(evs.len() as int) =~= evs);
        }
    }
    state
}

/// Everything gathered from one file, given what was read from it: the
/// numbered line events in the order read (reading stops at the first read
/// error, and later events are not taken), or the reason the file could not
/// be opened. The path's components and the modification time (seconds and
/// nanoseconds since the Unix epoch) give the rest of the `transcripts` row.
pub fn parse_lines(
    file_path: String,
    parts: &Vec<PathPart>,
    mtime: Option<(i64, u32)>,
    lines: Result<Vec<(usize, LineEvent, Option<JsonNumber>)>, String>,
) -> (r: ParsedFile)
    ensures
        ({
            let fin = file_state(
                file_path@,
                match lines {
                    Ok(v) => Ok(v@),
                    Err(m) => Err(m@),
                },
            );
            &&& r.transcript.file_path@ == file_path@
            &&& r.transcript.session_id.deep_view() == fin.session_id
            &&& r.transcript.is_subagent == subagent_info(parts@).0
            &&& r.transcript.agent_id.deep_view() == agent_id_of(parts@)
            &&& r.transcript.parent_session_id.deep_view() == subagent_info(parts@).1
            &&& r.transcript.entry_count == r.entries.len() as u32
            &&& r.transcript.first_timestamp.deep_view() == fin.first_ts
            &&& r.transcript.last_timestamp.deep_view() == fin.last_ts
            &&& r.transcript.mtime.deep_view() == match mtime {
                Some(t) => utc_iso_text(t.0 as int, t.1 as int),
                None => None,
            }
            &&& r.entries.deep_view() == fin.entries
            &&& r.failures.deep_view() == fin.failures
            &&& r.unknown_models.deep_view() == fin.unknown_models
            &&& r.unknown_variants.deep_view() == fin.unknown_variants
        }),
{
    let mtime_text = match mtime {
        Some((secs, nanos)) => iso_from_systime(secs, nanos),
        None => None,
    };
    let (is_subagent, parent_session_id) = detect_subagent(parts);
    let agent_id = extract_agent_id_from_filename(parts);
    let state = match lines {
        Err(msg) => {
            let mut st = ParseState::new(file_path);
            st.record_open_error(&msg);
            st
        },
        Ok(events) => take_events(file_path, events),
    };
    let r = state.finish(is_subagent, agent_id, parent_session_id, mtime_text);
    assert(r.entries.deep_view().len() == r.entries.len());
    r
}

/// Everything gathered from one file.
pub struct ParsedFile {
    pub transcript: TranscriptCols,
    pub entries: Vec<EntryRows>,
    pub failures: Vec<(usize, String)>,
    pub unknown_models: Vec<String>,
    /// Names of the enums that had unrecognised variants dropped.
    pub unknown_variants: Vec<String>,
}

} // verus!
