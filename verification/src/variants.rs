//! Rows of the variant tables and their child tables, one builder per kind
//! of entry.

use crate::cells::{
    b, cell_bool, cell_int, cell_json, cell_opt_bool, cell_opt_json, cell_opt_number,
    cell_opt_opt_json, cell_opt_seq, cell_opt_text, cell_opt_u32, cell_opt_uint, cell_text,
    cell_uint, int_cell, json_str, nulls, ob, of, opt_json_of, opt_opt_json, opt_text_of, ou, ou32,
    s, s_str,
    text_of, u,
};
use crate::encode::{
    diagnostics_files_tree, diagnostics_files_view, diagnostics_tree, diagnostics_view,
    document_source_json, document_source_view, file_content_json, file_content_view,
    image_source_json, image_source_view, invoked_skills_tree, invoked_skills_view,
    skill_invocation_tree, skill_invocation_view, snapshot_json, snapshot_view, staged_spans_tree,
    staged_spans_view, strings_json, strings_view, uints_json, uints_view, values_json, values_view,
    worktree_session_json, worktree_session_view,
};
use crate::json::{
    lemma_view_items_index, lookup, str_equal, view_as_str, view_as_u64, view_items, JsonNumber,
    JsonValue, JsonView,
};
use crate::types::{
    AssistantContentBlock, AssistantEntry, AssistantRole, AssistantUsage, AttachmentData,
    AttachmentEntry, DocumentSource, Entry, SessionMode, HookInfo, HookResultAttachment, ImageSource, ProgressEntry, SystemEntry, SystemSubtype, UserContent, UserContentBlock, UserEntry,
    UserRole,
};
use vstd::prelude::*;

verus! {

/// An optional row for the entry's own table and rows for child tables,
/// each with its table's name.
pub type BuiltRows = (Option<(&'static str, Vec<JsonValue>)>, Vec<(&'static str, Vec<Vec<JsonValue>>)>);

pub open spec fn progress_row(pe: ProgressEntry) -> Seq<crate::json::JsonView> {
    let d = pe.data;
    seq![
        crate::json::JsonView::Null,
        cell_opt_text(pe.parent_tool_use_id),
        cell_opt_text(pe.tool_use_id),
        cell_text(d.data_type@),
        cell_opt_text(d.hook_event),
        cell_opt_text(d.hook_name),
        cell_opt_text(d.command),
        cell_opt_text(d.agent_id),
        cell_opt_text(d.prompt),
        cell_opt_json(d.message),
        cell_opt_text(d.query),
        cell_opt_u32(d.result_count),
        cell_opt_number(d.elapsed_time_seconds),
        cell_opt_text(d.full_output),
        cell_opt_text(d.output),
        cell_opt_uint(d.timeout_ms),
        cell_opt_uint(d.total_lines),
        cell_opt_uint(d.total_bytes),
        cell_opt_text(d.task_id),
        cell_opt_text(d.server_name),
        cell_opt_text(d.status),
        cell_opt_text(d.tool_name),
        cell_opt_number(d.elapsed_time_ms),
        cell_opt_text(d.task_description),
        cell_opt_text(d.task_type),
    ]
}

/// The `progress_entries` row of a progress entry; it has no child rows.
pub fn build_progress(pe: &ProgressEntry) -> (r: BuiltRows)
    ensures
        r.deep_view() == (Some(("progress_entries"@, progress_row(*pe))), Seq::<(Seq<char>, Seq<Seq<crate::json::JsonView>>)>::empty()),
{
    let d = &pe.data;
    let row = vec![
        JsonValue::Null,
        opt_text_of(&pe.parent_tool_use_id),
        opt_text_of(&pe.tool_use_id),
        text_of(&d.data_type),
        opt_text_of(&d.hook_event),
        opt_text_of(&d.hook_name),
        opt_text_of(&d.command),
        opt_text_of(&d.agent_id),
        opt_text_of(&d.prompt),
        opt_json_of(&d.message),
        opt_text_of(&d.query),
        ou32(d.result_count),
        of(&d.elapsed_time_seconds),
        opt_text_of(&d.full_output),
        opt_text_of(&d.output),
        ou(d.timeout_ms),
        ou(d.total_lines),
        ou(d.total_bytes),
        opt_text_of(&d.task_id),
        opt_text_of(&d.server_name),
        opt_text_of(&d.status),
        opt_text_of(&d.tool_name),
        of(&d.elapsed_time_ms),
        opt_text_of(&d.task_description),
        opt_text_of(&d.task_type),
    ];
    let children: Vec<(&'static str, Vec<Vec<JsonValue>>)> = Vec::new();
    assert(row.deep_view() =~= progress_row(*pe));
    assert(children.deep_view() =~= Seq::<(Seq<char>, Seq<Seq<crate::json::JsonView>>)>::empty());
    (Some(("progress_entries", row)), children)
}

// ─── Shared pieces ───────────────────────────────────────────────────────

/// A child table entry, left out when it has no rows.
pub open spec fn child_table(name: Seq<char>, rows: Seq<Seq<JsonView>>) -> Seq<(Seq<char>, Seq<Seq<JsonView>>)> {
    if rows.len() == 0 {
        Seq::empty()
    } else {
        seq![(name, rows)]
    }
}

pub open spec fn cell_opt_values(o: Option<Vec<JsonValue>>) -> JsonView {
    match o {
        Some(v) => cell_json(values_view(v@)),
        None => JsonView::Null,
    }
}

pub open spec fn cell_opt_strings(o: Option<Vec<String>>) -> JsonView {
    match o {
        Some(v) => cell_json(strings_view(v@)),
        None => JsonView::Null,
    }
}

pub open spec fn cell_opt_uints(o: Option<Vec<u64>>) -> JsonView {
    match o {
        Some(v) => cell_json(uints_view(v@)),
        None => JsonView::Null,
    }
}

fn opt_values_cell(o: &Option<Vec<JsonValue>>) -> (r: JsonValue)
    ensures
        r@ == cell_opt_values(*o),
{
    match o {
        Some(v) => json_str(&values_json(v)),
        None => JsonValue::Null,
    }
}

fn opt_strings_cell(o: &Option<Vec<String>>) -> (r: JsonValue)
    ensures
        r@ == cell_opt_strings(*o),
{
    match o {
        Some(v) => json_str(&strings_json(v)),
        None => JsonValue::Null,
    }
}

fn opt_uints_cell(o: &Option<Vec<u64>>) -> (r: JsonValue)
    ensures
        r@ == cell_opt_uints(*o),
{
    match o {
        Some(v) => json_str(&uints_json(v)),
        None => JsonValue::Null,
    }
}

// ─── System entries ──────────────────────────────────────────────────────

/// The name under which a system subtype is stored.
pub open spec fn subtype_name(st: SystemSubtype) -> Seq<char> {
    match st {
        SystemSubtype::ApiError => "api_error"@,
        SystemSubtype::AwaySummary => "away_summary"@,
        SystemSubtype::BridgeStatus => "bridge_status"@,
        SystemSubtype::CompactBoundary => "compact_boundary"@,
        SystemSubtype::Informational => "informational"@,
        SystemSubtype::LocalCommand => "local_command"@,
        SystemSubtype::ScheduledTaskFire => "scheduled_task_fire"@,
        SystemSubtype::StopHookSummary => "stop_hook_summary"@,
        SystemSubtype::TurnDuration => "turn_duration"@,
        SystemSubtype::MicrocompactBoundary => "microcompact_boundary"@,
        SystemSubtype::PermissionRetry => "permission_retry"@,
        SystemSubtype::AgentsKilled => "agents_killed"@,
        SystemSubtype::Unknown => "unknown"@,
    }
}

pub fn subtype_str(st: SystemSubtype) -> (r: &'static str)
    ensures
        r@ == subtype_name(st),
{
    match st {
        SystemSubtype::ApiError => "api_error",
        SystemSubtype::AwaySummary => "away_summary",
        SystemSubtype::BridgeStatus => "bridge_status",
        SystemSubtype::CompactBoundary => "compact_boundary",
        SystemSubtype::Informational => "informational",
        SystemSubtype::LocalCommand => "local_command",
        SystemSubtype::ScheduledTaskFire => "scheduled_task_fire",
        SystemSubtype::StopHookSummary => "stop_hook_summary",
        SystemSubtype::TurnDuration => "turn_duration",
        SystemSubtype::MicrocompactBoundary => "microcompact_boundary",
        SystemSubtype::PermissionRetry => "permission_retry",
        SystemSubtype::AgentsKilled => "agents_killed",
        SystemSubtype::Unknown => "unknown",
    }
}

/// The eight flattened compact-metadata cells.
pub open spec fn compact_cells(se: SystemEntry) -> Seq<JsonView> {
    match se.compact_metadata {
        None => nulls(8),
        Some(c) => seq![
            cell_text(c.trigger@),
            cell_opt_uint(c.pre_tokens),
            cell_opt_uint(c.post_tokens),
            cell_opt_uint(c.duration_ms),
            match c.preserved_segment {
                Some(p) => cell_text(p.head_uuid@),
                None => JsonView::Null,
            },
            match c.preserved_segment {
                Some(p) => cell_text(p.anchor_uuid@),
                None => JsonView::Null,
            },
            match c.preserved_segment {
                Some(p) => cell_text(p.tail_uuid@),
                None => JsonView::Null,
            },
            cell_opt_strings(c.pre_compact_discovered_tools),
        ],
    }
}

pub open spec fn system_row(se: SystemEntry) -> Seq<JsonView> {
    seq![
        JsonView::Null,
        cell_text(subtype_name(se.subtype)),
        cell_opt_text(se.content),
        cell_opt_text(se.level),
        cell_opt_bool(se.is_meta),
        cell_opt_json(se.cause),
        cell_opt_json(se.error),
        cell_opt_number(se.retry_in_ms),
        cell_opt_u32(se.retry_attempt),
        cell_opt_u32(se.max_retries),
        cell_opt_u32(se.hook_count),
        cell_opt_values(se.hook_errors),
        cell_opt_bool(se.prevented_continuation),
        cell_opt_text(se.stop_reason),
        cell_opt_bool(se.has_output),
        cell_opt_text(se.tool_use_id),
        cell_opt_number(se.duration_ms),
        cell_opt_u32(se.message_count),
        cell_opt_text(se.url),
        cell_opt_text(se.upgrade_nudge),
    ] + compact_cells(se)
}

pub open spec fn hook_row(h: HookInfo, i: int) -> Seq<JsonView> {
    seq![JsonView::Null, cell_uint(i as nat), cell_text(h.command@), cell_uint(h.duration_ms as nat)]
}

pub open spec fn hook_rows(se: SystemEntry) -> Seq<Seq<JsonView>> {
    match se.hook_infos {
        Some(v) => Seq::new(v@.len(), |i: int| hook_row(v@[i], i)),
        None => Seq::empty(),
    }
}

/// The `system_entries` row, and one `system_hook_infos` row per hook.
pub fn build_system(se: &SystemEntry) -> (r: BuiltRows)
    ensures
        r.deep_view() == (Some(("system_entries"@, system_row(*se))), child_table("system_hook_infos"@, hook_rows(*se))),
{
    let subtype_str = subtype_str(se.subtype);
    let compact = match &se.compact_metadata {
        None => vec![
            JsonValue::Null,
            JsonValue::Null,
            JsonValue::Null,
            JsonValue::Null,
            JsonValue::Null,
            JsonValue::Null,
            JsonValue::Null,
            JsonValue::Null,
        ],
        Some(c) => vec![
            text_of(&c.trigger),
            ou(c.pre_tokens),
            ou(c.post_tokens),
            ou(c.duration_ms),
            match &c.preserved_segment {
                Some(p) => text_of(&p.head_uuid),
                None => JsonValue::Null,
            },
            match &c.preserved_segment {
                Some(p) => text_of(&p.anchor_uuid),
                None => JsonValue::Null,
            },
            match &c.preserved_segment {
                Some(p) => text_of(&p.tail_uuid),
                None => JsonValue::Null,
            },
            opt_strings_cell(&c.pre_compact_discovered_tools),
        ],
    };
    assert(compact.deep_view() =~= compact_cells(*se));
    let mut row = vec![
        JsonValue::Null,
        s_str(subtype_str),
        opt_text_of(&se.content),
        opt_text_of(&se.level),
        ob(se.is_meta),
        opt_json_of(&se.cause),
        opt_json_of(&se.error),
        of(&se.retry_in_ms),
        ou32(se.retry_attempt),
        ou32(se.max_retries),
        ou32(se.hook_count),
        opt_values_cell(&se.hook_errors),
        ob(se.prevented_continuation),
        opt_text_of(&se.stop_reason),
        ob(se.has_output),
        opt_text_of(&se.tool_use_id),
        of(&se.duration_ms),
        ou32(se.message_count),
        opt_text_of(&se.url),
        opt_text_of(&se.upgrade_nudge),
    ];
    let ghost head = row.deep_view();
    let mut compact = compact;
    row.append(&mut compact);
    assert(row.deep_view() =~= system_row(*se));

    let mut hook_rows_out: Vec<Vec<JsonValue>> = Vec::new();
    match &se.hook_infos {
        Some(infos) => {
            let mut i: usize = 0;
            while i < infos.len()
                invariant
                    i <= infos.len(),
                    hook_rows_out@.len() == i,
                    forall|j: int| 0 <= j < i ==> (#[trigger] hook_rows_out@[j]).deep_view() == hook_row(infos@[j], j),
                decreases infos.len() - i,
            {
                let hr = vec![JsonValue::Null, u(i as u64), text_of(&infos[i].command), u(infos[i].duration_ms)];
                assert(hr.deep_view() =~= hook_row(infos@[i as int], i as int));
                hook_rows_out.push(hr);
                i += 1;
            }
            assert(hook_rows_out.deep_view() =~= hook_rows(*se));
        },
        None => {
            assert(hook_rows_out.deep_view() =~= hook_rows(*se));
        },
    }
    let mut children: Vec<(&'static str, Vec<Vec<JsonValue>>)> = Vec::new();
    if hook_rows_out.len() > 0 {
        children.push(("system_hook_infos", hook_rows_out));
    }
    assert(children.deep_view() =~= child_table("system_hook_infos"@, hook_rows(*se)));
    (Some(("system_entries", row)), children)
}

// ─── User entries ────────────────────────────────────────────────────────

pub open spec fn user_role_name(r: UserRole) -> Seq<char> {
    match r {
        UserRole::User => "user"@,
        UserRole::Unknown => "unknown"@,
    }
}

fn user_role_str(r: UserRole) -> (out: &'static str)
    ensures
        out@ == user_role_name(r),
{
    match r {
        UserRole::User => "user",
        UserRole::Unknown => "unknown",
    }
}

/// The content blocks of a user message (none unless it is a block list).
pub open spec fn user_blocks(ue: UserEntry) -> Seq<UserContentBlock> {
    match ue.message.content {
        UserContent::Blocks(bs) => bs@,
        _ => Seq::empty(),
    }
}

pub open spec fn user_row(ue: UserEntry) -> Seq<JsonView> {
    seq![
        JsonView::Null,
        cell_text(user_role_name(ue.message.role)),
        match ue.message.content {
            UserContent::Text(t) => cell_text(t@),
            _ => JsonView::Null,
        },
        cell_bool(ue.message.content is Blocks),
        cell_opt_json(ue.tool_use_result),
        cell_opt_text(ue.source_tool_assistant_uuid),
        cell_opt_text(ue.source_tool_use_id),
        cell_opt_text(ue.permission_mode),
        cell_opt_json(ue.origin),
        cell_opt_bool(ue.is_compact_summary),
        cell_opt_bool(ue.is_visible_in_transcript_only),
        cell_opt_uints(ue.image_paste_ids),
        cell_opt_text(ue.plan_content),
    ]
}

/// An image source cell: NULL for a source of unknown type.
pub open spec fn image_source_cell(src: ImageSource) -> JsonView {
    if src is Unknown {
        JsonView::Null
    } else {
        cell_json(image_source_view(src))
    }
}

/// A document source cell: NULL for a source of unknown type.
pub open spec fn document_source_cell(src: DocumentSource) -> JsonView {
    if src is Unknown {
        JsonView::Null
    } else {
        cell_json(document_source_view(src))
    }
}

/// The `user_content_blocks` row of a block at position `pos`; none for a
/// block of unknown type.
pub open spec fn user_block_row(blk: UserContentBlock, pos: int) -> Option<Seq<JsonView>> {
    match blk {
        UserContentBlock::Text { text } => Some(
            seq![
                JsonView::Null,
                cell_uint(pos as nat),
                cell_text("text"@),
                cell_text(text@),
                JsonView::Null,
                JsonView::Null,
                JsonView::Null,
                JsonView::Null,
                JsonView::Null,
                JsonView::Null,
            ],
        ),
        UserContentBlock::ToolResult { tool_use_id, content, is_error } => Some(
            seq![
                JsonView::Null,
                cell_uint(pos as nat),
                cell_text("tool_result"@),
                JsonView::Null,
                cell_text(tool_use_id@),
                cell_json(content@),
                cell_opt_bool(is_error),
                JsonView::Null,
                JsonView::Null,
                JsonView::Null,
            ],
        ),
        UserContentBlock::Image { source } => Some(
            seq![
                JsonView::Null,
                cell_uint(pos as nat),
                cell_text("image"@),
                JsonView::Null,
                JsonView::Null,
                JsonView::Null,
                JsonView::Null,
                image_source_cell(source),
                JsonView::Null,
                JsonView::Null,
            ],
        ),
        UserContentBlock::Document { source, title } => Some(
            seq![
                JsonView::Null,
                cell_uint(pos as nat),
                cell_text("document"@),
                JsonView::Null,
                JsonView::Null,
                JsonView::Null,
                JsonView::Null,
                JsonView::Null,
                document_source_cell(source),
                cell_opt_text(title),
            ],
        ),
        UserContentBlock::Unknown => None,
    }
}

/// Names of the enums whose unrecognised variants a block drops.
pub open spec fn user_block_unknowns(blk: UserContentBlock) -> Seq<Seq<char>> {
    match blk {
        UserContentBlock::Image { source } => if source is Unknown {
            seq!["ImageSource"@]
        } else {
            Seq::empty()
        },
        UserContentBlock::Document { source, .. } => if source is Unknown {
            seq!["DocumentSource"@]
        } else {
            Seq::empty()
        },
        UserContentBlock::Unknown => seq!["UserContentBlock"@],
        _ => Seq::empty(),
    }
}

/// Rows of the first `n` blocks, in order, blocks of unknown type left out.
pub open spec fn user_block_rows(blocks: Seq<UserContentBlock>, n: int) -> Seq<Seq<JsonView>>
    decreases n,
{
    if n <= 0 {
        Seq::empty()
    } else {
        let prev = user_block_rows(blocks, n - 1);
        match user_block_row(blocks[n - 1], n - 1) {
            Some(r) => prev.push(r),
            None => prev,
        }
    }
}

/// Unknown-variant names reported by the first `n` blocks, in order.
pub open spec fn user_unknowns(blocks: Seq<UserContentBlock>, n: int) -> Seq<Seq<char>>
    decreases n,
{
    if n <= 0 {
        Seq::empty()
    } else {
        user_unknowns(blocks, n - 1) + user_block_unknowns(blocks[n - 1])
    }
}

fn push_name(names: &mut Vec<String>, name: &str)
    ensures
        final(names).deep_view() == old(names).deep_view().push(name@),
{
    names.push(String::from_str(name));
    assert(names.deep_view() =~= old(names).deep_view().push(name@));
}

/// The `user_entries` row and one `user_content_blocks` row per block of a
/// known type; each dropped unrecognised variant is reported by enum name.
pub fn build_user(ue: &UserEntry, unknown_variants: &mut Vec<String>) -> (r: BuiltRows)
    ensures
        r.deep_view() == (
            Some(("user_entries"@, user_row(*ue))),
            child_table("user_content_blocks"@, user_block_rows(user_blocks(*ue), user_blocks(*ue).len() as int)),
        ),
        final(unknown_variants).deep_view() == old(unknown_variants).deep_view() + user_unknowns(
            user_blocks(*ue),
            user_blocks(*ue).len() as int,
        ),
{
    let role = user_role_str(ue.message.role);
    let (content_text, has_blocks) = match &ue.message.content {
        UserContent::Text(t) => (text_of(t), false),
        UserContent::Blocks(_) => (JsonValue::Null, true),
        UserContent::Other(_) => (JsonValue::Null, false),
    };
    let row = vec![
        JsonValue::Null,
        s_str(role),
        content_text,
        b(has_blocks),
        opt_json_of(&ue.tool_use_result),
        opt_text_of(&ue.source_tool_assistant_uuid),
        opt_text_of(&ue.source_tool_use_id),
        opt_text_of(&ue.permission_mode),
        opt_json_of(&ue.origin),
        ob(ue.is_compact_summary),
        ob(ue.is_visible_in_transcript_only),
        opt_uints_cell(&ue.image_paste_ids),
        opt_text_of(&ue.plan_content),
    ];
    assert(row.deep_view() =~= user_row(*ue));

    let ghost blocks = user_blocks(*ue);
    let ghost start = unknown_variants.deep_view();
    let mut child_rows: Vec<Vec<JsonValue>> = Vec::new();
    if let UserContent::Blocks(bs) = &ue.message.content {
        let mut idx: usize = 0;
        while idx < bs.len()
            invariant
                idx <= bs.len(),
                blocks == bs@,
                child_rows.deep_view() == user_block_rows(blocks, idx as int),
                unknown_variants.deep_view() == start + user_unknowns(blocks, idx as int),
            decreases bs.len() - idx,
        {
            let pos = idx as u64;
            let ghost before_rows = child_rows.deep_view();
            let ghost before_names = unknown_variants.deep_view();
            let block = &bs[idx];
            let row: Option<Vec<JsonValue>> = match block {
                UserContentBlock::Text { text } => Some(
                    vec![
                        JsonValue::Null,
                        u(pos),
                        s_str("text"),
                        text_of(text),
                        JsonValue::Null,
                        JsonValue::Null,
                        JsonValue::Null,
                        JsonValue::Null,
                        JsonValue::Null,
                        JsonValue::Null,
                    ],
                ),
                UserContentBlock::ToolResult { tool_use_id, content, is_error } => Some(
                    vec![
                        JsonValue::Null,
                        u(pos),
                        s_str("tool_result"),
                        JsonValue::Null,
                        text_of(tool_use_id),
                        json_str(content),
                        ob(*is_error),
                        JsonValue::Null,
                        JsonValue::Null,
                        JsonValue::Null,
                    ],
                ),
                UserContentBlock::Image { source } => {
                    let source_json = if source.is_unknown() {
                        push_name(unknown_variants, "ImageSource");
                        JsonValue::Null
                    } else {
                        json_str(&image_source_json(source))
                    };
                    Some(
                        vec![
                            JsonValue::Null,
                            u(pos),
                            s_str("image"),
                            JsonValue::Null,
                            JsonValue::Null,
                            JsonValue::Null,
                            JsonValue::Null,
                            source_json,
                            JsonValue::Null,
                            JsonValue::Null,
                        ],
                    )
                },
                UserContentBlock::Document { source, title } => {
                    let source_json = if source.is_unknown() {
                        push_name(unknown_variants, "DocumentSource");
                        JsonValue::Null
                    } else {
                        json_str(&document_source_json(source))
                    };
                    Some(
                        vec![
                            JsonValue::Null,
                            u(pos),
                            s_str("document"),
                            JsonValue::Null,
                            JsonValue::Null,
                            JsonValue::Null,
                            JsonValue::Null,
                            JsonValue::Null,
                            source_json,
                            opt_text_of(title),
                        ],
                    )
                },
                UserContentBlock::Unknown => {
                    push_name(unknown_variants, "UserContentBlock");
                    None
                },
            };
            proof {
                assert(unknown_variants.deep_view() =~= before_names + user_block_unknowns(blocks[idx as int]));
                assert(user_unknowns(blocks, idx + 1) == user_unknowns(blocks, idx as int)
                    + user_block_unknowns(blocks[idx as int]));
                assert(unknown_variants.deep_view() =~= start + user_unknowns(blocks, idx + 1));
            }
            match row {
                Some(rv) => {
                    assert(rv.deep_view() =~= user_block_row(blocks[idx as int], idx as int)->Some_0);
                    child_rows.push(rv);
                    assert(child_rows.deep_view() =~= before_rows.push(rv.deep_view()));
                },
                None => {},
            }
            idx += 1;
        }
    }
    let mut children: Vec<(&'static str, Vec<Vec<JsonValue>>)> = Vec::new();
    if child_rows.len() > 0 {
        children.push(("user_content_blocks", child_rows));
    }
    proof {
        if !(ue.message.content is Blocks) {
            assert(unknown_variants.deep_view() =~= start + user_unknowns(blocks, 0));
        }
    }
    assert(children.deep_view() =~= child_table(
        "user_content_blocks"@,
        user_block_rows(blocks, blocks.len() as int),
    ));
    (Some(("user_entries", row)), children)
}

impl ImageSource {
    pub fn is_unknown(&self) -> (r: bool)
        ensures
            r == (*self is Unknown),
    {
        match self {
            ImageSource::Unknown => true,
            _ => false,
        }
    }
}

impl DocumentSource {
    pub fn is_unknown(&self) -> (r: bool)
        ensures
            r == (*self is Unknown),
    {
        match self {
            DocumentSource::Unknown => true,
            _ => false,
        }
    }
}

// ─── Assistant entries ───────────────────────────────────────────────────

pub open spec fn assistant_role_name(r: AssistantRole) -> Seq<char> {
    match r {
        AssistantRole::Assistant => "assistant"@,
        AssistantRole::Unknown => "unknown"@,
    }
}

fn assistant_role_str(r: AssistantRole) -> (out: &'static str)
    ensures
        out@ == assistant_role_name(r),
{
    match r {
        AssistantRole::Assistant => "assistant",
        AssistantRole::Unknown => "unknown",
    }
}

/// The model name, empty when the message names none.
pub open spec fn model_text(ae: AssistantEntry) -> Seq<char> {
    match ae.message.model {
        Some(t) => t@,
        None => Seq::empty(),
    }
}

/// How many of the first `n` blocks are tool uses.
pub open spec fn tool_uses(blocks: Seq<AssistantContentBlock>, n: int) -> nat
    decreases n,
{
    if n <= 0 {
        0
    } else {
        tool_uses(blocks, n - 1) + if blocks[n - 1] is ToolUse {
            1nat
        } else {
            0nat
        }
    }
}

pub open spec fn cache_5m(u: AssistantUsage) -> Option<u64> {
    match u.cache_creation {
        Some(c) => c.ephemeral_5m_input_tokens,
        None => None,
    }
}

pub open spec fn cache_1h(u: AssistantUsage) -> Option<u64> {
    match u.cache_creation {
        Some(c) => c.ephemeral_1h_input_tokens,
        None => None,
    }
}

pub open spec fn web_search(u: AssistantUsage) -> Option<u64> {
    match u.server_tool_use {
        Some(t) => Some(t.web_search_requests),
        None => None,
    }
}

pub open spec fn web_fetch(u: AssistantUsage) -> Option<u64> {
    match u.server_tool_use {
        Some(t) => Some(t.web_fetch_requests),
        None => None,
    }
}

/// The `assistant_entries` row; `cost` is what the price table gives for
/// the message, if it knows the model.
pub open spec fn assistant_row(ae: AssistantEntry, cost: Option<JsonNumber>) -> Seq<JsonView> {
    let m = ae.message;
    let usage = m.usage;
    seq![
        JsonView::Null,
        cell_text(m.id@),
        cell_text(assistant_role_name(m.role)),
        cell_text(model_text(ae)),
        cell_opt_opt_json(m.container),
        cell_opt_text(m.stop_reason),
        cell_opt_text(m.stop_sequence),
        cell_opt_opt_json(m.stop_details),
        cell_opt_opt_json(m.context_management),
        cell_opt_text(ae.request_id),
        cell_opt_bool(ae.is_api_error_message),
        cell_opt_text(ae.error),
        cell_uint(tool_uses(m.content@, m.content@.len() as int)),
        cell_opt_number(cost),
        cell_uint(usage.input_tokens as nat),
        cell_uint(usage.output_tokens as nat),
        cell_opt_uint(usage.cache_creation_input_tokens),
        cell_opt_uint(usage.cache_read_input_tokens),
        cell_opt_uint(cache_5m(usage)),
        cell_opt_uint(cache_1h(usage)),
        cell_opt_uint(web_search(usage)),
        cell_opt_uint(web_fetch(usage)),
        cell_opt_opt_json(usage.service_tier),
        cell_opt_opt_json(usage.inference_geo),
        cell_opt_opt_json(usage.iterations),
        cell_opt_opt_json(usage.speed),
    ]
}

/// The `assistant_content_blocks` row of a block at position `pos`; none for
/// a block of unknown type.
pub open spec fn assistant_block_row(blk: AssistantContentBlock, pos: int) -> Option<Seq<JsonView>> {
    match blk {
        AssistantContentBlock::Text { text } => Some(
            seq![cell_null(), cell_uint(pos as nat), cell_text("text"@), cell_text(text@)] + nulls(7),
        ),
        AssistantContentBlock::Thinking { thinking, signature } => Some(
            seq![
                cell_null(),
                cell_uint(pos as nat),
                cell_text("thinking"@),
                cell_null(),
                cell_text(thinking@),
                cell_text(signature@),
            ] + nulls(5),
        ),
        AssistantContentBlock::RedactedThinking { data } => Some(
            seq![
                cell_null(),
                cell_uint(pos as nat),
                cell_text("redacted_thinking"@),
                cell_null(),
                cell_null(),
                cell_null(),
                cell_text(data@),
            ] + nulls(4),
        ),
        AssistantContentBlock::ToolUse { id, name, input, caller } => Some(
            seq![
                cell_null(),
                cell_uint(pos as nat),
                cell_text("tool_use"@),
                cell_null(),
                cell_null(),
                cell_null(),
                cell_null(),
                cell_text(id@),
                cell_text(name@),
                cell_json(input@),
                match caller {
                    Some(c) => cell_text(c.caller_type@),
                    None => cell_null(),
                },
            ],
        ),
        AssistantContentBlock::Unknown => None,
    }
}

pub open spec fn cell_null() -> JsonView {
    JsonView::Null
}

pub open spec fn assistant_block_rows(blocks: Seq<AssistantContentBlock>, n: int) -> Seq<Seq<JsonView>>
    decreases n,
{
    if n <= 0 {
        Seq::empty()
    } else {
        let prev = assistant_block_rows(blocks, n - 1);
        match assistant_block_row(blocks[n - 1], n - 1) {
            Some(r) => prev.push(r),
            None => prev,
        }
    }
}

/// Unknown-variant names reported by the first `n` assistant blocks.
pub open spec fn assistant_unknowns(blocks: Seq<AssistantContentBlock>, n: int) -> Seq<Seq<char>>
    decreases n,
{
    if n <= 0 {
        Seq::empty()
    } else {
        assistant_unknowns(blocks, n - 1) + if blocks[n - 1] is Unknown {
            seq!["AssistantContentBlock"@]
        } else {
            Seq::empty()
        }
    }
}

/// The usage iterations, when `usage.iterations` holds an array.
pub open spec fn iterations_of(u: AssistantUsage) -> Seq<JsonView> {
    match u.iterations {
        Some(Some(JsonValue::Array(items))) => view_items(items@),
        _ => Seq::empty(),
    }
}

/// A count read from `key` of an iteration: its value when that is a
/// non-negative integer, otherwise NULL.
pub open spec fn iteration_count(it: JsonView, key: Seq<char>) -> JsonView {
    match lookup(it, key) {
        Some(v) => match view_as_u64(v) {
            Some(n) => cell_uint(n),
            None => JsonView::Null,
        },
        None => JsonView::Null,
    }
}

/// A count read from `key` of an iteration's `cache_creation` member.
pub open spec fn iteration_cache_count(it: JsonView, key: Seq<char>) -> JsonView {
    match lookup(it, "cache_creation"@) {
        Some(c) => iteration_count(c, key),
        None => JsonView::Null,
    }
}

pub open spec fn iteration_row(it: JsonView, pos: int) -> Seq<JsonView> {
    seq![
        JsonView::Null,
        cell_uint(pos as nat),
        match lookup(it, "type"@) {
            Some(v) => cell_opt_seq(view_as_str(v)),
            None => JsonView::Null,
        },
        iteration_count(it, "input_tokens"@),
        iteration_count(it, "output_tokens"@),
        iteration_count(it, "cache_read_input_tokens"@),
        iteration_count(it, "cache_creation_input_tokens"@),
        iteration_cache_count(it, "ephemeral_5m_input_tokens"@),
        iteration_cache_count(it, "ephemeral_1h_input_tokens"@),
    ]
}

pub open spec fn iteration_rows(u: AssistantUsage) -> Seq<Seq<JsonView>> {
    let its = iterations_of(u);
    Seq::new(its.len(), |i: int| iteration_row(its[i], i))
}

/// The model list after a message: a non-empty model name that the price
/// table does not know is added once.
pub open spec fn next_unknown_models(models: Seq<Seq<char>>, model: Seq<char>, priced: bool) -> Seq<Seq<char>> {
    if !priced && model.len() > 0 && !models.contains(model) {
        models.push(model)
    } else {
        models
    }
}

fn count_value(v: Option<&JsonValue>) -> (r: JsonValue)
    ensures
        r@ == match v {
            Some(x) => match view_as_u64(x@) {
                Some(n) => cell_uint(n),
                None => JsonView::Null,
            },
            None => JsonView::Null,
        },
{
    match v {
        Some(x) => ou(x.as_u64()),
        None => JsonValue::Null,
    }
}

fn iteration_row_of(it: &JsonValue, pos: u64) -> (r: Vec<JsonValue>)
    ensures
        r.deep_view() == iteration_row(it@, pos as int),
{
    let type_cell = match it.get("type") {
        Some(v) => match v.as_str() {
            Some(t) => text_of(t),
            None => JsonValue::Null,
        },
        None => JsonValue::Null,
    };
    let (cc5, cc1) = match it.get("cache_creation") {
        Some(c) => (count_value(c.get("ephemeral_5m_input_tokens")), count_value(c.get("ephemeral_1h_input_tokens"))),
        None => (JsonValue::Null, JsonValue::Null),
    };
    let r = vec![
        JsonValue::Null,
        u(pos),
        type_cell,
        count_value(it.get("input_tokens")),
        count_value(it.get("output_tokens")),
        count_value(it.get("cache_read_input_tokens")),
        count_value(it.get("cache_creation_input_tokens")),
        cc5,
        cc1,
    ];
    assert(r.deep_view() =~= iteration_row(it@, pos as int));
    r
}

fn contains_text(names: &Vec<String>, name: &str) -> (r: bool)
    ensures
        r == names.deep_view().contains(name@),
{
    let mut i: usize = 0;
    while i < names.len()
        invariant
            i <= names.len(),
            forall|j: int| 0 <= j < i ==> names@[j]@ != name@,
        decreases names.len() - i,
    {
        if str_equal(names[i].as_str(), name) {
            assert(names.deep_view()[i as int] == name@);
            return true;
        }
        i += 1;
    }
    assert forall|j: int| 0 <= j < names.deep_view().len() implies names.deep_view()[j] != name@ by {
        assert(names.deep_view()[j] == names@[j]@);
    }
    false
}

/// The `assistant_entries` row, one `assistant_content_blocks` row per block
/// of a known type, and one `assistant_usage_iterations` row per usage
/// iteration. An unpriced model is reported once in `unknown_models`; each
/// dropped block of unknown type is reported by enum name.
pub fn build_assistant(
    ae: &AssistantEntry,
    cost: &Option<JsonNumber>,
    unknown_models: &mut Vec<String>,
    unknown_variants: &mut Vec<String>,
) -> (r: BuiltRows)
    ensures
        r.deep_view() == (
            Some(("assistant_entries"@, assistant_row(*ae, *cost))),
            child_table(
                "assistant_content_blocks"@,
                assistant_block_rows(ae.message.content@, ae.message.content@.len() as int),
            ) + child_table("assistant_usage_iterations"@, iteration_rows(ae.message.usage)),
        ),
        final(unknown_models).deep_view() == next_unknown_models(
            old(unknown_models).deep_view(),
            model_text(*ae),
            cost.is_some(),
        ),
        final(unknown_variants).deep_view() == old(unknown_variants).deep_view() + assistant_unknowns(
            ae.message.content@,
            ae.message.content@.len() as int,
        ),
{
    proof {
        reveal_strlit("");
    }
    let m = &ae.message;
    let role = assistant_role_str(m.role);
    let usage = &m.usage;
    let (cc_5m, cc_1h) = match &usage.cache_creation {
        Some(c) => (c.ephemeral_5m_input_tokens, c.ephemeral_1h_input_tokens),
        None => (None, None),
    };
    let (ws, wf) = match &usage.server_tool_use {
        Some(stu) => (Some(stu.web_search_requests), Some(stu.web_fetch_requests)),
        None => (None, None),
    };
    let model_str: &str = match &m.model {
        Some(t) => t.as_str(),
        None => "",
    };
    assert(""@ =~= Seq::<char>::empty());
    assert(model_str@ == model_text(*ae));
    if cost.is_none() && model_str.unicode_len() > 0 && !contains_text(unknown_models, model_str) {
        unknown_models.push(String::from_str(model_str));
        assert(unknown_models.deep_view() =~= old(unknown_models).deep_view().push(model_text(*ae)));
    }

    let ghost blocks = m.content@;
    let mut tool_use_count: u64 = 0;
    let mut k: usize = 0;
    while k < m.content.len()
        invariant
            k <= m.content.len(),
            blocks == m.content@,
            tool_use_count == tool_uses(blocks, k as int),
            tool_use_count <= k,
        decreases m.content.len() - k,
    {
        if let AssistantContentBlock::ToolUse { .. } = &m.content[k] {
            tool_use_count += 1;
        }
        k += 1;
    }

    let row = vec![
        JsonValue::Null,
        text_of(&m.id),
        s_str(role),
        s_str(model_str),
        opt_opt_json(&m.container),
        opt_text_of(&m.stop_reason),
        opt_text_of(&m.stop_sequence),
        opt_opt_json(&m.stop_details),
        opt_opt_json(&m.context_management),
        opt_text_of(&ae.request_id),
        ob(ae.is_api_error_message),
        opt_text_of(&ae.error),
        u(tool_use_count),
        of(cost),
        u(usage.input_tokens),
        u(usage.output_tokens),
        ou(usage.cache_creation_input_tokens),
        ou(usage.cache_read_input_tokens),
        ou(cc_5m),
        ou(cc_1h),
        ou(ws),
        ou(wf),
        opt_opt_json(&usage.service_tier),
        opt_opt_json(&usage.inference_geo),
        opt_opt_json(&usage.iterations),
        opt_opt_json(&usage.speed),
    ];
    assert(row.deep_view() =~= assistant_row(*ae, *cost));

    let ghost start = unknown_variants.deep_view();
    let mut block_rows: Vec<Vec<JsonValue>> = Vec::new();
    let mut idx: usize = 0;
    while idx < m.content.len()
        invariant
            idx <= m.content.len(),
            blocks == m.content@,
            block_rows.deep_view() == assistant_block_rows(blocks, idx as int),
            unknown_variants.deep_view() == start + assistant_unknowns(blocks, idx as int),
        decreases m.content.len() - idx,
    {
        let pos = idx as u64;
        let ghost before_rows = block_rows.deep_view();
        let ghost before_names = unknown_variants.deep_view();
        let row: Option<Vec<JsonValue>> = match &m.content[idx] {
            AssistantContentBlock::Text { text } => Some(
                vec![
                    JsonValue::Null,
                    u(pos),
                    s_str("text"),
                    text_of(text),
                    JsonValue::Null,
                    JsonValue::Null,
                    JsonValue::Null,
                    JsonValue::Null,
                    JsonValue::Null,
                    JsonValue::Null,
                    JsonValue::Null,
                ],
            ),
            AssistantContentBlock::Thinking { thinking, signature } => Some(
                vec![
                    JsonValue::Null,
                    u(pos),
                    s_str("thinking"),
                    JsonValue::Null,
                    text_of(thinking),
                    text_of(signature),
                    JsonValue::Null,
                    JsonValue::Null,
                    JsonValue::Null,
                    JsonValue::Null,
                    JsonValue::Null,
                ],
            ),
            AssistantContentBlock::RedactedThinking { data } => Some(
                vec![
                    JsonValue::Null,
                    u(pos),
                    s_str("redacted_thinking"),
                    JsonValue::Null,
                    JsonValue::Null,
                    JsonValue::Null,
                    text_of(data),
                    JsonValue::Null,
                    JsonValue::Null,
                    JsonValue::Null,
                    JsonValue::Null,
                ],
            ),
            AssistantContentBlock::ToolUse { id, name, input, caller } => Some(
                vec![
                    JsonValue::Null,
                    u(pos),
                    s_str("tool_use"),
                    JsonValue::Null,
                    JsonValue::Null,
                    JsonValue::Null,
                    JsonValue::Null,
                    text_of(id),
                    text_of(name),
                    json_str(input),
                    match caller {
                        Some(c) => text_of(&c.caller_type),
                        None => JsonValue::Null,
                    },
                ],
            ),
            AssistantContentBlock::Unknown => {
                push_name(unknown_variants, "AssistantContentBlock");
                None
            },
        };
        proof {
            assert(unknown_variants.deep_view() =~= start + assistant_unknowns(blocks, idx + 1));
        }
        match row {
            Some(rv) => {
                assert(rv.deep_view() =~= assistant_block_row(blocks[idx as int], idx as int)->Some_0);
                block_rows.push(rv);
                assert(block_rows.deep_view() =~= before_rows.push(rv.deep_view()));
            },
            None => {},
        }
        idx += 1;
    }

    let mut iter_rows: Vec<Vec<JsonValue>> = Vec::new();
    if let Some(Some(JsonValue::Array(arr))) = &usage.iterations {
        let ghost its = view_items(arr@);
        proof {
            lemma_view_items_index(arr@);
        }
        let mut i: usize = 0;
        while i < arr.len()
            invariant
                i <= arr.len(),
                its == view_items(arr@),
                its.len() == arr@.len(),
                forall|j: int| 0 <= j < arr@.len() ==> #[trigger] its[j] == arr@[j]@,
                iter_rows@.len() == i,
                forall|j: int| 0 <= j < i ==> (#[trigger] iter_rows@[j]).deep_view() == iteration_row(its[j], j),
            decreases arr.len() - i,
        {
            let r = iteration_row_of(&arr[i], i as u64);
            iter_rows.push(r);
            i += 1;
        }
        assert(iter_rows.deep_view() =~= iteration_rows(*usage));
    } else {
        assert(iter_rows.deep_view() =~= iteration_rows(*usage));
    }

    let mut children: Vec<(&'static str, Vec<Vec<JsonValue>>)> = Vec::new();
    let ghost block_view = block_rows.deep_view();
    let ghost iter_view = iter_rows.deep_view();
    if block_rows.len() > 0 {
        children.push(("assistant_content_blocks", block_rows));
    }
    assert(children.deep_view() =~= child_table("assistant_content_blocks"@, block_view));
    let ghost first = children.deep_view();
    if iter_rows.len() > 0 {
        children.push(("assistant_usage_iterations", iter_rows));
    }
    assert(children.deep_view() =~= first + child_table("assistant_usage_iterations"@, iter_view));
    (Some(("assistant_entries", row)), children)
}

// ─── Attachment entries ──────────────────────────────────────────────────

/// The stored name of an attachment's type.
pub open spec fn attachment_type_name(a: AttachmentData) -> Seq<char> {
    match a {
        AttachmentData::HookSuccess(_) => "hook_success"@,
        AttachmentData::HookNonBlockingError(_) => "hook_non_blocking_error"@,
        AttachmentData::HookBlockingError(_) => "hook_blocking_error"@,
        AttachmentData::HookCancelled(_) => "hook_cancelled"@,
        AttachmentData::HookAdditionalContext { .. } => "hook_additional_context"@,
        AttachmentData::HookPermissionDecision { .. } => "hook_permission_decision"@,
        AttachmentData::File { .. } => "file"@,
        AttachmentData::EditedTextFile { .. } => "edited_text_file"@,
        AttachmentData::Directory { .. } => "directory"@,
        AttachmentData::CompactFileReference { .. } => "compact_file_reference"@,
        AttachmentData::CommandPermissions { .. } => "command_permissions"@,
        AttachmentData::PlanMode { .. } => "plan_mode"@,
        AttachmentData::PlanModeExit { .. } => "plan_mode_exit"@,
        AttachmentData::SkillListing { .. } => "skill_listing"@,
        AttachmentData::DynamicSkill { .. } => "dynamic_skill"@,
        AttachmentData::InvokedSkills { .. } => "invoked_skills"@,
        AttachmentData::TaskReminder { .. } => "task_reminder"@,
        AttachmentData::Diagnostics { .. } => "diagnostics"@,
        AttachmentData::DateChange { .. } => "date_change"@,
        AttachmentData::DeferredToolsDelta { .. } => "deferred_tools_delta"@,
        AttachmentData::McpInstructionsDelta { .. } => "mcp_instructions_delta"@,
        AttachmentData::UltrathinkEffort { .. } => "ultrathink_effort"@,
        AttachmentData::QueuedCommand { .. } => "queued_command"@,
        AttachmentData::NestedMemory { .. } => "nested_memory"@,
        AttachmentData::Unknown => "unknown"@,
    }
}

fn attachment_type_str(a: &AttachmentData) -> (r: &'static str)
    ensures
        r@ == attachment_type_name(*a),
{
    match a {
        AttachmentData::HookSuccess(_) => "hook_success",
        AttachmentData::HookNonBlockingError(_) => "hook_non_blocking_error",
        AttachmentData::HookBlockingError(_) => "hook_blocking_error",
        AttachmentData::HookCancelled(_) => "hook_cancelled",
        AttachmentData::HookAdditionalContext { .. } => "hook_additional_context",
        AttachmentData::HookPermissionDecision { .. } => "hook_permission_decision",
        AttachmentData::File { .. } => "file",
        AttachmentData::EditedTextFile { .. } => "edited_text_file",
        AttachmentData::Directory { .. } => "directory",
        AttachmentData::CompactFileReference { .. } => "compact_file_reference",
        AttachmentData::CommandPermissions { .. } => "command_permissions",
        AttachmentData::PlanMode { .. } => "plan_mode",
        AttachmentData::PlanModeExit { .. } => "plan_mode_exit",
        AttachmentData::SkillListing { .. } => "skill_listing",
        AttachmentData::DynamicSkill { .. } => "dynamic_skill",
        AttachmentData::InvokedSkills { .. } => "invoked_skills",
        AttachmentData::TaskReminder { .. } => "task_reminder",
        AttachmentData::Diagnostics { .. } => "diagnostics",
        AttachmentData::DateChange { .. } => "date_change",
        AttachmentData::DeferredToolsDelta { .. } => "deferred_tools_delta",
        AttachmentData::McpInstructionsDelta { .. } => "mcp_instructions_delta",
        AttachmentData::UltrathinkEffort { .. } => "ultrathink_effort",
        AttachmentData::QueuedCommand { .. } => "queued_command",
        AttachmentData::NestedMemory { .. } => "nested_memory",
        AttachmentData::Unknown => "unknown",
    }
}

/// Strings joined with `sep` between them.
pub open spec fn joined(v: Seq<Seq<char>>, sep: Seq<char>) -> Seq<char>
    decreases v.len(),
{
    if v.len() == 0 {
        Seq::empty()
    } else if v.len() == 1 {
        v[0]
    } else {
        joined(v.drop_last(), sep) + sep + v.last()
    }
}

/// The strings joined with a line feed between them.
pub fn join_lines(v: &Vec<String>) -> (r: String)
    ensures
        r@ == joined(v.deep_view(), seq!['\n']),
{
    proof {
        reveal_strlit("\n");
    }
    let mut out = String::new();
    let mut i: usize = 0;
    while i < v.len()
        invariant
            i <= v.len(),
            "\n"@ == seq!['\n'],
            out@ == joined(v.deep_view().subrange(0, i as int), seq!['\n']),
        decreases v.len() - i,
    {
        let ghost before = v.deep_view().subrange(0, i as int);
        if i > 0 {
            out.append("\n");
        }
        out.append(v[i].as_str());
        assert(v.deep_view().subrange(0, i + 1).drop_last() =~= before);
        i += 1;
    }
    assert(v.deep_view().subrange(0, v.len() as int) =~= v.deep_view());
    out
}

/// The hook-result cells 2..=10 filled in.
pub open spec fn with_hook_cells(row: Seq<JsonView>, h: HookResultAttachment) -> Seq<JsonView> {
    row.update(2, cell_opt_text(h.hook_name)).update(3, cell_opt_text(h.tool_use_id)).update(
        4,
        cell_opt_text(h.hook_event),
    ).update(5, cell_opt_text(h.content)).update(6, cell_opt_text(h.stdout)).update(
        7,
        cell_opt_text(h.stderr),
    ).update(
        8,
        match h.exit_code {
            Some(v) => cell_int(v as int),
            None => JsonView::Null,
        },
    ).update(9, cell_opt_text(h.command)).update(10, cell_opt_uint(h.duration_ms))
}

/// The `attachment_entries` row: 47 cells, NULL but for the attachment type
/// and the cells of its own kind.
pub open spec fn attachment_row(ae: AttachmentEntry) -> Seq<JsonView> {
    let a = ae.attachment;
    let row = nulls(47).update(1, cell_text(attachment_type_name(a)));
    match a {
        AttachmentData::HookSuccess(h) => with_hook_cells(row, h),
        AttachmentData::HookNonBlockingError(h) => with_hook_cells(row, h),
        AttachmentData::HookBlockingError(h) => with_hook_cells(row, h),
        AttachmentData::HookCancelled(h) => with_hook_cells(row, h),
        AttachmentData::HookAdditionalContext { content, hook_name, tool_use_id, hook_event } => row.update(
            2,
            cell_opt_text(hook_name),
        ).update(3, cell_opt_text(tool_use_id)).update(4, cell_opt_text(hook_event)).update(
            5,
            cell_text(joined(content.deep_view(), seq!['\n'])),
        ),
        AttachmentData::HookPermissionDecision { decision, hook_name, tool_use_id, hook_event } => row.update(
            2,
            cell_opt_text(hook_name),
        ).update(3, cell_opt_text(tool_use_id)).update(4, cell_opt_text(hook_event)).update(
            11,
            cell_text(decision@),
        ),
        AttachmentData::File { filename, content, display_path } => row.update(12, cell_text(filename@)).update(
            13,
            cell_opt_text(content.file.content),
        ).update(14, cell_json(file_content_view(content))).update(15, cell_opt_text(display_path)),
        AttachmentData::EditedTextFile { filename, snippet } => row.update(12, cell_text(filename@)).update(
            13,
            cell_text(snippet@),
        ),
        AttachmentData::Directory { path, content, display_path } => row.update(16, cell_text(path@)).update(
            17,
            cell_text(content@),
        ).update(15, cell_text(display_path@)),
        AttachmentData::CompactFileReference { filename, display_path } => row.update(
            12,
            cell_text(filename@),
        ).update(15, cell_text(display_path@)),
        AttachmentData::CommandPermissions { allowed_tools } => row.update(
            18,
            cell_json(strings_view(allowed_tools@)),
        ),
        AttachmentData::PlanMode { reminder_type, is_sub_agent, plan_file_path, plan_exists } => row.update(
            19,
            cell_text(reminder_type@),
        ).update(20, cell_bool(is_sub_agent)).update(21, cell_opt_text(plan_file_path)).update(
            22,
            cell_bool(plan_exists),
        ),
        AttachmentData::PlanModeExit { plan_file_path, plan_exists } => row.update(
            21,
            cell_opt_text(plan_file_path),
        ).update(22, cell_bool(plan_exists)),
        AttachmentData::SkillListing { content, is_initial, skill_count } => row.update(
            23,
            cell_text(content@),
        ).update(24, cell_opt_bool(is_initial)).update(25, cell_opt_u32(skill_count)),
        AttachmentData::DynamicSkill { skill_dir, skill_names, display_path } => row.update(
            26,
            cell_text(skill_dir@),
        ).update(27, cell_json(strings_view(skill_names@))).update(15, cell_text(display_path@)),
        AttachmentData::InvokedSkills { skills } => row.update(28, cell_json(invoked_skills_view(skills@))),
        AttachmentData::TaskReminder { content, item_count } => row.update(
            29,
            cell_json(values_view(content@)),
        ).update(30, cell_uint(item_count as nat)),
        AttachmentData::Diagnostics { files, is_new } => row.update(
            31,
            cell_json(diagnostics_files_view(files@)),
        ).update(32, cell_bool(is_new)),
        AttachmentData::DateChange { new_date } => row.update(33, cell_text(new_date@)),
        AttachmentData::DeferredToolsDelta { added_names, added_lines, removed_names } => row.update(
            34,
            cell_json(strings_view(added_names@)),
        ).update(35, cell_opt_strings(added_lines)).update(36, cell_opt_strings(removed_names)),
        AttachmentData::McpInstructionsDelta { added_names, added_blocks, removed_names } => row.update(
            37,
            cell_json(strings_view(added_names@)),
        ).update(38, cell_json(strings_view(added_blocks@))).update(
            39,
            cell_opt_strings(removed_names),
        ),
        AttachmentData::UltrathinkEffort { level } => row.update(40, cell_text(level@)),
        AttachmentData::QueuedCommand { prompt, command_mode } => row.update(41, cell_text(prompt@)).update(
            42,
            cell_opt_text(command_mode),
        ),
        AttachmentData::NestedMemory { path, content, display_path } => row.update(
            15,
            cell_text(display_path@),
        ).update(43, cell_text(path@)).update(44, cell_text(content.memory_type@)).update(
            45,
            cell_text(content.content@),
        ).update(46, cell_opt_bool(content.content_differs_from_disk)),
        AttachmentData::Unknown => row,
    }
}

/// One `attachment_diagnostics_files` row per diagnostics file.
pub open spec fn diagnostics_rows(ae: AttachmentEntry) -> Seq<Seq<JsonView>> {
    match ae.attachment {
        AttachmentData::Diagnostics { files, .. } => Seq::new(
            files@.len(),
            |i: int|
                seq![
                    JsonView::Null,
                    cell_uint(i as nat),
                    cell_text(files@[i].uri@),
                    cell_json(diagnostics_view(files@[i].diagnostics@)),
                ],
        ),
        _ => Seq::empty(),
    }
}

/// One `attachment_invoked_skills` row per invoked skill.
pub open spec fn skill_rows(ae: AttachmentEntry) -> Seq<Seq<JsonView>> {
    match ae.attachment {
        AttachmentData::InvokedSkills { skills } => Seq::new(
            skills@.len(),
            |i: int|
                seq![
                    JsonView::Null,
                    cell_uint(i as nat),
                    cell_text(skills@[i].name@),
                    cell_json(skill_invocation_view(skills@[i])),
                ],
        ),
        _ => Seq::empty(),
    }
}

fn set_cell(row: &mut Vec<JsonValue>, i: usize, v: JsonValue)
    requires
        i < old(row).len(),
    ensures
        final(row).len() == old(row).len(),
        final(row).deep_view() == old(row).deep_view().update(i as int, v@),
{
    let ghost vv = v@;
    row.set(i, v);
    assert(row.deep_view() =~= old(row).deep_view().update(i as int, vv));
}

fn fill_hook(row: &mut Vec<JsonValue>, h: &HookResultAttachment)
    requires
        old(row).len() == 47,
    ensures
        final(row).len() == 47,
        final(row).deep_view() == with_hook_cells(old(row).deep_view(), *h),
{
    set_cell(row, 2, opt_text_of(&h.hook_name));
    set_cell(row, 3, opt_text_of(&h.tool_use_id));
    set_cell(row, 4, opt_text_of(&h.hook_event));
    set_cell(row, 5, opt_text_of(&h.content));
    set_cell(row, 6, opt_text_of(&h.stdout));
    set_cell(row, 7, opt_text_of(&h.stderr));
    set_cell(
        row,
        8,
        match h.exit_code {
            Some(v) => int_cell(v as i64),
            None => JsonValue::Null,
        },
    );
    set_cell(row, 9, opt_text_of(&h.command));
    set_cell(row, 10, ou(h.duration_ms));
}

/// The `attachment_entries` row, and the child rows of diagnostics files and
/// invoked skills. An attachment of unknown type is kept with its type
/// `unknown` and reported as `AttachmentData`.
pub fn build_attachment(ae: &AttachmentEntry, unknown_variants: &mut Vec<String>) -> (r: BuiltRows)
    ensures
        r.deep_view() == (
            Some(("attachment_entries"@, attachment_row(*ae))),
            child_table("attachment_diagnostics_files"@, diagnostics_rows(*ae)) + child_table(
                "attachment_invoked_skills"@,
                skill_rows(*ae),
            ),
        ),
        final(unknown_variants).deep_view() == old(unknown_variants).deep_view() + if ae.attachment is Unknown {
            seq!["AttachmentData"@]
        } else {
            Seq::<Seq<char>>::empty()
        },
{
    let mut row: Vec<JsonValue> = Vec::new();
    let mut k: usize = 0;
    while k < 47
        invariant
            k <= 47,
            row@.len() == k,
            row.deep_view() == nulls(k as nat),
        decreases 47 - k,
    {
        let ghost before = row.deep_view();
        row.push(JsonValue::Null);
        assert(row.deep_view() =~= before.push(JsonView::Null));
        assert(row.deep_view() =~= nulls((k + 1) as nat));
        k += 1;
    }
    let mut diag_rows: Vec<Vec<JsonValue>> = Vec::new();
    let mut skill_rows_out: Vec<Vec<JsonValue>> = Vec::new();

    set_cell(&mut row, 1, s_str(attachment_type_str(&ae.attachment)));
    let ghost base = row.deep_view();
    proof {
        reveal_strlit("AttachmentData");
    }

    match &ae.attachment {
        AttachmentData::HookSuccess(h) => fill_hook(&mut row, h),
        AttachmentData::HookNonBlockingError(h) => fill_hook(&mut row, h),
        AttachmentData::HookBlockingError(h) => fill_hook(&mut row, h),
        AttachmentData::HookCancelled(h) => fill_hook(&mut row, h),
        AttachmentData::HookAdditionalContext { content, hook_name, tool_use_id, hook_event } => {
            set_cell(&mut row, 2, opt_text_of(hook_name));
            set_cell(&mut row, 3, opt_text_of(tool_use_id));
            set_cell(&mut row, 4, opt_text_of(hook_event));
            set_cell(&mut row, 5, JsonValue::String(join_lines(content)));
        },
        AttachmentData::HookPermissionDecision { decision, hook_name, tool_use_id, hook_event } => {
            set_cell(&mut row, 2, opt_text_of(hook_name));
            set_cell(&mut row, 3, opt_text_of(tool_use_id));
            set_cell(&mut row, 4, opt_text_of(hook_event));
            set_cell(&mut row, 11, text_of(decision));
        },
        AttachmentData::File { filename, content, display_path } => {
            set_cell(&mut row, 12, text_of(filename));
            set_cell(&mut row, 13, opt_text_of(&content.file.content));
            set_cell(&mut row, 14, json_str(&file_content_json(content)));
            set_cell(&mut row, 15, opt_text_of(display_path));
        },
        AttachmentData::EditedTextFile { filename, snippet } => {
            set_cell(&mut row, 12, text_of(filename));
            set_cell(&mut row, 13, text_of(snippet));
        },
        AttachmentData::Directory { path, content, display_path } => {
            set_cell(&mut row, 16, text_of(path));
            set_cell(&mut row, 17, text_of(content));
            set_cell(&mut row, 15, text_of(display_path));
        },
        AttachmentData::CompactFileReference { filename, display_path } => {
            set_cell(&mut row, 12, text_of(filename));
            set_cell(&mut row, 15, text_of(display_path));
        },
        AttachmentData::CommandPermissions { allowed_tools } => {
            set_cell(&mut row, 18, json_str(&strings_json(allowed_tools)));
        },
        AttachmentData::PlanMode { reminder_type, is_sub_agent, plan_file_path, plan_exists } => {
            set_cell(&mut row, 19, text_of(reminder_type));
            set_cell(&mut row, 20, b(*is_sub_agent));
            set_cell(&mut row, 21, opt_text_of(plan_file_path));
            set_cell(&mut row, 22, b(*plan_exists));
        },
        AttachmentData::PlanModeExit { plan_file_path, plan_exists } => {
            set_cell(&mut row, 21, opt_text_of(plan_file_path));
            set_cell(&mut row, 22, b(*plan_exists));
        },
        AttachmentData::SkillListing { content, is_initial, skill_count } => {
            set_cell(&mut row, 23, text_of(content));
            set_cell(&mut row, 24, ob(*is_initial));
            set_cell(&mut row, 25, ou32(*skill_count));
        },
        AttachmentData::DynamicSkill { skill_dir, skill_names, display_path } => {
            set_cell(&mut row, 26, text_of(skill_dir));
            set_cell(&mut row, 27, json_str(&strings_json(skill_names)));
            set_cell(&mut row, 15, text_of(display_path));
        },
        AttachmentData::InvokedSkills { skills } => {
            set_cell(&mut row, 28, json_str(&invoked_skills_tree(skills)));
            let mut idx: usize = 0;
            while idx < skills.len()
                invariant
                    idx <= skills.len(),
                    ae.attachment == (AttachmentData::InvokedSkills { skills: *skills }),
                    skill_rows_out@.len() == idx,
                    forall|j: int|
                        0 <= j < idx ==> (#[trigger] skill_rows_out@[j]).deep_view() == skill_rows(*ae)[j],
                decreases skills.len() - idx,
            {
                let sr = vec![
                    JsonValue::Null,
                    u(idx as u64),
                    text_of(&skills[idx].name),
                    json_str(&skill_invocation_tree(&skills[idx])),
                ];
                assert(sr.deep_view() =~= skill_rows(*ae)[idx as int]);
                skill_rows_out.push(sr);
                idx += 1;
            }
        },
        AttachmentData::TaskReminder { content, item_count } => {
            set_cell(&mut row, 29, json_str(&values_json(content)));
            set_cell(&mut row, 30, u(*item_count as u64));
        },
        AttachmentData::Diagnostics { files, is_new } => {
            set_cell(&mut row, 31, json_str(&diagnostics_files_tree(files)));
            set_cell(&mut row, 32, b(*is_new));
            let mut idx: usize = 0;
            while idx < files.len()
                invariant
                    idx <= files.len(),
                    ae.attachment == (AttachmentData::Diagnostics { files: *files, is_new: *is_new }),
                    diag_rows@.len() == idx,
                    forall|j: int|
                        0 <= j < idx ==> (#[trigger] diag_rows@[j]).deep_view() == diagnostics_rows(*ae)[j],
                decreases files.len() - idx,
            {
                let dr = vec![
                    JsonValue::Null,
                    u(idx as u64),
                    text_of(&files[idx].uri),
                    json_str(&diagnostics_tree(&files[idx].diagnostics)),
                ];
                assert(dr.deep_view() =~= diagnostics_rows(*ae)[idx as int]);
                diag_rows.push(dr);
                idx += 1;
            }
        },
        AttachmentData::DateChange { new_date } => {
            set_cell(&mut row, 33, text_of(new_date));
        },
        AttachmentData::DeferredToolsDelta { added_names, added_lines, removed_names } => {
            set_cell(&mut row, 34, json_str(&strings_json(added_names)));
            set_cell(&mut row, 35, opt_strings_cell(added_lines));
            set_cell(&mut row, 36, opt_strings_cell(removed_names));
        },
        AttachmentData::McpInstructionsDelta { added_names, added_blocks, removed_names } => {
            set_cell(&mut row, 37, json_str(&strings_json(added_names)));
            set_cell(&mut row, 38, json_str(&strings_json(added_blocks)));
            set_cell(&mut row, 39, opt_strings_cell(removed_names));
        },
        AttachmentData::UltrathinkEffort { level } => {
            set_cell(&mut row, 40, text_of(level));
        },
        AttachmentData::QueuedCommand { prompt, command_mode } => {
            set_cell(&mut row, 41, text_of(prompt));
            set_cell(&mut row, 42, opt_text_of(command_mode));
        },
        AttachmentData::NestedMemory { path, content, display_path } => {
            set_cell(&mut row, 15, text_of(display_path));
            set_cell(&mut row, 43, text_of(path));
            set_cell(&mut row, 44, text_of(&content.memory_type));
            set_cell(&mut row, 45, text_of(&content.content));
            set_cell(&mut row, 46, ob(content.content_differs_from_disk));
        },
        AttachmentData::Unknown => {
            push_name(unknown_variants, "AttachmentData");
        },
    }
    assert(row.deep_view() =~= attachment_row(*ae));
    assert(diag_rows.deep_view() =~= diagnostics_rows(*ae));
    assert(skill_rows_out.deep_view() =~= skill_rows(*ae));
    assert(unknown_variants.deep_view() =~= old(unknown_variants).deep_view() + if ae.attachment is Unknown {
        seq!["AttachmentData"@]
    } else {
        Seq::<Seq<char>>::empty()
    });

    let ghost diag_view = diag_rows.deep_view();
    let ghost skill_view = skill_rows_out.deep_view();
    let mut children: Vec<(&'static str, Vec<Vec<JsonValue>>)> = Vec::new();
    if diag_rows.len() > 0 {
        children.push(("attachment_diagnostics_files", diag_rows));
    }
    assert(children.deep_view() =~= child_table("attachment_diagnostics_files"@, diag_view));
    let ghost first = children.deep_view();
    if skill_rows_out.len() > 0 {
        children.push(("attachment_invoked_skills", skill_rows_out));
    }
    assert(children.deep_view() =~= first + child_table("attachment_invoked_skills"@, skill_view));
    (Some(("attachment_entries", row)), children)
}

// ─── All entries ─────────────────────────────────────────────────────────

pub open spec fn mode_name(m: SessionMode) -> Seq<char> {
    match m {
        SessionMode::Coordinator => "coordinator"@,
        SessionMode::Normal => "normal"@,
        SessionMode::Unknown => "unknown"@,
    }
}

fn mode_str(m: SessionMode) -> (r: &'static str)
    ensures
        r@ == mode_name(m),
{
    match m {
        SessionMode::Coordinator => "coordinator",
        SessionMode::Normal => "normal",
        SessionMode::Unknown => "unknown",
    }
}

/// Whether an entry carries the message envelope (and a rich variant table).
pub open spec fn is_message_entry(e: Entry) -> bool {
    e is User || e is Assistant || e is System || e is Attachment || e is Progress
}

/// The table and row of a metadata-only entry.
pub open spec fn metadata_row(e: Entry) -> (Seq<char>, Seq<JsonView>) {
    match e {
        Entry::PermissionMode(x) => (
            "permission_mode_entries"@,
            seq![JsonView::Null, cell_text(x.permission_mode@), cell_text(x.session_id@)],
        ),
        Entry::LastPrompt(x) => (
            "last_prompt_entries"@,
            seq![
                JsonView::Null,
                cell_opt_text(x.last_prompt),
                cell_opt_text(x.leaf_uuid),
                cell_text(x.session_id@),
            ],
        ),
        Entry::AiTitle(x) => ("ai_title_entries"@, seq![JsonView::Null, cell_text(x.ai_title@), cell_text(x.session_id@)]),
        Entry::CustomTitle(x) => (
            "custom_title_entries"@,
            seq![JsonView::Null, cell_text(x.custom_title@), cell_text(x.session_id@)],
        ),
        Entry::AgentName(x) => (
            "agent_name_entries"@,
            seq![JsonView::Null, cell_text(x.agent_name@), cell_text(x.session_id@)],
        ),
        Entry::AgentColor(x) => (
            "agent_color_entries"@,
            seq![JsonView::Null, cell_text(x.agent_color@), cell_text(x.session_id@)],
        ),
        Entry::AgentSetting(x) => (
            "agent_setting_entries"@,
            seq![JsonView::Null, cell_text(x.agent_setting@), cell_text(x.session_id@)],
        ),
        Entry::Tag(x) => ("tag_entries"@, seq![JsonView::Null, cell_text(x.tag@), cell_text(x.session_id@)]),
        Entry::Summary(x) => (
            "summary_entries"@,
            seq![JsonView::Null, cell_text(x.leaf_uuid@), cell_text(x.summary@), cell_text(x.session_id@)],
        ),
        Entry::TaskSummary(x) => (
            "task_summary_entries"@,
            seq![JsonView::Null, cell_text(x.summary@), cell_text(x.session_id@), cell_text(x.timestamp@)],
        ),
        Entry::PrLink(x) => (
            "pr_link_entries"@,
            seq![
                JsonView::Null,
                cell_text(x.session_id@),
                cell_uint(x.pr_number as nat),
                cell_text(x.pr_url@),
                cell_text(x.pr_repository@),
                cell_text(x.timestamp@),
            ],
        ),
        Entry::Mode(x) => ("mode_entries"@, seq![JsonView::Null, cell_text(mode_name(x.mode)), cell_text(x.session_id@)]),
        Entry::WorktreeState(x) => (
            "worktree_state_entries"@,
            seq![
                JsonView::Null,
                cell_text(x.session_id@),
                match x.worktree_session {
                    Some(w) => cell_json(worktree_session_view(w)),
                    None => JsonView::Null,
                },
            ],
        ),
        Entry::ContentReplacement(x) => (
            "content_replacement_entries"@,
            seq![
                JsonView::Null,
                cell_text(x.session_id@),
                cell_json(values_view(x.replacements@)),
                cell_opt_text(x.agent_id),
            ],
        ),
        Entry::FileHistorySnapshot(x) => (
            "file_history_snapshot_entries"@,
            seq![
                JsonView::Null,
                cell_text(x.message_id@),
                cell_json(snapshot_view(x.snapshot)),
                cell_bool(x.is_snapshot_update),
            ],
        ),
        Entry::AttributionSnapshot(x) => (
            "attribution_snapshot_entries"@,
            seq![
                JsonView::Null,
                cell_text(x.message_id@),
                cell_text(x.surface@),
                cell_json(x.file_states@),
                cell_opt_u32(x.prompt_count),
                cell_opt_u32(x.prompt_count_at_last_commit),
                cell_opt_u32(x.permission_prompt_count),
                cell_opt_u32(x.permission_prompt_count_at_last_commit),
                cell_opt_u32(x.escape_count),
                cell_opt_u32(x.escape_count_at_last_commit),
            ],
        ),
        Entry::QueueOperation(x) => (
            "queue_operation_entries"@,
            seq![
                JsonView::Null,
                cell_text(x.operation@),
                cell_text(x.timestamp@),
                cell_text(x.session_id@),
                cell_opt_text(x.content),
            ],
        ),
        Entry::ContextCollapseCommit(x) => (
            "marble_origami_commit_entries"@,
            seq![
                JsonView::Null,
                cell_text(x.session_id@),
                cell_text(x.collapse_id@),
                cell_text(x.summary_uuid@),
                cell_text(x.summary_content@),
                cell_text(x.summary@),
                cell_text(x.first_archived_uuid@),
                cell_text(x.last_archived_uuid@),
            ],
        ),
        Entry::ContextCollapseSnapshot(x) => (
            "marble_origami_snapshot_entries"@,
            seq![
                JsonView::Null,
                cell_text(x.session_id@),
                cell_json(staged_spans_view(x.staged@)),
                cell_bool(x.armed),
                cell_uint(x.last_spawn_tokens as nat),
            ],
        ),
        Entry::SpeculationAccept(x) => (
            "speculation_accept_entries"@,
            seq![JsonView::Null, cell_text(x.timestamp@), cell_uint(x.time_saved_ms as nat)],
        ),
        _ => (Seq::empty(), Seq::empty()),
    }
}

/// The variant-table row and child rows of an entry; `cost` is what the
/// price table gives for an assistant message.
pub open spec fn variant_rows(e: Entry, cost: Option<JsonNumber>) -> (
    Option<(Seq<char>, Seq<JsonView>)>,
    Seq<(Seq<char>, Seq<Seq<JsonView>>)>,
) {
    match e {
        Entry::User(ue) => (
            Some(("user_entries"@, user_row(ue))),
            child_table("user_content_blocks"@, user_block_rows(user_blocks(ue), user_blocks(ue).len() as int)),
        ),
        Entry::Assistant(ae) => (
            Some(("assistant_entries"@, assistant_row(ae, cost))),
            child_table(
                "assistant_content_blocks"@,
                assistant_block_rows(ae.message.content@, ae.message.content@.len() as int),
            ) + child_table("assistant_usage_iterations"@, iteration_rows(ae.message.usage)),
        ),
        Entry::System(se) => (Some(("system_entries"@, system_row(se))), child_table("system_hook_infos"@, hook_rows(se))),
        Entry::Attachment(ae) => (
            Some(("attachment_entries"@, attachment_row(ae))),
            child_table("attachment_diagnostics_files"@, diagnostics_rows(ae)) + child_table(
                "attachment_invoked_skills"@,
                skill_rows(ae),
            ),
        ),
        Entry::Progress(pe) => (Some(("progress_entries"@, progress_row(pe))), Seq::empty()),
        _ => (Some(metadata_row(e)), Seq::empty()),
    }
}

/// The enum names an entry reports for dropped unrecognised variants.
pub open spec fn entry_unknowns(e: Entry) -> Seq<Seq<char>> {
    match e {
        Entry::User(ue) => user_unknowns(user_blocks(ue), user_blocks(ue).len() as int),
        Entry::Assistant(ae) => assistant_unknowns(ae.message.content@, ae.message.content@.len() as int),
        Entry::Attachment(ae) => if ae.attachment is Unknown {
            seq!["AttachmentData"@]
        } else {
            Seq::empty()
        },
        _ => Seq::empty(),
    }
}

/// The unknown-model list after an entry: only assistant messages add to it.
pub open spec fn models_after(models: Seq<Seq<char>>, e: Entry, cost: Option<JsonNumber>) -> Seq<Seq<char>> {
    match e {
        Entry::Assistant(ae) => next_unknown_models(models, model_text(ae), cost.is_some()),
        _ => models,
    }
}

fn metadata_cells(e: &Entry) -> (r: (&'static str, Vec<JsonValue>))
    requires
        !is_message_entry(*e),
        !(*e is Unknown),
    ensures
        r.deep_view() == metadata_row(*e),
{
    let r: (&'static str, Vec<JsonValue>) = match e {
        Entry::PermissionMode(x) => (
            "permission_mode_entries",
            vec![JsonValue::Null, text_of(&x.permission_mode), text_of(&x.session_id)],
        ),
        Entry::LastPrompt(x) => (
            "last_prompt_entries",
            vec![JsonValue::Null, opt_text_of(&x.last_prompt), opt_text_of(&x.leaf_uuid), text_of(&x.session_id)],
        ),
        Entry::AiTitle(x) => ("ai_title_entries", vec![JsonValue::Null, text_of(&x.ai_title), text_of(&x.session_id)]),
        Entry::CustomTitle(x) => (
            "custom_title_entries",
            vec![JsonValue::Null, text_of(&x.custom_title), text_of(&x.session_id)],
        ),
        Entry::AgentName(x) => ("agent_name_entries", vec![JsonValue::Null, text_of(&x.agent_name), text_of(&x.session_id)]),
        Entry::AgentColor(x) => (
            "agent_color_entries",
            vec![JsonValue::Null, text_of(&x.agent_color), text_of(&x.session_id)],
        ),
        Entry::AgentSetting(x) => (
            "agent_setting_entries",
            vec![JsonValue::Null, text_of(&x.agent_setting), text_of(&x.session_id)],
        ),
        Entry::Tag(x) => ("tag_entries", vec![JsonValue::Null, text_of(&x.tag), text_of(&x.session_id)]),
        Entry::Summary(x) => (
            "summary_entries",
            vec![JsonValue::Null, text_of(&x.leaf_uuid), text_of(&x.summary), text_of(&x.session_id)],
        ),
        Entry::TaskSummary(x) => (
            "task_summary_entries",
            vec![JsonValue::Null, text_of(&x.summary), text_of(&x.session_id), text_of(&x.timestamp)],
        ),
        Entry::PrLink(x) => (
            "pr_link_entries",
            vec![
                JsonValue::Null,
                text_of(&x.session_id),
                u(x.pr_number as u64),
                text_of(&x.pr_url),
                text_of(&x.pr_repository),
                text_of(&x.timestamp),
            ],
        ),
        Entry::Mode(x) => ("mode_entries", vec![JsonValue::Null, s_str(mode_str(x.mode)), text_of(&x.session_id)]),
        Entry::WorktreeState(x) => (
            "worktree_state_entries",
            vec![
                JsonValue::Null,
                text_of(&x.session_id),
                match &x.worktree_session {
                    Some(w) => json_str(&worktree_session_json(w)),
                    None => JsonValue::Null,
                },
            ],
        ),
        Entry::ContentReplacement(x) => (
            "content_replacement_entries",
            vec![
                JsonValue::Null,
                text_of(&x.session_id),
                json_str(&values_json(&x.replacements)),
                opt_text_of(&x.agent_id),
            ],
        ),
        Entry::FileHistorySnapshot(x) => (
            "file_history_snapshot_entries",
            vec![
                JsonValue::Null,
                text_of(&x.message_id),
                json_str(&snapshot_json(&x.snapshot)),
                b(x.is_snapshot_update),
            ],
        ),
        Entry::AttributionSnapshot(x) => (
            "attribution_snapshot_entries",
            vec![
                JsonValue::Null,
                text_of(&x.message_id),
                text_of(&x.surface),
                json_str(&x.file_states),
                ou32(x.prompt_count),
                ou32(x.prompt_count_at_last_commit),
                ou32(x.permission_prompt_count),
                ou32(x.permission_prompt_count_at_last_commit),
                ou32(x.escape_count),
                ou32(x.escape_count_at_last_commit),
            ],
        ),
        Entry::QueueOperation(x) => (
            "queue_operation_entries",
            vec![
                JsonValue::Null,
                text_of(&x.operation),
                text_of(&x.timestamp),
                text_of(&x.session_id),
                opt_text_of(&x.content),
            ],
        ),
        Entry::ContextCollapseCommit(x) => (
            "marble_origami_commit_entries",
            vec![
                JsonValue::Null,
                text_of(&x.session_id),
                text_of(&x.collapse_id),
                text_of(&x.summary_uuid),
                text_of(&x.summary_content),
                text_of(&x.summary),
                text_of(&x.first_archived_uuid),
                text_of(&x.last_archived_uuid),
            ],
        ),
        Entry::ContextCollapseSnapshot(x) => (
            "marble_origami_snapshot_entries",
            vec![
                JsonValue::Null,
                text_of(&x.session_id),
                json_str(&staged_spans_tree(&x.staged)),
                b(x.armed),
                u(x.last_spawn_tokens),
            ],
        ),
        Entry::SpeculationAccept(x) => (
            "speculation_accept_entries",
            vec![JsonValue::Null, text_of(&x.timestamp), u(x.time_saved_ms)],
        ),
        _ => ("", Vec::new()),
    };
    assert(r.1.deep_view() =~= metadata_row(*e).1);
    r
}

/// The variant-table row and child rows of an entry that is not of unknown
/// type. The result is always `Ok`.
pub fn build_variant(
    e: &Entry,
    cost: &Option<JsonNumber>,
    unknown_models: &mut Vec<String>,
    unknown_variants: &mut Vec<String>,
) -> (r: Result<BuiltRows, String>)
    requires
        !(*e is Unknown),
    ensures
        r is Ok,
        r.unwrap().deep_view() == variant_rows(*e, *cost),
        final(unknown_models).deep_view() == models_after(old(unknown_models).deep_view(), *e, *cost),
        final(unknown_variants).deep_view() == old(unknown_variants).deep_view() + entry_unknowns(*e),
{
    match e {
        Entry::User(ue) => Ok(build_user(ue, unknown_variants)),
        Entry::Assistant(ae) => Ok(build_assistant(ae, cost, unknown_models, unknown_variants)),
        Entry::System(se) => {
            let r = build_system(se);
            assert(unknown_variants.deep_view() =~= old(unknown_variants).deep_view() + entry_unknowns(*e));
            Ok(r)
        },
        Entry::Attachment(ae) => Ok(build_attachment(ae, unknown_variants)),
        Entry::Progress(pe) => {
            let r = build_progress(pe);
            assert(unknown_variants.deep_view() =~= old(unknown_variants).deep_view() + entry_unknowns(*e));
            Ok(r)
        },
        _ => {
            let (table, row) = metadata_cells(e);
            let children: Vec<(&'static str, Vec<Vec<JsonValue>>)> = Vec::new();
            assert(children.deep_view() =~= Seq::<(Seq<char>, Seq<Seq<JsonView>>)>::empty());
            assert(unknown_variants.deep_view() =~= old(unknown_variants).deep_view() + entry_unknowns(*e));
            Ok((Some((table, row)), children))
        },
    }
}

} // verus!
