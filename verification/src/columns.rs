//! What each column of each row holds, stated on the fields of the entry it
//! comes from, column by column in the order of the table.

use crate::json::{json_text, lookup, JsonNumber, JsonValue, JsonView, NumberView};
use crate::encode::{
    diagnostics_files_view, diagnostics_view, document_source_view, file_content_view,
    image_source_view, invoked_skills_view, skill_invocation_view, snapshot_view,
    staged_spans_view, strings_view, uints_view, values_view, worktree_session_view,
};
use crate::parse::{entry_row, entry_type_name};
use crate::types::{
    AssistantContentBlock, AssistantEntry, AssistantRole, AttachmentData, AttachmentEntry, Entry,
    HookResultAttachment, ProgressEntry, SessionMode, SystemEntry, SystemSubtype, UserContent,
    UserContentBlock, UserEntry, UserRole, ImageSource, DocumentSource,
};
use crate::variants::{
    assistant_block_row, assistant_row, attachment_row, diagnostics_rows, hook_rows,
    iteration_rows, iterations_of, joined, progress_row, skill_rows, system_row,
    user_block_row, user_row, variant_rows,
};
use vstd::prelude::*;

verus! {

// ─── Cells, as the tables hold them ──────────────────────────────────────

/// A text column holding `s`.
pub open spec fn text(s: String) -> JsonView {
    JsonView::String(s@)
}

/// A text column holding `s`, NULL when absent.
pub open spec fn text_or_null(o: Option<String>) -> JsonView {
    match o {
        Some(s) => JsonView::String(s@),
        None => JsonView::Null,
    }
}

/// An integer column holding `n`.
pub open spec fn count(n: nat) -> JsonView {
    JsonView::Number(NumberView::PosInt(n))
}

/// An integer column holding `n`, NULL when absent.
pub open spec fn count_or_null(o: Option<u64>) -> JsonView {
    match o {
        Some(n) => JsonView::Number(NumberView::PosInt(n as nat)),
        None => JsonView::Null,
    }
}

/// An integer column holding a 32-bit `n`, NULL when absent.
pub open spec fn count32_or_null(o: Option<u32>) -> JsonView {
    match o {
        Some(n) => JsonView::Number(NumberView::PosInt(n as nat)),
        None => JsonView::Null,
    }
}

/// A boolean column holding `b`, NULL when absent.
pub open spec fn flag_or_null(o: Option<bool>) -> JsonView {
    match o {
        Some(b) => JsonView::Bool(b),
        None => JsonView::Null,
    }
}

/// A number column holding `n`, NULL when absent.
pub open spec fn number_or_null(o: Option<JsonNumber>) -> JsonView {
    match o {
        Some(n) => JsonView::Number(n@),
        None => JsonView::Null,
    }
}

/// A JSON column: the compact JSON text of `v`.
pub open spec fn json(v: JsonView) -> JsonView {
    JsonView::String(json_text(v))
}

/// A JSON column holding the text of `v`, NULL when absent.
pub open spec fn json_or_null(o: Option<JsonValue>) -> JsonView {
    match o {
        Some(v) => JsonView::String(json_text(v@)),
        None => JsonView::Null,
    }
}

/// A JSON column of a field that may be absent (NULL) or JSON `null` (the
/// text `null`).
pub open spec fn nullable_json(o: Option<Option<JsonValue>>) -> JsonView {
    match o {
        None => JsonView::Null,
        Some(None) => JsonView::String(json_text(JsonView::Null)),
        Some(Some(v)) => JsonView::String(json_text(v@)),
    }
}

// ─── Kinds and their stored names ────────────────────────────────────────

/// `-` written as `_`.
pub open spec fn underscored(s: Seq<char>) -> Seq<char> {
    Seq::new(s.len(), |i: int| if s[i] == '-' { '_' } else { s[i] })
}

/// The type of an entry is stored in column 3 of its `entries` row; the
/// type contains no `_`, and the entry's variant row goes to the table
/// named after it (`-` written as `_`, then `_entries`). So entries of
/// different kinds are stored under different types, and each under the
/// type of its own table.
pub proof fn lemma_entry_type_names_its_table(e: Entry, line_no: int, file_path: Seq<char>, cost: Option<JsonNumber>)
    requires
        !(e is Unknown),
    ensures
        entry_row(e, line_no, file_path)[3] == JsonView::String(entry_type_name(e)),
        !entry_type_name(e).contains('_'),
        variant_rows(e, cost).0 matches Some(v) && v.0 == underscored(entry_type_name(e)) + "_entries"@,
{
    reveal_strlit("_entries");
    let t = entry_type_name(e);
    let v = variant_rows(e, cost).0.unwrap();
    match e {
        Entry::User(_) => {
            reveal_strlit("user");
            reveal_strlit("user_entries");
        },
        Entry::Assistant(_) => {
            reveal_strlit("assistant");
            reveal_strlit("assistant_entries");
        },
        Entry::System(_) => {
            reveal_strlit("system");
            reveal_strlit("system_entries");
        },
        Entry::Attachment(_) => {
            reveal_strlit("attachment");
            reveal_strlit("attachment_entries");
        },
        Entry::Progress(_) => {
            reveal_strlit("progress");
            reveal_strlit("progress_entries");
        },
        Entry::PermissionMode(_) => {
            reveal_strlit("permission-mode");
            reveal_strlit("permission_mode_entries");
        },
        Entry::LastPrompt(_) => {
            reveal_strlit("last-prompt");
            reveal_strlit("last_prompt_entries");
        },
        Entry::AiTitle(_) => {
            reveal_strlit("ai-title");
            reveal_strlit("ai_title_entries");
        },
        Entry::CustomTitle(_) => {
            reveal_strlit("custom-title");
            reveal_strlit("custom_title_entries");
        },
        Entry::AgentName(_) => {
            reveal_strlit("agent-name");
            reveal_strlit("agent_name_entries");
        },
        Entry::AgentColor(_) => {
            reveal_strlit("agent-color");
            reveal_strlit("agent_color_entries");
        },
        Entry::AgentSetting(_) => {
            reveal_strlit("agent-setting");
            reveal_strlit("agent_setting_entries");
        },
        Entry::Tag(_) => {
            reveal_strlit("tag");
            reveal_strlit("tag_entries");
        },
        Entry::Summary(_) => {
            reveal_strlit("summary");
            reveal_strlit("summary_entries");
        },
        Entry::TaskSummary(_) => {
            reveal_strlit("task-summary");
            reveal_strlit("task_summary_entries");
        },
        Entry::PrLink(_) => {
            reveal_strlit("pr-link");
            reveal_strlit("pr_link_entries");
        },
        Entry::Mode(_) => {
            reveal_strlit("mode");
            reveal_strlit("mode_entries");
        },
        Entry::WorktreeState(_) => {
            reveal_strlit("worktree-state");
            reveal_strlit("worktree_state_entries");
        },
        Entry::ContentReplacement(_) => {
            reveal_strlit("content-replacement");
            reveal_strlit("content_replacement_entries");
        },
        Entry::FileHistorySnapshot(_) => {
            reveal_strlit("file-history-snapshot");
            reveal_strlit("file_history_snapshot_entries");
        },
        Entry::AttributionSnapshot(_) => {
            reveal_strlit("attribution-snapshot");
            reveal_strlit("attribution_snapshot_entries");
        },
        Entry::QueueOperation(_) => {
            reveal_strlit("queue-operation");
            reveal_strlit("queue_operation_entries");
        },
        Entry::ContextCollapseCommit(_) => {
            reveal_strlit("marble-origami-commit");
            reveal_strlit("marble_origami_commit_entries");
        },
        Entry::ContextCollapseSnapshot(_) => {
            reveal_strlit("marble-origami-snapshot");
            reveal_strlit("marble_origami_snapshot_entries");
        },
        Entry::SpeculationAccept(_) => {
            reveal_strlit("speculation-accept");
            reveal_strlit("speculation_accept_entries");
        },
        Entry::Unknown => {},
    }
    assert(v.0 =~= underscored(t) + "_entries"@);
    assert(!t.contains('_'));
}

/// The stored name of a system subtype.
pub open spec fn subtype_text(st: SystemSubtype) -> Seq<char> {
    match st {
        SystemSubtype::ApiError => "api_error"@,
        SystemSubtype::AwaySummary => "away_summary"@,
        SystemSubtype::BridgeStatus => "bridge_status"@,
        SystemSubtype::CompactBoundary => "compact_boundary"@,
        SystemSubtype::Informational => "informational"@,
        SystemSubtype::LocalCommand => "local_command"@,
        SystemSubtype::ScheduledTaskFire => "scheduled_task_fire"@,
        SystemSubtype::StopHookSummary => "stop_hook_summary"@,
        SystemSubtype::TurnDuration => "turn_duration"@,
        SystemSubtype::MicrocompactBoundary => "microcompact_boundary"@,
        SystemSubtype::PermissionRetry => "permission_retry"@,
        SystemSubtype::AgentsKilled => "agents_killed"@,
        SystemSubtype::Unknown => "unknown"@,
    }
}

// ─── The `entries` row ───────────────────────────────────────────────────

/// The `entries` row: NULL id, the file's path, the line number, the type,
/// the subtype (system entries only), then `uuid`, `parent_uuid`,
/// `logical_parent_uuid`, `is_sidechain`, `session_id`, `timestamp`,
/// `user_type`, `entrypoint`, `cwd`, `version`, `git_branch`, `slug`,
/// `agent_id`, `team_name`, `agent_name`, `agent_color`, `prompt_id`,
/// `is_meta`, `forked_from_uuid`, `forked_from_session_id` from the envelope
/// of a message entry; a metadata-only entry has all of these NULL but its
/// session id.
pub proof fn lemma_entries_row_columns(e: Entry, line_no: int, file_path: Seq<char>)
    requires
        !(e is Unknown),
        0 <= line_no,
    ensures
        ({
            let row = entry_row(e, line_no, file_path);
            &&& row.len() == 25
            &&& row[0] == JsonView::Null
            &&& row[1] == JsonView::String(file_path)
            &&& row[2] == count(line_no as nat)
            &&& row[4] == match e {
                Entry::System(se) => JsonView::String(subtype_text(se.subtype)),
                _ => JsonView::Null,
            }
            &&& match e {
                Entry::User(x) => envelope_columns(row, x.envelope),
                Entry::Assistant(x) => envelope_columns(row, x.envelope),
                Entry::System(x) => envelope_columns(row, x.envelope),
                Entry::Attachment(x) => envelope_columns(row, x.envelope),
                Entry::Progress(x) => envelope_columns(row, x.envelope),
                _ => forall|i: int| 5 <= i < 25 ==> #[trigger] row[i] == if i == 9 {
                    match crate::parse::metadata_sid(e) {
                        Some(sid) => JsonView::String(sid),
                        None => JsonView::Null,
                    }
                } else {
                    JsonView::Null
                },
            }
        }),
{
}

/// Columns 5 to 24 of an `entries` row hold the envelope's fields.
pub open spec fn envelope_columns(row: Seq<JsonView>, env: crate::types::Envelope) -> bool {
    &&& row[5] == text(env.uuid)
    &&& row[6] == text_or_null(env.parent_uuid)
    &&& row[7] == text_or_null(env.logical_parent_uuid)
    &&& row[8] == JsonView::Bool(env.is_sidechain)
    &&& row[9] == text(env.session_id)
    &&& row[10] == text(env.timestamp)
    &&& row[11] == text_or_null(env.user_type)
    &&& row[12] == text_or_null(env.entrypoint)
    &&& row[13] == text_or_null(env.cwd)
    &&& row[14] == text_or_null(env.version)
    &&& row[15] == text_or_null(env.git_branch)
    &&& row[16] == text_or_null(env.slug)
    &&& row[17] == text_or_null(env.agent_id)
    &&& row[18] == text_or_null(env.team_name)
    &&& row[19] == text_or_null(env.agent_name)
    &&& row[20] == text_or_null(env.agent_color)
    &&& row[21] == text_or_null(env.prompt_id)
    &&& row[22] == flag_or_null(env.is_meta)
    &&& row[23] == match env.forked_from {
        Some(f) => text(f.message_uuid),
        None => JsonView::Null,
    }
    &&& row[24] == match env.forked_from {
        Some(f) => text(f.session_id),
        None => JsonView::Null,
    }
}

// ─── User messages ───────────────────────────────────────────────────────

/// The `user_entries` row: NULL id, `message_role`, `message_content_text`
/// (plain-text content only), `message_has_blocks`, `tool_use_result`,
/// `source_tool_assistant_uuid`, `source_tool_use_id`, `permission_mode`,
/// `origin`, `is_compact_summary`, `is_visible_in_transcript_only`,
/// `image_paste_ids`, `plan_content`.
pub proof fn lemma_user_row_columns(ue: UserEntry)
    ensures
        user_row(ue) == seq![
            JsonView::Null,
            JsonView::String(
                match ue.message.role {
                    UserRole::User => "user"@,
                    UserRole::Unknown => "unknown"@,
                },
            ),
            match ue.message.content {
                UserContent::Text(t) => text(t),
                _ => JsonView::Null,
            },
            JsonView::Bool(ue.message.content is Blocks),
            json_or_null(ue.tool_use_result),
            text_or_null(ue.source_tool_assistant_uuid),
            text_or_null(ue.source_tool_use_id),
            text_or_null(ue.permission_mode),
            json_or_null(ue.origin),
            flag_or_null(ue.is_compact_summary),
            flag_or_null(ue.is_visible_in_transcript_only),
            match ue.image_paste_ids {
                Some(v) => json(uints_view(v@)),
                None => JsonView::Null,
            },
            text_or_null(ue.plan_content),
        ],
{
}

/// The `user_content_blocks` row of a block at position `pos`: NULL id,
/// `position`, `block_type`, `text`, `tool_use_id`, `tool_result_content`,
/// `is_error`, `image_source`, `document_source`, `document_title`; only
/// the columns of the block's own type are filled, and a source of unknown
/// type is NULL. A block of unknown type has no row.
pub proof fn lemma_user_block_columns(blk: UserContentBlock, pos: nat)
    ensures
        user_block_row(blk, pos as int) == match blk {
            UserContentBlock::Text { text: t } => Some(
                seq![JsonView::Null, count(pos), JsonView::String("text"@), text(t)] + Seq::new(
                    6,
                    |i: int| JsonView::Null,
                ),
            ),
            UserContentBlock::ToolResult { tool_use_id, content, is_error } => Some(
                seq![
                    JsonView::Null,
                    count(pos),
                    JsonView::String("tool_result"@),
                    JsonView::Null,
                    text(tool_use_id),
                    json(content@),
                    flag_or_null(is_error),
                    JsonView::Null,
                    JsonView::Null,
                    JsonView::Null,
                ],
            ),
            UserContentBlock::Image { source } => Some(
                seq![
                    JsonView::Null,
                    count(pos),
                    JsonView::String("image"@),
                    JsonView::Null,
                    JsonView::Null,
                    JsonView::Null,
                    JsonView::Null,
                    if source is Unknown {
                        JsonView::Null
                    } else {
                        json(image_source_view(source))
                    },
                    JsonView::Null,
                    JsonView::Null,
                ],
            ),
            UserContentBlock::Document { source, title } => Some(
                seq![
                    JsonView::Null,
                    count(pos),
                    JsonView::String("document"@),
                    JsonView::Null,
                    JsonView::Null,
                    JsonView::Null,
                    JsonView::Null,
                    JsonView::Null,
                    if source is Unknown {
                        JsonView::Null
                    } else {
                        json(document_source_view(source))
                    },
                    text_or_null(title),
                ],
            ),
            UserContentBlock::Unknown => None,
        },
{
    if let UserContentBlock::Text { text: t } = blk {
        assert(user_block_row(blk, pos as int).unwrap() =~= seq![JsonView::Null, count(pos), JsonView::String("text"@), text(t)] + Seq::new(
            6,
            |i: int| JsonView::Null,
        ));
    }
}

// ─── Assistant messages ──────────────────────────────────────────────────

/// The `assistant_entries` row: NULL id, `message_id`, `role`, `model`
/// (empty text when absent), `container`, `stop_reason`, `stop_sequence`,
/// `stop_details`, `context_management`, `request_id`,
/// `is_api_error_message`, `error`, `tool_use_count` (the number of tool-use
/// blocks), `cost_usd`, `input_tokens`, `output_tokens`,
/// `cache_creation_input_tokens`, `cache_read_input_tokens`,
/// `cache_creation_5m`, `cache_creation_1h`, `web_search_requests`,
/// `web_fetch_requests`, `service_tier`, `inference_geo`, `iterations`,
/// `speed`.
#[verifier::rlimit(50)]
pub proof fn lemma_assistant_row_columns(ae: AssistantEntry, cost: Option<JsonNumber>)
    ensures
        ({
            let m = ae.message;
            let u = m.usage;
            assistant_row(ae, cost) == seq![
                JsonView::Null,
                text(m.id),
                JsonView::String(
                    match m.role {
                        AssistantRole::Assistant => "assistant"@,
                        AssistantRole::Unknown => "unknown"@,
                    },
                ),
                JsonView::String(
                    match m.model {
                        Some(t) => t@,
                        None => Seq::empty(),
                    },
                ),
                nullable_json(m.container),
                text_or_null(m.stop_reason),
                text_or_null(m.stop_sequence),
                nullable_json(m.stop_details),
                nullable_json(m.context_management),
                text_or_null(ae.request_id),
                flag_or_null(ae.is_api_error_message),
                text_or_null(ae.error),
                count(tool_use_total(m.content@)),
                number_or_null(cost),
                count(u.input_tokens as nat),
                count(u.output_tokens as nat),
                count_or_null(u.cache_creation_input_tokens),
                count_or_null(u.cache_read_input_tokens),
                match u.cache_creation {
                    Some(c) => count_or_null(c.ephemeral_5m_input_tokens),
                    None => JsonView::Null,
                },
                match u.cache_creation {
                    Some(c) => count_or_null(c.ephemeral_1h_input_tokens),
                    None => JsonView::Null,
                },
                match u.server_tool_use {
                    Some(t) => count(t.web_search_requests as nat),
                    None => JsonView::Null,
                },
                match u.server_tool_use {
                    Some(t) => count(t.web_fetch_requests as nat),
                    None => JsonView::Null,
                },
                nullable_json(u.service_tier),
                nullable_json(u.inference_geo),
                nullable_json(u.iterations),
                nullable_json(u.speed),
            ]
        }),
{
    let c = ae.message.content@;
    lemma_tool_use_total(c, c.len() as int);
    assert(c.take(c.len() as int) =~= c);
}

/// The number of tool-use blocks among `blocks`.
pub open spec fn tool_use_total(blocks: Seq<AssistantContentBlock>) -> nat {
    blocks.filter(is_tool_use()).len()
}

/// Whether a block is a tool use.
pub open spec fn is_tool_use() -> spec_fn(AssistantContentBlock) -> bool {
    |b: AssistantContentBlock| b is ToolUse
}

proof fn lemma_tool_use_total(blocks: Seq<AssistantContentBlock>, n: int)
    requires
        0 <= n <= blocks.len(),
    ensures
        crate::variants::tool_uses(blocks, n) == tool_use_total(blocks.take(n)),
    decreases n,
{
    if n > 0 {
        lemma_tool_use_total(blocks, n - 1);
        reveal(Seq::filter);
        let t = blocks.take(n);
        assert(t.drop_last() =~= blocks.take(n - 1));
        assert(t.last() == blocks[n - 1]);
        assert(t.filter(is_tool_use()) == if is_tool_use()(t.last()) {
            t.drop_last().filter(is_tool_use()).push(t.last())
        } else {
            t.drop_last().filter(is_tool_use())
        });
    } else {
        reveal(Seq::filter);
        assert(blocks.take(0) =~= Seq::<AssistantContentBlock>::empty());
    }
}

/// The `assistant_content_blocks` row of a block at position `pos`: NULL id,
/// `position`, `block_type`, `text`, `thinking`, `signature`,
/// `redacted_data`, `tool_use_id`, `tool_name`, `tool_input`, `caller_type`;
/// only the columns of the block's own type are filled. A block of unknown
/// type has no row.
pub proof fn lemma_assistant_block_columns(blk: AssistantContentBlock, pos: nat)
    ensures
        assistant_block_row(blk, pos as int) == match blk {
            AssistantContentBlock::Text { text: t } => Some(
                seq![
                    JsonView::Null,
                    count(pos),
                    JsonView::String("text"@),
                    text(t),
                    JsonView::Null,
                    JsonView::Null,
                    JsonView::Null,
                    JsonView::Null,
                    JsonView::Null,
                    JsonView::Null,
                    JsonView::Null,
                ],
            ),
            AssistantContentBlock::Thinking { thinking, signature } => Some(
                seq![
                    JsonView::Null,
                    count(pos),
                    JsonView::String("thinking"@),
                    JsonView::Null,
                    text(thinking),
                    text(signature),
                    JsonView::Null,
                    JsonView::Null,
                    JsonView::Null,
                    JsonView::Null,
                    JsonView::Null,
                ],
            ),
            AssistantContentBlock::RedactedThinking { data } => Some(
                seq![
                    JsonView::Null,
                    count(pos),
                    JsonView::String("redacted_thinking"@),
                    JsonView::Null,
                    JsonView::Null,
                    JsonView::Null,
                    text(data),
                    JsonView::Null,
                    JsonView::Null,
                    JsonView::Null,
                    JsonView::Null,
                ],
            ),
            AssistantContentBlock::ToolUse { id, name, input, caller } => Some(
                seq![
                    JsonView::Null,
                    count(pos),
                    JsonView::String("tool_use"@),
                    JsonView::Null,
                    JsonView::Null,
                    JsonView::Null,
                    JsonView::Null,
                    text(id),
                    text(name),
                    json(input@),
                    match caller {
                        Some(c) => text(c.caller_type),
                        None => JsonView::Null,
                    },
                ],
            ),
            AssistantContentBlock::Unknown => None,
        },
{
    match blk {
        AssistantContentBlock::Text { .. } => {
            assert(assistant_block_row(blk, pos as int).unwrap() =~= match blk {
                AssistantContentBlock::Text { text: t } => seq![
                    JsonView::Null, count(pos), JsonView::String("text"@), text(t), JsonView::Null,
                    JsonView::Null, JsonView::Null, JsonView::Null, JsonView::Null, JsonView::Null,
                    JsonView::Null,
                ],
                _ => Seq::empty(),
            });
        },
        AssistantContentBlock::Thinking { .. } => {
            assert(assistant_block_row(blk, pos as int).unwrap() =~= match blk {
                AssistantContentBlock::Thinking { thinking, signature } => seq![
                    JsonView::Null, count(pos), JsonView::String("thinking"@), JsonView::Null,
                    text(thinking), text(signature), JsonView::Null, JsonView::Null, JsonView::Null,
                    JsonView::Null, JsonView::Null,
                ],
                _ => Seq::empty(),
            });
        },
        AssistantContentBlock::RedactedThinking { .. } => {
            assert(assistant_block_row(blk, pos as int).unwrap() =~= match blk {
                AssistantContentBlock::RedactedThinking { data } => seq![
                    JsonView::Null, count(pos), JsonView::String("redacted_thinking"@), JsonView::Null,
                    JsonView::Null, JsonView::Null, text(data), JsonView::Null, JsonView::Null,
                    JsonView::Null, JsonView::Null,
                ],
                _ => Seq::empty(),
            });
        },
        _ => {},
    }
}

/// The `assistant_usage_iterations` row of the `i`-th usage iteration: NULL
/// id, `position`, `iter_type` (its `type` text), `input_tokens`,
/// `output_tokens`, `cache_read_input_tokens`,
/// `cache_creation_input_tokens`, and `cache_creation_5m` and
/// `cache_creation_1h` from its `cache_creation` object; a count that is
/// missing or not a non-negative integer is NULL.
pub proof fn lemma_iteration_columns(u: crate::types::AssistantUsage, i: int)
    requires
        0 <= i < iterations_of(u).len(),
    ensures
        ({
            let it = iterations_of(u)[i];
            iteration_rows(u)[i] == seq![
                JsonView::Null,
                count(i as nat),
                match lookup(it, "type"@) {
                    Some(JsonView::String(t)) => JsonView::String(t),
                    _ => JsonView::Null,
                },
                count_at(it, "input_tokens"@),
                count_at(it, "output_tokens"@),
                count_at(it, "cache_read_input_tokens"@),
                count_at(it, "cache_creation_input_tokens"@),
                match lookup(it, "cache_creation"@) {
                    Some(c) => count_at(c, "ephemeral_5m_input_tokens"@),
                    None => JsonView::Null,
                },
                match lookup(it, "cache_creation"@) {
                    Some(c) => count_at(c, "ephemeral_1h_input_tokens"@),
                    None => JsonView::Null,
                },
            ]
        }),
{
}

/// There is one usage-iteration row per element of `usage.iterations` when
/// that is a JSON array, and none otherwise; the `i`-th row is about the
/// `i`-th element.
pub proof fn lemma_iteration_count(u: crate::types::AssistantUsage)
    ensures
        iteration_rows(u).len() == match u.iterations {
            Some(Some(v)) => match v@ {
                JsonView::Array(items) => items.len(),
                _ => 0,
            },
            _ => 0,
        },
{
    if let Some(Some(JsonValue::Array(items))) = u.iterations {
        crate::json::lemma_view_items_len(items@);
    }
}

/// The count under `key` of an object, when it is a non-negative integer;
/// NULL otherwise.
pub open spec fn count_at(v: JsonView, key: Seq<char>) -> JsonView {
    match lookup(v, key) {
        Some(JsonView::Number(NumberView::PosInt(n))) => count(n),
        _ => JsonView::Null,
    }
}

// ─── System entries ──────────────────────────────────────────────────────

/// The `system_entries` row: NULL id, `subtype`, `content`, `level`,
/// `is_meta`, `cause`, `error`, `retry_in_ms`, `retry_attempt`,
/// `max_retries`, `hook_count`, `hook_errors`, `prevented_continuation`,
/// `stop_reason`, `has_output`, `tool_use_id`, `duration_ms`,
/// `message_count`, `url`, `upgrade_nudge`, then from the compact metadata
/// `compact_trigger`, `compact_pre_tokens`, `compact_post_tokens`,
/// `compact_duration_ms`, the preserved segment's head, anchor and tail
/// uuids, and `pre_compact_discovered_tools` (all NULL without compact
/// metadata).
#[verifier::rlimit(50)]
pub proof fn lemma_system_row_columns(se: SystemEntry)
    ensures
        system_row(se) == seq![
            JsonView::Null,
            JsonView::String(subtype_text(se.subtype)),
            text_or_null(se.content),
            text_or_null(se.level),
            flag_or_null(se.is_meta),
            json_or_null(se.cause),
            json_or_null(se.error),
            number_or_null(se.retry_in_ms),
            count32_or_null(se.retry_attempt),
            count32_or_null(se.max_retries),
            count32_or_null(se.hook_count),
            match se.hook_errors {
                Some(v) => json(values_view(v@)),
                None => JsonView::Null,
            },
            flag_or_null(se.prevented_continuation),
            text_or_null(se.stop_reason),
            flag_or_null(se.has_output),
            text_or_null(se.tool_use_id),
            number_or_null(se.duration_ms),
            count32_or_null(se.message_count),
            text_or_null(se.url),
            text_or_null(se.upgrade_nudge),
            match se.compact_metadata {
                Some(c) => text(c.trigger),
                None => JsonView::Null,
            },
            match se.compact_metadata {
                Some(c) => count_or_null(c.pre_tokens),
                None => JsonView::Null,
            },
            match se.compact_metadata {
                Some(c) => count_or_null(c.post_tokens),
                None => JsonView::Null,
            },
            match se.compact_metadata {
                Some(c) => count_or_null(c.duration_ms),
                None => JsonView::Null,
            },
            match se.compact_metadata {
                Some(c) => match c.preserved_segment {
                    Some(p) => text(p.head_uuid),
                    None => JsonView::Null,
                },
                None => JsonView::Null,
            },
            match se.compact_metadata {
                Some(c) => match c.preserved_segment {
                    Some(p) => text(p.anchor_uuid),
                    None => JsonView::Null,
                },
                None => JsonView::Null,
            },
            match se.compact_metadata {
                Some(c) => match c.preserved_segment {
                    Some(p) => text(p.tail_uuid),
                    None => JsonView::Null,
                },
                None => JsonView::Null,
            },
            match se.compact_metadata {
                Some(c) => match c.pre_compact_discovered_tools {
                    Some(v) => json(strings_view(v@)),
                    None => JsonView::Null,
                },
                None => JsonView::Null,
            },
        ],
{
}

/// The `system_hook_infos` row of the `i`-th hook: NULL id, `position`,
/// `command`, `duration_ms`.
pub proof fn lemma_hook_columns(se: SystemEntry, i: int)
    requires
        se.hook_infos matches Some(v) && 0 <= i < v@.len(),
    ensures
        ({
            let h = se.hook_infos.unwrap()@[i];
            hook_rows(se)[i] == seq![JsonView::Null, count(i as nat), text(h.command), count(h.duration_ms as nat)]
        }),
{
}

// ─── Progress entries ────────────────────────────────────────────────────

/// The `progress_entries` row: NULL id, `parent_tool_use_id`,
/// `tool_use_id`, then the data's `data_type`, `hook_event`, `hook_name`,
/// `command`, `agent_id`, `prompt`, `message`, `query`, `result_count`,
/// `elapsed_time_seconds`, `full_output`, `output`, `timeout_ms`,
/// `total_lines`, `total_bytes`, `task_id`, `server_name`, `status`,
/// `tool_name`, `elapsed_time_ms`, `task_description`, `task_type`.
#[verifier::rlimit(50)]
pub proof fn lemma_progress_row_columns(pe: ProgressEntry)
    ensures
        ({
            let d = pe.data;
            progress_row(pe) == seq![
                JsonView::Null,
                text_or_null(pe.parent_tool_use_id),
                text_or_null(pe.tool_use_id),
                text(d.data_type),
                text_or_null(d.hook_event),
                text_or_null(d.hook_name),
                text_or_null(d.command),
                text_or_null(d.agent_id),
                text_or_null(d.prompt),
                json_or_null(d.message),
                text_or_null(d.query),
                count32_or_null(d.result_count),
                number_or_null(d.elapsed_time_seconds),
                text_or_null(d.full_output),
                text_or_null(d.output),
                count_or_null(d.timeout_ms),
                count_or_null(d.total_lines),
                count_or_null(d.total_bytes),
                text_or_null(d.task_id),
                text_or_null(d.server_name),
                text_or_null(d.status),
                text_or_null(d.tool_name),
                number_or_null(d.elapsed_time_ms),
                text_or_null(d.task_description),
                text_or_null(d.task_type),
            ]
        }),
{
}

// ─── Metadata-only entries ───────────────────────────────────────────────

/// The variant table and row of a metadata-only entry, column by column in
/// the order of its table.
pub proof fn lemma_metadata_row_columns(e: Entry, cost: Option<JsonNumber>)
    requires
        !(e is Unknown || e is User || e is Assistant || e is System || e is Attachment || e is Progress),
    ensures
        variant_rows(e, cost).0 == Some(
            match e {
                Entry::PermissionMode(x) => ("permission_mode_entries"@, seq![JsonView::Null, text(x.permission_mode), text(x.session_id)]),
                Entry::LastPrompt(x) => (
                    "last_prompt_entries"@,
                    seq![JsonView::Null, text_or_null(x.last_prompt), text_or_null(x.leaf_uuid), text(x.session_id)],
                ),
                Entry::AiTitle(x) => ("ai_title_entries"@, seq![JsonView::Null, text(x.ai_title), text(x.session_id)]),
                Entry::CustomTitle(x) => ("custom_title_entries"@, seq![JsonView::Null, text(x.custom_title), text(x.session_id)]),
                Entry::AgentName(x) => ("agent_name_entries"@, seq![JsonView::Null, text(x.agent_name), text(x.session_id)]),
                Entry::AgentColor(x) => ("agent_color_entries"@, seq![JsonView::Null, text(x.agent_color), text(x.session_id)]),
                Entry::AgentSetting(x) => ("agent_setting_entries"@, seq![JsonView::Null, text(x.agent_setting), text(x.session_id)]),
                Entry::Tag(x) => ("tag_entries"@, seq![JsonView::Null, text(x.tag), text(x.session_id)]),
                Entry::Summary(x) => ("summary_entries"@, seq![JsonView::Null, text(x.leaf_uuid), text(x.summary), text(x.session_id)]),
                Entry::TaskSummary(x) => ("task_summary_entries"@, seq![JsonView::Null, text(x.summary), text(x.session_id), text(x.timestamp)]),
                Entry::PrLink(x) => (
                    "pr_link_entries"@,
                    seq![JsonView::Null, text(x.session_id), count(x.pr_number as nat), text(x.pr_url), text(x.pr_repository), text(x.timestamp)],
                ),
                Entry::Mode(x) => (
                    "mode_entries"@,
                    seq![
                        JsonView::Null,
                        JsonView::String(
                            match x.mode {
                                SessionMode::Coordinator => "coordinator"@,
                                SessionMode::Normal => "normal"@,
                                SessionMode::Unknown => "unknown"@,
                            },
                        ),
                        text(x.session_id),
                    ],
                ),
                Entry::WorktreeState(x) => (
                    "worktree_state_entries"@,
                    seq![
                        JsonView::Null,
                        text(x.session_id),
                        match x.worktree_session {
                            Some(w) => json(worktree_session_view(w)),
                            None => JsonView::Null,
                        },
                    ],
                ),
                Entry::ContentReplacement(x) => (
                    "content_replacement_entries"@,
                    seq![JsonView::Null, text(x.session_id), json(values_view(x.replacements@)), text_or_null(x.agent_id)],
                ),
                Entry::FileHistorySnapshot(x) => (
                    "file_history_snapshot_entries"@,
                    seq![JsonView::Null, text(x.message_id), json(snapshot_view(x.snapshot)), JsonView::Bool(x.is_snapshot_update)],
                ),
                Entry::AttributionSnapshot(x) => (
                    "attribution_snapshot_entries"@,
                    seq![
                        JsonView::Null,
                        text(x.message_id),
                        text(x.surface),
                        json(x.file_states@),
                        count32_or_null(x.prompt_count),
                        count32_or_null(x.prompt_count_at_last_commit),
                        count32_or_null(x.permission_prompt_count),
                        count32_or_null(x.permission_prompt_count_at_last_commit),
                        count32_or_null(x.escape_count),
                        count32_or_null(x.escape_count_at_last_commit),
                    ],
                ),
                Entry::QueueOperation(x) => (
                    "queue_operation_entries"@,
                    seq![JsonView::Null, text(x.operation), text(x.timestamp), text(x.session_id), text_or_null(x.content)],
                ),
                Entry::ContextCollapseCommit(x) => (
                    "marble_origami_commit_entries"@,
                    seq![
                        JsonView::Null,
                        text(x.session_id),
                        text(x.collapse_id),
                        text(x.summary_uuid),
                        text(x.summary_content),
                        text(x.summary),
                        text(x.first_archived_uuid),
                        text(x.last_archived_uuid),
                    ],
                ),
                Entry::ContextCollapseSnapshot(x) => (
                    "marble_origami_snapshot_entries"@,
                    seq![
                        JsonView::Null,
                        text(x.session_id),
                        json(staged_spans_view(x.staged@)),
                        JsonView::Bool(x.armed),
                        count(x.last_spawn_tokens as nat),
                    ],
                ),
                Entry::SpeculationAccept(x) => (
                    "speculation_accept_entries"@,
                    seq![JsonView::Null, text(x.timestamp), count(x.time_saved_ms as nat)],
                ),
                _ => (Seq::empty(), Seq::empty()),
            },
        ),
{
}

// ─── Attachments ─────────────────────────────────────────────────────────

/// A 47-column `attachment_entries` row: NULL id, the attachment type in
/// column 1, the `filled` columns, and NULL everywhere else.
pub open spec fn wide_row(kind: Seq<char>, filled: Map<int, JsonView>) -> Seq<JsonView> {
    Seq::new(
        47,
        |i: int|
            if i == 1 {
                JsonView::String(kind)
            } else if i >= 2 && filled.contains_key(i) {
                filled[i]
            } else {
                JsonView::Null
            },
    )
}

/// An integer column holding a signed 32-bit `v`, NULL when absent.
pub open spec fn signed_or_null(o: Option<i32>) -> JsonView {
    match o {
        Some(v) => if v < 0 {
            JsonView::Number(NumberView::NegInt(v as int))
        } else {
            JsonView::Number(NumberView::PosInt(v as nat))
        },
        None => JsonView::Null,
    }
}

/// The hook-result columns: `hook_name` (2), `tool_use_id` (3),
/// `hook_event` (4), `hook_content` (5), `hook_stdout` (6), `hook_stderr`
/// (7), `hook_exit_code` (8), `hook_command` (9), `hook_duration_ms` (10).
pub open spec fn hook_result_columns(h: HookResultAttachment) -> Map<int, JsonView> {
    map![
        2int => text_or_null(h.hook_name),
        3int => text_or_null(h.tool_use_id),
        4int => text_or_null(h.hook_event),
        5int => text_or_null(h.content),
        6int => text_or_null(h.stdout),
        7int => text_or_null(h.stderr),
        8int => signed_or_null(h.exit_code),
        9int => text_or_null(h.command),
        10int => count_or_null(h.duration_ms),
    ]
}

/// The stored type of an attachment, and the columns it fills (by the
/// column numbers of `attachment_entries`: 11 `decision`, 12 `filename`,
/// 13 `file_content_text`, 14 `file_content_metadata`, 15 `display_path`,
/// 16 `directory_path`, 17 `directory_content`, 18 `command_allowed_tools`,
/// 19 `plan_reminder_type`, 20 `plan_is_sub_agent`, 21 `plan_file_path`,
/// 22 `plan_exists`, 23 `skill_listing_content`, 24
/// `skill_listing_is_initial`, 25 `skill_listing_count`, 26 `skill_dir`, 27
/// `skill_names`, 28 `invoked_skills`, 29 `task_reminder_content`, 30
/// `task_reminder_item_count`, 31 `diagnostics_files`, 32
/// `diagnostics_is_new`, 33 `date_change_new_date`, 34
/// `deferred_added_names`, 35 `deferred_added_lines`, 36
/// `deferred_removed_names`, 37 `mcp_added_names`, 38 `mcp_added_blocks`,
/// 39 `mcp_removed_names`, 40 `ultrathink_level`, 41
/// `queued_command_prompt`, 42 `queued_command_mode`, 43
/// `nested_memory_path`, 44 `nested_memory_memory_type`, 45
/// `nested_memory_content`, 46 `nested_memory_differs_from_disk`).
pub open spec fn attachment_columns(a: AttachmentData) -> (Seq<char>, Map<int, JsonView>) {
    match a {
        AttachmentData::HookSuccess(h) => ("hook_success"@, hook_result_columns(h)),
        AttachmentData::HookNonBlockingError(h) => ("hook_non_blocking_error"@, hook_result_columns(h)),
        AttachmentData::HookBlockingError(h) => ("hook_blocking_error"@, hook_result_columns(h)),
        AttachmentData::HookCancelled(h) => ("hook_cancelled"@, hook_result_columns(h)),
        AttachmentData::HookAdditionalContext { content, hook_name, tool_use_id, hook_event } => (
            "hook_additional_context"@,
            map![
                2int => text_or_null(hook_name),
                3int => text_or_null(tool_use_id),
                4int => text_or_null(hook_event),
                5int => JsonView::String(joined(content.deep_view(), seq!['\n'])),
            ],
        ),
        AttachmentData::HookPermissionDecision { decision, hook_name, tool_use_id, hook_event } => (
            "hook_permission_decision"@,
            map![
                2int => text_or_null(hook_name),
                3int => text_or_null(tool_use_id),
                4int => text_or_null(hook_event),
                11int => text(decision),
            ],
        ),
        AttachmentData::File { filename, content, display_path } => (
            "file"@,
            map![
                12int => text(filename),
                13int => text_or_null(content.file.content),
                14int => json(file_content_view(content)),
                15int => text_or_null(display_path),
            ],
        ),
        AttachmentData::EditedTextFile { filename, snippet } => (
            "edited_text_file"@,
            map![12int => text(filename), 13int => text(snippet)],
        ),
        AttachmentData::Directory { path, content, display_path } => (
            "directory"@,
            map![15int => text(display_path), 16int => text(path), 17int => text(content)],
        ),
        AttachmentData::CompactFileReference { filename, display_path } => (
            "compact_file_reference"@,
            map![12int => text(filename), 15int => text(display_path)],
        ),
        AttachmentData::CommandPermissions { allowed_tools } => (
            "command_permissions"@,
            map![18int => json(strings_view(allowed_tools@))],
        ),
        AttachmentData::PlanMode { reminder_type, is_sub_agent, plan_file_path, plan_exists } => (
            "plan_mode"@,
            map![
                19int => text(reminder_type),
                20int => JsonView::Bool(is_sub_agent),
                21int => text_or_null(plan_file_path),
                22int => JsonView::Bool(plan_exists),
            ],
        ),
        AttachmentData::PlanModeExit { plan_file_path, plan_exists } => (
            "plan_mode_exit"@,
            map![21int => text_or_null(plan_file_path), 22int => JsonView::Bool(plan_exists)],
        ),
        AttachmentData::SkillListing { content, is_initial, skill_count } => (
            "skill_listing"@,
            map![23int => text(content), 24int => flag_or_null(is_initial), 25int => count32_or_null(skill_count)],
        ),
        AttachmentData::DynamicSkill { skill_dir, skill_names, display_path } => (
            "dynamic_skill"@,
            map![15int => text(display_path), 26int => text(skill_dir), 27int => json(strings_view(skill_names@))],
        ),
        AttachmentData::InvokedSkills { skills } => (
            "invoked_skills"@,
            map![28int => json(invoked_skills_view(skills@))],
        ),
        AttachmentData::TaskReminder { content, item_count } => (
            "task_reminder"@,
            map![29int => json(values_view(content@)), 30int => count(item_count as nat)],
        ),
        AttachmentData::Diagnostics { files, is_new } => (
            "diagnostics"@,
            map![31int => json(diagnostics_files_view(files@)), 32int => JsonView::Bool(is_new)],
        ),
        AttachmentData::DateChange { new_date } => ("date_change"@, map![33int => text(new_date)]),
        AttachmentData::DeferredToolsDelta { added_names, added_lines, removed_names } => (
            "deferred_tools_delta"@,
            map![
                34int => json(strings_view(added_names@)),
                35int => match added_lines {
                    Some(v) => json(strings_view(v@)),
                    None => JsonView::Null,
                },
                36int => match removed_names {
                    Some(v) => json(strings_view(v@)),
                    None => JsonView::Null,
                },
            ],
        ),
        AttachmentData::McpInstructionsDelta { added_names, added_blocks, removed_names } => (
            "mcp_instructions_delta"@,
            map![
                37int => json(strings_view(added_names@)),
                38int => json(strings_view(added_blocks@)),
                39int => match removed_names {
                    Some(v) => json(strings_view(v@)),
                    None => JsonView::Null,
                },
            ],
        ),
        AttachmentData::UltrathinkEffort { level } => ("ultrathink_effort"@, map![40int => text(level)]),
        AttachmentData::QueuedCommand { prompt, command_mode } => (
            "queued_command"@,
            map![41int => text(prompt), 42int => text_or_null(command_mode)],
        ),
        AttachmentData::NestedMemory { path, content, display_path } => (
            "nested_memory"@,
            map![
                15int => text(display_path),
                43int => text(path),
                44int => text(content.memory_type),
                45int => text(content.content),
                46int => flag_or_null(content.content_differs_from_disk),
            ],
        ),
        AttachmentData::Unknown => ("unknown"@, Map::empty()),
    }
}

#[verifier::rlimit(60)]
proof fn lemma_attachment_columns_0(ae: AttachmentEntry)
    requires
        ae.attachment is HookSuccess || ae.attachment is HookNonBlockingError || ae.attachment is HookBlockingError || ae.attachment is HookCancelled,
    ensures
        attachment_row(ae) == wide_row(attachment_columns(ae.attachment).0, attachment_columns(ae.attachment).1),
{
    let (kind, filled) = attachment_columns(ae.attachment);
    assert(attachment_row(ae) =~= wide_row(kind, filled));
}

#[verifier::rlimit(60)]
proof fn lemma_attachment_columns_1(ae: AttachmentEntry)
    requires
        ae.attachment is HookAdditionalContext || ae.attachment is HookPermissionDecision || ae.attachment is File || ae.attachment is EditedTextFile || ae.attachment is Directory || ae.attachment is CompactFileReference,
    ensures
        attachment_row(ae) == wide_row(attachment_columns(ae.attachment).0, attachment_columns(ae.attachment).1),
{
    let (kind, filled) = attachment_columns(ae.attachment);
    assert(attachment_row(ae) =~= wide_row(kind, filled));
}

#[verifier::rlimit(60)]
proof fn lemma_attachment_columns_2(ae: AttachmentEntry)
    requires
        ae.attachment is CommandPermissions || ae.attachment is PlanMode || ae.attachment is PlanModeExit || ae.attachment is SkillListing || ae.attachment is DynamicSkill || ae.attachment is InvokedSkills,
    ensures
        attachment_row(ae) == wide_row(attachment_columns(ae.attachment).0, attachment_columns(ae.attachment).1),
{
    let (kind, filled) = attachment_columns(ae.attachment);
    assert(attachment_row(ae) =~= wide_row(kind, filled));
}

#[verifier::rlimit(60)]
proof fn lemma_attachment_columns_3(ae: AttachmentEntry)
    requires
        ae.attachment is TaskReminder || ae.attachment is Diagnostics || ae.attachment is DateChange || ae.attachment is DeferredToolsDelta || ae.attachment is McpInstructionsDelta,
    ensures
        attachment_row(ae) == wide_row(attachment_columns(ae.attachment).0, attachment_columns(ae.attachment).1),
{
    let (kind, filled) = attachment_columns(ae.attachment);
    assert(attachment_row(ae) =~= wide_row(kind, filled));
}

#[verifier::rlimit(60)]
proof fn lemma_attachment_columns_4(ae: AttachmentEntry)
    requires
        ae.attachment is UltrathinkEffort || ae.attachment is QueuedCommand || ae.attachment is NestedMemory || ae.attachment is Unknown,
    ensures
        attachment_row(ae) == wide_row(attachment_columns(ae.attachment).0, attachment_columns(ae.attachment).1),
{
    let (kind, filled) = attachment_columns(ae.attachment);
    assert(attachment_row(ae) =~= wide_row(kind, filled));
}

/// The `attachment_entries` row of an attachment: its type in column 1, the
/// columns of its own kind filled from its fields, NULL in every other
/// column.
pub proof fn lemma_attachment_row_columns(ae: AttachmentEntry)
    ensures
        attachment_row(ae) == wide_row(attachment_columns(ae.attachment).0, attachment_columns(ae.attachment).1),
{
    if ae.attachment is HookSuccess || ae.attachment is HookNonBlockingError || ae.attachment is HookBlockingError || ae.attachment is HookCancelled {
        lemma_attachment_columns_0(ae);
    } else if ae.attachment is HookAdditionalContext || ae.attachment is HookPermissionDecision || ae.attachment is File || ae.attachment is EditedTextFile || ae.attachment is Directory || ae.attachment is CompactFileReference {
        lemma_attachment_columns_1(ae);
    } else if ae.attachment is CommandPermissions || ae.attachment is PlanMode || ae.attachment is PlanModeExit || ae.attachment is SkillListing || ae.attachment is DynamicSkill || ae.attachment is InvokedSkills {
        lemma_attachment_columns_2(ae);
    } else if ae.attachment is TaskReminder || ae.attachment is Diagnostics || ae.attachment is DateChange || ae.attachment is DeferredToolsDelta || ae.attachment is McpInstructionsDelta {
        lemma_attachment_columns_3(ae);
    } else if ae.attachment is UltrathinkEffort || ae.attachment is QueuedCommand || ae.attachment is NestedMemory || ae.attachment is Unknown {
        lemma_attachment_columns_4(ae);
    }
}

/// The `attachment_diagnostics_files` row of the `i`-th file: NULL id,
/// `position`, `uri`, `diagnostics`.
pub proof fn lemma_diagnostics_columns(ae: AttachmentEntry, i: int)
    requires
        ae.attachment matches AttachmentData::Diagnostics { files, .. } && 0 <= i < files@.len(),
    ensures
        ({
            let f = ae.attachment->files@[i];
            diagnostics_rows(ae)[i] == seq![JsonView::Null, count(i as nat), text(f.uri), json(diagnostics_view(f.diagnostics@))]
        }),
{
}

/// The `attachment_invoked_skills` row of the `i`-th skill: NULL id,
/// `position`, `skill_name`, and `invocation_metadata`, the JSON of its
/// `path` and `content`.
pub proof fn lemma_skill_columns(ae: AttachmentEntry, i: int)
    requires
        ae.attachment matches AttachmentData::InvokedSkills { skills } && 0 <= i < skills@.len(),
    ensures
        ({
            let sk = ae.attachment->skills@[i];
            skill_rows(ae)[i] == seq![JsonView::Null, count(i as nat), text(sk.name), json(skill_invocation_view(sk))]
        }),
{
}

// ─── JSON images of nested values ────────────────────────────────────────

/// A member `key` holding text `v`, left out when absent.
pub open spec fn text_member(key: Seq<char>, o: Option<String>) -> Seq<(Seq<char>, JsonView)> {
    match o {
        Some(v) => seq![(key, JsonView::String(v@))],
        None => Seq::empty(),
    }
}

/// A member `key` holding count `v`, left out when absent.
pub open spec fn count_member(key: Seq<char>, o: Option<u64>) -> Seq<(Seq<char>, JsonView)> {
    match o {
        Some(v) => seq![(key, count(v as nat))],
        None => Seq::empty(),
    }
}

/// The JSON of an image or document source, as serde writes the tagged
/// enum: `type` first, then the variant's fields in declaration order.
pub proof fn lemma_source_images(img: ImageSource, doc: DocumentSource)
    ensures
        image_source_view(img) == JsonView::Object(
            match img {
                ImageSource::Base64 { media_type, data } => seq![
                    ("type"@, JsonView::String("base64"@)),
                    ("media_type"@, text(media_type)),
                    ("data"@, text(data)),
                ],
                ImageSource::Url { url } => seq![("type"@, JsonView::String("url"@)), ("url"@, text(url))],
                ImageSource::Unknown => seq![("type"@, JsonView::String("unknown"@))],
            },
        ),
        document_source_view(doc) == JsonView::Object(
            match doc {
                DocumentSource::Base64 { media_type, data } => seq![
                    ("type"@, JsonView::String("base64"@)),
                    ("media_type"@, text(media_type)),
                    ("data"@, text(data)),
                ],
                DocumentSource::Text { data } => seq![("type"@, JsonView::String("text"@)), ("data"@, text(data))],
                DocumentSource::Url { url } => seq![("type"@, JsonView::String("url"@)), ("url"@, text(url))],
                DocumentSource::Unknown => seq![("type"@, JsonView::String("unknown"@))],
            },
        ),
{
}

/// The JSON of a worktree session, a file-history snapshot and a file
/// attachment's content, as serde writes them: camel-case keys in
/// declaration order, absent optional fields left out.
pub proof fn lemma_record_images(
    w: crate::types::PersistedWorktreeSession,
    snap: crate::types::FileHistorySnapshot,
    c: crate::types::FileAttachmentContent,
)
    ensures
        worktree_session_view(w) == JsonView::Object(
            seq![
                ("originalCwd"@, text(w.original_cwd)),
                ("worktreePath"@, text(w.worktree_path)),
                ("worktreeName"@, text(w.worktree_name)),
                ("sessionId"@, text(w.session_id)),
            ] + text_member("worktreeBranch"@, w.worktree_branch) + text_member("originalBranch"@, w.original_branch)
                + text_member("originalHeadCommit"@, w.original_head_commit) + text_member(
                "tmuxSessionName"@,
                w.tmux_session_name,
            ) + match w.hook_based {
                Some(b) => seq![("hookBased"@, JsonView::Bool(b))],
                None => Seq::empty(),
            },
        ),
        snapshot_view(snap) == JsonView::Object(
            seq![
                ("messageId"@, text(snap.message_id)),
                ("trackedFileBackups"@, snap.tracked_file_backups@),
                ("timestamp"@, text(snap.timestamp)),
            ],
        ),
        file_content_view(c) == JsonView::Object(
            seq![
                ("type"@, text(c.content_type)),
                (
                    "file"@,
                    JsonView::Object(
                        seq![("filePath"@, text(c.file.file_path))] + text_member("content"@, c.file.content)
                            + count_member("numLines"@, c.file.num_lines) + count_member(
                            "startLine"@,
                            c.file.start_line,
                        ) + count_member("totalLines"@, c.file.total_lines),
                    ),
                ),
            ],
        ),
{
    let m = seq![
        ("originalCwd"@, text(w.original_cwd)),
        ("worktreePath"@, text(w.worktree_path)),
        ("worktreeName"@, text(w.worktree_name)),
        ("sessionId"@, text(w.session_id)),
    ];
    assert(crate::encode::worktree_session_members(w) =~= m + text_member("worktreeBranch"@, w.worktree_branch)
        + text_member("originalBranch"@, w.original_branch) + text_member("originalHeadCommit"@, w.original_head_commit)
        + text_member("tmuxSessionName"@, w.tmux_session_name) + match w.hook_based {
        Some(b) => seq![("hookBased"@, JsonView::Bool(b))],
        None => Seq::empty(),
    });
    let f = c.file;
    assert(match crate::encode::file_content_members(c)[1].1 {
        JsonView::Object(fm) => fm =~= seq![("filePath"@, text(f.file_path))] + text_member("content"@, f.content)
            + count_member("numLines"@, f.num_lines) + count_member("startLine"@, f.start_line) + count_member(
            "totalLines"@,
            f.total_lines,
        ),
        _ => false,
    });
}

/// The JSON trees built for the sorted-key columns: keys in sorted order,
/// each holding its field.
pub proof fn lemma_tree_images(
    span: crate::types::StagedSpan,
    sk: crate::types::InvokedSkill,
    d: crate::types::Diagnostic,
    f: crate::types::DiagnosticsFile,
)
    ensures
        crate::encode::staged_span_view(span) == JsonView::Object(
            seq![
                ("endUuid"@, text(span.end_uuid)),
                ("risk"@, JsonView::Number(span.risk@)),
                ("stagedAt"@, count(span.staged_at as nat)),
                ("startUuid"@, text(span.start_uuid)),
                ("summary"@, text(span.summary)),
            ],
        ),
        crate::encode::invoked_skill_view(sk) == JsonView::Object(
            seq![("content"@, text(sk.content)), ("name"@, text(sk.name)), ("path"@, text(sk.path))],
        ),
        skill_invocation_view(sk) == JsonView::Object(seq![("content"@, text(sk.content)), ("path"@, text(sk.path))]),
        crate::encode::diagnostic_view(d) == JsonView::Object(
            match d.code {
                Some(v) => seq![("code"@, v@)],
                None => Seq::empty(),
            } + seq![
                ("message"@, text(d.message)),
                (
                    "range"@,
                    JsonView::Object(
                        seq![
                            (
                                "end"@,
                                JsonView::Object(
                                    seq![
                                        ("character"@, count(d.range.end.character as nat)),
                                        ("line"@, count(d.range.end.line as nat)),
                                    ],
                                ),
                            ),
                            (
                                "start"@,
                                JsonView::Object(
                                    seq![
                                        ("character"@, count(d.range.start.character as nat)),
                                        ("line"@, count(d.range.start.line as nat)),
                                    ],
                                ),
                            ),
                        ],
                    ),
                ),
                ("severity"@, text(d.severity)),
            ] + text_member("source"@, d.source),
        ),
        crate::encode::diagnostics_file_view(f) == JsonView::Object(
            seq![("diagnostics"@, diagnostics_view(f.diagnostics@)), ("uri"@, text(f.uri))],
        ),
{
    let m0 = match d.code {
        Some(v) => seq![("code"@, v@)],
        None => Seq::<(Seq<char>, JsonView)>::empty(),
    };
    assert(crate::encode::diagnostic_members(d) =~= m0 + seq![
        ("message"@, text(d.message)),
        ("range"@, crate::encode::range_view(d.range)),
        ("severity"@, text(d.severity)),
    ] + text_member("source"@, d.source));
}

// ─── Dropped variants ────────────────────────────────────────────────────

/// What an entry reports as dropped: per user block, `UserContentBlock` for
/// a block of unknown type, `ImageSource` / `DocumentSource` for an image or
/// document whose source is of unknown type; per assistant block of unknown
/// type, `AssistantContentBlock`; for an attachment of unknown type,
/// `AttachmentData`; nothing for any other entry.
pub proof fn lemma_dropped_variant_names(e: Entry, blk: UserContentBlock)
    ensures
        crate::variants::user_block_unknowns(blk) == match blk {
            UserContentBlock::Unknown => seq!["UserContentBlock"@],
            UserContentBlock::Image { source } => if source is Unknown {
                seq!["ImageSource"@]
            } else {
                Seq::empty()
            },
            UserContentBlock::Document { source, .. } => if source is Unknown {
                seq!["DocumentSource"@]
            } else {
                Seq::empty()
            },
            _ => Seq::empty(),
        },
        match e {
            Entry::Attachment(ae) => crate::variants::entry_unknowns(e) == if ae.attachment is Unknown {
                seq!["AttachmentData"@]
            } else {
                Seq::<Seq<char>>::empty()
            },
            Entry::User(_) => true,
            Entry::Assistant(_) => true,
            _ => crate::variants::entry_unknowns(e) == Seq::<Seq<char>>::empty(),
        },
{
}

} // verus!
