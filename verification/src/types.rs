//! The entries of a session transcript, one per line of the file.
//!
//! Fields that hold free-form JSON are `JsonValue`s; fields that hold a
//! floating-point number hold the `JsonNumber` that stands for it.

use crate::json::{JsonNumber, JsonValue};
use vstd::prelude::*;

verus! {

// ─── Top-level entry ─────────────────────────────────────────────────────

/// One entry of a transcript.
#[derive(Debug, PartialEq, Eq)]
pub enum Entry {
    User(UserEntry),
    Assistant(AssistantEntry),
    System(SystemEntry),
    Attachment(AttachmentEntry),
    Progress(ProgressEntry),
    PermissionMode(PermissionModeEntry),
    LastPrompt(LastPromptEntry),
    AiTitle(AiTitleEntry),
    CustomTitle(CustomTitleEntry),
    AgentName(AgentNameEntry),
    AgentColor(AgentColorEntry),
    AgentSetting(AgentSettingEntry),
    Tag(TagEntry),
    Summary(SummaryEntry),
    TaskSummary(TaskSummaryEntry),
    PrLink(PrLinkEntry),
    Mode(ModeEntry),
    WorktreeState(WorktreeStateEntry),
    ContentReplacement(ContentReplacementEntry),
    FileHistorySnapshot(FileHistorySnapshotEntry),
    AttributionSnapshot(AttributionSnapshotEntry),
    QueueOperation(QueueOperationEntry),
    ContextCollapseCommit(ContextCollapseCommitEntry),
    ContextCollapseSnapshot(ContextCollapseSnapshotEntry),
    SpeculationAccept(SpeculationAcceptEntry),
    /// An entry type that is not recognised; such entries are skipped.
    Unknown,
}

// ─── Shared envelope of the message-bearing entries ──────────────────────

#[derive(Clone, Debug, PartialEq, Eq)]
pub struct Envelope {
    pub uuid: String,
    /// `None` for the first message of a session.
    pub parent_uuid: Option<String>,
    /// Keeps the logical chain across compact boundaries.
    pub logical_parent_uuid: Option<String>,
    pub is_sidechain: bool,
    pub session_id: String,
    pub timestamp: String,
    pub user_type: Option<String>,
    pub entrypoint: Option<String>,
    pub cwd: Option<String>,
    pub version: Option<String>,
    pub git_branch: Option<String>,
    pub slug: Option<String>,
    pub agent_id: Option<String>,
    pub team_name: Option<String>,
    pub agent_name: Option<String>,
    pub agent_color: Option<String>,
    pub prompt_id: Option<String>,
    pub is_meta: Option<bool>,
    /// Set when the session was forked from another one.
    pub forked_from: Option<ForkedFrom>,
}

#[derive(Clone, Debug, PartialEq, Eq)]
pub struct ForkedFrom {
    pub message_uuid: String,
    pub session_id: String,
}

// ─── User entry ──────────────────────────────────────────────────────────

#[derive(Debug, PartialEq, Eq)]
pub struct UserEntry {
    pub envelope: Envelope,
    pub message: UserMessage,
    pub tool_use_result: Option<JsonValue>,
    pub source_tool_assistant_uuid: Option<String>,
    pub source_tool_use_id: Option<String>,
    pub permission_mode: Option<String>,
    pub origin: Option<JsonValue>,
    pub is_compact_summary: Option<bool>,
    pub is_visible_in_transcript_only: Option<bool>,
    pub image_paste_ids: Option<Vec<u64>>,
    pub plan_content: Option<String>,
}

#[derive(Debug, PartialEq, Eq)]
pub struct UserMessage {
    pub role: UserRole,
    pub content: UserContent,
}

#[derive(Clone, Copy, Debug, PartialEq, Eq)]
pub enum UserRole {
    User,
    Unknown,
}

/// Plain text, a list of typed blocks, or some other shape.
#[derive(Debug, PartialEq, Eq)]
pub enum UserContent {
    Text(String),
    Blocks(Vec<UserContentBlock>),
    Other(JsonValue),
}

#[derive(Debug, PartialEq, Eq)]
pub enum UserContentBlock {
    Text { text: String },
    ToolResult { tool_use_id: String, content: JsonValue, is_error: Option<bool> },
    Image { source: ImageSource },
    Document { source: DocumentSource, title: Option<String> },
    Unknown,
}

#[derive(Clone, Debug, PartialEq, Eq)]
pub enum ImageSource {
    Base64 { media_type: String, data: String },
    Url { url: String },
    Unknown,
}

#[derive(Clone, Debug, PartialEq, Eq)]
pub enum DocumentSource {
    Base64 { media_type: String, data: String },
    Text { data: String },
    Url { url: String },
    Unknown,
}

// ─── Assistant entry ─────────────────────────────────────────────────────

#[derive(Debug, PartialEq, Eq)]
pub struct AssistantEntry {
    pub envelope: Envelope,
    pub message: AssistantMessage,
    pub request_id: Option<String>,
    pub is_api_error_message: Option<bool>,
    pub error: Option<String>,
}

/// For the `Option<Option<JsonValue>>` fields: `None` = absent,
/// `Some(None)` = present as JSON null.
#[derive(Debug, PartialEq, Eq)]
pub struct AssistantMessage {
    pub id: String,
    pub msg_type: String,
    pub role: AssistantRole,
    pub model: Option<String>,
    pub container: Option<Option<JsonValue>>,
    pub content: Vec<AssistantContentBlock>,
    pub stop_reason: Option<String>,
    pub stop_sequence: Option<String>,
    pub stop_details: Option<Option<JsonValue>>,
    pub usage: AssistantUsage,
    pub context_management: Option<Option<JsonValue>>,
}

#[derive(Clone, Copy, Debug, PartialEq, Eq)]
pub enum AssistantRole {
    Assistant,
    Unknown,
}

#[derive(Debug, PartialEq, Eq)]
pub enum AssistantContentBlock {
    Text { text: String },
    /// `thinking` is empty in stored transcripts; the signature is kept.
    Thinking { thinking: String, signature: String },
    RedactedThinking { data: String },
    ToolUse { id: String, name: String, input: JsonValue, caller: Option<ToolUseCaller> },
    Unknown,
}

#[derive(Clone, Debug, PartialEq, Eq)]
pub struct ToolUseCaller {
    pub caller_type: String,
}

#[derive(Debug, PartialEq, Eq)]
pub struct AssistantUsage {
    pub input_tokens: u64,
    pub output_tokens: u64,
    pub cache_creation_input_tokens: Option<u64>,
    pub cache_read_input_tokens: Option<u64>,
    pub server_tool_use: Option<ServerToolUse>,
    pub service_tier: Option<Option<JsonValue>>,
    pub cache_creation: Option<CacheCreation>,
    pub inference_geo: Option<Option<JsonValue>>,
    pub iterations: Option<Option<JsonValue>>,
    pub speed: Option<Option<JsonValue>>,
}

#[derive(Clone, Copy, Debug, PartialEq, Eq)]
pub struct ServerToolUse {
    pub web_search_requests: u64,
    pub web_fetch_requests: u64,
}

#[derive(Clone, Copy, Debug, PartialEq, Eq)]
pub struct CacheCreation {
    pub ephemeral_1h_input_tokens: Option<u64>,
    pub ephemeral_5m_input_tokens: Option<u64>,
}

#[derive(Clone, Debug, PartialEq, Eq)]
pub struct UsageIteration {
    pub input_tokens: u64,
    pub output_tokens: u64,
    pub cache_read_input_tokens: Option<u64>,
    pub cache_creation_input_tokens: Option<u64>,
    pub cache_creation: Option<CacheCreation>,
    pub iter_type: Option<String>,
}

// ─── System entry ────────────────────────────────────────────────────────

#[derive(Debug, PartialEq, Eq)]
pub struct SystemEntry {
    pub envelope: Envelope,
    pub subtype: SystemSubtype,
    pub content: Option<String>,
    pub level: Option<String>,
    pub is_meta: Option<bool>,
    pub cause: Option<JsonValue>,
    pub error: Option<JsonValue>,
    pub retry_in_ms: Option<JsonNumber>,
    pub retry_attempt: Option<u32>,
    pub max_retries: Option<u32>,
    pub hook_count: Option<u32>,
    pub hook_infos: Option<Vec<HookInfo>>,
    pub hook_errors: Option<Vec<JsonValue>>,
    pub prevented_continuation: Option<bool>,
    pub stop_reason: Option<String>,
    pub has_output: Option<bool>,
    pub tool_use_id: Option<String>,
    pub duration_ms: Option<JsonNumber>,
    pub message_count: Option<u32>,
    pub url: Option<String>,
    pub upgrade_nudge: Option<String>,
    pub compact_metadata: Option<CompactMetadata>,
}

#[derive(Clone, Copy, Debug, PartialEq, Eq)]
pub enum SystemSubtype {
    ApiError,
    AwaySummary,
    BridgeStatus,
    CompactBoundary,
    Informational,
    LocalCommand,
    ScheduledTaskFire,
    StopHookSummary,
    TurnDuration,
    MicrocompactBoundary,
    PermissionRetry,
    AgentsKilled,
    Unknown,
}

#[derive(Clone, Debug, PartialEq, Eq)]
pub struct HookInfo {
    pub command: String,
    pub duration_ms: u64,
}

#[derive(Clone, Debug, PartialEq, Eq)]
pub struct PreservedSegment {
    pub head_uuid: String,
    pub anchor_uuid: String,
    pub tail_uuid: String,
}

#[derive(Clone, Debug, PartialEq, Eq)]
pub struct CompactMetadata {
    pub trigger: String,
    pub pre_tokens: Option<u64>,
    pub post_tokens: Option<u64>,
    pub duration_ms: Option<u64>,
    pub preserved_segment: Option<PreservedSegment>,
    pub pre_compact_discovered_tools: Option<Vec<String>>,
}

// ─── Attachment entry ────────────────────────────────────────────────────

#[derive(Debug, PartialEq, Eq)]
pub struct AttachmentEntry {
    pub envelope: Envelope,
    pub attachment: AttachmentData,
}

#[derive(Debug, PartialEq, Eq)]
pub enum AttachmentData {
    HookSuccess(HookResultAttachment),
    HookNonBlockingError(HookResultAttachment),
    HookBlockingError(HookResultAttachment),
    HookCancelled(HookResultAttachment),
    HookAdditionalContext {
        content: Vec<String>,
        hook_name: Option<String>,
        tool_use_id: Option<String>,
        hook_event: Option<String>,
    },
    HookPermissionDecision {
        decision: String,
        hook_name: Option<String>,
        tool_use_id: Option<String>,
        hook_event: Option<String>,
    },
    File { filename: String, content: FileAttachmentContent, display_path: Option<String> },
    EditedTextFile { filename: String, snippet: String },
    Directory { path: String, content: String, display_path: String },
    CompactFileReference { filename: String, display_path: String },
    CommandPermissions { allowed_tools: Vec<String> },
    PlanMode {
        reminder_type: String,
        is_sub_agent: bool,
        plan_file_path: Option<String>,
        plan_exists: bool,
    },
    PlanModeExit { plan_file_path: Option<String>, plan_exists: bool },
    SkillListing { content: String, is_initial: Option<bool>, skill_count: Option<u32> },
    DynamicSkill { skill_dir: String, skill_names: Vec<String>, display_path: String },
    InvokedSkills { skills: Vec<InvokedSkill> },
    TaskReminder { content: Vec<JsonValue>, item_count: u32 },
    Diagnostics { files: Vec<DiagnosticsFile>, is_new: bool },
    DateChange { new_date: String },
    DeferredToolsDelta {
        added_names: Vec<String>,
        added_lines: Option<Vec<String>>,
        removed_names: Option<Vec<String>>,
    },
    McpInstructionsDelta {
        added_names: Vec<String>,
        added_blocks: Vec<String>,
        removed_names: Option<Vec<String>>,
    },
    UltrathinkEffort { level: String },
    QueuedCommand { prompt: String, command_mode: Option<String> },
    NestedMemory { path: String, content: NestedMemoryContent, display_path: String },
    Unknown,
}

#[derive(Clone, Debug, PartialEq, Eq)]
pub struct NestedMemoryContent {
    pub path: String,
    /// Scope of the memory file ("Project", "User", "Local", ...).
    pub memory_type: String,
    pub content: String,
    pub content_differs_from_disk: Option<bool>,
}

#[derive(Debug, PartialEq, Eq)]
pub struct HookResultAttachment {
    pub hook_name: Option<String>,
    pub tool_use_id: Option<String>,
    pub hook_event: Option<String>,
    pub content: Option<String>,
    pub stdout: Option<String>,
    pub stderr: Option<String>,
    pub exit_code: Option<i32>,
    pub command: Option<String>,
    pub duration_ms: Option<u64>,
    pub blocking_error: Option<JsonValue>,
}

#[derive(Clone, Debug, PartialEq, Eq)]
pub struct FileAttachmentContent {
    pub content_type: String,
    pub file: FileData,
}

#[derive(Clone, Debug, PartialEq, Eq)]
pub struct FileData {
    pub file_path: String,
    pub content: Option<String>,
    pub num_lines: Option<u64>,
    pub start_line: Option<u64>,
    pub total_lines: Option<u64>,
}

#[derive(Clone, Debug, PartialEq, Eq)]
pub struct InvokedSkill {
    pub name: String,
    pub path: String,
    pub content: String,
}

#[derive(Debug, PartialEq, Eq)]
pub struct DiagnosticsFile {
    pub uri: String,
    pub diagnostics: Vec<Diagnostic>,
}

#[derive(Debug, PartialEq, Eq)]
pub struct Diagnostic {
    pub message: String,
    pub severity: String,
    pub range: DiagnosticRange,
    pub source: Option<String>,
    pub code: Option<JsonValue>,
}

#[derive(Clone, Copy, Debug, PartialEq, Eq)]
pub struct DiagnosticRange {
    pub start: DiagnosticPosition,
    pub end: DiagnosticPosition,
}

#[derive(Clone, Copy, Debug, PartialEq, Eq)]
pub struct DiagnosticPosition {
    pub line: u32,
    pub character: u32,
}

// ─── Progress entry ──────────────────────────────────────────────────────

#[derive(Debug, PartialEq, Eq)]
pub struct ProgressEntry {
    pub envelope: Envelope,
    pub data: ProgressData,
    pub parent_tool_use_id: Option<String>,
    pub tool_use_id: Option<String>,
}

#[derive(Debug, PartialEq, Eq)]
pub struct ProgressData {
    pub data_type: String,
    pub hook_event: Option<String>,
    pub hook_name: Option<String>,
    pub command: Option<String>,
    pub agent_id: Option<String>,
    pub prompt: Option<String>,
    pub message: Option<JsonValue>,
    pub query: Option<String>,
    pub result_count: Option<u32>,
    pub elapsed_time_seconds: Option<JsonNumber>,
    pub full_output: Option<String>,
    pub output: Option<String>,
    pub timeout_ms: Option<u64>,
    pub total_lines: Option<u64>,
    pub total_bytes: Option<u64>,
    pub task_id: Option<String>,
    pub server_name: Option<String>,
    pub status: Option<String>,
    pub tool_name: Option<String>,
    pub elapsed_time_ms: Option<JsonNumber>,
    pub task_description: Option<String>,
    pub task_type: Option<String>,
}

// ─── Metadata-only entries ───────────────────────────────────────────────

#[derive(Clone, Debug, PartialEq, Eq)]
pub struct PermissionModeEntry {
    pub permission_mode: String,
    pub session_id: String,
}

/// Older transcripts inline the prompt text, newer ones point at the entry
/// by leaf UUID; either may be absent.
#[derive(Clone, Debug, PartialEq, Eq)]
pub struct LastPromptEntry {
    pub last_prompt: Option<String>,
    pub leaf_uuid: Option<String>,
    pub session_id: String,
}

#[derive(Clone, Debug, PartialEq, Eq)]
pub struct AiTitleEntry {
    pub ai_title: String,
    pub session_id: String,
}

#[derive(Clone, Debug, PartialEq, Eq)]
pub struct CustomTitleEntry {
    pub custom_title: String,
    pub session_id: String,
}

#[derive(Clone, Debug, PartialEq, Eq)]
pub struct AgentNameEntry {
    pub agent_name: String,
    pub session_id: String,
}

#[derive(Clone, Debug, PartialEq, Eq)]
pub struct AgentColorEntry {
    pub agent_color: String,
    pub session_id: String,
}

#[derive(Clone, Debug, PartialEq, Eq)]
pub struct AgentSettingEntry {
    pub agent_setting: String,
    pub session_id: String,
}

#[derive(Clone, Debug, PartialEq, Eq)]
pub struct TagEntry {
    pub tag: String,
    pub session_id: String,
}

#[derive(Clone, Debug, PartialEq, Eq)]
pub struct SummaryEntry {
    pub leaf_uuid: String,
    pub summary: String,
    pub session_id: String,
}

#[derive(Clone, Debug, PartialEq, Eq)]
pub struct TaskSummaryEntry {
    pub summary: String,
    pub session_id: String,
    pub timestamp: String,
}

#[derive(Clone, Debug, PartialEq, Eq)]
pub struct PrLinkEntry {
    pub session_id: String,
    pub pr_number: u32,
    pub pr_url: String,
    pub pr_repository: String,
    pub timestamp: String,
}

#[derive(Clone, Debug, PartialEq, Eq)]
pub struct ModeEntry {
    pub mode: SessionMode,
    pub session_id: String,
}

#[derive(Clone, Copy, Debug, PartialEq, Eq)]
pub enum SessionMode {
    Coordinator,
    Normal,
    Unknown,
}

#[derive(Clone, Debug, PartialEq, Eq)]
pub struct WorktreeStateEntry {
    pub session_id: String,
    /// `None` when the worktree session was exited.
    pub worktree_session: Option<PersistedWorktreeSession>,
}

#[derive(Clone, Debug, PartialEq, Eq)]
pub struct PersistedWorktreeSession {
    pub original_cwd: String,
    pub worktree_path: String,
    pub worktree_name: String,
    pub session_id: String,
    pub worktree_branch: Option<String>,
    pub original_branch: Option<String>,
    pub original_head_commit: Option<String>,
    pub tmux_session_name: Option<String>,
    pub hook_based: Option<bool>,
}

#[derive(Debug, PartialEq, Eq)]
pub struct ContentReplacementEntry {
    pub session_id: String,
    pub replacements: Vec<JsonValue>,
    pub agent_id: Option<String>,
}

#[derive(Debug, PartialEq, Eq)]
pub struct FileHistorySnapshotEntry {
    pub message_id: String,
    pub snapshot: FileHistorySnapshot,
    pub is_snapshot_update: bool,
}

#[derive(Debug, PartialEq, Eq)]
pub struct FileHistorySnapshot {
    pub message_id: String,
    pub tracked_file_backups: JsonValue,
    pub timestamp: String,
}

#[derive(Debug, PartialEq, Eq)]
pub struct AttributionSnapshotEntry {
    pub message_id: String,
    pub surface: String,
    pub file_states: JsonValue,
    pub prompt_count: Option<u32>,
    pub prompt_count_at_last_commit: Option<u32>,
    pub permission_prompt_count: Option<u32>,
    pub permission_prompt_count_at_last_commit: Option<u32>,
    pub escape_count: Option<u32>,
    pub escape_count_at_last_commit: Option<u32>,
}

#[derive(Clone, Debug, PartialEq, Eq)]
pub struct QueueOperationEntry {
    pub operation: String,
    pub timestamp: String,
    pub session_id: String,
    pub content: Option<String>,
}

// ─── Context-collapse entries ────────────────────────────────────────────

#[derive(Clone, Debug, PartialEq, Eq)]
pub struct ContextCollapseCommitEntry {
    pub session_id: String,
    pub collapse_id: String,
    pub summary_uuid: String,
    pub summary_content: String,
    pub summary: String,
    pub first_archived_uuid: String,
    pub last_archived_uuid: String,
}

#[derive(Clone, Debug, PartialEq, Eq)]
pub struct ContextCollapseSnapshotEntry {
    pub session_id: String,
    pub staged: Vec<StagedSpan>,
    pub armed: bool,
    pub last_spawn_tokens: u64,
}

#[derive(Clone, Debug, PartialEq, Eq)]
pub struct StagedSpan {
    pub start_uuid: String,
    pub end_uuid: String,
    pub summary: String,
    pub risk: JsonNumber,
    pub staged_at: u64,
}

#[derive(Clone, Debug, PartialEq, Eq)]
pub struct SpeculationAcceptEntry {
    pub timestamp: String,
    pub time_saved_ms: u64,
}

} // verus!
