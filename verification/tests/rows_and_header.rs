use transcript_ingest::json::{JsonNumber, JsonValue};
use transcript_ingest::parse::{LineEvent, ParseState, ParsedFile};
use transcript_ingest::types::{
    AssistantContentBlock, AssistantEntry, AssistantMessage, AssistantRole, AssistantUsage,
    AttachmentData, AttachmentEntry, CustomTitleEntry, Entry, Envelope, HookInfo,
    LastPromptEntry, SpeculationAcceptEntry, SystemEntry, SystemSubtype, UserContent,
    UserContentBlock, UserEntry, UserMessage, UserRole,
};

fn envelope(uuid: &str, session: &str, ts: &str) -> Envelope {
    Envelope {
        uuid: uuid.to_string(),
        parent_uuid: None,
        logical_parent_uuid: None,
        is_sidechain: false,
        session_id: session.to_string(),
        timestamp: ts.to_string(),
        user_type: None,
        entrypoint: None,
        cwd: None,
        version: None,
        git_branch: None,
        slug: None,
        agent_id: None,
        team_name: None,
        agent_name: None,
        agent_color: None,
        prompt_id: None,
        is_meta: None,
        forked_from: None,
    }
}

fn user(uuid: &str, session: &str, ts: &str, blocks: Vec<UserContentBlock>) -> Entry {
    Entry::User(UserEntry {
        envelope: envelope(uuid, session, ts),
        message: UserMessage { role: UserRole::User, content: UserContent::Blocks(blocks) },
        tool_use_result: None,
        source_tool_assistant_uuid: None,
        source_tool_use_id: None,
        permission_mode: None,
        origin: None,
        is_compact_summary: None,
        is_visible_in_transcript_only: None,
        image_paste_ids: None,
        plan_content: None,
    })
}

fn assistant(uuid: &str, model: Option<&str>, content: Vec<AssistantContentBlock>, iterations: Option<Option<JsonValue>>) -> Entry {
    Entry::Assistant(AssistantEntry {
        envelope: envelope(uuid, "s1", "2024-01-01T00:00:00Z"),
        message: AssistantMessage {
            id: "msg".to_string(),
            msg_type: "message".to_string(),
            role: AssistantRole::Assistant,
            model: model.map(|m| m.to_string()),
            container: None,
            content,
            stop_reason: None,
            stop_sequence: None,
            stop_details: None,
            usage: AssistantUsage {
                input_tokens: 7,
                output_tokens: 3,
                cache_creation_input_tokens: None,
                cache_read_input_tokens: None,
                server_tool_use: None,
                service_tier: None,
                cache_creation: None,
                inference_geo: None,
                iterations,
                speed: None,
            },
            context_management: None,
        },
        request_id: None,
        is_api_error_message: None,
        error: None,
    })
}

fn tool_use(id: &str) -> AssistantContentBlock {
    AssistantContentBlock::ToolUse {
        id: id.to_string(),
        name: "Bash".to_string(),
        input: JsonValue::Object(vec![("command".to_string(), JsonValue::String("ls".to_string()))]),
        caller: None,
    }
}

fn system(hooks: Vec<HookInfo>) -> Entry {
    Entry::System(SystemEntry {
        envelope: envelope("sys", "s1", "2024-01-01T00:00:00Z"),
        subtype: SystemSubtype::StopHookSummary,
        content: None,
        level: None,
        is_meta: None,
        cause: None,
        error: None,
        retry_in_ms: None,
        retry_attempt: None,
        max_retries: None,
        hook_count: None,
        hook_infos: Some(hooks),
        hook_errors: None,
        prevented_continuation: None,
        stop_reason: None,
        has_output: None,
        tool_use_id: None,
        duration_ms: Some(JsonNumber::Float("12.5".to_string())),
        message_count: None,
        url: None,
        upgrade_nudge: None,
        compact_metadata: None,
    })
}

fn run(entries: Vec<Entry>) -> ParsedFile {
    let mut st = ParseState::new("f.jsonl".to_string());
    let mut line_no: usize = 1;
    for e in entries {
        st.step(line_no, LineEvent::Parsed(e), &None);
        line_no += 1;
    }
    st.finish(false, None, None, None)
}

fn uint(n: u64) -> JsonValue {
    JsonValue::Number(JsonNumber::PosInt(n))
}

fn text(s: &str) -> JsonValue {
    JsonValue::String(s.to_string())
}

#[test]
fn every_row_fits_its_table() {
    let iterations = JsonValue::Array(vec![JsonValue::Object(vec![
        ("type".to_string(), text("message")),
        ("input_tokens".to_string(), uint(4)),
    ])]);
    let parsed = run(vec![
        assistant("a1", Some("m"), vec![AssistantContentBlock::Text { text: "hi".to_string() }, tool_use("t1")], Some(Some(iterations))),
        system(vec![HookInfo { command: "echo".to_string(), duration_ms: 3 }]),
        Entry::Attachment(AttachmentEntry {
            envelope: envelope("at", "s1", "2024-01-01T00:00:00Z"),
            attachment: AttachmentData::DateChange { new_date: "2024-01-02".to_string() },
        }),
        Entry::CustomTitle(CustomTitleEntry { custom_title: "t".to_string(), session_id: "s1".to_string() }),
    ]);
    assert_eq!(parsed.entries.len(), 4);
    let widths = [("assistant_entries", 26), ("system_entries", 28), ("attachment_entries", 47), ("custom_title_entries", 3)];
    for (e, (table, width)) in parsed.entries.iter().zip(widths.iter()) {
        assert_eq!(e.entry.len(), 25);
        assert_eq!(e.entry[0], JsonValue::Null);
        let (t, row) = e.variant.as_ref().unwrap();
        assert_eq!(t, table);
        assert_eq!(row.len(), *width);
        assert_eq!(row[0], JsonValue::Null);
    }
    let children = &parsed.entries[0].children;
    assert_eq!(children.len(), 2);
    assert_eq!(children[0].0, "assistant_content_blocks");
    assert!(children[0].1.iter().all(|r| r.len() == 11 && r[0] == JsonValue::Null));
    assert_eq!(children[1].0, "assistant_usage_iterations");
    assert_eq!(children[1].1.len(), 1);
    assert_eq!(children[1].1[0], vec![JsonValue::Null, uint(0), text("message"), uint(4), JsonValue::Null, JsonValue::Null, JsonValue::Null, JsonValue::Null, JsonValue::Null]);
    let hooks = &parsed.entries[1].children;
    assert_eq!(hooks[0].0, "system_hook_infos");
    assert_eq!(hooks[0].1[0], vec![JsonValue::Null, uint(0), text("echo"), uint(3)]);
    assert_eq!(parsed.entries[1].variant.as_ref().unwrap().1[16], JsonValue::Number(JsonNumber::Float("12.5".to_string())));
    assert!(parsed.entries[2].children.is_empty());
    assert_eq!(parsed.entries[3].entry[9], text("s1"));
    assert_eq!(parsed.entries[3].entry[5], JsonValue::Null);
}

#[test]
fn tool_use_count_matches_tool_use_rows() {
    let parsed = run(vec![assistant(
        "a1",
        Some("m"),
        vec![tool_use("x"), AssistantContentBlock::Thinking { thinking: String::new(), signature: "sig".to_string() }, tool_use("y")],
        None,
    )]);
    let row = &parsed.entries[0].variant.as_ref().unwrap().1;
    assert_eq!(row[12], uint(2));
    let blocks = &parsed.entries[0].children[0].1;
    let n = blocks.iter().filter(|r| r[2] == text("tool_use")).count();
    assert_eq!(n, 2);
    assert_eq!(blocks[0][9], text("{\"command\":\"ls\"}"));
}

#[test]
fn child_positions_skip_unknown_blocks() {
    let parsed = run(vec![user(
        "u1",
        "s1",
        "2024-01-01T00:00:00Z",
        vec![
            UserContentBlock::Text { text: "a".to_string() },
            UserContentBlock::Unknown,
            UserContentBlock::Text { text: "b".to_string() },
        ],
    )]);
    let rows = &parsed.entries[0].children[0].1;
    assert_eq!(rows.len(), 2);
    assert_eq!(rows[0][1], uint(0));
    assert_eq!(rows[1][1], uint(2));
    assert_eq!(rows[1][3], text("b"));
    assert_eq!(parsed.unknown_variants, vec!["UserContentBlock".to_string()]);
}

#[test]
fn empty_child_tables_are_left_out() {
    let parsed = run(vec![user("u1", "s1", "t", vec![]), system(vec![])]);
    assert!(parsed.entries[0].children.is_empty());
    assert!(parsed.entries[1].children.is_empty());
}

#[test]
fn unknown_entries_change_nothing() {
    let mut st = ParseState::new("f.jsonl".to_string());
    assert!(st.step(1, LineEvent::Parsed(Entry::Unknown), &None));
    let parsed = st.finish(true, Some("a".to_string()), Some("p".to_string()), None);
    assert!(parsed.entries.is_empty());
    assert!(parsed.failures.is_empty());
    assert_eq!(parsed.transcript.entry_count, 0);
    assert_eq!(parsed.transcript.session_id, None);
    assert_eq!(parsed.transcript.first_timestamp, None);
    assert!(parsed.transcript.is_subagent);
    assert_eq!(parsed.transcript.agent_id, Some("a".to_string()));
    assert_eq!(parsed.transcript.parent_session_id, Some("p".to_string()));
}

#[test]
fn header_has_first_session_and_extreme_timestamps() {
    let parsed = run(vec![
        Entry::LastPrompt(LastPromptEntry { last_prompt: Some("hi".to_string()), leaf_uuid: None, session_id: "meta".to_string() }),
        user("u1", "s1", "2024-03-01T00:00:00Z", vec![]),
        user("u2", "s2", "2024-01-01T00:00:00Z", vec![]),
        user("u3", "s3", "2024-05-01T00:00:00Z", vec![]),
        Entry::SpeculationAccept(SpeculationAcceptEntry { timestamp: "2030-01-01T00:00:00Z".to_string(), time_saved_ms: 5 }),
    ]);
    assert_eq!(parsed.transcript.session_id, Some("meta".to_string()));
    assert_eq!(parsed.transcript.first_timestamp, Some("2024-01-01T00:00:00Z".to_string()));
    assert_eq!(parsed.transcript.last_timestamp, Some("2024-05-01T00:00:00Z".to_string()));
    assert_eq!(parsed.transcript.entry_count, 5);
    assert_eq!(parsed.transcript.file_path, "f.jsonl");
    let lp = &parsed.entries[0].variant.as_ref().unwrap();
    assert_eq!(lp.0, "last_prompt_entries");
    assert_eq!(lp.1, vec![JsonValue::Null, text("hi"), JsonValue::Null, text("meta")]);
    let sa = &parsed.entries[4].variant.as_ref().unwrap();
    assert_eq!(sa.1, vec![JsonValue::Null, text("2030-01-01T00:00:00Z"), uint(5)]);
}

#[test]
fn unpriced_models_are_listed_once() {
    let mut st = ParseState::new("f.jsonl".to_string());
    st.step(1, LineEvent::Parsed(assistant("a1", Some("m1"), vec![], None)), &None);
    st.step(2, LineEvent::Parsed(assistant("a2", Some("m1"), vec![], None)), &None);
    st.step(3, LineEvent::Parsed(assistant("a3", None, vec![], None)), &None);
    st.step(4, LineEvent::Parsed(assistant("a4", Some("m2"), vec![], None)), &Some(JsonNumber::Float("0.25".to_string())));
    let parsed = st.finish(false, None, None, None);
    assert_eq!(parsed.unknown_models, vec!["m1".to_string()]);
    let priced = &parsed.entries[3].variant.as_ref().unwrap().1;
    assert_eq!(priced[13], JsonValue::Number(JsonNumber::Float("0.25".to_string())));
    let unpriced = &parsed.entries[0].variant.as_ref().unwrap().1;
    assert_eq!(unpriced[13], JsonValue::Null);
    assert_eq!(unpriced[3], text("m1"));
    let no_model = &parsed.entries[2].variant.as_ref().unwrap().1;
    assert_eq!(no_model[3], text(""));
}

#[test]
fn failures_are_recorded_with_their_line() {
    let mut st = ParseState::new("f.jsonl".to_string());
    st.record_open_error(&"gone".to_string());
    assert!(st.step(2, LineEvent::NotJson("bad".to_string()), &None));
    assert!(st.step(3, LineEvent::TypedParseError("missing field".to_string()), &None));
    assert!(!st.step(4, LineEvent::ReadError("broken pipe".to_string()), &None));
    let parsed = st.finish(false, None, None, None);
    assert_eq!(
        parsed.failures,
        vec![
            (0, "open: gone".to_string()),
            (2, "not json: bad".to_string()),
            (3, "typed parse: missing field".to_string()),
            (4, "io: broken pipe".to_string()),
        ]
    );
    assert!(parsed.entries.is_empty());
}

#[test]
fn system_subtype_is_stored_in_entries_row() {
    let parsed = run(vec![system(vec![])]);
    assert_eq!(parsed.entries[0].entry[3], text("system"));
    assert_eq!(parsed.entries[0].entry[4], text("stop_hook_summary"));
    assert_eq!(parsed.entries[0].variant.as_ref().unwrap().1[1], text("stop_hook_summary"));
}

#[test]
fn assistant_rows_sit_at_kept_positions() {
    let parsed = run(vec![assistant(
        "a1",
        Some("m"),
        vec![
            AssistantContentBlock::Unknown,
            AssistantContentBlock::Text { text: "t".to_string() },
            AssistantContentBlock::Unknown,
            AssistantContentBlock::RedactedThinking { data: "d".to_string() },
        ],
        None,
    )]);
    let rows = &parsed.entries[0].children[0].1;
    assert_eq!(parsed.entries[0].children[0].0, "assistant_content_blocks");
    assert_eq!(rows.len(), 2);
    assert_eq!(rows[0][1], uint(1));
    assert_eq!(rows[0][2], text("text"));
    assert_eq!(rows[1][1], uint(3));
    assert_eq!(rows[1][2], text("redacted_thinking"));
    assert_eq!(rows[1][6], text("d"));
    assert_eq!(
        parsed.unknown_variants,
        vec!["AssistantContentBlock".to_string(), "AssistantContentBlock".to_string()]
    );
}

#[test]
fn user_row_with_only_unknown_blocks() {
    let parsed = run(vec![user("u1", "s1", "t", vec![UserContentBlock::Unknown, UserContentBlock::Unknown])]);
    let row = &parsed.entries[0].variant.as_ref().unwrap().1;
    assert_eq!(row[2], JsonValue::Null);
    assert_eq!(row[3], JsonValue::Bool(true));
    assert!(parsed.entries[0].children.is_empty());
    assert_eq!(parsed.unknown_variants.len(), 2);
}
