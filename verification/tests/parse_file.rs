use transcript_ingest::json::{JsonNumber, JsonValue};
use transcript_ingest::parse::{LineEvent, ParseState, ParsedFile};
use transcript_ingest::types::{
    AssistantContentBlock, AssistantEntry, AssistantMessage, AssistantRole, AssistantUsage,
    AttachmentData, AttachmentEntry, DocumentSource, Entry, Envelope, ImageSource,
    NestedMemoryContent, UserContent, UserContentBlock, UserEntry, UserMessage, UserRole,
};

fn envelope(uuid: &str) -> Envelope {
    Envelope {
        uuid: uuid.to_string(),
        parent_uuid: None,
        logical_parent_uuid: None,
        is_sidechain: false,
        session_id: "test-session".to_string(),
        timestamp: "2024-01-01T00:00:00.000000Z".to_string(),
        user_type: None,
        entrypoint: None,
        cwd: None,
        version: None,
        git_branch: None,
        slug: None,
        agent_id: None,
        team_name: None,
        agent_name: None,
        agent_color: None,
        prompt_id: None,
        is_meta: None,
        forked_from: None,
    }
}

fn user_with_blocks(uuid: &str, blocks: Vec<UserContentBlock>) -> Entry {
    Entry::User(UserEntry {
        envelope: envelope(uuid),
        message: UserMessage { role: UserRole::User, content: UserContent::Blocks(blocks) },
        tool_use_result: None,
        source_tool_assistant_uuid: None,
        source_tool_use_id: None,
        permission_mode: None,
        origin: None,
        is_compact_summary: None,
        is_visible_in_transcript_only: None,
        image_paste_ids: None,
        plan_content: None,
    })
}

fn usage(input: u64, output: u64) -> AssistantUsage {
    AssistantUsage {
        input_tokens: input,
        output_tokens: output,
        cache_creation_input_tokens: None,
        cache_read_input_tokens: None,
        server_tool_use: None,
        service_tier: None,
        cache_creation: None,
        inference_geo: None,
        iterations: None,
        speed: None,
    }
}

/// Parses the given entries as lines 1, 2, ... of one file, with no price
/// table.
fn parse_entries(entries: Vec<Entry>) -> ParsedFile {
    let mut st = ParseState::new("/tmp/test.jsonl".to_string());
    let mut line_no: usize = 1;
    for e in entries {
        assert!(st.step(line_no, LineEvent::Parsed(e), &None));
        line_no += 1;
    }
    st.finish(false, None, None, None)
}

fn text(s: &str) -> JsonValue {
    JsonValue::String(s.to_string())
}

#[test]
fn unknown_attachment_type_is_dropped_not_failed() {
    let entry = Entry::Attachment(AttachmentEntry {
        envelope: envelope("a1"),
        attachment: AttachmentData::Unknown,
    });
    let parsed = parse_entries(vec![entry]);

    assert!(parsed.failures.is_empty(), "unexpected failures: {:?}", parsed.failures);
    assert_eq!(parsed.entries.len(), 1, "entry should still be ingested");
    assert!(
        parsed.unknown_variants.contains(&"AttachmentData".to_string()),
        "expected AttachmentData in unknown_variants, got {:?}",
        parsed.unknown_variants
    );
}

#[test]
fn unknown_assistant_content_block_is_dropped_not_failed() {
    let entry = Entry::Assistant(AssistantEntry {
        envelope: envelope("b1"),
        message: AssistantMessage {
            id: "msg1".to_string(),
            msg_type: "message".to_string(),
            role: AssistantRole::Assistant,
            model: Some("opus-3-20240229".to_string()),
            container: None,
            content: vec![AssistantContentBlock::Unknown],
            stop_reason: Some("end_turn".to_string()),
            stop_sequence: None,
            stop_details: None,
            usage: usage(10, 5),
            context_management: None,
        },
        request_id: None,
        is_api_error_message: None,
        error: None,
    });
    let parsed = parse_entries(vec![entry]);

    assert!(parsed.failures.is_empty(), "unexpected failures: {:?}", parsed.failures);
    assert_eq!(parsed.entries.len(), 1);
    assert!(
        parsed.unknown_variants.contains(&"AssistantContentBlock".to_string()),
        "got {:?}",
        parsed.unknown_variants
    );
}

#[test]
fn unknown_user_content_block_is_dropped_not_failed() {
    let parsed = parse_entries(vec![user_with_blocks("c1", vec![UserContentBlock::Unknown])]);

    assert!(parsed.failures.is_empty(), "unexpected failures: {:?}", parsed.failures);
    assert_eq!(parsed.entries.len(), 1);
    assert!(
        parsed.unknown_variants.contains(&"UserContentBlock".to_string()),
        "got {:?}",
        parsed.unknown_variants
    );
}

#[test]
fn unknown_image_source_type_is_dropped_not_failed() {
    let block = UserContentBlock::Image { source: ImageSource::Unknown };
    let parsed = parse_entries(vec![user_with_blocks("d1", vec![block])]);

    assert!(parsed.failures.is_empty(), "unexpected failures: {:?}", parsed.failures);
    assert_eq!(parsed.entries.len(), 1);
    assert!(
        parsed.unknown_variants.contains(&"ImageSource".to_string()),
        "got {:?}",
        parsed.unknown_variants
    );
}

#[test]
fn unknown_document_source_type_is_dropped_not_failed() {
    let block = UserContentBlock::Document { source: DocumentSource::Unknown, title: None };
    let parsed = parse_entries(vec![user_with_blocks("e1", vec![block])]);

    assert!(parsed.failures.is_empty(), "unexpected failures: {:?}", parsed.failures);
    assert_eq!(parsed.entries.len(), 1);
    assert!(
        parsed.unknown_variants.contains(&"DocumentSource".to_string()),
        "got {:?}",
        parsed.unknown_variants
    );
}

#[test]
fn nested_memory_attachment_regression() {
    let entry = Entry::Attachment(AttachmentEntry {
        envelope: envelope("f1"),
        attachment: AttachmentData::NestedMemory {
            path: "/p/PROJECT.md".to_string(),
            content: NestedMemoryContent {
                path: "/p/PROJECT.md".to_string(),
                memory_type: "Project".to_string(),
                content: "body".to_string(),
                content_differs_from_disk: Some(false),
            },
            display_path: "PROJECT.md".to_string(),
        },
    });
    let parsed = parse_entries(vec![entry]);

    assert!(
        parsed.failures.is_empty(),
        "nested_memory should not produce a parse failure: {:?}",
        parsed.failures
    );
    assert!(
        !parsed.unknown_variants.contains(&"AttachmentData".to_string()),
        "nested_memory must not be reported as unknown: {:?}",
        parsed.unknown_variants
    );
    assert_eq!(parsed.entries.len(), 1);
    let e = &parsed.entries[0];
    let (table, row) = e.variant.as_ref().expect("attachment variant row should be present");
    assert_eq!(*table, "attachment_entries");
    assert_eq!(row[1], text("nested_memory"));
    assert_eq!(row[15], text("PROJECT.md"));
    assert_eq!(row[43], text("/p/PROJECT.md"));
    assert_eq!(row[44], text("Project"));
    assert_eq!(row[45], text("body"));
    assert_eq!(row[46], JsonValue::Bool(false));
}

#[test]
fn entry_row_holds_envelope_cells() {
    let parsed = parse_entries(vec![user_with_blocks("u1", vec![])]);
    let row = &parsed.entries[0].entry;
    assert_eq!(row.len(), 25);
    assert_eq!(row[0], JsonValue::Null);
    assert_eq!(row[1], text("/tmp/test.jsonl"));
    assert_eq!(row[2], JsonValue::Number(JsonNumber::PosInt(1)));
    assert_eq!(row[3], text("user"));
    assert_eq!(row[4], JsonValue::Null);
    assert_eq!(row[5], text("u1"));
    assert_eq!(row[8], JsonValue::Bool(false));
    assert_eq!(row[9], text("test-session"));
    assert_eq!(row[10], text("2024-01-01T00:00:00.000000Z"));
    assert_eq!(parsed.transcript.session_id, Some("test-session".to_string()));
    assert_eq!(parsed.transcript.entry_count, 1);
}
