use transcript_ingest::json::{JsonNumber, JsonValue};
use transcript_ingest::lines::text_to_parse;
use transcript_ingest::parse::{parse_lines, LineEvent};
use transcript_ingest::paths::PathPart;
use transcript_ingest::types::{AgentNameEntry, Entry, TagEntry};

fn parts(names: &[&str]) -> Vec<PathPart> {
    let mut v = vec![PathPart::RootDir];
    for n in names {
        v.push(PathPart::Normal(n.as_bytes().to_vec()));
    }
    v
}

fn tag(t: &str, session: &str) -> LineEvent {
    LineEvent::Parsed(Entry::Tag(TagEntry { tag: t.to_string(), session_id: session.to_string() }))
}

fn text(s: &str) -> JsonValue {
    JsonValue::String(s.to_string())
}

#[test]
fn lines_to_parse() {
    assert_eq!(text_to_parse("  \0 \t"), None);
    assert_eq!(text_to_parse(""), None);
    assert_eq!(text_to_parse(" {\"a\":1}\0"), Some("{\"a\":1}".to_string()));
    assert!(LineEvent::ReadError("x".to_string()).ends_reading());
    assert!(!LineEvent::Blank.ends_reading());
    assert!(!LineEvent::NotJson("x".to_string()).ends_reading());
}

#[test]
fn a_whole_file_from_its_events() {
    let p = parts(&["home", "p", "sess-9", "subagents", "agent-a1.jsonl"]);
    let events = vec![
        (1, tag("x", "s-1"), None),
        (2, LineEvent::Blank, None),
        (3, LineEvent::NotJson("expected value".to_string()), None),
        (4, LineEvent::Parsed(Entry::Unknown), None),
        (5, LineEvent::Parsed(Entry::AgentName(AgentNameEntry { agent_name: "n".to_string(), session_id: "s-2".to_string() })), None),
        (6, LineEvent::ReadError("bad data".to_string()), None),
        (7, tag("after", "s-3"), None),
    ];
    let r = parse_lines("/home/p/f.jsonl".to_string(), &p, Some((0, 0)), Ok(events));
    assert_eq!(r.transcript.file_path, "/home/p/f.jsonl");
    assert!(r.transcript.is_subagent);
    assert_eq!(r.transcript.parent_session_id, Some("sess-9".to_string()));
    assert_eq!(r.transcript.agent_id, Some("a1".to_string()));
    assert_eq!(r.transcript.mtime, Some("1970-01-01T00:00:00.000000Z".to_string()));
    assert_eq!(r.transcript.session_id, Some("s-1".to_string()));
    assert_eq!(r.transcript.entry_count, 2);
    assert_eq!(r.transcript.first_timestamp, None);
    assert_eq!(r.entries.len(), 2);
    assert_eq!(r.entries[0].entry[1], text("/home/p/f.jsonl"));
    assert_eq!(r.entries[0].entry[2], JsonValue::Number(JsonNumber::PosInt(1)));
    assert_eq!(r.entries[1].entry[2], JsonValue::Number(JsonNumber::PosInt(5)));
    assert_eq!(r.entries[1].entry[9], text("s-2"));
    assert_eq!(
        r.failures,
        vec![(3, "not json: expected value".to_string()), (6, "io: bad data".to_string())]
    );
}

#[test]
fn a_file_that_cannot_be_opened() {
    let r = parse_lines("gone.jsonl".to_string(), &parts(&["gone.jsonl"]), None, Err("not found".to_string()));
    assert_eq!(r.failures, vec![(0, "open: not found".to_string())]);
    assert!(r.entries.is_empty());
    assert_eq!(r.transcript.entry_count, 0);
    assert!(!r.transcript.is_subagent);
    assert_eq!(r.transcript.agent_id, None);
    assert_eq!(r.transcript.mtime, None);
}
