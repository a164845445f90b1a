use transcript_ingest::cells::{json_str, ojson, opt_opt_json, u};
use transcript_ingest::encode::{
    diagnostics_files_tree, image_source_json, invoked_skills_tree, skill_invocation_tree,
};
use transcript_ingest::json::{to_json_text, JsonNumber, JsonValue};
use transcript_ingest::lines::clean_line;
use transcript_ingest::parse::str_less;
use transcript_ingest::paths::{
    _silence_unused_path, detect_subagent, extract_agent_id_from_filename, iso_from_systime,
    PathPart,
};
use transcript_ingest::types::{
    Diagnostic, DiagnosticPosition, DiagnosticRange, DiagnosticsFile, ImageSource, InvokedSkill,
};
use transcript_ingest::variants::join_lines;

fn text(s: &str) -> JsonValue {
    JsonValue::String(s.to_string())
}

fn parts(names: &[&str]) -> Vec<PathPart> {
    let mut v = vec![PathPart::RootDir];
    for n in names {
        v.push(PathPart::Normal(n.as_bytes().to_vec()));
    }
    v
}

#[test]
fn json_text_escapes_strings() {
    let v = text("a\"b\\c\nd\te\u{1}f\u{7f}é");
    assert_eq!(to_json_text(&v), "\"a\\\"b\\\\c\\nd\\te\\u0001f\u{7f}é\"");
    assert_eq!(to_json_text(&text("\u{8}\u{c}\r/")), "\"\\b\\f\\r/\"");
}

#[test]
fn json_text_of_numbers_and_containers() {
    assert_eq!(to_json_text(&JsonValue::Number(JsonNumber::PosInt(18446744073709551615))), "18446744073709551615");
    assert_eq!(to_json_text(&JsonValue::Number(JsonNumber::NegInt(-42))), "-42");
    assert_eq!(to_json_text(&JsonValue::Number(JsonNumber::Float("1.5".to_string()))), "1.5");
    let v = JsonValue::Object(vec![
        ("z".to_string(), JsonValue::Array(vec![JsonValue::Null, JsonValue::Bool(true), JsonValue::Bool(false)])),
        ("a".to_string(), JsonValue::Object(vec![])),
    ]);
    assert_eq!(to_json_text(&v), "{\"z\":[null,true,false],\"a\":{}}");
    assert_eq!(to_json_text(&JsonValue::Array(vec![])), "[]");
}

#[test]
fn json_cells() {
    assert_eq!(json_str(&text("x")), text("\"x\""));
    assert_eq!(opt_opt_json(&None), JsonValue::Null);
    assert_eq!(opt_opt_json(&Some(None)), text("null"));
    assert_eq!(opt_opt_json(&Some(Some(JsonValue::Number(JsonNumber::PosInt(3))))), text("3"));
    assert_eq!(u(0), JsonValue::Number(JsonNumber::PosInt(0)));
    assert_eq!(ojson(None), JsonValue::Null);
    assert_eq!(ojson(Some(&JsonValue::Array(vec![text("a")]))), text("[\"a\"]"));
}

#[test]
fn image_source_keeps_tag_first() {
    let src = ImageSource::Base64 { media_type: "image/png".to_string(), data: "AAAA".to_string() };
    assert_eq!(
        to_json_text(&image_source_json(&src)),
        "{\"type\":\"base64\",\"media_type\":\"image/png\",\"data\":\"AAAA\"}"
    );
}

#[test]
fn built_trees_have_sorted_keys() {
    let skill = InvokedSkill { name: "n".to_string(), path: "/s".to_string(), content: "c".to_string() };
    assert_eq!(to_json_text(&skill_invocation_tree(&skill)), "{\"content\":\"c\",\"path\":\"/s\"}");
    assert_eq!(
        to_json_text(&invoked_skills_tree(&vec![skill])),
        "[{\"content\":\"c\",\"name\":\"n\",\"path\":\"/s\"}]"
    );
    let pos = DiagnosticPosition { line: 1, character: 2 };
    let file = DiagnosticsFile {
        uri: "file:///a".to_string(),
        diagnostics: vec![Diagnostic {
            message: "m".to_string(),
            severity: "Error".to_string(),
            range: DiagnosticRange { start: pos, end: pos },
            source: None,
            code: None,
        }],
    };
    assert_eq!(
        to_json_text(&diagnostics_files_tree(&vec![file])),
        "[{\"diagnostics\":[{\"message\":\"m\",\"range\":{\"end\":{\"character\":2,\"line\":1},\"start\":{\"character\":2,\"line\":1}},\"severity\":\"Error\"}],\"uri\":\"file:///a\"}]"
    );
}

#[test]
fn clean_line_drops_nul_and_trims() {
    assert_eq!(clean_line("\0 {\"a\":1}\0 \t"), "{\"a\":1}");
    assert_eq!(clean_line("  \u{3000}\0\r"), "");
    assert_eq!(clean_line("a\0b"), "ab");
    assert_eq!(clean_line(""), "");
}

#[test]
fn joined_hook_context() {
    assert_eq!(join_lines(&vec!["a".to_string(), "b".to_string()]), "a\nb");
    assert_eq!(join_lines(&vec![]), "");
}

#[test]
fn timestamps_order_as_strings() {
    assert!(str_less("2024-01-01", "2024-01-02"));
    assert!(!str_less("2024-01-02", "2024-01-01"));
    assert!(!str_less("abc", "abc"));
    assert!(str_less("ab", "abc"));
    assert!(str_less("", "a"));
}

#[test]
fn subagent_files_name_their_parent_session() {
    let p = parts(&["home", "proj", "sess-1", "subagents", "agent-abc.jsonl"]);
    assert_eq!(detect_subagent(&p), (true, Some("sess-1".to_string())));
    let q = parts(&["home", "proj", "sess-1.jsonl"]);
    assert_eq!(detect_subagent(&q), (false, None));
    let short = vec![PathPart::Normal(b"subagents".to_vec()), PathPart::Normal(b"x.jsonl".to_vec())];
    assert_eq!(detect_subagent(&short), (true, None));
    let odd = vec![PathPart::Normal(vec![0xff, 0x61]), PathPart::Normal(b"subagents".to_vec()), PathPart::Normal(b"x".to_vec())];
    assert_eq!(detect_subagent(&odd), (true, None));
    let close = vec![PathPart::Normal(b"subagent".to_vec()), PathPart::Normal(b"a".to_vec()), PathPart::Normal(b"b".to_vec())];
    assert_eq!(detect_subagent(&close), (false, None));
}

#[test]
fn agent_id_comes_from_the_file_stem() {
    assert_eq!(extract_agent_id_from_filename(&parts(&["d", "agent-abc.jsonl"])), Some("abc".to_string()));
    assert_eq!(extract_agent_id_from_filename(&parts(&["agent-a.b.jsonl"])), Some("a.b".to_string()));
    assert_eq!(extract_agent_id_from_filename(&parts(&["agent-x"])), Some("x".to_string()));
    assert_eq!(extract_agent_id_from_filename(&parts(&["agent-.jsonl"])), Some("".to_string()));
    assert_eq!(extract_agent_id_from_filename(&parts(&["session.jsonl"])), None);
    assert_eq!(extract_agent_id_from_filename(&parts(&[".agent-x"])), None);
    assert_eq!(extract_agent_id_from_filename(&vec![PathPart::RootDir]), None);
    assert_eq!(extract_agent_id_from_filename(&vec![PathPart::Normal(vec![0xff])]), None);
    assert_eq!(extract_agent_id_from_filename(&vec![PathPart::Normal(b"agent-x.\xff".to_vec())]), Some("x".to_string()));
    assert_eq!(extract_agent_id_from_filename(&vec![PathPart::Normal(b"agent-\xff.jsonl".to_vec())]), None);
    assert_eq!(extract_agent_id_from_filename(&vec![PathPart::Normal("agent-é.jsonl".as_bytes().to_vec())]), Some("é".to_string()));
    assert_eq!(_silence_unused_path(), Vec::<PathPart>::new());
}

#[test]
fn modification_time_text() {
    assert_eq!(iso_from_systime(0, 0), Some("1970-01-01T00:00:00.000000Z".to_string()));
    assert_eq!(iso_from_systime(1704067200, 123456789), Some("2024-01-01T00:00:00.123456Z".to_string()));
    assert_eq!(iso_from_systime(i64::MAX, 0), None);
}

fn from_serde(v: &serde_json::Value) -> JsonValue {
    match v {
        serde_json::Value::Null => JsonValue::Null,
        serde_json::Value::Bool(b) => JsonValue::Bool(*b),
        serde_json::Value::Number(n) => JsonValue::Number(if let Some(u) = n.as_u64() {
            JsonNumber::PosInt(u)
        } else if let Some(i) = n.as_i64() {
            JsonNumber::NegInt(i)
        } else {
            JsonNumber::Float(n.to_string())
        }),
        serde_json::Value::String(s) => JsonValue::String(s.clone()),
        serde_json::Value::Array(a) => JsonValue::Array(a.iter().map(from_serde).collect()),
        serde_json::Value::Object(m) => JsonValue::Object(m.iter().map(|(k, x)| (k.clone(), from_serde(x))).collect()),
    }
}

#[test]
fn json_text_agrees_with_serde_json() {
    let samples = [
        "null",
        "[true,false,0,-1,18446744073709551615,-9223372036854775808]",
        "[1.5,-0.25,1e300,3.0,0.1]",
        r#""quote \" backslash \\ slash / tab \t nl \n cr \r bs \b ff \f nul \u0000 us \u001f del \u007f""#,
        r#"{"b":{"y":[],"x":{}},"a":"é😀","c":[{"k":null}]}"#,
        r#"{"line\nkey":"v","":""}"#,
    ];
    for s in samples.iter() {
        let v: serde_json::Value = serde_json::from_str(s).unwrap();
        let expected = serde_json::to_string(&v).unwrap();
        assert_eq!(to_json_text(&from_serde(&v)), expected, "for {}", s);
    }
}

#[test]
fn modification_time_text_at_the_end_of_year_9999() {
    assert_eq!(
        iso_from_systime(253_402_300_799, 999_999_999),
        Some("9999-12-31T23:59:59.999999Z".to_string())
    );
    assert_eq!(iso_from_systime(-1, 500_000_000), Some("1969-12-31T23:59:59.500000Z".to_string()));
}
