use registry_relay::attribute_release::document::synthesize_document;

fn literal_of(cel: &str) -> String {
    let document = synthesize_document(cel);
    let head = concat_lines();
    assert!(document.starts_with(&head));
    let literal = document[head.len()..].to_string();
    assert!(literal.ends_with('\n'));
    literal[..literal.len() - 1].to_string()
}

fn concat_lines() -> String {
    let mut head = String::new();
    head.push_str("version: \"0.1\"\n");
    head.push_str("name: registry_relay_attribute_release\n");
    head.push_str("source_system: registry-relay.attribute_release\n");
    head.push_str("target_model: registry-relay.attribute_release\n");
    head.push_str("records:\n");
    head.push_str("  release:\n");
    head.push_str("    emit: \"true\"\n");
    head.push_str("    fields:\n");
    head.push_str("      value: ");
    head
}

#[test]
fn document_carries_the_expression() {
    let mut expected = concat_lines();
    expected.push_str("\"source.deceased == false\"\n");
    assert_eq!(synthesize_document("source.deceased == false"), expected);
}

#[test]
fn quotes_and_control_characters_are_escaped() {
    assert_eq!(literal_of(""), "\"\"");
    assert_eq!(literal_of("a\"b"), "\"a\\\"b\"");
    assert_eq!(literal_of("a\\b"), "\"a\\\\b\"");
    assert_eq!(literal_of("\u{8}\t\n\u{c}\r"), "\"\\b\\t\\n\\f\\r\"");
    assert_eq!(literal_of("\u{0}\u{b}\u{1f}"), "\"\\u0000\\u000b\\u001f\"");
    assert_eq!(literal_of("\u{7f}/é€😀\u{2028}"), "\"\u{7f}/é€😀\u{2028}\"");
}

#[test]
fn every_control_character_is_escaped() {
    for code in 0u32..0x20 {
        let c = char::from_u32(code).expect("a character");
        let expected = match c {
            '\u{8}' => "\"\\b\"".to_string(),
            '\t' => "\"\\t\"".to_string(),
            '\n' => "\"\\n\"".to_string(),
            '\u{c}' => "\"\\f\"".to_string(),
            '\r' => "\"\\r\"".to_string(),
            _ => format!("\"\\u{code:04x}\""),
        };
        assert_eq!(literal_of(&c.to_string()), expected);
    }
}

#[test]
fn expression_cannot_break_the_document() {
    let cel = "x\"\n  other:\n    emit: \"true\"\\";
    let document = synthesize_document(cel);
    assert_eq!(document.matches('\n').count(), 9);
    let back: String = serde_json::from_str(&literal_of(cel)).expect("a JSON string");
    assert_eq!(back, cel);
}

#[test]
fn distinct_expressions_have_distinct_documents() {
    assert_ne!(synthesize_document("\\n"), synthesize_document("\n"));
    assert_ne!(synthesize_document("a"), synthesize_document("a "));
}
