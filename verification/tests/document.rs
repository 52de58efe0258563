use checklist_commander::document::{
    classify, doc_eq, ChecklistDocument, DocumentError, RawDocument, RawStep, Step,
};

fn raw_step(
    kind: Option<i64>,
    text: Option<&str>,
    description: Option<&str>,
    set_id: Option<i64>,
    to_pos_id: Option<i64>,
) -> RawStep {
    RawStep {
        kind,
        text: text.map(|s| s.to_string()),
        description: description.map(|s| s.to_string()),
        set_id,
        to_pos_id,
    }
}

#[test]
fn classify_display_kinds() {
    let s = classify(&raw_step(Some(0), Some("Confirm power"), None, None, None));
    assert!(matches!(s, Step::Display { text } if text == "Confirm power"));
    let s = classify(&raw_step(Some(7), Some("Confirm power"), None, None, None));
    assert!(matches!(s, Step::DisplayOnly { text } if text == "Confirm power"));
}

#[test]
fn classify_action_kinds() {
    let s = classify(&raw_step(Some(1), None, Some("Main bus switch"), Some(7), Some(2)));
    assert!(matches!(
        s,
        Step::SetSwitch { description, set_id: 7, to_pos_id: 2 } if description == "Main bus switch"
    ));
    let s = classify(&raw_step(Some(2), None, Some("b"), Some(1), Some(0)));
    assert!(matches!(s, Step::SetCircuitBreaker { .. }));
    let s = classify(&raw_step(Some(3), None, Some("c"), Some(1), Some(0)));
    assert!(matches!(s, Step::SetSelector { .. }));
    let s = classify(&raw_step(Some(5), None, Some("d"), Some(1), Some(0)));
    assert!(matches!(s, Step::SetHandle { .. }));
}

#[test]
fn classify_missing_kind_is_malformed() {
    let s = classify(&raw_step(None, Some("text"), None, None, None));
    assert!(matches!(s, Step::Malformed));
}

#[test]
fn classify_missing_payload_is_malformed() {
    // A display step without its text.
    assert!(matches!(classify(&raw_step(Some(0), None, None, None, None)), Step::Malformed));
    // An action step without its description, control id, or position.
    assert!(matches!(classify(&raw_step(Some(1), None, None, Some(7), Some(2))), Step::Malformed));
    assert!(matches!(classify(&raw_step(Some(1), None, Some("d"), None, Some(2))), Step::Malformed));
    assert!(matches!(classify(&raw_step(Some(1), None, Some("d"), Some(7), None)), Step::Malformed));
    // An action step whose integers do not fit the wire's unsigned fields.
    assert!(matches!(
        classify(&raw_step(Some(1), None, Some("d"), Some(-1), Some(2))),
        Step::Malformed
    ));
    assert!(matches!(
        classify(&raw_step(Some(1), None, Some("d"), Some(7), Some(1 << 40))),
        Step::Malformed
    ));
}

#[test]
fn classify_unknown_kind_is_unsupported() {
    assert!(matches!(
        classify(&raw_step(Some(99), Some("t"), Some("d"), Some(1), Some(2))),
        Step::Unsupported { kind: 99 }
    ));
    assert!(matches!(classify(&raw_step(Some(4), None, None, None, None)), Step::Unsupported {
        kind: 4
    }));
    assert!(matches!(classify(&raw_step(Some(-3), None, None, None, None)), Step::Unsupported {
        kind: -3
    }));
}

#[test]
fn from_raw_needs_all_header_fields() {
    let raw = RawDocument {
        spacecraft_id: None,
        group: Some("Launch".to_string()),
        name: Some("Prelaunch".to_string()),
        steps: Vec::new(),
    };
    assert_eq!(
        ChecklistDocument::from_raw(raw).err(),
        Some(DocumentError::ChecklistMalformed)
    );
    let raw = RawDocument {
        spacecraft_id: Some(3),
        group: None,
        name: Some("Prelaunch".to_string()),
        steps: Vec::new(),
    };
    assert!(ChecklistDocument::from_raw(raw).is_err());
    let raw = RawDocument {
        spacecraft_id: Some(3),
        group: Some("Launch".to_string()),
        name: None,
        steps: Vec::new(),
    };
    assert!(ChecklistDocument::from_raw(raw).is_err());
}

#[test]
fn from_raw_classifies_every_step_in_order() {
    let raw = RawDocument {
        spacecraft_id: Some(3),
        group: Some("Launch".to_string()),
        name: Some("Prelaunch".to_string()),
        steps: vec![
            raw_step(Some(0), Some("Confirm power"), None, None, None),
            raw_step(None, None, None, None, None),
            raw_step(Some(1), None, Some("Main bus switch"), Some(7), Some(2)),
        ],
    };
    let doc = ChecklistDocument::from_raw(raw).unwrap();
    assert_eq!(doc.spacecraft_id, 3);
    assert_eq!(doc.group, "Launch");
    assert_eq!(doc.name, "Prelaunch");
    assert_eq!(doc.steps.len(), 3);
    assert!(matches!(&doc.steps[0], Step::Display { text } if text == "Confirm power"));
    assert!(matches!(&doc.steps[1], Step::Malformed));
    assert!(matches!(&doc.steps[2], Step::SetSwitch { set_id: 7, to_pos_id: 2, .. }));
}

fn raw_step_of_value(v: &serde_json::Value) -> RawStep {
    RawStep {
        kind: v.get("Type").and_then(|t| t.as_i64()),
        text: v.get("Text").and_then(|t| t.as_str()).map(|s| s.to_string()),
        description: v.get("Description").and_then(|t| t.as_str()).map(|s| s.to_string()),
        set_id: v.get("SetID").and_then(|t| t.as_i64()),
        to_pos_id: v.get("ToPosID").and_then(|t| t.as_i64()),
    }
}

fn raw_document_of_text(text: &str) -> RawDocument {
    let v: serde_json::Value = serde_json::from_str(text).unwrap();
    RawDocument {
        spacecraft_id: v.get("Spacecraft").and_then(|t| t.as_i64()),
        group: v.get("Group").and_then(|t| t.as_str()).map(|s| s.to_string()),
        name: v.get("Name").and_then(|t| t.as_str()).map(|s| s.to_string()),
        steps: v
            .get("Steps")
            .and_then(|t| t.as_array())
            .map(|a| a.iter().map(raw_step_of_value).collect())
            .unwrap_or_default(),
    }
}

#[test]
fn loading_the_same_bytes_twice_gives_equal_documents() {
    let text = "{\"Spacecraft\":3,\"Group\":\"Launch\",\"Name\":\"Prelaunch\",\"Steps\":[\
        {\"Type\":0,\"Text\":\"Confirm power\"},\
        {\"Text\":\"no kind here\"},\
        {\"Type\":1,\"Description\":\"Main bus switch\",\"SetID\":7,\"ToPosID\":2},\
        {\"Type\":7,\"Text\":\"Done\"}]}";
    let doc1 = ChecklistDocument::from_raw(raw_document_of_text(text)).unwrap();
    let doc2 = ChecklistDocument::from_raw(raw_document_of_text(text)).unwrap();
    assert!(doc_eq(&doc1, &doc2));
}
