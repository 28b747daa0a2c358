use asset_bridge::document::{decode_document, encode_document, DocumentError};

#[test]
fn decodes_a_document() {
    let v = decode_document(b"{\"lines\": [1, 2]}").unwrap();
    assert_eq!(v, serde_json::from_str::<serde_json::Value>("{\"lines\":[1,2]}").unwrap());
}

#[test]
fn rejects_invalid_document() {
    match decode_document(b"{\"lines\": [1, 2") {
        Err(DocumentError::Invalid(msg)) => assert!(!msg.is_empty()),
        other => panic!("unexpected result {:?}", other),
    }
}

#[test]
fn encodes_indented_text() {
    let v: serde_json::Value = serde_json::from_str("{\"a\":1}").unwrap();
    assert_eq!(encode_document(&v).unwrap(), "{\n  \"a\": 1\n}");
}
