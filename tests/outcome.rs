use asset_bridge::outcome::{classify, confirmation, Operation, Outcome, NO_EXIT_CODE};

fn value(text: &str) -> serde_json::Value {
    serde_json::from_str(text).unwrap()
}

#[test]
fn read_with_json_output_succeeds() {
    let out = b"{\"ok\":true,\"lang\":\"en\"}".to_vec();
    let o = classify(Operation::Read, Some(0), out);
    assert_eq!(o, Outcome::Success(Some(value("{\"ok\":true,\"lang\":\"en\"}"))));
}

#[test]
fn nonzero_exit_is_exit_failure_even_with_valid_output() {
    let out = b"{\"ok\":true}".to_vec();
    assert_eq!(classify(Operation::Read, Some(1), out.clone()), Outcome::ExitFailure(1));
    assert_eq!(classify(Operation::Write, Some(2), out), Outcome::ExitFailure(2));
}

#[test]
fn missing_exit_code_reports_sentinel() {
    let o = classify(Operation::Read, None, Vec::new());
    assert_eq!(o, Outcome::ExitFailure(NO_EXIT_CODE));
    assert_eq!(NO_EXIT_CODE, -1);
}

#[test]
fn malformed_output_keeps_raw_bytes() {
    let out = b"not json {".to_vec();
    match classify(Operation::Read, Some(0), out.clone()) {
        Outcome::ProtocolFailure { cause, raw } => {
            assert_eq!(raw, out);
            assert!(!cause.is_empty());
        }
        other => panic!("unexpected outcome {:?}", other),
    }
}

#[test]
fn empty_read_output_is_protocol_failure() {
    match classify(Operation::Read, Some(0), Vec::new()) {
        Outcome::ProtocolFailure { raw, .. } => assert!(raw.is_empty()),
        other => panic!("unexpected outcome {:?}", other),
    }
}

#[test]
fn invalid_utf8_output_is_protocol_failure() {
    let out = vec![0x22, 0xff, 0xfe, 0x22];
    match classify(Operation::Read, Some(0), out.clone()) {
        Outcome::ProtocolFailure { raw, .. } => assert_eq!(raw, out),
        other => panic!("unexpected outcome {:?}", other),
    }
}

#[test]
fn write_output_is_not_decoded() {
    let o = classify(Operation::Write, Some(0), b"wrote 3 entries\n".to_vec());
    assert_eq!(o, Outcome::Success(None));
}

fn confirmed(out: &[u8]) -> Option<String> {
    confirmation(out).map(|t| t.into_iter().collect())
}

#[test]
fn confirmation_is_trimmed() {
    assert_eq!(confirmed(b"  wrote 3 entries\r\n"), Some("wrote 3 entries".to_string()));
    assert_eq!(confirmed(b"ok"), Some("ok".to_string()));
    assert_eq!(confirmed(b" \n\t "), Some(String::new()));
    assert_eq!(confirmed(b" "), Some(String::new()));
    assert_eq!(confirmed(b""), None);
}

#[test]
fn confirmation_trims_unicode_white_space() {
    let out = "\u{a0}ok\u{a0}".as_bytes();
    assert_eq!(out, &[0xc2, 0xa0, b'o', b'k', 0xc2, 0xa0]);
    assert_eq!(confirmed(out), Some("ok".to_string()));
    assert_eq!(confirmed("\u{3000}done\u{2028}\u{85}".as_bytes()), Some("done".to_string()));
    assert_eq!(confirmed("\u{a0}".as_bytes()), Some(String::new()));
}

#[test]
fn confirmation_replaces_ill_formed_bytes() {
    assert_eq!(confirmed(b" \xffok "), Some("\u{fffd}ok".to_string()));
}
