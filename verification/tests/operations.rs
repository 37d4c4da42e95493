use rbw_adapter::{CmdOutput, VaultError, delete_item, get_item, list_namespaces, needs_unlock,
    stderr_says_not_found, unlock_outcome, write_outcome};

fn output(code: Option<i32>, stdout: &[u8], stderr: &str) -> CmdOutput {
    CmdOutput { code, stdout: stdout.to_vec(), stderr: stderr.to_string() }
}

#[test]
fn list_filters_to_requested_folder() {
    let stdout = br#"[
        {"id":"1","name":"alpha","user":null,"folder":"work","type":"Login"},
        {"id":"2","name":"beta","user":null,"folder":"home","type":"Login"},
        {"id":"3","name":"gamma","user":null,"folder":"work","type":"SecureNote"},
        {"id":"4","name":"delta","user":null,"folder":null,"type":"Login"}
    ]"#;
    let names = list_namespaces("work", &output(Some(0), stdout, "")).unwrap();
    assert_eq!(names, vec!["alpha", "gamma"]);
}

#[test]
fn list_absent_folder_matches_only_empty_folder_name() {
    let stdout = br#"[
        {"name":"filed","folder":"work","type":"Login"},
        {"name":"unfiled","folder":null,"type":"Login"},
        {"name":"bare","type":"Login"}
    ]"#;
    let names = list_namespaces("", &output(Some(0), stdout, "")).unwrap();
    assert_eq!(names, vec!["unfiled", "bare"]);
}

#[test]
fn list_keeps_tool_order() {
    let stdout = br#"[
        {"name":"zeta","folder":"f","type":"Login"},
        {"name":"alpha","folder":"f","type":"Login"}
    ]"#;
    let names = list_namespaces("f", &output(Some(0), stdout, "")).unwrap();
    assert_eq!(names, vec!["zeta", "alpha"]);
}

#[test]
fn list_malformed_json_is_fatal() {
    let r = list_namespaces("f", &output(Some(0), b"not json", ""));
    assert!(matches!(r, Err(VaultError::ParseFailed { command }) if command == "rbw list"));
}

#[test]
fn list_wrong_shape_is_fatal() {
    let r = list_namespaces("f", &output(Some(0), br#"[{"name":7,"type":"Login"}]"#, ""));
    assert!(matches!(r, Err(VaultError::ParseFailed { .. })));
}

#[test]
fn list_nonzero_exit_is_fatal() {
    let r = list_namespaces("f", &output(Some(1), b"", "  locked \n"));
    match r {
        Err(VaultError::CommandFailed { command, code, stderr }) => {
            assert_eq!(command, "rbw list");
            assert_eq!(code, Some(1));
            assert_eq!(stderr, "locked");
        }
        other => panic!("expected CommandFailed, got {:?}", other),
    }
}

#[test]
fn get_parses_type_and_notes() {
    let stdout = br#"{"id":"1","type":"Login","notes":"hello","extra":[1,2,{"k":true}]}"#;
    let item = get_item(&output(Some(0), stdout, "")).unwrap().unwrap();
    assert_eq!(item.item_type.as_deref(), Some("Login"));
    assert_eq!(item.notes.as_deref(), Some("hello"));
}

#[test]
fn get_null_and_missing_fields_are_absent_values() {
    let item = get_item(&output(Some(0), br#"{"type":null}"#, "")).unwrap().unwrap();
    assert_eq!(item.item_type, None);
    assert_eq!(item.notes, None);
}

#[test]
fn get_decodes_json_string_escapes() {
    let stdout = r#"{"type":"SecureNote","notes":"line one\nline \"two\" é"}"#.as_bytes();
    let item = get_item(&output(Some(0), stdout, "")).unwrap().unwrap();
    assert_eq!(item.notes.as_deref(), Some("line one\nline \"two\" \u{e9}"));
}

#[test]
fn get_not_found_phrasings_yield_absent() {
    for text in [
        "rbw get: no entry found for name",
        "error: no items found matching that query",
        "Entry not found",
    ] {
        let r = get_item(&output(Some(1), b"", text)).unwrap();
        assert!(r.is_none());
    }
}

#[test]
fn get_other_failure_is_fatal() {
    let r = get_item(&output(Some(1), b"", "vault is on fire"));
    match r {
        Err(VaultError::CommandFailed { command, code, stderr }) => {
            assert_eq!(command, "rbw get");
            assert_eq!(code, Some(1));
            assert_eq!(stderr, "vault is on fire");
        }
        other => panic!("expected CommandFailed, got {:?}", other),
    }
}

#[test]
fn get_malformed_json_is_fatal() {
    let r = get_item(&output(Some(0), b"{", ""));
    assert!(matches!(r, Err(VaultError::ParseFailed { command }) if command == "rbw get"));
}

#[test]
fn get_non_object_is_fatal() {
    let r = get_item(&output(Some(0), b"[1,2]", ""));
    assert!(matches!(r, Err(VaultError::ParseFailed { .. })));
}

#[test]
fn delete_then_get_absent() {
    let deleted = delete_item(&output(Some(0), b"", ""));
    assert!(deleted.is_ok());
    let fetched = get_item(&output(Some(1), b"", "rbw get: no entry found")).unwrap();
    assert!(fetched.is_none());
}

#[test]
fn delete_failure_surfaces_exit_status() {
    let r = delete_item(&output(Some(3), b"", "permission denied, not a missing entry"));
    match r {
        Err(VaultError::CommandFailed { command, code, stderr }) => {
            assert_eq!(command, "rbw remove");
            assert_eq!(code, Some(3));
            assert_eq!(stderr, "permission denied, not a missing entry");
        }
        other => panic!("expected CommandFailed, got {:?}", other),
    }
}

#[test]
fn delete_killed_process_is_fatal() {
    let r = delete_item(&output(None, b"", ""));
    assert!(matches!(r, Err(VaultError::CommandFailed { code: None, .. })));
}

#[test]
fn unlock_guard_decisions() {
    assert!(!needs_unlock(Some(0)));
    assert!(needs_unlock(Some(1)));
    assert!(needs_unlock(None));
    assert!(unlock_outcome(Some(0)).is_ok());
    assert!(matches!(
        unlock_outcome(Some(1)),
        Err(VaultError::UnlockFailed { code: Some(1) })
    ));
}

#[test]
fn piped_write_exit_handling() {
    assert!(write_outcome(Some(0)).is_ok());
    assert!(matches!(
        write_outcome(Some(1)),
        Err(VaultError::WriteFailed { code: Some(1) })
    ));
}

#[test]
fn not_found_classifier_matches_substrings_only() {
    assert!(stderr_says_not_found("prefix no entry found suffix"));
    assert!(!stderr_says_not_found("no entry   found"));
    assert!(!stderr_says_not_found("entry not found"));
}
