use rbw_adapter::{build_payload, create_item, edit_item, get_request, list_request,
    remove_request, resolve_tty_path, trim_str, unlock_request, unlocked_request};

#[test]
fn create_payload_has_leading_empty_line() {
    let c = create_item("api-key", "prod", "hello world");
    assert_eq!(c.stdin.as_bytes(), b"\nhello world\n");
    assert_eq!(c.args, vec!["add", "--folder", "prod", "api-key"]);
}

#[test]
fn create_payload_keeps_inner_newlines() {
    let c = create_item("n", "f", "line one\nline two");
    assert_eq!(c.stdin.as_bytes(), b"\nline one\nline two\n");
}

#[test]
fn edit_payload_secure_note_has_no_leading_empty_line() {
    let c = edit_item("n", "f", "hello", true);
    assert_eq!(c.stdin.as_bytes(), b"hello\n");
    assert_eq!(c.args, vec!["edit", "--folder", "f", "n"]);
}

#[test]
fn edit_payload_login_has_leading_empty_line() {
    let c = edit_item("n", "f", "hello", false);
    assert_eq!(c.stdin.as_bytes(), b"\nhello\n");
}

#[test]
fn build_payload_empty_notes() {
    assert_eq!(build_payload("", false).as_bytes(), b"\n\n");
    assert_eq!(build_payload("", true).as_bytes(), b"\n");
}

#[test]
fn request_argument_lists() {
    assert_eq!(list_request(), vec!["list", "--raw"]);
    assert_eq!(
        get_request("my item", "work"),
        vec!["get", "--raw", "--folder", "work", "my item"]
    );
    assert_eq!(remove_request("n", ""), vec!["remove", "--folder", "", "n"]);
    assert_eq!(unlocked_request(), vec!["unlocked"]);
    assert_eq!(unlock_request(), vec!["unlock"]);
}

#[test]
fn tty_stderr_probe_wins_over_stdin_probe() {
    let r = resolve_tty_path(Some("/dev/pts/3"), Some("/dev/pts/9"), true);
    assert_eq!(r.as_deref(), Some("/dev/pts/3"));
}

#[test]
fn tty_stdin_probe_used_when_stderr_probe_fails() {
    let r = resolve_tty_path(Some("pipe:[123]"), Some("/dev/pts/9"), false);
    assert_eq!(r.as_deref(), Some("/dev/pts/9"));
    let r = resolve_tty_path(None, Some("/dev/tty1"), false);
    assert_eq!(r.as_deref(), Some("/dev/tty1"));
}

#[test]
fn tty_generic_fallback_only_when_both_probes_fail() {
    let r = resolve_tty_path(Some("pipe:[123]"), Some("socket:[456]"), true);
    assert_eq!(r.as_deref(), Some("/dev/tty"));
    let r = resolve_tty_path(None, None, true);
    assert_eq!(r.as_deref(), Some("/dev/tty"));
}

#[test]
fn tty_unavailable_when_no_device_path_exists() {
    let r = resolve_tty_path(Some("pipe:[123]"), None, false);
    assert_eq!(r, None);
}

#[test]
fn payload_bytes_keep_unicode_notes() {
    let c = create_item("n", "f", "caf\u{e9} \u{2713}");
    assert_eq!(c.stdin.as_bytes(), "\ncaf\u{e9} \u{2713}\n".as_bytes());
}

#[test]
fn trim_strips_both_ends_only() {
    assert_eq!(trim_str("  a b \n"), "a b");
    assert_eq!(trim_str("\t\r\n "), "");
    assert_eq!(trim_str("xy"), "xy");
}
