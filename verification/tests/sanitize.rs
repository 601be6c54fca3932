use frpc_supervisor::sanitize::{format_log_line, sanitize_line, StreamKind};

#[test]
fn strips_color_escapes() {
    let raw = b"\x1b[32mfoo\x1b[m bar".to_vec();
    assert_eq!(sanitize_line(&raw), "foo bar");
}

#[test]
fn strips_cursor_and_reset_sequences() {
    let raw = b"\x1b[2J\x1b[1;31mwarn\x1b[0m done".to_vec();
    assert_eq!(sanitize_line(&raw), "warn done");
}

#[test]
fn plain_text_passes_through() {
    let raw = b"connected to server".to_vec();
    assert_eq!(sanitize_line(&raw), "connected to server");
}

#[test]
fn empty_line_stays_empty() {
    let raw: Vec<u8> = Vec::new();
    assert_eq!(sanitize_line(&raw), "");
}

#[test]
fn multibyte_text_survives() {
    let raw = "\u{1b}[32m启动成功\u{1b}[m".as_bytes().to_vec();
    assert_eq!(sanitize_line(&raw), "启动成功");
}

#[test]
fn tags_stdout_with_identity() {
    let line = format_log_line(&"alpha".to_string(), StreamKind::Stdout, &"hi".to_string());
    assert_eq!(line, "FRPC STDOUT [alpha]: hi");
}

#[test]
fn tags_stderr_with_identity() {
    let line = format_log_line(&"default".to_string(), StreamKind::Stderr, &"boom".to_string());
    assert_eq!(line, "FRPC STDERR [default]: boom");
}
