//! Tests of the commit-message sanitizer.

use git_sidequest::sanitize_commit_message;

fn sanitize(raw: &[u8]) -> Option<Vec<u8>> {
    sanitize_commit_message(&raw.to_vec())
}

#[test]
fn plain_message_is_trimmed() {
    assert_eq!(sanitize(b"hello\n"), Some(b"hello".to_vec()));
    assert_eq!(sanitize(b"  hello world \n\n"), Some(b"hello world".to_vec()));
}

#[test]
fn comment_lines_are_dropped() {
    assert_eq!(
        sanitize(b"line one\n# a comment\nline two\n"),
        Some(b"line one\nline two".to_vec())
    );
}

#[test]
fn leading_comments_are_dropped_after_trim() {
    assert_eq!(sanitize(b"\n\n# comment\ntext\n"), Some(b"text".to_vec()));
}

#[test]
fn kept_line_keeps_its_line_break() {
    // the kept first line ends in a line break that trimming (done before
    // the comment line is dropped) does not touch
    assert_eq!(sanitize(b"text\n# comment\n"), Some(b"text\n".to_vec()));
}

#[test]
fn comment_marker_mid_line_is_kept() {
    assert_eq!(
        sanitize(b"code # not a comment\n"),
        Some(b"code # not a comment".to_vec())
    );
}

#[test]
fn empty_buffer_is_rejected() {
    assert_eq!(sanitize(b""), None);
}

#[test]
fn whitespace_only_buffer_is_rejected() {
    assert_eq!(sanitize(b"  \n\t \r\n"), None);
}

#[test]
fn all_comments_buffer_is_rejected() {
    assert_eq!(sanitize(b"# one\n# two\n"), None);
}

#[test]
fn blank_after_comments_is_rejected() {
    assert_eq!(sanitize(b"# heading\n   \n"), None);
}

#[test]
fn multibyte_text_passes_through() {
    let raw = "r\u{e9}sum\u{e9}\n# commentaire\n".as_bytes();
    assert_eq!(sanitize(raw), Some("r\u{e9}sum\u{e9}\n".as_bytes().to_vec()));
}
