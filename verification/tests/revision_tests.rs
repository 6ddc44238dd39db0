use status_service::errors::ConfigError;
use status_service::revision::{revision_from_output, CommandOutput};
use status_service::text::{second_word, trim_ascii};

#[test]
fn successful_output_is_trimmed() {
    let out = CommandOutput { success: true, stdout: b"  abc123\n\r\t ".to_vec() };
    assert_eq!(revision_from_output(Some(out)).unwrap(), "abc123");
}

#[test]
fn inner_whitespace_is_kept() {
    let out = CommandOutput { success: true, stdout: b"a b\n".to_vec() };
    assert_eq!(revision_from_output(Some(out)).unwrap(), "a b");
}

#[test]
fn empty_output_gives_empty_revision() {
    let out = CommandOutput { success: true, stdout: Vec::new() };
    assert_eq!(revision_from_output(Some(out)).unwrap(), "");
}

#[test]
fn invalid_utf8_is_replaced() {
    let out = CommandOutput { success: true, stdout: vec![0x61, 0xff, 0x62] };
    assert_eq!(revision_from_output(Some(out)).unwrap(), "a\u{fffd}b");
}

#[test]
fn unsuccessful_exit_fails() {
    let out = CommandOutput { success: false, stdout: b"abc123\n".to_vec() };
    assert_eq!(revision_from_output(Some(out)).unwrap_err(), ConfigError::RevisionLookupError);
}

#[test]
fn missing_command_fails() {
    assert_eq!(revision_from_output(None).unwrap_err(), ConfigError::RevisionLookupError);
}

#[test]
fn trim_ascii_removes_both_ends() {
    assert_eq!(trim_ascii(b" \t x y \n "), b"x y".to_vec());
    assert_eq!(trim_ascii(b""), Vec::<u8>::new());
    assert_eq!(trim_ascii(b" \n\t "), Vec::<u8>::new());
    assert_eq!(trim_ascii(b"xyz"), b"xyz".to_vec());
}

#[test]
fn second_word_picks_the_token() {
    assert_eq!(second_word(b"Bearer tok-123"), Some(b"tok-123".to_vec()));
    assert_eq!(second_word(b"  Bearer   tok  extra"), Some(b"tok".to_vec()));
    assert_eq!(second_word(b"Bearer"), None);
    assert_eq!(second_word(b"Bearer   "), None);
    assert_eq!(second_word(b""), None);
}
