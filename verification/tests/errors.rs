use ftp_commands::Command;
use ftp_commands::Field;
use ftp_commands::ParseError;

#[test]
fn connect_without_addr_fails() {
    assert_eq!(
        Command::from_str("CONNECT"),
        Err(ParseError::MissingField(Field::Addr))
    );
}

#[test]
fn connect_secure_without_addr_fails() {
    assert_eq!(
        Command::from_str("CONNECT+S"),
        Err(ParseError::MissingField(Field::Addr))
    );
}

#[test]
fn cwd_without_dir_fails() {
    assert_eq!(
        Command::from_str("CWD"),
        Err(ParseError::MissingField(Field::Dir))
    );
}

#[test]
fn mdtm_without_file_fails() {
    assert_eq!(
        Command::from_str("MDTM"),
        Err(ParseError::MissingField(Field::File))
    );
}

#[test]
fn mkdir_without_file_fails() {
    assert_eq!(
        Command::from_str("MKDIR"),
        Err(ParseError::MissingField(Field::File))
    );
}

#[test]
fn put_without_source_fails() {
    assert_eq!(
        Command::from_str("PUT"),
        Err(ParseError::MissingField(Field::Source))
    );
}

#[test]
fn put_without_dest_fails() {
    assert_eq!(
        Command::from_str("PUT a.txt"),
        Err(ParseError::MissingField(Field::Dest))
    );
}

#[test]
fn rename_without_src_fails() {
    assert_eq!(
        Command::from_str("RENAME"),
        Err(ParseError::MissingField(Field::Src))
    );
}

#[test]
fn rename_without_dest_fails() {
    assert_eq!(
        Command::from_str("RENAME onlyone"),
        Err(ParseError::MissingField(Field::Dest))
    );
}

#[test]
fn retr_without_file_fails() {
    assert_eq!(
        Command::from_str("RETR"),
        Err(ParseError::MissingField(Field::File))
    );
}

#[test]
fn retr_without_dest_fails() {
    assert_eq!(
        Command::from_str("RETR remote.bin"),
        Err(ParseError::MissingField(Field::Dest))
    );
}

#[test]
fn rm_without_file_fails() {
    assert_eq!(
        Command::from_str("RM"),
        Err(ParseError::MissingField(Field::File))
    );
}

#[test]
fn rmdir_without_file_fails() {
    assert_eq!(
        Command::from_str("RMDIR"),
        Err(ParseError::MissingField(Field::File))
    );
}

#[test]
fn size_without_file_fails() {
    assert_eq!(
        Command::from_str("SIZE"),
        Err(ParseError::MissingField(Field::File))
    );
}

#[test]
fn empty_line_is_unknown() {
    assert_eq!(Command::from_str(""), Err(ParseError::UnknownCommand));
}

#[test]
fn blank_line_is_unknown() {
    assert_eq!(
        Command::from_str(" \t \r\n "),
        Err(ParseError::UnknownCommand)
    );
}

#[test]
fn unrecognized_command_is_unknown() {
    assert_eq!(
        Command::from_str("FROBNICATE"),
        Err(ParseError::UnknownCommand)
    );
}

#[test]
fn unrecognized_command_with_operands_is_unknown() {
    assert_eq!(
        Command::from_str("FROBNICATE a b c"),
        Err(ParseError::UnknownCommand)
    );
}

#[test]
fn command_name_prefix_is_unknown() {
    assert_eq!(Command::from_str("CONN host:21"), Err(ParseError::UnknownCommand));
}

#[test]
fn case_folding_is_ascii_only() {
    // U+017F LATIN SMALL LETTER LONG S upper-cases to 'S' in Unicode,
    // but the grammar folds ASCII letters only.
    assert_eq!(
        Command::from_str("\u{17f}ize big.iso"),
        Err(ParseError::UnknownCommand)
    );
}

#[test]
fn non_ascii_whitespace_does_not_separate() {
    // U+00A0 NO-BREAK SPACE is not a separator, so the first token is
    // the whole line and matches no command name.
    assert_eq!(
        Command::from_str("CWD\u{a0}/tmp"),
        Err(ParseError::UnknownCommand)
    );
}

#[test]
fn unknown_command_message() {
    let e = Command::from_str("FROBNICATE").unwrap_err();
    assert_eq!(e.message(), "Unknown command".to_string());
}

#[test]
fn missing_field_messages() {
    let e = Command::from_str("RENAME onlyone").unwrap_err();
    assert_eq!(e.message(), "Missing `dest` field".to_string());
    let e = Command::from_str("PUT").unwrap_err();
    assert_eq!(e.message(), "Missing `source` field".to_string());
    let e = Command::from_str("CONNECT").unwrap_err();
    assert_eq!(e.message(), "Missing `addr` field".to_string());
}

#[test]
fn field_names() {
    assert_eq!(Field::Addr.name(), "addr");
    assert_eq!(Field::Dir.name(), "dir");
    assert_eq!(Field::File.name(), "file");
    assert_eq!(Field::Source.name(), "source");
    assert_eq!(Field::Src.name(), "src");
    assert_eq!(Field::Dest.name(), "dest");
}
