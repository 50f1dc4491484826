use ftp_commands::Command;

#[test]
fn cdup_parses() {
    assert_eq!(Command::from_str("CDUP"), Ok(Command::Cdup));
}

#[test]
fn connect_plain_parses() {
    assert_eq!(
        Command::from_str("CONNECT host:21"),
        Ok(Command::Connect("host:21".to_string(), false))
    );
}

#[test]
fn connect_secure_parses() {
    assert_eq!(
        Command::from_str("CONNECT+S host:21"),
        Ok(Command::Connect("host:21".to_string(), true))
    );
}

#[test]
fn cwd_parses() {
    assert_eq!(
        Command::from_str("CWD /tmp"),
        Ok(Command::Cwd("/tmp".to_string()))
    );
}

#[test]
fn help_parses() {
    assert_eq!(Command::from_str("HELP"), Ok(Command::Help));
}

#[test]
fn list_without_operand_parses() {
    assert_eq!(Command::from_str("LIST"), Ok(Command::List(None)));
}

#[test]
fn list_with_operand_parses() {
    assert_eq!(
        Command::from_str("LIST /home"),
        Ok(Command::List(Some("/home".to_string())))
    );
}

#[test]
fn login_parses() {
    assert_eq!(Command::from_str("LOGIN"), Ok(Command::Login));
}

#[test]
fn mdtm_parses() {
    assert_eq!(
        Command::from_str("MDTM notes.txt"),
        Ok(Command::Mdtm("notes.txt".to_string()))
    );
}

#[test]
fn mkdir_parses() {
    assert_eq!(
        Command::from_str("MKDIR archive"),
        Ok(Command::Mkdir("archive".to_string()))
    );
}

#[test]
fn noop_parses() {
    assert_eq!(Command::from_str("NOOP"), Ok(Command::Noop));
}

#[test]
fn put_parses() {
    assert_eq!(
        Command::from_str("PUT a.txt b.txt"),
        Ok(Command::Put("a.txt".to_string(), "b.txt".to_string()))
    );
}

#[test]
fn pwd_parses() {
    assert_eq!(Command::from_str("PWD"), Ok(Command::Pwd));
}

#[test]
fn quit_parses() {
    assert_eq!(Command::from_str("QUIT"), Ok(Command::Quit));
}

#[test]
fn rename_parses() {
    assert_eq!(
        Command::from_str("RENAME old.txt new.txt"),
        Ok(Command::Rename("old.txt".to_string(), "new.txt".to_string()))
    );
}

#[test]
fn retr_parses() {
    assert_eq!(
        Command::from_str("RETR remote.bin local.bin"),
        Ok(Command::Retr("remote.bin".to_string(), "local.bin".to_string()))
    );
}

#[test]
fn rm_parses() {
    assert_eq!(
        Command::from_str("RM junk.txt"),
        Ok(Command::Rm("junk.txt".to_string()))
    );
}

#[test]
fn rmdir_parses() {
    assert_eq!(
        Command::from_str("RMDIR attic"),
        Ok(Command::Rmdir("attic".to_string()))
    );
}

#[test]
fn size_parses() {
    assert_eq!(
        Command::from_str("SIZE big.iso"),
        Ok(Command::Size("big.iso".to_string()))
    );
}

#[test]
fn lower_case_name_matches() {
    assert_eq!(Command::from_str("cwd /tmp"), Command::from_str("CWD /tmp"));
}

#[test]
fn mixed_case_name_matches() {
    assert_eq!(Command::from_str("CwD /tmp"), Command::from_str("CWD /tmp"));
    assert_eq!(
        Command::from_str("connect+s host:21"),
        Ok(Command::Connect("host:21".to_string(), true))
    );
}

#[test]
fn operand_case_is_kept() {
    assert_eq!(
        Command::from_str("cwd /TmP"),
        Ok(Command::Cwd("/TmP".to_string()))
    );
}

#[test]
fn extra_tokens_after_pwd_are_ignored() {
    assert_eq!(Command::from_str("PWD extra tokens"), Ok(Command::Pwd));
}

#[test]
fn extra_tokens_after_cwd_are_ignored() {
    assert_eq!(
        Command::from_str("CWD /tmp more stuff"),
        Ok(Command::Cwd("/tmp".to_string()))
    );
}

#[test]
fn extra_tokens_after_list_operand_are_ignored() {
    assert_eq!(
        Command::from_str("LIST a b"),
        Ok(Command::List(Some("a".to_string())))
    );
}

#[test]
fn parsing_twice_agrees() {
    let line = "RENAME old.txt new.txt";
    assert_eq!(Command::from_str(line), Command::from_str(line));
    let bad = "RENAME onlyone";
    assert_eq!(Command::from_str(bad), Command::from_str(bad));
}

#[test]
fn any_ascii_whitespace_separates() {
    assert_eq!(
        Command::from_str("\tCWD\u{c}/tmp\r"),
        Ok(Command::Cwd("/tmp".to_string()))
    );
    assert_eq!(
        Command::from_str("  PUT \t a.txt \n b.txt  "),
        Ok(Command::Put("a.txt".to_string(), "b.txt".to_string()))
    );
}
