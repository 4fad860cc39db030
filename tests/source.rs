use systemd_tmpfile::{entry_from_config_line, entry_from_trimmed, parse_line, LineType};

#[test]
fn blank_and_comment_lines_give_no_entry() {
    assert!(entry_from_config_line("").is_none());
    assert!(entry_from_config_line("   \t  ").is_none());
    assert!(entry_from_config_line("# d /run/x").is_none());
    assert!(entry_from_config_line("   # indented comment").is_none());
    assert!(entry_from_trimmed("").is_none());
    assert!(entry_from_trimmed("#").is_none());
}

#[test]
fn config_line_is_trimmed_before_parsing() {
    let e = entry_from_config_line("   d /run/x 0700 root root -   ").unwrap();
    assert_eq!(*e.line_type(), LineType::DirectoryCreateAndClean);
    assert_eq!(e.path(), "/run/x");
    assert_eq!(e.mode_bits(), Some(0o700));
    assert_eq!(*e.user(), Some("root".to_owned()));
    assert_eq!(*e.group(), Some("root".to_owned()));
    assert_eq!(*e.age(), None);
    assert_eq!(*e.argument(), None);
}

#[test]
fn untrimmed_line_parses_differently() {
    // Without trimming, the leading blank would be taken as the kind.
    assert_eq!(*parse_line(" d /run/x").line_type(), LineType::Unsupported(' '));
    let e = entry_from_config_line(" d /run/x").unwrap();
    assert_eq!(*e.line_type(), LineType::DirectoryCreateAndClean);
    assert_eq!(e.path(), "/run/x");
}

#[test]
fn trimmed_line_is_parsed() {
    let e = entry_from_trimmed("D /tmp/y").unwrap();
    assert_eq!(*e.line_type(), LineType::DirectoryCreateAndRemove);
    assert_eq!(e.path(), "/tmp/y");
}

#[test]
fn only_create_and_clean_creates_directory() {
    assert!(parse_line("d /a").creates_directory());
    assert!(!parse_line("D /a").creates_directory());
    assert!(!parse_line("f /a").creates_directory());
}

#[test]
fn surrounding_white_space_is_ignored() {
    let e = entry_from_config_line("\u{3000}\r d /run/x 0700 u g 1d\u{a0}\n").unwrap();
    assert_eq!(e.path(), "/run/x");
    assert_eq!(*e.age(), None);
    let e = entry_from_config_line("\u{3000}\r d /run/x 0700 u g 1d arg \n").unwrap();
    assert_eq!(*e.argument(), Some("arg".to_owned()));
    assert!(entry_from_config_line("\r\n\u{2028}\t").is_none());
}
