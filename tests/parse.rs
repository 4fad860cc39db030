use file_mode::Mode;
use std::path::PathBuf;
use systemd_tmpfile::{parse_line, Entry, LineType, Modifier};

#[test]
fn it_works() {
    let data = "d         /run/screens        1777      root      screen    10d       -";
    let parsed = parse_line(data);
    assert_eq!(*parsed.line_type(), LineType::DirectoryCreateAndClean);
    assert_eq!(PathBuf::from(parsed.path()), PathBuf::from("/run/screens"));
    assert_eq!(parsed.mode(), Some(Mode::from(0o1777)));
    assert_eq!(*parsed.user(), Some("root".to_owned()));
    assert_eq!(*parsed.group(), Some("screen".to_owned()));
    assert_eq!(*parsed.age(), Some("10d".to_owned()));
    assert_eq!(*parsed.argument(), None);

    let data = "d         '/run/uscreens'     0755      root      screen    10d12h    -";
    let parsed = parse_line(data);
    assert_eq!(*parsed.line_type(), LineType::DirectoryCreateAndClean);
    assert_eq!(PathBuf::from(parsed.path()), PathBuf::from("/run/uscreens"));
    assert_eq!(parsed.mode(), Some(Mode::from(0o0755)));
    assert_eq!(*parsed.user(), Some("root".to_owned()));
    assert_eq!(*parsed.group(), Some("screen".to_owned()));
    assert_eq!(*parsed.age(), Some("10d12h".to_owned()));
    assert_eq!(*parsed.argument(), None);

    let data = "d         '/a z/some test'    0755      root      screen    10d12h    -";
    let parsed = parse_line(data);
    assert_eq!(*parsed.line_type(), LineType::DirectoryCreateAndClean);
    assert_eq!(PathBuf::from(parsed.path()), PathBuf::from("/a z/some test"));
    assert_eq!(parsed.mode(), Some(Mode::from(0o0755)));
    assert_eq!(*parsed.user(), Some("root".to_owned()));
    assert_eq!(*parsed.group(), Some("screen".to_owned()));
    assert_eq!(*parsed.age(), Some("10d12h".to_owned()));
    assert_eq!(*parsed.argument(), None);

    let data =
        "t /run/cups - - - - security.SMACK64=printing user.attr-with-spaces=\"foo bar\"";
    let parsed = parse_line(data);
    assert_eq!(*parsed.line_type(), LineType::Unsupported('t'));
    assert_eq!(PathBuf::from(parsed.path()), PathBuf::from("/run/cups"));
    assert_eq!(parsed.mode(), None);
    assert_eq!(*parsed.user(), None);
    assert_eq!(*parsed.group(), None);
    assert_eq!(*parsed.age(), None);
    assert_eq!(
        parsed.argument().clone().unwrap(),
        "security.SMACK64=printing user.attr-with-spaces=\"foo bar\""
    );
    let data = "r! /var/cache/dnf/*/*/download_lock.pid";
    let parsed = parse_line(data);
    assert_eq!(*parsed.line_type(), LineType::Unsupported('r'));
    assert_eq!(*parsed.modifiers(), vec![Modifier::OnlySafeDuringBoot]);
    assert_eq!(
        PathBuf::from(parsed.path()),
        PathBuf::from("/var/cache/dnf/*/*/download_lock.pid")
    );
    assert_eq!(parsed.mode(), None);
    assert_eq!(*parsed.user(), None);
    assert_eq!(*parsed.group(), None);
    assert_eq!(*parsed.age(), None);
    assert_eq!(*parsed.argument(), None);
}

fn assert_same(a: &Entry, b: &Entry) {
    assert_eq!(a.line_type(), b.line_type());
    assert_eq!(a.modifiers(), b.modifiers());
    assert_eq!(a.path(), b.path());
    assert_eq!(a.mode_bits(), b.mode_bits());
    assert_eq!(a.user(), b.user());
    assert_eq!(a.group(), b.group());
    assert_eq!(a.age(), b.age());
    assert_eq!(a.argument(), b.argument());
}

#[test]
fn same_line_parses_the_same() {
    let line = "D! '/a b' 0700 root root 1d some arg";
    assert_same(&parse_line(line), &parse_line(line));
    assert_same(&Entry::from_str(line), &parse_line(line));
}

#[test]
fn path_alone_is_flushed() {
    let parsed = parse_line("d    /run/screens");
    assert_eq!(*parsed.line_type(), LineType::DirectoryCreateAndClean);
    assert!(parsed.modifiers().is_empty());
    assert_eq!(parsed.path(), "/run/screens");
    assert_eq!(parsed.mode_bits(), None);
    assert_eq!(*parsed.user(), None);
    assert_eq!(*parsed.group(), None);
    assert_eq!(*parsed.age(), None);
    assert_eq!(*parsed.argument(), None);
}

#[test]
fn quoted_path_with_space() {
    let parsed = parse_line("d    '/a z/some test'    0755      root      screen    10d12h    -");
    assert_eq!(parsed.path(), "/a z/some test");
    assert_eq!(parsed.mode_bits(), Some(0o755));
    assert_eq!(*parsed.user(), Some("root".to_owned()));
    assert_eq!(*parsed.group(), Some("screen".to_owned()));
    assert_eq!(*parsed.age(), Some("10d12h".to_owned()));
    assert_eq!(*parsed.argument(), None);
}

#[test]
fn placeholders_are_skipped() {
    let parsed = parse_line("t /run/cups - - - - -");
    assert_eq!(*parsed.line_type(), LineType::Unsupported('t'));
    assert_eq!(parsed.path(), "/run/cups");
    assert_eq!(parsed.mode_bits(), None);
    assert_eq!(parsed.mode(), None);
    assert_eq!(*parsed.user(), None);
    assert_eq!(*parsed.group(), None);
    assert_eq!(*parsed.age(), None);
    assert_eq!(*parsed.argument(), None);
}

#[test]
fn invalid_octal_mode_is_dropped() {
    let parsed = parse_line("d /run/x 999 root wheel 1d -");
    assert_eq!(parsed.path(), "/run/x");
    assert_eq!(parsed.mode_bits(), None);
    assert_eq!(parsed.mode(), None);
    assert_eq!(*parsed.user(), Some("root".to_owned()));
    assert_eq!(*parsed.group(), Some("wheel".to_owned()));
    assert_eq!(*parsed.age(), Some("1d".to_owned()));
}

#[test]
fn mode_accepts_plus_sign_and_rejects_overflow() {
    assert_eq!(parse_line("d /x +750 a b c").mode_bits(), Some(0o750));
    assert_eq!(parse_line("d /x 077777777777 a b c").mode_bits(), None);
    assert_eq!(parse_line("d /x 37777777777 a b c").mode_bits(), Some(u32::MAX));
    assert_eq!(parse_line("d /x + a b c").mode_bits(), None);
}

#[test]
fn mode_converts_to_file_mode() {
    let parsed = parse_line("d /x 2755 a b c");
    assert_eq!(parsed.mode_bits(), Some(0o2755));
    assert_eq!(parsed.mode().unwrap().mode(), 0o2755);
}

#[test]
fn every_modifier_is_recognised() {
    let parsed = parse_line("D!-=^x /p");
    assert_eq!(*parsed.line_type(), LineType::DirectoryCreateAndRemove);
    assert_eq!(
        *parsed.modifiers(),
        vec![
            Modifier::OnlySafeDuringBoot,
            Modifier::IgnoreCreateError,
            Modifier::RemoveExisting,
            Modifier::Base64EncodedArgument,
            Modifier::Unsupported('x'),
        ]
    );
    assert_eq!(parsed.path(), "/p");
}

#[test]
fn duplicate_modifiers_are_kept() {
    let parsed = parse_line("d!! /p");
    assert_eq!(
        *parsed.modifiers(),
        vec![Modifier::OnlySafeDuringBoot, Modifier::OnlySafeDuringBoot]
    );
}

#[test]
fn empty_line_gives_unsupported_kind_and_empty_path() {
    let parsed = parse_line("");
    assert_eq!(*parsed.line_type(), LineType::Unsupported('-'));
    assert!(parsed.modifiers().is_empty());
    assert_eq!(parsed.path(), "");
    assert_eq!(*parsed.argument(), None);
}

#[test]
fn kind_alone_gives_empty_path() {
    let parsed = parse_line("d");
    assert_eq!(*parsed.line_type(), LineType::DirectoryCreateAndClean);
    assert_eq!(parsed.path(), "");
    let parsed = parse_line("d!");
    assert_eq!(*parsed.modifiers(), vec![Modifier::OnlySafeDuringBoot]);
    assert_eq!(parsed.path(), "");
}

#[test]
fn unterminated_quote_runs_to_end_of_line() {
    let parsed = parse_line("d '/a b c");
    assert_eq!(parsed.path(), "/a b c");
    assert_eq!(parsed.mode_bits(), None);
}

#[test]
fn field_cut_off_by_end_of_line_is_absent() {
    let parsed = parse_line("d /p 0755");
    assert_eq!(parsed.path(), "/p");
    assert_eq!(parsed.mode_bits(), None);
    let parsed = parse_line("d /p 0755 root");
    assert_eq!(parsed.mode_bits(), Some(0o755));
    assert_eq!(*parsed.user(), None);
}

#[test]
fn tabs_separate_fields() {
    let parsed = parse_line("d\t/p\t0700\troot\twheel\t5m\targ here");
    assert_eq!(parsed.path(), "/p");
    assert_eq!(parsed.mode_bits(), Some(0o700));
    assert_eq!(*parsed.user(), Some("root".to_owned()));
    assert_eq!(*parsed.group(), Some("wheel".to_owned()));
    assert_eq!(*parsed.age(), Some("5m".to_owned()));
    assert_eq!(*parsed.argument(), Some("arg here".to_owned()));
}

#[test]
fn argument_starting_with_placeholder_is_absent() {
    let parsed = parse_line("d /p - - - - -foo bar");
    assert_eq!(*parsed.argument(), None);
    let parsed = parse_line("d /p - - - 1d    x  y ");
    assert_eq!(*parsed.age(), Some("1d".to_owned()));
    assert_eq!(*parsed.argument(), Some("x  y ".to_owned()));
}

#[test]
fn multibyte_characters_are_kept_whole() {
    let parsed = parse_line("d '/tmp/ü ä' 0755 jürgen grüppe 1d ärg");
    assert_eq!(parsed.path(), "/tmp/ü ä");
    assert_eq!(*parsed.user(), Some("jürgen".to_owned()));
    assert_eq!(*parsed.group(), Some("grüppe".to_owned()));
    assert_eq!(*parsed.argument(), Some("ärg".to_owned()));
}

#[test]
fn quote_inside_unquoted_path_starts_quoted_path() {
    let parsed = parse_line("d /a'b c' 0755 x y z");
    assert_eq!(parsed.path(), "b c");
    assert_eq!(parsed.mode_bits(), Some(0o755));
    assert_eq!(*parsed.user(), Some("x".to_owned()));
}

#[test]
fn carriage_return_ends_modifiers() {
    let parsed = parse_line("d\r/p");
    assert!(parsed.modifiers().is_empty());
    assert_eq!(parsed.path(), "/p");
}

#[test]
fn any_white_space_separates_fields() {
    let parsed = parse_line("d /p - a\rb x y");
    assert_eq!(*parsed.user(), Some("a".to_owned()));
    assert_eq!(*parsed.group(), Some("b".to_owned()));
    assert_eq!(*parsed.age(), Some("x".to_owned()));
    assert_eq!(*parsed.argument(), Some("y".to_owned()));
    let parsed = parse_line("d\u{a0}/p\u{2003}0755\u{3000}root\u{85}wheel\u{b}1d\u{c}arg");
    assert_eq!(parsed.path(), "/p");
    assert_eq!(parsed.mode_bits(), Some(0o755));
    assert_eq!(*parsed.user(), Some("root".to_owned()));
    assert_eq!(*parsed.group(), Some("wheel".to_owned()));
    assert_eq!(*parsed.age(), Some("1d".to_owned()));
    assert_eq!(*parsed.argument(), Some("arg".to_owned()));
}

#[test]
fn argument_does_not_start_with_white_space() {
    let parsed = parse_line("d /p - - - - \rfoo");
    assert_eq!(*parsed.argument(), Some("foo".to_owned()));
}

#[test]
fn mode_is_built_from_the_parsed_bits() {
    assert_eq!(parse_line("d /x 0700 a b c").mode(), Some(Mode::from(0o700)));
    assert_ne!(parse_line("d /x 0700 a b c").mode(), Some(Mode::from(0)));
}
