use mdshell::launch::{
    get_cli_file_path, has_suffix, is_markdown_argument, starts_with_hyphen, startup_notice,
    OpenFileNotice,
};

fn args(given: &[&str]) -> Vec<String> {
    given.iter().map(|arg| String::from(*arg)).collect()
}

#[test]
fn no_file_without_a_second_argument() {
    assert_eq!(get_cli_file_path(&args(&[])), None);
    assert_eq!(get_cli_file_path(&args(&["app"])), None);
    assert_eq!(get_cli_file_path(&args(&["notes.md"])), None);
}

#[test]
fn the_second_argument_is_returned_as_given() {
    assert_eq!(get_cli_file_path(&args(&["app", "notes.md"])), Some(String::from("notes.md")));
    assert_eq!(
        get_cli_file_path(&args(&["app", "C:\\My Docs\\read me.markdown"])),
        Some(String::from("C:\\My Docs\\read me.markdown"))
    );
    assert_eq!(
        get_cli_file_path(&args(&["app", "/home/\u{436}/\u{7b14}\u{8bb0}.md"])),
        Some(String::from("/home/\u{436}/\u{7b14}\u{8bb0}.md"))
    );
}

#[test]
fn a_flag_is_no_file() {
    assert_eq!(get_cli_file_path(&args(&["app", "--flag"])), None);
    assert_eq!(get_cli_file_path(&args(&["app", "-notes.md"])), None);
    assert_eq!(get_cli_file_path(&args(&["app", "--open=a.markdown"])), None);
    assert_eq!(get_cli_file_path(&args(&["app", "-"])), None);
}

#[test]
fn another_extension_is_no_file() {
    assert_eq!(get_cli_file_path(&args(&["app", "notes.txt"])), None);
    assert_eq!(get_cli_file_path(&args(&["app", "notes.md.bak"])), None);
    assert_eq!(get_cli_file_path(&args(&["app", "notes.mdx"])), None);
    assert_eq!(get_cli_file_path(&args(&["app", "notes.MD"])), None);
    assert_eq!(get_cli_file_path(&args(&["app", "notes.Markdown"])), None);
    assert_eq!(get_cli_file_path(&args(&["app", "notesmd"])), None);
    assert_eq!(get_cli_file_path(&args(&["app", "md"])), None);
    assert_eq!(get_cli_file_path(&args(&["app", ""])), None);
}

#[test]
fn the_ending_alone_is_a_file() {
    assert_eq!(get_cli_file_path(&args(&["app", ".md"])), Some(String::from(".md")));
    assert_eq!(get_cli_file_path(&args(&["app", ".markdown"])), Some(String::from(".markdown")));
}

#[test]
fn only_the_second_argument_counts() {
    assert_eq!(get_cli_file_path(&args(&["app", "a.md", "b.md"])), Some(String::from("a.md")));
    assert_eq!(get_cli_file_path(&args(&["app", "a.txt", "b.md"])), None);
    assert_eq!(get_cli_file_path(&args(&["app", "--verbose", "b.md"])), None);
    assert_eq!(get_cli_file_path(&args(&["-x", "a.md"])), Some(String::from("a.md")));
}

#[test]
fn startup_on_a_markdown_file_tells_the_main_window_once() {
    assert_eq!(
        startup_notice(&args(&["app", "notes.md"])),
        Some(OpenFileNotice {
            window: String::from("main"),
            event: String::from("open-file"),
            path: String::from("notes.md"),
            delay_ms: 500,
        })
    );
}

#[test]
fn startup_on_anything_else_tells_nothing() {
    assert_eq!(startup_notice(&args(&["app", "--flag"])), None);
    assert_eq!(startup_notice(&args(&["app"])), None);
    assert_eq!(startup_notice(&args(&[])), None);
    assert_eq!(startup_notice(&args(&["app", "notes.txt", "notes.md"])), None);
}

#[test]
fn startup_notice_agrees_with_the_file_path() {
    let cases = [
        args(&["app", "a.markdown"]),
        args(&["app", "-a.markdown"]),
        args(&["app", "a.mark"]),
        args(&["app"]),
    ];
    for given in cases.iter() {
        let path = get_cli_file_path(given);
        let notice = startup_notice(given);
        assert_eq!(notice.map(|sent| sent.path), path);
    }
}

#[test]
fn a_hyphen_in_front_makes_a_flag() {
    assert!(starts_with_hyphen("-"));
    assert!(starts_with_hyphen("-v"));
    assert!(starts_with_hyphen("--"));
    assert!(!starts_with_hyphen(""));
    assert!(!starts_with_hyphen("a-b"));
    assert!(!starts_with_hyphen(" -v"));
    assert!(!starts_with_hyphen("\u{2013}v"));
}

#[test]
fn has_suffix_compares_the_last_characters() {
    assert!(has_suffix("notes.md", ".md"));
    assert!(has_suffix("notes.md", ""));
    assert!(has_suffix("", ""));
    assert!(has_suffix(".md", ".md"));
    assert!(!has_suffix("md", ".md"));
    assert!(!has_suffix("", ".md"));
    assert!(!has_suffix("notes.md ", ".md"));
    assert!(!has_suffix("notes.mD", ".md"));
    assert!(has_suffix("\u{e9}t\u{e9}.md", "t\u{e9}.md"));
    assert!(!has_suffix("\u{e9}te.md", "t\u{e9}.md"));
}

#[test]
fn a_markdown_argument_is_no_flag_and_ends_like_markdown() {
    assert!(is_markdown_argument("a.md"));
    assert!(is_markdown_argument("a.markdown"));
    assert!(is_markdown_argument("dir-with-hyphen/a.md"));
    assert!(!is_markdown_argument("-a.md"));
    assert!(!is_markdown_argument("a.markdow"));
    assert!(!is_markdown_argument("a.md/"));
}
