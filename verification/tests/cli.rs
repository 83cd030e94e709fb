use checksec::cli::{parse_args, Command, USAGE};

fn args(words: &[&str]) -> Vec<String> {
    words.iter().map(|w| w.to_string()).collect()
}

#[test]
fn file_flag_asks_for_one_file() {
    match parse_args(&args(&["checksec", "-f", "/bin/ls"])) {
        Command::File { path, json } => {
            assert_eq!(path, "/bin/ls");
            assert!(!json);
        }
        other => panic!("{:?}", other),
    }
}

#[test]
fn directory_flag_asks_for_a_tree() {
    match parse_args(&args(&["checksec", "-d", "/usr/bin", "--json"])) {
        Command::Directory { path, json } => {
            assert_eq!(path, "/usr/bin");
            assert!(json);
        }
        other => panic!("{:?}", other),
    }
}

#[test]
fn json_flag_asks_for_a_document() {
    match parse_args(&args(&["checksec", "-f", "a.out", "--json"])) {
        Command::File { path, json } => {
            assert_eq!(path, "a.out");
            assert!(json);
        }
        other => panic!("{:?}", other),
    }
}

#[test]
fn other_command_lines_ask_for_the_usage() {
    for words in [
        &["checksec"][..],
        &["checksec", "-f"][..],
        &["checksec", "-x", "a.out"][..],
        &["checksec", "a.out", "-f"][..],
        &["checksec", "-f", "a.out", "--yaml"][..],
        &["checksec", "-f", "a.out", "--json", "more"][..],
        &["checksec", "--json", "-f", "a.out"][..],
    ] {
        assert!(matches!(parse_args(&args(words)), Command::Usage), "{:?}", words);
    }
    assert!(matches!(parse_args(&Vec::new()), Command::Usage));
}

#[test]
fn usage_line_names_both_modes() {
    assert_eq!(USAGE, "Usage: checksec <-f|-d> <file|directory> [--json]");
}
