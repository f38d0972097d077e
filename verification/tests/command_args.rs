use anchoredit::commands::{build_command, read};

#[test]
fn command_starts_with_subcommand() {
    assert_eq!(build_command("read"), vec!["read".to_string()]);
}

#[test]
fn read_args_inline_anchor() {
    assert_eq!(
        read::run("src/main.rs", Some("fn main"), None),
        vec!["read", "--file", "src/main.rs", "--anchor", "fn main"]
    );
}

#[test]
fn read_args_anchor_file() {
    assert_eq!(
        read::run("a.txt", None, Some("anchor.txt")),
        vec!["read", "--file", "a.txt", "--anchor-file", "anchor.txt"]
    );
}

#[test]
fn read_args_both_and_none() {
    assert_eq!(
        read::run("a.txt", Some("x"), Some("y")),
        vec!["read", "--file", "a.txt", "--anchor", "x", "--anchor-file", "y"]
    );
    assert_eq!(read::run("a.txt", None, None), vec!["read", "--file", "a.txt"]);
}

#[test]
fn write_args_full() {
    assert_eq!(
        anchoredit::commands::write::run("a.txt", Some("old"), None, "0123456789abcdef", Some("new"), None),
        vec![
            "write",
            "--file",
            "a.txt",
            "--anchor",
            "old",
            "--expected-hash",
            "0123456789abcdef",
            "--replacement",
            "new"
        ]
    );
}

#[test]
fn write_args_from_files() {
    assert_eq!(
        anchoredit::commands::write::run("a.txt", None, Some("anchor.txt"), "ffff", None, Some("rep.txt")),
        vec![
            "write",
            "--file",
            "a.txt",
            "--anchor-file",
            "anchor.txt",
            "--expected-hash",
            "ffff",
            "--replacement-file",
            "rep.txt"
        ]
    );
}
