use graf::shell::{open_command, shell_escape};

#[test]
fn plain_paths_are_quoted() {
    assert_eq!(shell_escape("/home/me/notes/a b.md"), "'/home/me/notes/a b.md'");
    assert_eq!(shell_escape(""), "''");
}

#[test]
fn quotes_inside_are_escaped() {
    assert_eq!(shell_escape("it's"), "'it'\\''s'");
    assert_eq!(shell_escape("''"), "''\\'''\\'''");
    assert_eq!(shell_escape("$(rm -rf x); `y`"), "'$(rm -rf x); `y`'");
}

#[test]
fn editor_commands() {
    assert_eq!(open_command(None, "/n/a.md"), "vim '/n/a.md'");
    assert_eq!(open_command(Some("nvim"), "/n/it's.md"), "nvim '/n/it'\\''s.md'");
}
