use note::{parse_args, ArgError, Command};

fn args(words: &[&str]) -> Vec<String> {
    words.iter().map(|w| w.to_string()).collect()
}

#[test]
fn no_command_shows_help() {
    assert_eq!(parse_args(&args(&["note"])), Ok(Command::Help));
    assert_eq!(parse_args(&args(&["note", "-h"])), Ok(Command::Help));
}

#[test]
fn version_flags() {
    assert_eq!(parse_args(&args(&["note", "--version"])), Ok(Command::Version));
    assert_eq!(parse_args(&args(&["note", "version"])), Ok(Command::Version));
}

#[test]
fn create_needs_a_name() {
    assert_eq!(parse_args(&args(&["note", "create"])), Err(ArgError::Missing));
    assert_eq!(parse_args(&args(&["note", "create", "t"])), Ok(Command::Create("t".to_string())));
}

#[test]
fn update_and_add_need_two_arguments() {
    assert_eq!(parse_args(&args(&["note", "update", "a"])), Err(ArgError::Missing));
    assert_eq!(parse_args(&args(&["note", "add", "a"])), Err(ArgError::Missing));
    assert_eq!(
        parse_args(&args(&["note", "add", "a", "hi"])),
        Ok(Command::Add("a".to_string(), "hi".to_string()))
    );
    assert_eq!(
        parse_args(&args(&["note", "update", "a", "b"])),
        Ok(Command::Update("a".to_string(), "b".to_string()))
    );
}

#[test]
fn optional_names() {
    assert_eq!(parse_args(&args(&["note", "read"])), Ok(Command::Read(None)));
    assert_eq!(parse_args(&args(&["note", "edit", "x"])), Ok(Command::Edit(Some("x".to_string()))));
    assert_eq!(parse_args(&args(&["note", "delete"])), Ok(Command::Delete(None)));
}

#[test]
fn set_editor_forms() {
    assert_eq!(
        parse_args(&args(&["note", "set", "editor", "nano"])),
        Ok(Command::SetEditor("nano".to_string()))
    );
    assert_eq!(parse_args(&args(&["note", "set", "editor"])), Ok(Command::SetEditorUsage));
    assert_eq!(parse_args(&args(&["note", "set", "pager", "less"])), Ok(Command::SetEditorUsage));
}

#[test]
fn other_words() {
    assert_eq!(parse_args(&args(&["note", "ls"])), Ok(Command::List));
    assert_eq!(parse_args(&args(&["note", "editor"])), Ok(Command::ShowEditor));
    assert_eq!(parse_args(&args(&["note", "frobnicate"])), Ok(Command::Unknown));
}
