use note::{chosen_name, delete_interactive, edit_interactive, read_interactive, select_memo, Target};

#[test]
fn selection_is_trimmed() {
    assert_eq!(select_memo(Some(b"  todo\n".to_vec())), Some("todo".to_string()));
}

#[test]
fn blank_selection_is_none() {
    assert_eq!(select_memo(Some(b" \n".to_vec())), None);
    assert_eq!(select_memo(None), None);
}

#[test]
fn invalid_bytes_become_replacement_characters() {
    assert_eq!(select_memo(Some(vec![0xff, b'a'])), Some("\u{FFFD}a".to_string()));
}

#[test]
fn chosen_name_of_empty_is_none() {
    assert_eq!(chosen_name(""), None);
    assert_eq!(chosen_name("x"), Some("x".to_string()));
}

#[test]
fn named_argument_is_used_directly() {
    let n = "todo".to_string();
    assert_eq!(edit_interactive(Some(&n)), Target::Named(n.clone()));
    assert_eq!(read_interactive(Some(&n)), Target::Named(n.clone()));
    assert_eq!(delete_interactive(Some(&n)), Target::Named(n));
}

#[test]
fn missing_argument_asks_for_selection() {
    assert_eq!(edit_interactive(None), Target::Select);
    assert_eq!(read_interactive(None), Target::Select);
    assert_eq!(delete_interactive(None), Target::Select);
}
