use note::{edit, get_editor, set_editor, show_editor, Effect};

#[test]
fn set_editor_stores_and_confirms() {
    assert_eq!(
        set_editor("nano"),
        vec![
            Effect::WriteEditor("nano".to_string()),
            Effect::Print("Editor set to 'nano'\n".to_string())
        ]
    );
}

#[test]
fn show_editor_after_set_prints_nano() {
    assert_eq!(show_editor(Some("nano")), "Current editor: 'nano'\n");
}

#[test]
fn show_editor_without_stored_editor_prints_vi() {
    assert_eq!(show_editor(None), "Current editor: 'vi'\n");
}

#[test]
fn stored_editor_is_trimmed() {
    assert_eq!(get_editor(Some("  emacs -nw \n")), "emacs -nw");
}

#[test]
fn edit_launches_editor_in_force() {
    assert_eq!(
        edit("todo", true, Some("nano\n")),
        vec![Effect::LaunchEditor("nano".to_string(), "todo".to_string())]
    );
    assert_eq!(
        edit("todo", true, None),
        vec![Effect::LaunchEditor("vi".to_string(), "todo".to_string())]
    );
}
