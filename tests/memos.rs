use note::{add, create, delete, edit, read, render_memo, tilde_run, update, Effect};

fn s(x: &str) -> String {
    x.to_string()
}

#[test]
fn create_absent_memo_writes_empty_file() {
    assert_eq!(create("todo", false), vec![Effect::WriteMemo(s("todo"), s(""))]);
}

#[test]
fn read_empty_memo_shows_name_and_two_separators() {
    let expected = format!("todo\n{}\n\n{}\n", "~".repeat(36), "~".repeat(40));
    assert_eq!(read("todo", Some("")), vec![Effect::Print(expected)]);
}

#[test]
fn delete_existing_memo_removes_it() {
    assert_eq!(delete("todo", true), vec![Effect::RemoveMemo(s("todo"))]);
}

#[test]
fn delete_missing_memo_does_nothing() {
    assert!(delete("todo", false).is_empty());
}

#[test]
fn read_and_edit_after_delete_report_missing() {
    let msg = Effect::Print(s("Memo 'todo' does not exist.\n"));
    assert_eq!(read("todo", None), vec![msg.clone()]);
    assert_eq!(edit("todo", false, Some("nano")), vec![msg]);
}

#[test]
fn add_appends_line_break() {
    assert_eq!(add("n", "hello", true), vec![Effect::AppendMemo(s("n"), s("hello\n"))]);
}

#[test]
fn add_to_missing_memo_reports_it() {
    assert_eq!(add("n", "hello", false), vec![Effect::Print(s("Memo 'n' does not exist.\n"))]);
}

#[test]
fn read_after_add_shows_hello_body() {
    let expected = format!("n\n{}\nhello\n\n{}\n", "~".repeat(39), "~".repeat(40));
    assert_eq!(read("n", Some("hello\n")), vec![Effect::Print(expected)]);
}

#[test]
fn update_existing_renames() {
    assert_eq!(update("a", "b", true), vec![Effect::RenameMemo(s("a"), s("b"))]);
}

#[test]
fn update_missing_reports_it() {
    assert_eq!(update("a", "b", false), vec![Effect::Print(s("Memo 'a' does not exist.\n"))]);
}

#[test]
fn create_existing_memo_warns_then_truncates() {
    assert_eq!(
        create("n", true),
        vec![Effect::Print(s("Memo 'n' already exists.\n")), Effect::WriteMemo(s("n"), s(""))]
    );
}

#[test]
fn long_name_gets_no_header_tildes() {
    let name = "x".repeat(45);
    let expected = format!("{}\n\nbody\n{}\n", name, "~".repeat(40));
    assert_eq!(render_memo(&name, "body"), expected);
}

#[test]
fn name_of_full_width_gets_no_header_tildes() {
    let name = "y".repeat(40);
    let expected = format!("{}\n\n\n{}\n", name, "~".repeat(40));
    assert_eq!(render_memo(&name, ""), expected);
}

#[test]
fn header_pad_counts_bytes() {
    // "é" is two bytes in UTF-8
    let expected = format!("é\n{}\n\n{}\n", "~".repeat(38), "~".repeat(40));
    assert_eq!(render_memo("é", ""), expected);
}

#[test]
fn tilde_run_counts() {
    assert_eq!(tilde_run(0), "");
    assert_eq!(tilde_run(3), "~~~");
}
