use note::{editor_path, memo_path};

#[test]
fn memo_path_joins_home_dir_and_extension() {
    assert_eq!(memo_path("/home/u", "todo"), "/home/u/.memo/todo.txt");
}

#[test]
fn editor_path_is_under_config() {
    assert_eq!(editor_path("/home/u"), "/home/u/.memo/config/editor");
}
