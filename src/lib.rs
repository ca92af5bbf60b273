//! A small memo keeper: named plain-text notes under one directory, plus a
//! remembered editor command. The library decides what each command does;
//! the program around it touches the disk and runs processes.

pub mod cli;
pub mod commands;
pub mod editor;
pub mod laws;
pub mod listing;
pub mod paths;
pub mod select;
pub mod store;

pub use cli::{parse_args, ArgError, Command};
pub use commands::{add, create, delete, read, render_memo, tilde_run, update};
pub use editor::{edit, get_editor, set_editor, show_editor};
pub use laws::{
    add_to_empty_memo, create_existing_truncates, create_gives_empty_memo,
    create_then_delete_removes, list_names_the_memos, set_then_show_editor, update_moves_content,
};
pub use listing::{list, stem, Entry};
pub use paths::{config_dir, editor_path, memo_dir, memo_path};
pub use select::{
    chosen_name, delete_interactive, edit_interactive, read_interactive, select_memo, Target,
};
pub use store::{Act, Effect, Store};
