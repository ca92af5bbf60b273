use note::{list, stem, Entry};

fn entry(name: &str, is_file: bool) -> Entry {
    Entry { name: name.to_string(), is_file }
}

#[test]
fn list_names_exactly_the_memo_files() {
    let entries = vec![entry("y.txt", true), entry("config", false), entry("x.txt", true), entry("z.txt", true)];
    let mut names = list(&entries);
    names.sort();
    assert_eq!(names, vec!["x", "y", "z"]);
}

#[test]
fn list_of_empty_directory_is_empty() {
    assert!(list(&Vec::new()).is_empty());
}

#[test]
fn stem_drops_last_extension_only() {
    assert_eq!(stem("a.b.txt"), "a.b");
    assert_eq!(stem("noext"), "noext");
    assert_eq!(stem(".hidden"), ".hidden");
    assert_eq!(stem("foo."), "foo");
    assert_eq!(stem("..txt"), ".");
}
