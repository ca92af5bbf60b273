use vstd::prelude::*;

verus! {

/// `<home>/.memo`, the directory that holds every memo.
pub open spec fn memo_dir_of(home: Seq<char>) -> Seq<char> {
    home + "/.memo"@
}

/// `<memo dir>/<name>.txt`; the name is used as it stands.
pub open spec fn memo_path_of(home: Seq<char>, name: Seq<char>) -> Seq<char> {
    memo_dir_of(home) + "/"@ + name + ".txt"@
}

/// `<memo dir>/config`.
pub open spec fn config_dir_of(home: Seq<char>) -> Seq<char> {
    memo_dir_of(home) + "/config"@
}

/// `<memo dir>/config/editor`, the file that holds the editor command.
pub open spec fn editor_path_of(home: Seq<char>) -> Seq<char> {
    config_dir_of(home) + "/editor"@
}

pub fn memo_dir(home: &str) -> (r: String)
    ensures
        r@ == memo_dir_of(home@),
{
    let mut r = String::from_str(home);
    r.append("/.memo");
    r
}

pub fn memo_path(home: &str, name: &str) -> (r: String)
    ensures
        r@ == memo_path_of(home@, name@),
{
    let mut r = memo_dir(home);
    r.append("/");
    r.append(name);
    r.append(".txt");
    r
}

pub fn config_dir(home: &str) -> (r: String)
    ensures
        r@ == config_dir_of(home@),
{
    let mut r = memo_dir(home);
    r.append("/config");
    r
}

pub fn editor_path(home: &str) -> (r: String)
    ensures
        r@ == editor_path_of(home@),
{
    let mut r = config_dir(home);
    r.append("/editor");
    r
}

} // verus!
