use vstd::prelude::*;
use vstd::utf8::encode_utf8;
use crate::store::{acts, Act, Effect};

verus! {

/// Width of the header line that `read` prints above a memo.
pub const HEADER_WIDTH: usize = 40;

pub open spec fn view_opt(o: Option<&str>) -> Option<Seq<char>> {
    match o {
        Some(s) => Some(s@),
        None => None,
    }
}

pub open spec fn tildes(n: nat) -> Seq<char> {
    Seq::new(n, |i: int| '~')
}

/// Tildes after the name, so that name and tildes fill the header width;
/// none for a name of that width or wider. Width counts UTF-8 bytes, as
/// `str::len` reports them.
pub open spec fn byte_len(name: Seq<char>) -> usize {
    encode_utf8(name).len() as usize
}

pub open spec fn pad_of(name: Seq<char>) -> nat {
    if byte_len(name) < HEADER_WIDTH {
        (HEADER_WIDTH - byte_len(name)) as nat
    } else {
        0
    }
}

/// How `read` shows a memo: name, separator, content, closing separator.
pub open spec fn render(name: Seq<char>, content: Seq<char>) -> Seq<char> {
    name + "\n"@ + tildes(pad_of(name)) + "\n"@ + content + "\n"@ + tildes(HEADER_WIDTH as nat)
        + "\n"@
}

pub open spec fn missing_msg(name: Seq<char>) -> Seq<char> {
    "Memo '"@ + name + "' does not exist.\n"@
}

pub open spec fn exists_msg(name: Seq<char>) -> Seq<char> {
    "Memo '"@ + name + "' already exists.\n"@
}

pub open spec fn create_acts(name: Seq<char>, exists: bool) -> Seq<Act> {
    if exists {
        seq![Act::Print(exists_msg(name)), Act::WriteMemo(name, Seq::empty())]
    } else {
        seq![Act::WriteMemo(name, Seq::empty())]
    }
}

pub open spec fn delete_acts(name: Seq<char>, exists: bool) -> Seq<Act> {
    if exists {
        seq![Act::RemoveMemo(name)]
    } else {
        Seq::empty()
    }
}

pub open spec fn update_acts(old_name: Seq<char>, new_name: Seq<char>, exists: bool) -> Seq<Act> {
    if exists {
        seq![Act::RenameMemo(old_name, new_name)]
    } else {
        seq![Act::Print(missing_msg(old_name))]
    }
}

pub open spec fn read_acts(name: Seq<char>, content: Option<Seq<char>>) -> Seq<Act> {
    match content {
        Some(c) => seq![Act::Print(render(name, c))],
        None => seq![Act::Print(missing_msg(name))],
    }
}

pub open spec fn add_acts(name: Seq<char>, text: Seq<char>, exists: bool) -> Seq<Act> {
    if exists {
        seq![Act::AppendMemo(name, text + "\n"@)]
    } else {
        seq![Act::Print(missing_msg(name))]
    }
}

fn one(e: Effect) -> (r: Vec<Effect>)
    ensures
        acts(r@) == seq![e@],
{
    let mut r = Vec::new();
    r.push(e);
    proof {
        assert(acts(r@) =~= seq![e@]);
    }
    r
}

fn two(e: Effect, f: Effect) -> (r: Vec<Effect>)
    ensures
        acts(r@) == seq![e@, f@],
{
    let mut r = Vec::new();
    r.push(e);
    r.push(f);
    proof {
        assert(acts(r@) =~= seq![e@, f@]);
    }
    r
}

fn wrapped(prefix: &str, name: &str, suffix: &str) -> (r: String)
    ensures
        r@ == prefix@ + name@ + suffix@,
{
    let mut r = String::from_str(prefix);
    r.append(name);
    r.append(suffix);
    r
}

/// A run of `n` tildes.
pub fn tilde_run(n: usize) -> (r: String)
    ensures
        r@ == tildes(n as nat),
{
    let mut r = String::new();
    let mut i: usize = 0;
    proof {
        reveal_strlit("~");
        assert(r@ =~= tildes(0));
    }
    while i < n
        invariant
            i <= n,
            r@ == tildes(i as nat),
        decreases n - i,
    {
        r.append("~");
        proof {
            reveal_strlit("~");
            assert(r@ =~= tildes((i + 1) as nat));
        }
        i = i + 1;
    }
    r
}

/// The text that `read` prints for an existing memo.
pub fn render_memo(name: &str, content: &str) -> (r: String)
    ensures
        r@ == render(name@, content@),
{
    let len = name.len();
    let pad: usize = if len < HEADER_WIDTH {
        HEADER_WIDTH - len
    } else {
        0
    };
    let mut r = String::from_str(name);
    r.append("\n");
    let t = tilde_run(pad);
    r.append(t.as_str());
    r.append("\n");
    r.append(content);
    r.append("\n");
    let t2 = tilde_run(HEADER_WIDTH);
    r.append(t2.as_str());
    r.append("\n");
    r
}

/// Create a memo with empty content. An existing memo is reported and then
/// truncated all the same.
pub fn create(name: &str, exists: bool) -> (r: Vec<Effect>)
    ensures
        acts(r@) == create_acts(name@, exists),
{
    let write = Effect::WriteMemo(String::from_str(name), String::new());
    if exists {
        two(Effect::Print(wrapped("Memo '", name, "' already exists.\n")), write)
    } else {
        one(write)
    }
}

/// Remove a memo; nothing happens, and nothing is said, if it is absent.
pub fn delete(name: &str, exists: bool) -> (r: Vec<Effect>)
    ensures
        acts(r@) == delete_acts(name@, exists),
{
    if exists {
        one(Effect::RemoveMemo(String::from_str(name)))
    } else {
        let r = Vec::new();
        proof {
            assert(acts(r@) =~= Seq::<Act>::empty());
        }
        r
    }
}

/// Rename a memo, replacing any memo that has the new name.
pub fn update(old_name: &str, new_name: &str, exists: bool) -> (r: Vec<Effect>)
    ensures
        acts(r@) == update_acts(old_name@, new_name@, exists),
{
    if exists {
        one(Effect::RenameMemo(String::from_str(old_name), String::from_str(new_name)))
    } else {
        one(Effect::Print(wrapped("Memo '", old_name, "' does not exist.\n")))
    }
}

/// Show a memo; `content` is `None` where there is no such memo.
pub fn read(name: &str, content: Option<&str>) -> (r: Vec<Effect>)
    ensures
        acts(r@) == read_acts(name@, view_opt(content)),
{
    match content {
        Some(c) => one(Effect::Print(render_memo(name, c))),
        None => one(Effect::Print(wrapped("Memo '", name, "' does not exist.\n"))),
    }
}

/// Append one line to an existing memo.
pub fn add(name: &str, text: &str, exists: bool) -> (r: Vec<Effect>)
    ensures
        acts(r@) == add_acts(name@, text@, exists),
{
    if exists {
        let mut line = String::from_str(text);
        line.append("\n");
        one(Effect::AppendMemo(String::from_str(name), line))
    } else {
        one(Effect::Print(wrapped("Memo '", name, "' does not exist.\n")))
    }
}

} // verus!
