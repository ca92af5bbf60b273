use vstd::prelude::*;

verus! {

/// A command line, read by position.
#[derive(Debug, PartialEq, Eq)]
pub enum Command {
    Help,
    Version,
    Create(String),
    Delete(Option<String>),
    Update(String, String),
    Read(Option<String>),
    Edit(Option<String>),
    Add(String, String),
    List,
    ShowEditor,
    SetEditor(String),
    /// `set` without `editor <cmd>`: show how to call it.
    SetEditorUsage,
    Unknown,
}

/// A command line that lacks an argument its command requires.
#[derive(Debug, PartialEq, Eq, Structural)]
pub enum ArgError {
    Missing,
}

pub open spec fn words(args: Seq<String>) -> Seq<Seq<char>> {
    args.map_values(|s: String| s@)
}

pub open spec fn opt_is(o: Option<String>, a: Seq<Seq<char>>, i: int) -> bool {
    if i < a.len() {
        o matches Some(s) && s@ == a[i]
    } else {
        o is None
    }
}

/// The command for a command line whose first word is the program's name.
pub open spec fn parsed(a: Seq<Seq<char>>, r: Result<Command, ArgError>) -> bool {
    if a.len() < 2 {
        r matches Ok(Command::Help)
    } else if a[1] == "create"@ {
        if a.len() < 3 {
            r == Err::<Command, ArgError>(ArgError::Missing)
        } else {
            r matches Ok(Command::Create(n)) && n@ == a[2]
        }
    } else if a[1] == "delete"@ {
        r matches Ok(Command::Delete(o)) && opt_is(o, a, 2)
    } else if a[1] == "update"@ || a[1] == "add"@ {
        if a.len() < 4 {
            r == Err::<Command, ArgError>(ArgError::Missing)
        } else if a[1] == "update"@ {
            r matches Ok(Command::Update(x, y)) && x@ == a[2] && y@ == a[3]
        } else {
            r matches Ok(Command::Add(x, y)) && x@ == a[2] && y@ == a[3]
        }
    } else if a[1] == "read"@ {
        r matches Ok(Command::Read(o)) && opt_is(o, a, 2)
    } else if a[1] == "edit"@ {
        r matches Ok(Command::Edit(o)) && opt_is(o, a, 2)
    } else if a[1] == "ls"@ {
        r matches Ok(Command::List)
    } else if a[1] == "editor"@ {
        r matches Ok(Command::ShowEditor)
    } else if a[1] == "set"@ {
        if a.len() >= 4 && a[2] == "editor"@ {
            r matches Ok(Command::SetEditor(c)) && c@ == a[3]
        } else {
            r matches Ok(Command::SetEditorUsage)
        }
    } else if a[1] == "help"@ || a[1] == "--help"@ || a[1] == "-h"@ {
        r matches Ok(Command::Help)
    } else if a[1] == "version"@ || a[1] == "--version"@ || a[1] == "-v"@ {
        r matches Ok(Command::Version)
    } else {
        r matches Ok(Command::Unknown)
    }
}

fn is_word(s: &String, w: &str) -> (r: bool)
    ensures
        r == (s@ == w@),
{
    *s == String::from_str(w)
}

fn arg_at(args: &Vec<String>, i: usize) -> (r: Option<String>)
    ensures
        opt_is(r, words(args@), i as int),
{
    if i < args.len() {
        Some(args[i].clone())
    } else {
        None
    }
}

/// Read a command line by position; the first word is the program's name.
pub fn parse_args(args: &Vec<String>) -> (r: Result<Command, ArgError>)
    ensures
        parsed(words(args@), r),
{
    let ghost a = words(args@);
    let n = args.len();
    if n < 2 {
        return Ok(Command::Help);
    }
    let w = &args[1];
    assert(a[1] == w@);
    if n >= 3 {
        assert(a[2] == args@[2]@);
    }
    if n >= 4 {
        assert(a[3] == args@[3]@);
    }
    if is_word(w, "create") {
        if n < 3 {
            Err(ArgError::Missing)
        } else {
            Ok(Command::Create(args[2].clone()))
        }
    } else if is_word(w, "delete") {
        Ok(Command::Delete(arg_at(args, 2)))
    } else if is_word(w, "update") || is_word(w, "add") {
        if n < 4 {
            Err(ArgError::Missing)
        } else if is_word(w, "update") {
            Ok(Command::Update(args[2].clone(), args[3].clone()))
        } else {
            Ok(Command::Add(args[2].clone(), args[3].clone()))
        }
    } else if is_word(w, "read") {
        Ok(Command::Read(arg_at(args, 2)))
    } else if is_word(w, "edit") {
        Ok(Command::Edit(arg_at(args, 2)))
    } else if is_word(w, "ls") {
        Ok(Command::List)
    } else if is_word(w, "editor") {
        Ok(Command::ShowEditor)
    } else if is_word(w, "set") {
        if n >= 4 && is_word(&args[2], "editor") {
            Ok(Command::SetEditor(args[3].clone()))
        } else {
            Ok(Command::SetEditorUsage)
        }
    } else if is_word(w, "help") || is_word(w, "--help") || is_word(w, "-h") {
        Ok(Command::Help)
    } else if is_word(w, "version") || is_word(w, "--version") || is_word(w, "-v") {
        Ok(Command::Version)
    } else {
        Ok(Command::Unknown)
    }
}

} // verus!
