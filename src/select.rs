use vstd::prelude::*;
use crate::editor::{trim, trim_of};

verus! {

/// What `String::from_utf8_lossy` makes of bytes: the text they encode, with
/// each invalid sequence replaced by U+FFFD.
pub uninterp spec fn lossy_of(b: Seq<u8>) -> Seq<char>;

/// Relies on String::from_utf8_lossy: the result depends on the bytes alone.
#[verifier::external_body]
fn lossy(b: &Vec<u8>) -> (r: String)
    ensures
        r@ == lossy_of(b@),
{
    String::from_utf8_lossy(b).into_owned()
}

/// The name picked from a trimmed selector output: none where it is empty.
pub open spec fn choice_of(trimmed: Seq<char>) -> Option<Seq<char>> {
    if trimmed.len() == 0 {
        None
    } else {
        Some(trimmed)
    }
}

pub open spec fn view_opt_string(o: Option<String>) -> Option<Seq<char>> {
    match o {
        Some(s) => Some(s@),
        None => None,
    }
}

/// The memo picked, given the selector's output once trimmed.
pub fn chosen_name(trimmed: &str) -> (r: Option<String>)
    ensures
        view_opt_string(r) == choice_of(trimmed@),
{
    if trimmed.is_empty() {
        None
    } else {
        Some(String::from_str(trimmed))
    }
}

/// The memo picked through the interactive selector, given what it wrote on
/// standard output, or `None` where it could not be run. A selector that
/// could not run and one that picked nothing both give `None`.
pub fn select_memo(stdout: Option<Vec<u8>>) -> (r: Option<String>)
    ensures
        view_opt_string(r) == match stdout {
            Some(b) => choice_of(trim_of(lossy_of(b@))),
            None => None,
        },
{
    match stdout {
        Some(b) => {
            let text = lossy(&b);
            let t = trim(text.as_str());
            chosen_name(t.as_str())
        },
        None => None,
    }
}

/// Which memo a command that may pick interactively acts on.
#[derive(Debug, PartialEq, Eq)]
pub enum Target {
    /// The memo named on the command line.
    Named(String),
    /// No name was given: run the selector, then act on what it picked.
    Select,
}

pub open spec fn target_is(t: Target, arg: Option<&String>) -> bool {
    match arg {
        Some(n) => t matches Target::Named(m) && m@ == n@,
        None => t matches Target::Select,
    }
}

fn target(arg: Option<&String>) -> (r: Target)
    ensures
        target_is(r, arg),
{
    match arg {
        Some(n) => Target::Named(n.clone()),
        None => Target::Select,
    }
}

/// The memo that `edit` opens: the one named, else one picked.
pub fn edit_interactive(arg: Option<&String>) -> (r: Target)
    ensures
        target_is(r, arg),
{
    target(arg)
}

/// The memo that `read` shows: the one named, else one picked.
pub fn read_interactive(arg: Option<&String>) -> (r: Target)
    ensures
        target_is(r, arg),
{
    target(arg)
}

/// The memo that `delete` removes: the one named, else one picked.
pub fn delete_interactive(arg: Option<&String>) -> (r: Target)
    ensures
        target_is(r, arg),
{
    target(arg)
}

} // verus!
