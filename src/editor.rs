use vstd::prelude::*;
use crate::commands::{missing_msg, view_opt};
use crate::store::{acts, Act, Effect};

verus! {

/// What `str::trim` makes of a text: it drops leading and trailing white space.
pub uninterp spec fn trim_of(s: Seq<char>) -> Seq<char>;

/// Relies on str::trim: the result depends on the characters alone.
#[verifier::external_body]
pub(crate) fn trim(s: &str) -> (r: String)
    ensures
        r@ == trim_of(s@),
{
    s.trim().to_string()
}

/// The editor in force: the stored command without surrounding white space,
/// or `vi` where no stored command could be read.
pub open spec fn editor_of(stored: Option<Seq<char>>) -> Seq<char> {
    match stored {
        Some(c) => trim_of(c),
        None => "vi"@,
    }
}

pub open spec fn set_editor_acts(cmd: Seq<char>) -> Seq<Act> {
    seq![Act::WriteEditor(cmd), Act::Print("Editor set to '"@ + cmd + "'\n"@)]
}

pub open spec fn show_editor_text(stored: Option<Seq<char>>) -> Seq<char> {
    "Current editor: '"@ + editor_of(stored) + "'\n"@
}

pub open spec fn edit_acts(name: Seq<char>, exists: bool, stored: Option<Seq<char>>) -> Seq<Act> {
    if exists {
        seq![Act::LaunchEditor(editor_of(stored), name)]
    } else {
        seq![Act::Print(missing_msg(name))]
    }
}

/// The editor command from the content of the editor file, `None` where the
/// file could not be read.
pub fn get_editor(stored: Option<&str>) -> (r: String)
    ensures
        r@ == editor_of(view_opt(stored)),
{
    match stored {
        Some(c) => trim(c),
        None => String::from_str("vi"),
    }
}

/// Store the editor command as given, and confirm it.
pub fn set_editor(cmd: &str) -> (r: Vec<Effect>)
    ensures
        acts(r@) == set_editor_acts(cmd@),
{
    let mut msg = String::from_str("Editor set to '");
    msg.append(cmd);
    msg.append("'\n");
    let mut r = Vec::new();
    r.push(Effect::WriteEditor(String::from_str(cmd)));
    r.push(Effect::Print(msg));
    proof {
        assert(acts(r@) =~= set_editor_acts(cmd@));
    }
    r
}

/// The line that names the editor in force.
pub fn show_editor(stored: Option<&str>) -> (r: String)
    ensures
        r@ == show_editor_text(view_opt(stored)),
{
    let mut r = String::from_str("Current editor: '");
    let e = get_editor(stored);
    r.append(e.as_str());
    r.append("'\n");
    r
}

/// Open an existing memo in the editor in force.
pub fn edit(name: &str, exists: bool, stored: Option<&str>) -> (r: Vec<Effect>)
    ensures
        acts(r@) == edit_acts(name@, exists, view_opt(stored)),
{
    let mut r = Vec::new();
    if exists {
        r.push(Effect::LaunchEditor(get_editor(stored), String::from_str(name)));
    } else {
        let mut msg = String::from_str("Memo '");
        msg.append(name);
        msg.append("' does not exist.\n");
        r.push(Effect::Print(msg));
    }
    proof {
        assert(acts(r@) =~= edit_acts(name@, exists, view_opt(stored)));
    }
    r
}

} // verus!
