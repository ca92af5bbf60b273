use vstd::prelude::*;

verus! {

/// One step that a command asks the program to carry out.
/// Memos are named; the program turns a name into its path.
#[derive(Debug, Clone, PartialEq, Eq)]
pub enum Effect {
    /// Write the text to standard output as it stands.
    Print(String),
    /// Create or truncate the memo and give it this content.
    WriteMemo(String, String),
    /// Append the text to an existing memo.
    AppendMemo(String, String),
    /// Rename the first memo to the second, replacing the second.
    RenameMemo(String, String),
    /// Remove the memo.
    RemoveMemo(String),
    /// Store the editor command.
    WriteEditor(String),
    /// Run the editor (first) on the memo (second) and wait for it.
    LaunchEditor(String, String),
}

/// What an effect means, over character sequences.
pub enum Act {
    Print(Seq<char>),
    WriteMemo(Seq<char>, Seq<char>),
    AppendMemo(Seq<char>, Seq<char>),
    RenameMemo(Seq<char>, Seq<char>),
    RemoveMemo(Seq<char>),
    WriteEditor(Seq<char>),
    LaunchEditor(Seq<char>, Seq<char>),
}

impl View for Effect {
    type V = Act;

    open spec fn view(&self) -> Act {
        match self {
            Effect::Print(s) => Act::Print(s@),
            Effect::WriteMemo(n, c) => Act::WriteMemo(n@, c@),
            Effect::AppendMemo(n, c) => Act::AppendMemo(n@, c@),
            Effect::RenameMemo(a, b) => Act::RenameMemo(a@, b@),
            Effect::RemoveMemo(n) => Act::RemoveMemo(n@),
            Effect::WriteEditor(c) => Act::WriteEditor(c@),
            Effect::LaunchEditor(e, n) => Act::LaunchEditor(e@, n@),
        }
    }
}

pub open spec fn acts(v: Seq<Effect>) -> Seq<Act> {
    v.map_values(|e: Effect| e@)
}

/// The persistent state: each memo's content by name, and the stored editor
/// command, if one was ever stored.
pub struct Store {
    pub memos: Map<Seq<char>, Seq<char>>,
    pub editor: Option<Seq<char>>,
}

/// The state after one act. Printing and running the editor leave this
/// tool's state as it was; what an editor does to a file is its own affair.
pub open spec fn apply_act(s: Store, a: Act) -> Store {
    match a {
        Act::WriteMemo(n, c) => Store { memos: s.memos.insert(n, c), editor: s.editor },
        Act::AppendMemo(n, c) => if s.memos.contains_key(n) {
            Store { memos: s.memos.insert(n, s.memos[n] + c), editor: s.editor }
        } else {
            s
        },
        Act::RenameMemo(a, b) => if s.memos.contains_key(a) {
            Store { memos: s.memos.remove(a).insert(b, s.memos[a]), editor: s.editor }
        } else {
            s
        },
        Act::RemoveMemo(n) => Store { memos: s.memos.remove(n), editor: s.editor },
        Act::WriteEditor(c) => Store { memos: s.memos, editor: Some(c) },
        _ => s,
    }
}

/// The state after a sequence of acts, taken in order.
pub open spec fn apply_all(s: Store, a: Seq<Act>) -> Store
    decreases a.len(),
{
    if a.len() == 0 {
        s
    } else {
        apply_act(apply_all(s, a.drop_last()), a.last())
    }
}

/// The text that the acts print, in order.
pub open spec fn printed(a: Seq<Act>) -> Seq<char>
    decreases a.len(),
{
    if a.len() == 0 {
        Seq::empty()
    } else {
        let rest = printed(a.drop_last());
        match a.last() {
            Act::Print(t) => rest + t,
            _ => rest,
        }
    }
}

} // verus!
