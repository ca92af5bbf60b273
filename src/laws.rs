use vstd::prelude::*;
use crate::commands::{
    add_acts, create_acts, delete_acts, exists_msg, missing_msg, read_acts, render, update_acts,
};
use crate::editor::{edit_acts, set_editor_acts, show_editor_text};
use crate::listing::{last_dot, listing, stem_of, Entry};
use crate::store::{apply_all, Act, Store};

verus! {

/// Whether the store holds a memo of that name.
pub open spec fn holds(s: Store, n: Seq<char>) -> bool {
    s.memos.contains_key(n)
}

/// The content of the memo as `read` is handed it: `None` where it is absent.
pub open spec fn content_in(s: Store, n: Seq<char>) -> Option<Seq<char>> {
    if holds(s, n) {
        Some(s.memos[n])
    } else {
        None
    }
}

/// What `read` does on the store.
pub open spec fn read_in(s: Store, n: Seq<char>) -> Seq<Act> {
    read_acts(n, content_in(s, n))
}

proof fn lemma_apply_one(s: Store, a: Act)
    ensures
        apply_all(s, seq![a]) == crate::store::apply_act(s, a),
{
    assert(seq![a].drop_last() =~= Seq::<Act>::empty());
    assert(apply_all(s, Seq::<Act>::empty()) == s);
}

proof fn lemma_apply_two(s: Store, a: Act, b: Act)
    ensures
        apply_all(s, seq![a, b]) == crate::store::apply_act(crate::store::apply_act(s, a), b),
{
    assert(seq![a, b].drop_last() =~= seq![a]);
    lemma_apply_one(s, a);
}

/// Creating a memo that was absent leaves an empty memo, which `read` shows
/// as its name, the separators and an empty body.
pub proof fn create_gives_empty_memo(s: Store, n: Seq<char>)
    requires
        !holds(s, n),
    ensures
        holds(apply_all(s, create_acts(n, holds(s, n))), n),
        apply_all(s, create_acts(n, holds(s, n))).memos[n] == Seq::<char>::empty(),
        read_in(apply_all(s, create_acts(n, holds(s, n))), n) == seq![
            Act::Print(render(n, Seq::empty())),
        ],
{
    lemma_apply_one(s, Act::WriteMemo(n, Seq::empty()));
}

/// After `create` and then `delete` of a name, no memo has that name, and
/// both `read` and `edit` report it missing.
pub proof fn create_then_delete_removes(s: Store, n: Seq<char>, stored: Option<Seq<char>>)
    ensures
        ({
            let s1 = apply_all(s, create_acts(n, holds(s, n)));
            let s2 = apply_all(s1, delete_acts(n, holds(s1, n)));
            &&& !holds(s2, n)
            &&& read_in(s2, n) == seq![Act::Print(missing_msg(n))]
            &&& edit_acts(n, holds(s2, n), stored) == seq![Act::Print(missing_msg(n))]
        }),
{
    let s1 = apply_all(s, create_acts(n, holds(s, n)));
    if holds(s, n) {
        lemma_apply_two(s, Act::Print(exists_msg(n)), Act::WriteMemo(n, Seq::empty()));
    } else {
        lemma_apply_one(s, Act::WriteMemo(n, Seq::empty()));
    }
    lemma_apply_one(s1, Act::RemoveMemo(n));
}

/// Appending a text to an empty memo leaves a body of that text and a line
/// break.
pub proof fn add_to_empty_memo(s: Store, n: Seq<char>, t: Seq<char>)
    requires
        holds(s, n),
        s.memos[n] == Seq::<char>::empty(),
    ensures
        read_in(apply_all(s, add_acts(n, t, holds(s, n))), n) == seq![
            Act::Print(render(n, t + "\n"@)),
        ],
{
    lemma_apply_one(s, Act::AppendMemo(n, t + "\n"@));
    assert(Seq::<char>::empty() + (t + "\n"@) =~= t + "\n"@);
}

/// Renaming a memo to a free name: the old name is then missing and the new
/// one holds the old content.
pub proof fn update_moves_content(s: Store, a: Seq<char>, b: Seq<char>)
    requires
        holds(s, a),
        !holds(s, b),
    ensures
        read_in(apply_all(s, update_acts(a, b, holds(s, a))), a) == seq![
            Act::Print(missing_msg(a)),
        ],
        read_in(apply_all(s, update_acts(a, b, holds(s, a))), b) == seq![
            Act::Print(render(b, s.memos[a])),
        ],
{
    lemma_apply_one(s, Act::RenameMemo(a, b));
}

/// After `set_editor`, the editor shown is the one stored by that call; with
/// none ever stored it is `vi`.
pub proof fn set_then_show_editor(s: Store, c: Seq<char>)
    ensures
        show_editor_text(apply_all(s, set_editor_acts(c)).editor) == show_editor_text(Some(c)),
        show_editor_text(None) == "Current editor: '"@ + "vi"@ + "'\n"@,
{
    lemma_apply_two(s, Act::WriteEditor(c), Act::Print("Editor set to '"@ + c + "'\n"@));
}

/// Creating a memo that exists reports it, and still truncates its content.
pub proof fn create_existing_truncates(s: Store, n: Seq<char>)
    requires
        holds(s, n),
    ensures
        create_acts(n, holds(s, n))[0] == Act::Print(exists_msg(n)),
        apply_all(s, create_acts(n, holds(s, n))).memos[n] == Seq::<char>::empty(),
{
    lemma_apply_two(s, Act::Print(exists_msg(n)), Act::WriteMemo(n, Seq::empty()));
}

proof fn lemma_stem_of_memo_file(n: Seq<char>)
    requires
        n.len() > 0,
    ensures
        stem_of(n + ".txt"@) == n,
{
    reveal_strlit(".txt");
    let f = n + ".txt"@;
    let f1 = n + seq!['.', 't', 'x'];
    let f2 = n + seq!['.', 't'];
    let f3 = n + seq!['.'];
    assert(f.drop_last() =~= f1);
    assert(f1.drop_last() =~= f2);
    assert(f2.drop_last() =~= f3);
    assert(last_dot(f3) == n.len());
    assert(last_dot(f2) == n.len());
    assert(last_dot(f1) == n.len());
    assert(last_dot(f) == n.len());
    assert(f.subrange(0, n.len() as int) =~= n);
}

proof fn lemma_listing_members(es: Seq<Entry>, x: Seq<char>)
    ensures
        listing(es).contains(x) <==> exists|i: int|
            0 <= i < es.len() && #[trigger] es[i].is_file && stem_of(es[i].name@) == x,
    decreases es.len(),
{
    if es.len() > 0 {
        let init = es.drop_last();
        lemma_listing_members(init, x);
        if listing(es).contains(x) {
            if !listing(init).contains(x) {
                let i = es.len() - 1;
                assert(es[i].is_file && stem_of(es[i].name@) == x);
            } else {
                let j = choose|j: int|
                    0 <= j < init.len() && #[trigger] init[j].is_file && stem_of(init[j].name@)
                        == x;
                assert(es[j] == init[j]);
            }
        }
        if exists|i: int| 0 <= i < es.len() && #[trigger] es[i].is_file && stem_of(es[i].name@) == x {
            let i = choose|i: int|
                0 <= i < es.len() && #[trigger] es[i].is_file && stem_of(es[i].name@) == x;
            if i < es.len() - 1 {
                assert(init[i] == es[i]);
                let l = listing(init);
                assert(l.contains(x));
                if es.last().is_file {
                    assert(listing(es) == l.push(stem_of(es.last().name@)));
                    let k = choose|k: int| 0 <= k < l.len() && l[k] == x;
                    assert(listing(es)[k] == x);
                }
            } else {
                assert(listing(es) == listing(init).push(x));
                assert(listing(es)[listing(init).len() as int] == x);
            }
        }
    }
}

/// Where the regular files of the memo directory are exactly the files
/// `<name>.txt` of a set of non-empty names, whatever other entries it has,
/// `list` names exactly that set.
pub proof fn list_names_the_memos(es: Seq<Entry>, names: Set<Seq<char>>)
    requires
        forall|n: Seq<char>| names.contains(n) ==> n.len() > 0,
        forall|i: int|
            0 <= i < es.len() && #[trigger] es[i].is_file ==> exists|n: Seq<char>|
                names.contains(n) && es[i].name@ == n + ".txt"@,
        forall|n: Seq<char>|
            names.contains(n) ==> exists|i: int|
                0 <= i < es.len() && #[trigger] es[i].is_file && es[i].name@ == n + ".txt"@,
    ensures
        listing(es).to_set() == names,
{
    assert forall|x: Seq<char>| listing(es).to_set().contains(x) <==> names.contains(x) by {
        lemma_listing_members(es, x);
        if names.contains(x) {
            let i = choose|i: int|
                0 <= i < es.len() && #[trigger] es[i].is_file && es[i].name@ == x + ".txt"@;
            lemma_stem_of_memo_file(x);
            assert(listing(es).contains(x));
        }
        if listing(es).contains(x) {
            let i = choose|i: int|
                0 <= i < es.len() && #[trigger] es[i].is_file && stem_of(es[i].name@) == x;
            let n = choose|n: Seq<char>| names.contains(n) && es[i].name@ == n + ".txt"@;
            lemma_stem_of_memo_file(n);
        }
    }
    assert(listing(es).to_set() =~= names);
}

} // verus!
