use vstd::prelude::*;

verus! {

/// One entry of the memo directory: its file name, and whether it is a
/// regular file.
pub struct Entry {
    pub name: String,
    pub is_file: bool,
}

/// Index of the last `.` in `s`, or -1 where there is none.
pub open spec fn last_dot(s: Seq<char>) -> int
    decreases s.len(),
{
    if s.len() == 0 {
        -1
    } else if s.last() == '.' {
        s.len() - 1
    } else {
        last_dot(s.drop_last())
    }
}

/// A file name without its extension: the part before the last `.`, or the
/// whole name where it has no `.` but perhaps a leading one.
pub open spec fn stem_of(s: Seq<char>) -> Seq<char> {
    if last_dot(s) <= 0 {
        s
    } else {
        s.subrange(0, last_dot(s))
    }
}

/// The names that `list` prints for the given entries, in their order: the
/// stem of each regular file.
pub open spec fn listing(es: Seq<Entry>) -> Seq<Seq<char>>
    decreases es.len(),
{
    if es.len() == 0 {
        Seq::empty()
    } else {
        let rest = listing(es.drop_last());
        if es.last().is_file {
            rest.push(stem_of(es.last().name@))
        } else {
            rest
        }
    }
}

/// The stem of a file name.
pub fn stem(name: &str) -> (r: String)
    ensures
        r@ == stem_of(name@),
{
    let n = name.unicode_len();
    let mut i: usize = 0;
    // one past the last dot seen so far, 0 before any
    let mut k: usize = 0;
    while i < n
        invariant
            i <= n,
            n == name@.len(),
            k == last_dot(name@.subrange(0, i as int)) + 1,
            k <= i,
        decreases n - i,
    {
        proof {
            assert(name@.subrange(0, i as int + 1).drop_last() =~= name@.subrange(0, i as int));
        }
        if name.get_char(i) == '.' {
            k = i + 1;
        }
        i = i + 1;
    }
    assert(name@.subrange(0, n as int) =~= name@);
    if k <= 1 {
        String::from_str(name)
    } else {
        String::from_str(name.substring_char(0, k - 1))
    }
}

/// The names of the memos: the stem of each regular file among the
/// entries, in the order given.
pub fn list(entries: &Vec<Entry>) -> (r: Vec<String>)
    ensures
        r@.map_values(|s: String| s@) == listing(entries@),
{
    let mut r: Vec<String> = Vec::new();
    let mut i: usize = 0;
    while i < entries.len()
        invariant
            i <= entries@.len(),
            r@.map_values(|s: String| s@) == listing(entries@.subrange(0, i as int)),
        decreases entries@.len() - i,
    {
        proof {
            assert(entries@.subrange(0, i as int + 1).drop_last() =~= entries@.subrange(0, i as int));
        }
        let e = &entries[i];
        if e.is_file {
            let s = stem(e.name.as_str());
            r.push(s);
            proof {
                assert(r@.map_values(|s: String| s@) =~= listing(entries@.subrange(0, i as int + 1)));
            }
        }
        i = i + 1;
    }
    assert(entries@.subrange(0, entries@.len() as int) =~= entries@);
    r
}

} // verus!
