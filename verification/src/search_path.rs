//! The executable search path: its entries, and the repair that makes sure a
//! fixed list of directories is on it.

use vstd::prelude::*;

verus! {

/// The character that separates the entries of a search path.
pub const SEPARATOR: char = ':';

/// The position of the first separator in `path`, or the length of `path`
/// where it holds none.
pub open spec fn first_separator(path: Seq<char>) -> nat
    decreases path.len(),
{
    if path.len() == 0 || path[0] == SEPARATOR {
        0
    } else {
        1 + first_separator(path.drop_first())
    }
}

/// The entries of a search path, in order: the pieces between its
/// separators. A path without a separator is one entry, the empty path too.
pub open spec fn entries(path: Seq<char>) -> Seq<Seq<char>>
    decreases path.len(),
{
    let cut = first_separator(path) as int;
    if cut >= path.len() {
        seq![path]
    } else {
        seq![path.take(cut)] + entries(path.skip(cut + 1))
    }
}

/// Whether `dir` is one of the entries of `path`.
pub open spec fn lists(path: Seq<char>, dir: Seq<char>) -> bool {
    entries(path).contains(dir)
}

/// `path` with `dir` put in front of it as a new first entry.
pub open spec fn prepended(dir: Seq<char>, path: Seq<char>) -> Seq<char> {
    dir.push(SEPARATOR) + path
}

/// The search path that repairing `base` gives: going through `fixed` from
/// its last directory to its first, each directory that the path does not
/// list yet is put in front of it. Directories that were missing therefore
/// come first, in the order of `fixed`, and `base` follows them unchanged.
pub open spec fn repaired(base: Seq<char>, fixed: Seq<Seq<char>>) -> Seq<char>
    decreases fixed.len(),
{
    if fixed.len() == 0 {
        base
    } else {
        let later = repaired(base, fixed.drop_first());
        if lists(later, fixed[0]) {
            later
        } else {
            prepended(fixed[0], later)
        }
    }
}

/// A position up to which `path` holds no separator, and which is the end of
/// `path` or a separator, is the position of its first separator.
pub proof fn lemma_first_separator_at(path: Seq<char>, cut: int)
    requires
        0 <= cut <= path.len(),
        forall|j: int| 0 <= j < cut ==> path[j] != SEPARATOR,
        cut < path.len() ==> path[cut] == SEPARATOR,
    ensures
        first_separator(path) == cut,
    decreases cut,
{
    if cut > 0 {
        lemma_first_separator_at(path.drop_first(), cut - 1);
    }
}

/// The characters of a string slice, in order.
fn characters(text: &str) -> (chars: Vec<char>)
    ensures
        chars@ == text@,
{
    let mut chars: Vec<char> = Vec::new();
    for c in it: text.chars()
        invariant
            it.seq() == text@,
            chars@ == text@.take(it.index()),
    {
        chars.push(c);
    }
    chars
}

/// The end of the entry of `path` that starts at `from`: the position of the
/// next separator, or the length of `path`.
fn entry_end(path: &Vec<char>, from: usize) -> (end: usize)
    requires
        from <= path.len(),
    ensures
        from <= end <= path.len(),
        end == from + first_separator(path@.skip(from as int)),
{
    let mut end: usize = from;
    while end < path.len() && path[end] != SEPARATOR
        invariant
            from <= end <= path.len(),
            forall|j: int| from <= j < end ==> path@[j] != SEPARATOR,
        decreases path.len() - end,
    {
        end += 1;
    }
    proof {
        lemma_first_separator_at(path@.skip(from as int), end - from);
    }
    end
}

/// Whether the characters of `path` from `from` up to `to` are those of `dir`.
fn entry_is(path: &Vec<char>, from: usize, to: usize, dir: &Vec<char>) -> (same: bool)
    requires
        from <= to <= path.len(),
    ensures
        same == (path@.subrange(from as int, to as int) == dir@),
{
    if to - from != dir.len() {
        return false;
    }
    let ghost entry = path@.subrange(from as int, to as int);
    let mut k: usize = 0;
    while k < dir.len()
        invariant
            from <= to <= path.len(),
            to - from == dir.len(),
            k <= dir.len(),
            entry == path@.subrange(from as int, to as int),
            forall|j: int| 0 <= j < k ==> entry[j] == dir@[j],
        decreases dir.len() - k,
    {
        if path[from + k] != dir[k] {
            assert(entry[k as int] != dir@[k as int]);
            return false;
        }
        k += 1;
    }
    assert(entry =~= dir@);
    true
}

/// Whether `dir` is one of the entries of `path`, both given by their
/// characters.
fn lists_characters(path: &Vec<char>, dir: &Vec<char>) -> (found: bool)
    ensures
        found == lists(path@, dir@),
{
    let mut start: usize = 0;
    assert(path@.skip(0) =~= path@);
    loop
        invariant
            start <= path.len(),
            lists(path@, dir@) == lists(path@.skip(start as int), dir@),
        decreases path.len() - start,
    {
        let end = entry_end(path, start);
        let ghost rest = path@.skip(start as int);
        assert(rest.take(end - start) =~= path@.subrange(start as int, end as int));
        if entry_is(path, start, end, dir) {
            assert(entries(rest)[0] == dir@);
            return true;
        }
        if end >= path.len() {
            assert(rest.take(end - start) =~= rest);
            return false;
        }
        assert(rest.skip(end - start + 1) =~= path@.skip(end + 1));
        assert(lists(rest, dir@) == lists(path@.skip(end + 1), dir@)) by {
            let first = seq![rest.take(end - start)];
            let others = entries(path@.skip(end + 1));
            assert(entries(rest) == first + others);
            if others.contains(dir@) {
                let k = choose|k: int| 0 <= k < others.len() && others[k] == dir@;
                assert((first + others)[k + 1] == dir@);
            }
        }
        start = end + 1;
    }
}

/// Whether `dir` is one of the entries of the search path `path`.
pub fn lists_directory(path: &str, dir: &str) -> (found: bool)
    ensures
        found == lists(path@, dir@),
{
    let path_characters = characters(path);
    let dir_characters = characters(dir);
    lists_characters(&path_characters, &dir_characters)
}

/// Repairs the search path `base`: every directory of `fixed` that the path
/// does not list is put in front of it, so that the missing directories come
/// first, in the order of `fixed`, and `base` follows them unchanged.
pub fn repair(base: &str, fixed: &Vec<String>) -> (path: String)
    ensures
        path@ == repaired(base@, fixed.deep_view()),
{
    let mut path = base.to_owned();
    let mut i: usize = fixed.len();
    assert(fixed.deep_view().skip(i as int).len() == 0);
    while i > 0
        invariant
            i <= fixed.len(),
            path@ == repaired(base@, fixed.deep_view().skip(i as int)),
        decreases i,
    {
        i -= 1;
        let dir = fixed[i].as_str();
        proof {
            let from_here = fixed.deep_view().skip(i as int);
            assert(from_here.drop_first() =~= fixed.deep_view().skip(i + 1));
            assert(from_here[0] == dir@);
            reveal_strlit(":");
            assert(":"@ =~= seq![SEPARATOR]);
        }
        if !lists_directory(path.as_str(), dir) {
            let mut longer = dir.to_owned();
            longer.append(":");
            longer.append(path.as_str());
            assert(longer@ =~= prepended(dir@, path@));
            path = longer;
        }
    }
    assert(fixed.deep_view().skip(0) =~= fixed.deep_view());
    path
}

} // verus!
