//! What holds of every repaired search path.

use vstd::prelude::*;
use crate::search_path::{
    entries, lemma_first_separator_at, lists, prepended, repaired, SEPARATOR,
};

verus! {

/// Whether none of the directories holds a separator, so that each of them
/// can be an entry of a search path.
pub open spec fn plain(dirs: Seq<Seq<char>>) -> bool {
    forall|i: int| 0 <= i < dirs.len() ==> !(#[trigger] dirs[i]).contains(SEPARATOR)
}

/// How often `dir` occurs among the entries of `path`.
pub open spec fn occurrences(path: Seq<char>, dir: Seq<char>) -> nat {
    entries(path).to_multiset().count(dir)
}

/// Putting a directory without a separator in front of a path adds it as the
/// first entry and leaves the other entries as they were.
pub proof fn lemma_entries_of_prepended(dir: Seq<char>, path: Seq<char>)
    requires
        !dir.contains(SEPARATOR),
    ensures
        entries(prepended(dir, path)) == seq![dir] + entries(path),
{
    let whole = prepended(dir, path);
    lemma_first_separator_at(whole, dir.len() as int);
    assert(whole.take(dir.len() as int) =~= dir);
    assert(whole.skip(dir.len() as int + 1) =~= path);
}

/// Directories stay free of separators when the first of them is left out.
proof fn lemma_plain_rest(dirs: Seq<Seq<char>>)
    requires
        plain(dirs),
        dirs.len() > 0,
    ensures
        plain(dirs.drop_first()),
{
    assert forall|i: int| 0 <= i < dirs.drop_first().len() implies !(
    #[trigger] dirs.drop_first()[i]).contains(SEPARATOR) by {
        assert(dirs.drop_first()[i] == dirs[i + 1]);
    }
}

/// Repairing never changes what was there: the base path is the end of the
/// repaired path, character for character.
pub proof fn lemma_repair_keeps_base(base: Seq<char>, fixed: Seq<Seq<char>>)
    ensures
        base.is_suffix_of(repaired(base, fixed)),
    decreases fixed.len(),
{
    if fixed.len() > 0 {
        lemma_repair_keeps_base(base, fixed.drop_first());
    }
}

/// The entries of the base path stay in place and in order: they are the last
/// entries of the repaired path.
pub proof fn lemma_repair_keeps_entries(base: Seq<char>, fixed: Seq<Seq<char>>)
    requires
        plain(fixed),
    ensures
        entries(base).is_suffix_of(entries(repaired(base, fixed))),
    decreases fixed.len(),
{
    if fixed.len() > 0 {
        let later = repaired(base, fixed.drop_first());
        lemma_plain_rest(fixed);
        lemma_repair_keeps_entries(base, fixed.drop_first());
        if !lists(later, fixed[0]) {
            lemma_entries_of_prepended(fixed[0], later);
        }
    }
}

/// After the repair every directory of the fixed list is an entry of the
/// path.
pub proof fn lemma_repair_lists_all(base: Seq<char>, fixed: Seq<Seq<char>>)
    requires
        plain(fixed),
    ensures
        forall|i: int| 0 <= i < fixed.len() ==> lists(repaired(base, fixed), #[trigger] fixed[i]),
    decreases fixed.len(),
{
    if fixed.len() > 0 {
        let rest = fixed.drop_first();
        let later = repaired(base, rest);
        let path = repaired(base, fixed);
        lemma_plain_rest(fixed);
        lemma_repair_lists_all(base, rest);
        if !lists(later, fixed[0]) {
            lemma_entries_of_prepended(fixed[0], later);
            assert(entries(path)[0] == fixed[0]);
        }
        assert forall|i: int| 0 < i < fixed.len() implies lists(path, #[trigger] fixed[i]) by {
            assert(lists(later, rest[i - 1]));
            if !lists(later, fixed[0]) {
                let k = choose|k: int| 0 <= k < entries(later).len() && entries(later)[k] == fixed[i];
                assert(entries(path)[k + 1] == fixed[i]);
            }
        }
    }
}

/// How often any directory occurs among the entries of the repaired path: as
/// often as in the base path where that lists it, else once where the fixed
/// list holds it, else never. So the repair adds each missing directory
/// exactly once and adds nothing else.
pub proof fn lemma_repair_occurrences(base: Seq<char>, fixed: Seq<Seq<char>>, dir: Seq<char>)
    requires
        plain(fixed),
    ensures
        occurrences(repaired(base, fixed), dir) == if lists(base, dir) {
            occurrences(base, dir)
        } else if fixed.contains(dir) {
            1nat
        } else {
            0nat
        },
    decreases fixed.len(),
{
    broadcast use vstd::seq_lib::to_multiset_contains;

    if fixed.len() > 0 {
        let rest = fixed.drop_first();
        let later = repaired(base, rest);
        lemma_plain_rest(fixed);
        lemma_repair_occurrences(base, rest, dir);
        lemma_repair_occurrences(base, rest, fixed[0]);
        assert(fixed.contains(dir) <==> dir == fixed[0] || rest.contains(dir)) by {
            if rest.contains(dir) {
                let k = choose|k: int| 0 <= k < rest.len() && rest[k] == dir;
                assert(fixed[k + 1] == dir);
            }
            if fixed.contains(dir) && dir != fixed[0] {
                let k = choose|k: int| 0 <= k < fixed.len() && fixed[k] == dir;
                assert(rest[k - 1] == dir);
            }
        }
        if !lists(later, fixed[0]) {
            lemma_entries_of_prepended(fixed[0], later);
            vstd::seq_lib::lemma_multiset_commutative(seq![fixed[0]], entries(later));
            assert(seq![fixed[0]].to_multiset().count(dir) == if dir == fixed[0] {
                1nat
            } else {
                0nat
            }) by {
                vstd::seq_lib::to_multiset_build(Seq::<Seq<char>>::empty(), fixed[0]);
                assert(Seq::<Seq<char>>::empty().push(fixed[0]) =~= seq![fixed[0]]);
                assert(Seq::<Seq<char>>::empty().to_multiset().count(dir) == 0);
            }
        }
    }
}

/// Where the base path lists no directory of the fixed list more than once,
/// the repaired path lists every directory of the fixed list exactly once.
pub proof fn lemma_repair_lists_each_once(base: Seq<char>, fixed: Seq<Seq<char>>)
    requires
        plain(fixed),
        forall|i: int| 0 <= i < fixed.len() ==> occurrences(base, #[trigger] fixed[i]) <= 1,
    ensures
        forall|i: int|
            0 <= i < fixed.len() ==> occurrences(repaired(base, fixed), #[trigger] fixed[i]) == 1,
{
    broadcast use vstd::seq_lib::to_multiset_contains;

    assert forall|i: int| 0 <= i < fixed.len() implies occurrences(
        repaired(base, fixed),
        #[trigger] fixed[i],
    ) == 1 by {
        lemma_repair_occurrences(base, fixed, fixed[i]);
    }
}

/// A path that lists every directory of the fixed list is left as it is.
pub proof fn lemma_repair_of_complete(path: Seq<char>, fixed: Seq<Seq<char>>)
    requires
        forall|i: int| 0 <= i < fixed.len() ==> lists(path, #[trigger] fixed[i]),
    ensures
        repaired(path, fixed) == path,
    decreases fixed.len(),
{
    if fixed.len() > 0 {
        let rest = fixed.drop_first();
        assert forall|i: int| 0 <= i < rest.len() implies lists(path, #[trigger] rest[i]) by {
            assert(rest[i] == fixed[i + 1]);
        }
        lemma_repair_of_complete(path, rest);
    }
}

/// Repairing twice gives what repairing once gives.
pub proof fn lemma_repair_idempotent(base: Seq<char>, fixed: Seq<Seq<char>>)
    requires
        plain(fixed),
    ensures
        repaired(repaired(base, fixed), fixed) == repaired(base, fixed),
{
    lemma_repair_lists_all(base, fixed);
    lemma_repair_of_complete(repaired(base, fixed), fixed);
}

/// With a fixed list that names no directory twice, the entries of the
/// repaired path are the directories of the fixed list that the base path
/// does not list, in the order of the fixed list, and then the entries of the
/// base path.
pub proof fn lemma_repair_entries(base: Seq<char>, fixed: Seq<Seq<char>>)
    requires
        plain(fixed),
        fixed.no_duplicates(),
    ensures
        entries(repaired(base, fixed)) == fixed.filter(|dir: Seq<char>| !lists(base, dir))
            + entries(base),
    decreases fixed.len(),
{
    let missing = |dir: Seq<char>| !lists(base, dir);
    if fixed.len() == 0 {
        reveal(Seq::filter);
        assert(fixed.filter(missing) + entries(base) =~= entries(base));
    } else {
        let rest = fixed.drop_first();
        let later = repaired(base, rest);
        lemma_plain_rest(fixed);
        lemma_repair_entries(base, rest);
        assert(fixed =~= seq![fixed[0]] + rest);
        rest.lemma_filter_prepend(fixed[0], missing);
        assert(!rest.filter(missing).contains(fixed[0])) by {
            if rest.filter(missing).contains(fixed[0]) {
                rest.lemma_filter_contains_rev(missing, fixed[0]);
                let k = choose|k: int| 0 <= k < rest.len() && rest[k] == fixed[0];
                assert(fixed[k + 1] == fixed[0]);
            }
        }
        assert(lists(later, fixed[0]) == lists(base, fixed[0])) by {
            let added = rest.filter(missing);
            if lists(later, fixed[0]) {
                let k = choose|k: int|
                    0 <= k < (added + entries(base)).len() && (added + entries(base))[k]
                        == fixed[0];
                if k < added.len() {
                    assert(added[k] == fixed[0]);
                } else {
                    assert(entries(base)[k - added.len()] == fixed[0]);
                }
            }
            if lists(base, fixed[0]) {
                let k = choose|k: int| 0 <= k < entries(base).len() && entries(base)[k] == fixed[0];
                assert((added + entries(base))[added.len() + k] == fixed[0]);
            }
        }
        if lists(later, fixed[0]) {
            assert(Seq::<Seq<char>>::empty() + rest.filter(missing) =~= rest.filter(missing));
        } else {
            lemma_entries_of_prepended(fixed[0], later);
            assert(seq![fixed[0]] + (rest.filter(missing) + entries(base)) =~= (seq![fixed[0]]
                + rest.filter(missing)) + entries(base));
        }
    }
}

} // verus!
