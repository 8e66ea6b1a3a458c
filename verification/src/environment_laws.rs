//! What holds of every environment that the builder makes.

use vstd::prelude::*;
use crate::environment::{built, search_path_name, search_path_of, well_known_directories};
use crate::repair_laws::{lemma_repair_entries, plain};
use crate::search_path::{entries, lists, repaired, SEPARATOR};

verus! {

/// The well-known directories are four different directories, none of which
/// holds a separator.
pub proof fn lemma_well_known_directories()
    ensures
        well_known_directories().len() == 4,
        plain(well_known_directories()),
        well_known_directories().no_duplicates(),
{
    reveal_strlit("/opt/homebrew/bin");
    reveal_strlit("/usr/local/bin");
    reveal_strlit("/usr/bin");
    reveal_strlit("/bin");
    let dirs = well_known_directories();
    assert(dirs[0].len() == 17 && dirs[1].len() == 14 && dirs[2].len() == 8 && dirs[3].len() == 4);
    assert forall|i: int| 0 <= i < dirs.len() implies !(#[trigger] dirs[i]).contains(SEPARATOR) by {
        assert forall|k: int| 0 <= k < dirs[i].len() implies dirs[i][k] != SEPARATOR by {}
    }
}

/// Building changes the search path and nothing else: the search path of the
/// built environment is the repaired search path of the base, and every
/// other variable is bound as it was.
pub proof fn lemma_built_changes_search_path_only(
    base: Map<Seq<char>, Seq<char>>,
    fixed: Seq<Seq<char>>,
)
    ensures
        search_path_of(built(base, fixed)) == repaired(search_path_of(base), fixed),
        forall|name: Seq<char>|
            name != search_path_name() ==> (built(base, fixed).contains_key(name)
                <==> base.contains_key(name)),
        forall|name: Seq<char>|
            name != search_path_name() && base.contains_key(name) ==> built(base, fixed)[name]
                == base[name],
{
}

/// The search path that the builder for the well-known directories makes:
/// its entries are the well-known directories that the base's search path
/// does not list, in their order, and then the entries of the base's search
/// path.
pub proof fn lemma_well_known_search_path(base: Map<Seq<char>, Seq<char>>)
    ensures
        entries(search_path_of(built(base, well_known_directories())))
            == well_known_directories().filter(
            |dir: Seq<char>| !lists(search_path_of(base), dir),
        ) + entries(search_path_of(base)),
{
    lemma_well_known_directories();
    lemma_repair_entries(search_path_of(base), well_known_directories());
}

} // verus!
