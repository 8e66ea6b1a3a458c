//! The environment handed to the backend: the inherited variables, with the
//! search path repaired.

use vstd::prelude::*;
use crate::search_path::{repair, repaired};

verus! {

/// One environment variable: a name and the value bound to it.
#[derive(Debug, PartialEq, Eq)]
pub struct Variable {
    pub name: String,
    pub value: String,
}

/// The name of the variable that holds the executable search path.
pub open spec fn search_path_name() -> Seq<char> {
    "PATH"@
}

/// The directories that a repaired search path always lists, in order.
pub open spec fn well_known_directories() -> Seq<Seq<char>> {
    seq!["/opt/homebrew/bin"@, "/usr/local/bin"@, "/usr/bin"@, "/bin"@]
}

/// The mapping that a list of variables stands for. Where a name is bound
/// more than once, the last binding counts.
pub open spec fn bindings(vars: Seq<Variable>) -> Map<Seq<char>, Seq<char>>
    decreases vars.len(),
{
    if vars.len() == 0 {
        Map::empty()
    } else {
        bindings(vars.drop_last()).insert(vars.last().name@, vars.last().value@)
    }
}

/// The search path of an environment: the value of its search-path variable,
/// or the empty path where it has none.
pub open spec fn search_path_of(env: Map<Seq<char>, Seq<char>>) -> Seq<char> {
    if env.contains_key(search_path_name()) {
        env[search_path_name()]
    } else {
        Seq::empty()
    }
}

/// The environment built from `base` for the directories `fixed`: `base`
/// with its search path repaired, every other variable as it was.
pub open spec fn built(base: Map<Seq<char>, Seq<char>>, fixed: Seq<Seq<char>>) -> Map<
    Seq<char>,
    Seq<char>,
> {
    base.insert(search_path_name(), repaired(search_path_of(base), fixed))
}

/// The binding of `name` that counts is the last one in the list.
pub proof fn lemma_bindings_last(vars: Seq<Variable>, name: Seq<char>, i: int)
    requires
        0 <= i < vars.len(),
        vars[i].name@ == name,
        forall|j: int| i < j < vars.len() ==> vars[j].name@ != name,
    ensures
        bindings(vars).contains_key(name),
        bindings(vars)[name] == vars[i].value@,
    decreases vars.len(),
{
    if i < vars.len() - 1 {
        lemma_bindings_last(vars.drop_last(), name, i);
    }
}

/// A name that no variable of the list carries is not bound.
pub proof fn lemma_bindings_none(vars: Seq<Variable>, name: Seq<char>)
    requires
        forall|j: int| 0 <= j < vars.len() ==> vars[j].name@ != name,
    ensures
        !bindings(vars).contains_key(name),
    decreases vars.len(),
{
    if vars.len() > 0 {
        lemma_bindings_none(vars.drop_last(), name);
    }
}

/// The position of the last variable named `name`, if there is one.
fn last_binding(vars: &Vec<Variable>, name: &str) -> (found: Option<usize>)
    ensures
        match found {
            Some(i) => i < vars.len() && vars[i as int].name@ == name@ && forall|j: int|
                i < j < vars.len() ==> vars[j].name@ != name@,
            None => forall|j: int| 0 <= j < vars.len() ==> vars[j].name@ != name@,
        },
{
    let wanted = name.to_owned();
    let mut i: usize = vars.len();
    while i > 0
        invariant
            i <= vars.len(),
            wanted@ == name@,
            forall|j: int| i <= j < vars.len() ==> vars[j].name@ != name@,
        decreases i,
    {
        i -= 1;
        if vars[i].name == wanted {
            return Some(i);
        }
    }
    None
}

/// An environment for one launch of the backend: a mapping from variable
/// names to values that is built once and then only read.
#[derive(Debug, PartialEq, Eq)]
pub struct EnvironmentSpec {
    vars: Vec<Variable>,
}

impl View for EnvironmentSpec {
    type V = Map<Seq<char>, Seq<char>>;

    closed spec fn view(&self) -> Map<Seq<char>, Seq<char>> {
        bindings(self.vars@)
    }
}

impl EnvironmentSpec {
    /// The value bound to `name`, if any.
    pub fn get(&self, name: &str) -> (value: Option<&str>)
        ensures
            match value {
                Some(text) => self@.contains_key(name@) && self@[name@] == text@,
                None => !self@.contains_key(name@),
            },
    {
        match last_binding(&self.vars, name) {
            Some(i) => {
                proof {
                    lemma_bindings_last(self.vars@, name@, i as int);
                }
                Some(self.vars[i].value.as_str())
            },
            None => {
                proof {
                    lemma_bindings_none(self.vars@, name@);
                }
                None
            },
        }
    }

    /// The variables to set for the launch, in the order in which to set
    /// them: setting them one after the other gives this environment.
    pub fn variables(&self) -> (vars: &Vec<Variable>)
        ensures
            bindings(vars@) == self@,
    {
        &self.vars
    }
}

/// Builds the environment of the backend from the inherited one, for a fixed,
/// ordered list of directories that the search path has to list.
#[derive(Debug)]
pub struct EnvironmentBuilder {
    directories: Vec<String>,
}

impl EnvironmentBuilder {
    /// The directories that this builder makes sure of, in order.
    pub closed spec fn directories(&self) -> Seq<Seq<char>> {
        self.directories.deep_view()
    }

    /// A builder for the given directories.
    pub fn new(directories: Vec<String>) -> (builder: EnvironmentBuilder)
        ensures
            builder.directories() == directories.deep_view(),
    {
        EnvironmentBuilder { directories }
    }

    /// A builder for the well-known directories in which package managers
    /// and the system install executables.
    pub fn well_known() -> (builder: EnvironmentBuilder)
        ensures
            builder.directories() == well_known_directories(),
    {
        let mut directories: Vec<String> = Vec::new();
        directories.push("/opt/homebrew/bin".to_owned());
        directories.push("/usr/local/bin".to_owned());
        directories.push("/usr/bin".to_owned());
        directories.push("/bin".to_owned());
        assert(directories.deep_view() =~= well_known_directories());
        EnvironmentBuilder { directories }
    }

    /// The environment for one launch: the inherited variables `base`, with
    /// the search path repaired. A base without a search path counts as one
    /// with the empty path.
    pub fn build(&self, base: &Vec<Variable>) -> (env: EnvironmentSpec)
        ensures
            env@ == built(bindings(base@), self.directories()),
    {
        let found = last_binding(base, "PATH");
        let base_path: &str = match found {
            Some(i) => base[i].value.as_str(),
            None => "",
        };
        proof {
            reveal_strlit("");
            match found {
                Some(i) => lemma_bindings_last(base@, "PATH"@, i as int),
                None => lemma_bindings_none(base@, "PATH"@),
            }
            assert(base_path@ =~= search_path_of(bindings(base@)));
        }
        let path = repair(base_path, &self.directories);
        let mut vars: Vec<Variable> = Vec::new();
        let mut i: usize = 0;
        while i < base.len()
            invariant
                i <= base.len(),
                vars@ == base@.take(i as int),
            decreases base.len() - i,
        {
            let copy = Variable { name: base[i].name.clone(), value: base[i].value.clone() };
            vars.push(copy);
            i += 1;
            assert(vars@ =~= base@.take(i as int));
        }
        assert(base@.take(i as int) =~= base@);
        vars.push(Variable { name: "PATH".to_owned(), value: path });
        assert(vars@.drop_last() =~= base@);
        EnvironmentSpec { vars }
    }
}

} // verus!
