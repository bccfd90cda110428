//! The shell's settings: where the configuration script is looked for, what
//! holds without one, and what is derived from the settings it makes.

use crate::text::{option_view, views};
use vstd::prelude::*;
use vstd::string::*;

verus! {

/// The file names under which a configuration script is looked for, in the
/// order of their priority.
pub open spec fn candidate_names() -> Seq<Seq<char>> {
    seq!["config.lua"@, ".config.lua"@, ".sfshrc.lua"@, ".sfshrc"@, ".sfsh.rc"@]
}

/// The module directory where the configuration names none.
pub open spec fn default_modules_path() -> Seq<char> {
    "./modules"@
}

/// The history file where the configuration names none.
pub open spec fn default_history_file() -> Seq<char> {
    "~/.sfsh_history"@
}

/// The history file, in the working directory, where the configured one lies
/// under a home directory that is not known.
pub open spec fn fallback_history_file() -> Seq<char> {
    ".sfsh_history"@
}

/// What joins the module directory to the interpreter's search path.
pub open spec fn search_pattern() -> Seq<char> {
    "/?.lua;"@
}

/// The interpreter's search path once the module directory is put before
/// what the path held.
pub open spec fn search_path_of(modules_path: Seq<char>, current: Seq<char>) -> Seq<char> {
    modules_path + search_pattern() + current
}

/// Whether a configured history file lies under the home directory.
pub open spec fn under_home(file: Seq<char>) -> bool {
    file.len() >= 2 && file[0] == '~' && file[1] == '/'
}

/// The index of the first flag that is set, or the number of flags where
/// none is.
pub open spec fn first_set(flags: Seq<bool>) -> int
    decreases flags.len(),
{
    if flags.len() == 0 || flags[0] {
        0
    } else {
        1 + first_set(flags.drop_first())
    }
}

/// The configuration file that is taken where `present[i]` says whether the
/// candidate `i` exists: the first that does. A candidate without a flag
/// counts as absent.
pub open spec fn chosen_config(present: Seq<bool>) -> Option<Seq<char>> {
    let i = first_set(present);
    if i < present.len() && i < candidate_names().len() {
        Some(candidate_names()[i])
    } else {
        None
    }
}

/// `first_set` gives the least index of a set flag.
pub proof fn lemma_first_set(flags: Seq<bool>)
    ensures
        0 <= first_set(flags) <= flags.len(),
        forall|k: int| 0 <= k < first_set(flags) ==> !#[trigger] flags[k],
        first_set(flags) < flags.len() ==> flags[first_set(flags)],
    decreases flags.len(),
{
    if flags.len() == 0 || flags[0] {
    } else {
        let t = flags.drop_first();
        lemma_first_set(t);
        assert forall|k: int| 0 <= k < first_set(flags) implies !#[trigger] flags[k] by {
            if k > 0 {
                assert(flags[k] == t[k - 1]);
            }
        }
        if first_set(flags) < flags.len() {
            assert(flags[first_set(flags)] == t[first_set(t)]);
        }
    }
}

/// An index with a set flag and none before it is what `first_set` gives.
pub proof fn lemma_first_set_is(flags: Seq<bool>, i: int)
    requires
        0 <= i <= flags.len(),
        forall|k: int| 0 <= k < i ==> !#[trigger] flags[k],
        i < flags.len() ==> flags[i],
    ensures
        first_set(flags) == i,
{
    lemma_first_set(flags);
    let j = first_set(flags);
    if j < i {
        assert(!flags[j]);
    }
    if i < j {
        assert(!flags[i]);
    }
}

/// The first candidate that exists is chosen, whichever of the later ones
/// exist as well.
pub proof fn lemma_first_candidate_wins(present: Seq<bool>, i: int)
    requires
        0 <= i < present.len(),
        i < candidate_names().len(),
        present[i],
        forall|k: int| 0 <= k < i ==> !#[trigger] present[k],
    ensures
        chosen_config(present) == Some(candidate_names()[i]),
{
    lemma_first_set_is(present, i);
}

/// Where no candidate exists, none is chosen.
pub proof fn lemma_no_candidate(present: Seq<bool>)
    requires
        forall|k: int| 0 <= k < present.len() ==> !#[trigger] present[k],
    ensures
        chosen_config(present) is None,
{
    lemma_first_set(present);
}

/// The candidate file names, in the order of their priority.
pub fn candidates() -> (names: Vec<String>)
    ensures
        views(names@) == candidate_names(),
{
    let mut names: Vec<String> = Vec::new();
    names.push("config.lua".to_owned());
    names.push(".config.lua".to_owned());
    names.push(".sfshrc.lua".to_owned());
    names.push(".sfshrc".to_owned());
    names.push(".sfsh.rc".to_owned());
    assert(views(names@) =~= candidate_names());
    names
}

/// Picks the configuration file: the first candidate that exists, where
/// `present[i]` says whether the candidate `i` does.
pub fn find_config(present: &Vec<bool>) -> (found: Option<String>)
    ensures
        option_view(found) == chosen_config(present@),
{
    let names = candidates();
    let mut i: usize = 0;
    while i < present.len() && i < names.len()
        invariant
            i <= present.len(),
            i <= names.len(),
            views(names@) == candidate_names(),
            forall|k: int| 0 <= k < i ==> !#[trigger] present@[k],
        decreases present.len() - i,
    {
        if present[i] {
            proof {
                lemma_first_set_is(present@, i as int);
                assert(views(names@)[i as int] == names@[i as int]@);
            }
            return Some(names[i].clone());
        }
        i += 1;
    }
    proof {
        lemma_first_set(present@);
        if first_set(present@) < i {
            assert(!present@[first_set(present@)]);
        }
    }
    None
}

/// The module directory where the configuration names none.
pub fn modules_path_default() -> (s: String)
    ensures
        s@ == default_modules_path(),
{
    "./modules".to_owned()
}

/// The history file where the configuration names none.
pub fn history_file_default() -> (s: String)
    ensures
        s@ == default_history_file(),
{
    "~/.sfsh_history".to_owned()
}

/// Puts the module directory before what the interpreter's search path held.
pub fn search_path(modules_path: &str, current: &str) -> (path: String)
    ensures
        path@ == search_path_of(modules_path@, current@),
{
    let mut path: String = modules_path.to_owned();
    path.append("/?.lua;");
    path.append(current);
    path
}

/// Where the history is kept.
#[derive(Clone, Debug, PartialEq, Eq)]
pub enum HistoryLocation {
    /// In the home directory `home`, at `rest` below it.
    UnderHome { home: String, rest: String },
    /// In the fallback file of the working directory, because the configured
    /// file lies under a home directory that is not known.
    Fallback(String),
    /// At the configured path as it stands.
    AsGiven(String),
}

/// Whether `place` is where the configured history file `file` is kept,
/// given the home directory.
pub open spec fn is_history_location(
    place: HistoryLocation,
    file: Seq<char>,
    home: Option<String>,
) -> bool {
    match place {
        HistoryLocation::UnderHome { home: h, rest } => under_home(file) && home == Some(h)
            && rest@ == file.skip(2),
        HistoryLocation::Fallback(name) => under_home(file) && home is None && name@
            == fallback_history_file(),
        HistoryLocation::AsGiven(path) => !under_home(file) && path@ == file,
    }
}

/// Resolves the configured history file: one that starts with `~/` lies
/// under the home directory, or in the fallback file where no home
/// directory is known; any other is taken as it stands.
pub fn history_location(file: &str, home: Option<String>) -> (place: HistoryLocation)
    ensures
        is_history_location(place, file@, home),
{
    let n: usize = file.unicode_len();
    if n >= 2 && file.get_char(0) == '~' && file.get_char(1) == '/' {
        match home {
            Some(h) => {
                let rest: String = file.substring_char(2, n).to_owned();
                assert(file@.subrange(2, n as int) =~= file@.skip(2));
                HistoryLocation::UnderHome { home: h, rest }
            },
            None => HistoryLocation::Fallback(".sfsh_history".to_owned()),
        }
    } else {
        HistoryLocation::AsGiven(file.to_owned())
    }
}

} // verus!
