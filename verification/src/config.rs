//! The list of directories that the user has chosen for indexing.

use vstd::prelude::*;
use vstd::string::StringExecFns;
use crate::command_result::CommandError;

verus! {

/// The persisted settings: the paths that are indexed.
#[derive(Debug)]
pub struct Config {
    pub paths: Vec<String>,
}

impl Default for Config {
    /// Settings without paths.
    fn default() -> (config: Config)
        ensures
            config.paths@.len() == 0,
    {
        Config { paths: Vec::new() }
    }
}

/// The text reported for a path that the list already holds.
pub open spec fn duplicate_path_text(path: Seq<char>) -> Seq<char> {
    path + "\n索引路径已存在！"@
}

impl Config {
    /// Tests whether `path` is among the paths.
    pub fn contains(&self, path: &str) -> (found: bool)
        ensures
            found == self.paths.deep_view().contains(path@),
    {
        let mut i: usize = 0;
        while i < self.paths.len()
            invariant
                i <= self.paths.len(),
                forall|k: int| 0 <= k < i ==> self.paths.deep_view()[k] != path@,
            decreases self.paths.len() - i,
        {
            if string_is(&self.paths[i], path) {
                assert(self.paths.deep_view()[i as int] == path@);
                return true;
            }
            i += 1;
        }
        false
    }
}

/// Tests whether a string holds exactly the characters of `other`.
fn string_is(text: &String, other: &str) -> (same: bool)
    ensures
        same == (text@ == other@),
{
    let copy = String::from_str(other);
    *text == copy
}

/// Adds `path` to the indexed paths. A path that is already there is
/// refused and the list stays as it was; the caller persists the list after
/// a success.
pub fn save_path(config: &mut Config, path: String) -> (saved: Result<(), CommandError>)
    ensures
        old(config).paths.deep_view().contains(path@) ==> {
            &&& saved matches Err(e)
            &&& e.0@ == duplicate_path_text(path@)
            &&& final(config).paths.deep_view() == old(config).paths.deep_view()
        },
        !old(config).paths.deep_view().contains(path@) ==> {
            &&& saved is Ok
            &&& final(config).paths.deep_view() == old(config).paths.deep_view().push(path@)
        },
{
    if config.contains(path.as_str()) {
        let text = path.concat("\n索引路径已存在！");
        Err(CommandError(text))
    } else {
        let ghost before = config.paths.deep_view();
        config.paths.push(path);
        assert(config.paths.deep_view() =~= before.push(path@));
        Ok(())
    }
}

/// The indexed paths, in the order in which they were added.
pub fn get_paths(config: Config) -> (paths: Vec<String>)
    ensures
        paths == config.paths,
{
    config.paths
}

} // verus!
