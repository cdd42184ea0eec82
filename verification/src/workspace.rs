//! What is already on disk: the Git directories that the caller found.

use vstd::prelude::*;
use vstd::string::*;
use crate::paths::{git_dir, git_dir_of};

verus! {

/// The Git directories that were found on disk before the run began. A repository counts
/// as cloned exactly if its Git directory is among them.
#[derive(Debug)]
pub struct Workspace {
    found: Vec<String>,
}

impl View for Workspace {
    type V = Set<Seq<char>>;

    closed spec fn view(&self) -> Set<Seq<char>> {
        Set::new(
            |path: Seq<char>|
                exists|i: int| 0 <= i < self.found@.len() && self.found@[i]@ == path,
        )
    }
}

impl Workspace {
    /// A workspace in which nothing was found.
    pub fn new() -> (workspace: Self)
        ensures
            workspace@ == Set::<Seq<char>>::empty(),
    {
        let workspace = Workspace { found: Vec::new() };
        workspace
    }

    /// Notes that the directory `path` is there.
    pub fn add(&mut self, path: String)
        ensures
            final(self)@ == old(self)@.insert(path@),
    {
        self.found.push(path);
        assert forall|p: Seq<char>| self@.contains(p) == old(self)@.insert(path@).contains(p) by {
            if old(self)@.contains(p) {
                let i = choose|i: int| 0 <= i < old(self).found@.len() && old(self).found@[i]@ == p;
                assert(self.found@[i]@ == p);
            }
            if p == path@ {
                assert(self.found@[self.found@.len() - 1]@ == p);
            }
        }
    }

    /// Whether the directory `path` was found.
    pub fn contains(&self, path: &str) -> (found: bool)
        ensures
            found == self@.contains(path@),
    {
        let wanted = path.to_owned();
        let mut i: usize = 0;
        while i < self.found.len()
            invariant
                i <= self.found.len(),
                wanted@ == path@,
                forall|k: int| 0 <= k < i ==> self.found@[k]@ != path@,
            decreases self.found.len() - i,
        {
            if self.found[i] == wanted {
                return true;
            }
            i += 1;
        }
        false
    }

    /// Whether the repository at `local_path` is cloned: its Git directory was found.
    pub fn has_repository(&self, local_path: &str) -> (cloned: bool)
        ensures
            cloned == self@.contains(git_dir(local_path@)),
    {
        let dir = git_dir_of(local_path);
        self.contains(dir.as_str())
    }
}

} // verus!
