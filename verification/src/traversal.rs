use vstd::prelude::*;

use std::collections::HashSet;

verus! {

broadcast use vstd::std_specs::hash::group_hash_axioms;

/// What the traversal decides about one directory entry.
pub open spec fn spec_entry_marks(
    visited: Set<u64>,
    inode: u64,
    is_symlink: bool,
    is_dir: bool,
) -> bool {
    !visited.contains(inode) && !is_symlink && is_dir
}

/// The visited set after one directory entry has been examined: every entry
/// whose inode is new and that is not a symbolic link is remembered,
/// whether file or directory.
pub open spec fn spec_entry_visited(
    visited: Set<u64>,
    inode: u64,
    is_symlink: bool,
) -> Set<u64> {
    if !visited.contains(inode) && !is_symlink {
        visited.insert(inode)
    } else {
        visited
    }
}

/// State of one recursive watch installation: the breadth-first queue of
/// directories still to be scanned, and the set of inodes already seen.
/// Both are local to a single `watch` call.
pub struct TraversalState {
    pub queue: Vec<Vec<u8>>,
    pub visited: HashSet<u64>,
}

impl TraversalState {
    /// Begin a breadth-first traversal at `root`. The root itself has
    /// already been marked by the caller; its own inode is deliberately
    /// never inserted, only inodes seen while walking.
    pub fn new(root: Vec<u8>) -> (s: TraversalState)
        ensures
            s.queue@.len() == 1,
            s.queue@[0] == root,
            s.visited@ == Set::<u64>::empty(),
    {
        TraversalState { queue: vec![root], visited: HashSet::new() }
    }

    /// Take the next directory to scan, in first-in first-out order; `None`
    /// ends the traversal.
    pub fn next_dir(&mut self) -> (d: Option<Vec<u8>>)
        ensures
            final(self).visited@ == old(self).visited@,
            old(self).queue@.len() == 0 ==> d is None && final(self).queue@ == old(self).queue@,
            old(self).queue@.len() > 0 ==> (match d {
                Some(p) => p == old(self).queue@[0] && final(self).queue@ == old(
                    self,
                ).queue@.drop_first(),
                None => false,
            }),
    {
        if self.queue.len() == 0 {
            None
        } else {
            Some(self.queue.remove(0))
        }
    }

    /// Examine one entry of the directory being scanned. Returns whether the
    /// entry must receive a mark and be scanned in turn: exactly the unseen,
    /// non-symlink directories. Unseen non-symlink files are remembered too,
    /// so a later hard link to them is not walked again.
    pub fn observe_entry(
        &mut self,
        inode: u64,
        is_symlink: bool,
        is_dir: bool,
        path: Vec<u8>,
    ) -> (mark: bool)
        ensures
            mark == spec_entry_marks(old(self).visited@, inode, is_symlink, is_dir),
            final(self).visited@ == spec_entry_visited(old(self).visited@, inode, is_symlink),
            mark ==> final(self).queue@ == old(self).queue@.push(path),
            !mark ==> final(self).queue@ == old(self).queue@,
    {
        if !self.visited.contains(&inode) && !is_symlink {
            self.visited.insert(inode);
            if is_dir {
                self.queue.push(path);
                return true;
            }
        }
        false
    }
}

/// Once an inode has been seen, examining any later entry with the same
/// inode asks for no second mark and changes nothing: installing a watch
/// over a tree that reaches a directory twice marks it only once.
pub proof fn lemma_entry_observed_once(
    visited: Set<u64>,
    inode: u64,
    is_symlink: bool,
    is_dir: bool,
    later_symlink: bool,
    later_dir: bool,
)
    requires
        !is_symlink,
    ensures
        !spec_entry_marks(
            spec_entry_visited(visited, inode, is_symlink),
            inode,
            later_symlink,
            later_dir,
        ),
        spec_entry_visited(
            spec_entry_visited(visited, inode, is_symlink),
            inode,
            later_symlink,
        ) == spec_entry_visited(visited, inode, is_symlink),
{
}

} // verus!
