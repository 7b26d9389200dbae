//! Addressing of levels: which configuration a level uses, and the position
//! of a level inside a pack of level groups.

use vstd::prelude::*;

verus! {

/// Which machine configuration a level is played on.
#[derive(Debug, Clone, Copy, PartialEq, Eq, Hash, Structural)]
pub enum LevelType {
    Standard,
    Parallel,
}

impl Default for LevelType {
    /// A level without an explicit type is a standard level.
    fn default() -> (r: LevelType)
        ensures
            r == LevelType::Standard,
    {
        LevelType::Standard
    }
}

/// Position of one level: its pack, its group, its place in the group, and
/// — for a challenge level — which challenge of that level it is.
#[derive(Debug, Clone, Copy)]
pub struct LevelIndex {
    pack_index: usize,
    group: usize,
    level_in_group: usize,
    challenge: Option<usize>,
}

impl LevelIndex {
    pub closed spec fn pack_index_spec(&self) -> int {
        self.pack_index as int
    }

    pub closed spec fn group_spec(&self) -> int {
        self.group as int
    }

    pub closed spec fn level_in_group_spec(&self) -> int {
        self.level_in_group as int
    }

    pub closed spec fn challenge_spec(&self) -> Option<int> {
        match self.challenge {
            Some(c) => Some(c as int),
            None => None,
        }
    }

    /// The position of a main level.
    pub fn new(pack_index: usize, group: usize, level_in_group: usize) -> (r: LevelIndex)
        ensures
            r.pack_index_spec() == pack_index,
            r.group_spec() == group,
            r.level_in_group_spec() == level_in_group,
            r.challenge_spec() is None,
    {
        LevelIndex { pack_index, group, level_in_group, challenge: None }
    }

    /// The position of a challenge level attached to a main level.
    pub fn new_challenge(
        pack_index: usize,
        group: usize,
        level_in_group: usize,
        challenge: usize,
    ) -> (r: LevelIndex)
        ensures
            r.pack_index_spec() == pack_index,
            r.group_spec() == group,
            r.level_in_group_spec() == level_in_group,
            r.challenge_spec() == Some(challenge as int),
    {
        LevelIndex { pack_index, group, level_in_group, challenge: Some(challenge) }
    }

    pub fn get_level_pack_index(&self) -> (r: usize)
        ensures
            r == self.pack_index_spec(),
    {
        self.pack_index
    }

    pub fn get_group(&self) -> (r: usize)
        ensures
            r == self.group_spec(),
    {
        self.group
    }

    pub fn get_level_in_group(&self) -> (r: usize)
        ensures
            r == self.level_in_group_spec(),
    {
        self.level_in_group
    }

    pub fn get_challenge(&self) -> (r: Option<usize>)
        ensures
            r is Some <==> self.challenge_spec() is Some,
            r matches Some(c) ==> self.challenge_spec() == Some(c as int),
    {
        self.challenge
    }
}

impl Default for LevelIndex {
    /// The first main level of the first pack.
    fn default() -> (r: LevelIndex)
        ensures
            r.pack_index_spec() == 0,
            r.group_spec() == 0,
            r.level_in_group_spec() == 0,
            r.challenge_spec() is None,
    {
        LevelIndex::new(0, 0, 0)
    }
}

} // verus!
