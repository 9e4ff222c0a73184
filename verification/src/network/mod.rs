//! The list of game versions that the publisher announces.

use vstd::prelude::*;

use crate::text::same_text;

verus! {

/// The kinds of game version.
#[derive(Clone, Copy, Debug, PartialEq, Eq, Structural)]
pub enum VersionType {
    Release,
    Snapshot,
    OldAlpha,
    OldBeta,
}

impl VersionType {
    /// The kind that a word of the list stands for.
    pub open spec fn parsed(word: Seq<char>) -> Option<VersionType> {
        if word == "release"@ {
            Some(VersionType::Release)
        } else if word == "snapshot"@ {
            Some(VersionType::Snapshot)
        } else if word == "old_alpha"@ {
            Some(VersionType::OldAlpha)
        } else if word == "old_beta"@ {
            Some(VersionType::OldBeta)
        } else {
            None
        }
    }

    /// The kind that a word of the list stands for, if it stands for one.
    pub fn from_str(word: &str) -> (r: Option<VersionType>)
        ensures
            r == VersionType::parsed(word@),
    {
        if same_text(word, "release") {
            Some(VersionType::Release)
        } else if same_text(word, "snapshot") {
            Some(VersionType::Snapshot)
        } else if same_text(word, "old_alpha") {
            Some(VersionType::OldAlpha)
        } else if same_text(word, "old_beta") {
            Some(VersionType::OldBeta)
        } else {
            None
        }
    }
}

/// One announced game version.
#[derive(Clone, Debug)]
pub struct MinecraftVersion {
    pub id: String,
    pub version_type: VersionType,
    pub url: String,
    pub sha1: String,
}

/// The announced game versions, to be looked up by their id.
#[derive(Clone, Debug)]
pub struct MinecraftVersions {
    versions: Vec<MinecraftVersion>,
}

/// The index of the last of the first `upto` versions that has the id `id`,
/// if one has.
pub open spec fn announced_at(versions: Seq<MinecraftVersion>, id: Seq<char>, upto: int) -> Option<
    int,
>
    decreases upto,
{
    if upto <= 0 {
        None
    } else if versions[upto - 1].id@ == id {
        Some(upto - 1)
    } else {
        announced_at(versions, id, upto - 1)
    }
}

impl MinecraftVersions {
    /// The announced versions, in the order of the announcement.
    pub closed spec fn listed(&self) -> Seq<MinecraftVersion> {
        self.versions@
    }

    /// The versions of an announcement. Where an id is announced twice the
    /// later announcement counts.
    pub fn from(versions: Vec<MinecraftVersion>) -> (r: Self)
        ensures
            r.listed() == versions@,
    {
        Self { versions }
    }

    /// The version announced under `id`, if one is.
    pub fn get_version(&self, id: &str) -> (r: Option<&MinecraftVersion>)
        ensures
            match announced_at(self.listed(), id@, self.listed().len() as int) {
                Some(i) => r == Some(&self.listed()[i]),
                None => r is None,
            },
    {
        let mut i: usize = self.versions.len();
        while i > 0
            invariant
                i <= self.versions.len(),
                announced_at(self.versions@, id@, self.versions@.len() as int) == announced_at(
                    self.versions@,
                    id@,
                    i as int,
                ),
            decreases i,
        {
            i = i - 1;
            if same_text(self.versions[i].id.as_str(), id) {
                return Some(&self.versions[i]);
            }
        }
        None
    }
}

} // verus!
