//! The operation that a repository is in the middle of, if any.

use crate::text::{chars_of, same_chars, string_of, views};
use vstd::prelude::*;

verus! {

/// An operation that git leaves unfinished until its conflicts are resolved.
#[derive(Clone, Copy, Debug, PartialEq, Eq, Structural)]
pub enum GitPatch {
    Merge,
    Rebase,
    CherryPick,
    Revert,
}

impl GitPatch {
    /// The character that stands for the operation in the prompt.
    pub open spec fn symbol(self) -> char {
        match self {
            GitPatch::Merge => 'M',
            GitPatch::Rebase => 'B',
            GitPatch::CherryPick => 'H',
            GitPatch::Revert => 'V',
        }
    }

    /// The name of the entry of the repository's metadata directory that
    /// exists while the operation is unfinished.
    pub open spec fn marker(self) -> Seq<char> {
        match self {
            GitPatch::Merge => "MERGE_HEAD"@,
            GitPatch::Rebase => "rebase-merge"@,
            GitPatch::CherryPick => "CHERRY_PICK_HEAD"@,
            GitPatch::Revert => "REVERT_HEAD"@,
        }
    }

    /// The operation that `present` gives away, where `present` holds the
    /// names of the markers that exist. When several exist, a merge takes
    /// precedence over a rebase, a rebase over a cherry-pick, and a
    /// cherry-pick over a revert.
    pub open spec fn detected(present: Seq<Seq<char>>) -> Option<GitPatch> {
        if present.contains(GitPatch::Merge.marker()) {
            Some(GitPatch::Merge)
        } else if present.contains(GitPatch::Rebase.marker()) {
            Some(GitPatch::Rebase)
        } else if present.contains(GitPatch::CherryPick.marker()) {
            Some(GitPatch::CherryPick)
        } else if present.contains(GitPatch::Revert.marker()) {
            Some(GitPatch::Revert)
        } else {
            None
        }
    }

    /// Executable form of [`GitPatch::symbol`].
    pub fn symbol_char(self) -> (c: char)
        ensures
            c == self.symbol(),
    {
        match self {
            GitPatch::Merge => 'M',
            GitPatch::Rebase => 'B',
            GitPatch::CherryPick => 'H',
            GitPatch::Revert => 'V',
        }
    }

    /// The symbol of the operation as a string of one character.
    pub fn to_string(&self) -> (s: String)
        ensures
            s@ == seq![self.symbol()],
    {
        let mut chars: Vec<char> = Vec::new();
        chars.push(self.symbol_char());
        string_of(chars.as_slice())
    }

    /// Executable form of [`GitPatch::marker`].
    pub fn marker_file(self) -> (name: &'static str)
        ensures
            name@ == self.marker(),
    {
        match self {
            GitPatch::Merge => "MERGE_HEAD",
            GitPatch::Rebase => "rebase-merge",
            GitPatch::CherryPick => "CHERRY_PICK_HEAD",
            GitPatch::Revert => "REVERT_HEAD",
        }
    }

    /// Whether the marker of the operation is among `present`.
    fn is_among(self, present: &[String]) -> (r: bool)
        ensures
            r == views(present@).contains(self.marker()),
    {
        let marker = chars_of(self.marker_file());
        let mut i: usize = 0;
        while i < present.len()
            invariant
                i <= present@.len(),
                marker@ == self.marker(),
                forall|j: int| 0 <= j < i ==> views(present@)[j] != self.marker(),
            decreases present@.len() - i,
        {
            let name = chars_of(present[i].as_str());
            if same_chars(name.as_slice(), marker.as_slice()) {
                assert(views(present@)[i as int] == self.marker());
                return true;
            }
            i += 1;
        }
        false
    }

    /// Tells from the markers that exist which operation is unfinished.
    /// `present` holds the names of the existing entries of the repository's
    /// metadata directory; names that mark no operation are ignored.
    pub fn detect(present: &[String]) -> (patch: Option<GitPatch>)
        ensures
            patch == GitPatch::detected(views(present@)),
    {
        if GitPatch::Merge.is_among(present) {
            Some(GitPatch::Merge)
        } else if GitPatch::Rebase.is_among(present) {
            Some(GitPatch::Rebase)
        } else if GitPatch::CherryPick.is_among(present) {
            Some(GitPatch::CherryPick)
        } else if GitPatch::Revert.is_among(present) {
            Some(GitPatch::Revert)
        } else {
            None
        }
    }
}

} // verus!
