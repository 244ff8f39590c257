//! The status record of a working tree and the parser that reads it from the
//! output of `git status --porcelain=v2 --branch --show-stash`.

use crate::entry::{staged_entry, unstaged_entry, EntryPatterns};
use crate::text::{
    chars_of, fields, parse_signed_decimal, push_all, same_chars, signed_decimal, split_fields,
    split_trimmed_lines, starts_with, string_of, trimmed_lines, views,
};
use std::str::FromStr;
use vstd::prelude::*;
use vstd::slice::slice_subrange;

verus! {

/// What is wrong with a status text that cannot be parsed.
#[derive(Clone, Copy, Debug, PartialEq, Eq, Structural)]
pub enum Malformation {
    /// The text has no first line, where the `# branch.oid` header belongs.
    MissingOidHeader,
    /// The first line has fewer than three fields.
    MalformedOidHeader,
    /// The text has no second line, where the `# branch.head` header belongs.
    MissingHeadHeader,
    /// The second line has fewer than three fields.
    MalformedHeadHeader,
    /// The commit id of the first line has fewer than seven characters.
    TruncatedCommitId,
    /// The `# branch.ab` header has no third field.
    MissingOutgoingCount,
    /// The third field of the `# branch.ab` header is no number.
    InvalidOutgoingCount,
    /// The `# branch.ab` header has no fourth field.
    MissingIncomingCount,
    /// The fourth field of the `# branch.ab` header is no number.
    InvalidIncomingCount,
}

impl Malformation {
    /// A sentence that describes the defect.
    pub open spec fn description(self) -> Seq<char> {
        match self {
            Malformation::MissingOidHeader => "Missing # branch.oid header in git status output"@,
            Malformation::MalformedOidHeader => "Malformed # branch.oid header in git status output"@,
            Malformation::MissingHeadHeader => "Missing # branch.head header in git status output"@,
            Malformation::MalformedHeadHeader => "Malformed # branch.head header in git status output"@,
            Malformation::TruncatedCommitId => "Truncated commit id in git status # branch.oid header"@,
            Malformation::MissingOutgoingCount => "Missing outgoing count in git status # branch.ab header"@,
            Malformation::InvalidOutgoingCount => "Failed to parse outgoing count in git status # branch.ab header"@,
            Malformation::MissingIncomingCount => "Missing incoming count in git status # branch.ab header"@,
            Malformation::InvalidIncomingCount => "Failed to parse incoming count in git status # branch.ab header"@,
        }
    }

    /// Executable form of [`Malformation::description`].
    pub fn describe(self) -> (text: &'static str)
        ensures
            text@ == self.description(),
    {
        match self {
            Malformation::MissingOidHeader => "Missing # branch.oid header in git status output",
            Malformation::MalformedOidHeader => "Malformed # branch.oid header in git status output",
            Malformation::MissingHeadHeader => "Missing # branch.head header in git status output",
            Malformation::MalformedHeadHeader => "Malformed # branch.head header in git status output",
            Malformation::TruncatedCommitId => "Truncated commit id in git status # branch.oid header",
            Malformation::MissingOutgoingCount => "Missing outgoing count in git status # branch.ab header",
            Malformation::InvalidOutgoingCount => "Failed to parse outgoing count in git status # branch.ab header",
            Malformation::MissingIncomingCount => "Missing incoming count in git status # branch.ab header",
            Malformation::InvalidIncomingCount => "Failed to parse incoming count in git status # branch.ab header",
        }
    }
}

/// The error of the parser. A status text is either parsed in full or
/// rejected as malformed, with the defect that was found first.
#[derive(Clone, Copy, Debug, PartialEq, Eq, Structural)]
pub enum ParseError {
    /// The status text lacks a header or holds one that cannot be read.
    MalformedStatusInput(Malformation),
}

impl ParseError {
    /// The defect that the error reports.
    pub open spec fn cause(self) -> Malformation {
        match self {
            ParseError::MalformedStatusInput(cause) => cause,
        }
    }

    /// A sentence that describes the error.
    pub fn to_string(&self) -> (text: String)
        ensures
            text@ == self.cause().description(),
    {
        match self {
            ParseError::MalformedStatusInput(cause) => cause.describe().to_owned(),
        }
    }
}

/// How the local branch stands against the branch that it tracks.
#[derive(Clone, Copy, Debug, PartialEq, Eq, Structural)]
pub struct GitRemoteDiff {
    /// The upstream branch has commits that the local branch lacks.
    pub incoming: bool,
    /// The local branch has commits that the upstream branch lacks.
    pub outgoing: bool,
}

/// Whether the trimmed line `line` is the upstream header, which holds the
/// counts of the commits ahead of and behind the upstream branch.
pub open spec fn upstream_header(line: Seq<char>) -> bool {
    "# branch.ab"@.is_prefix_of(line)
}

/// Executable form of [`upstream_header`].
pub fn is_upstream_header(line: &[char]) -> (r: bool)
    ensures
        r == upstream_header(line@),
{
    starts_with(line, chars_of("# branch.ab").as_slice())
}

/// The kinds of lines that set a flag of the record.
#[derive(Clone, Copy, Debug, PartialEq, Eq, Structural)]
pub enum LineKind {
    /// The `# stash` header, present when something is stashed.
    Stash,
    /// The entry of an untracked file.
    Untracked,
    /// A changed entry with a staged change.
    Staged,
    /// A changed entry with an unstaged change.
    Unstaged,
}

impl LineKind {
    /// Whether the trimmed line `line` is of the kind. The stash header and
    /// the entries of untracked files are told by how they start, the changed
    /// entries by their pattern.
    pub open spec fn accepts(self, line: Seq<char>) -> bool {
        match self {
            LineKind::Stash => "# stash"@.is_prefix_of(line),
            LineKind::Untracked => "?"@.is_prefix_of(line),
            LineKind::Staged => staged_entry(line),
            LineKind::Unstaged => unstaged_entry(line),
        }
    }

    /// Executable form of [`LineKind::accepts`].
    pub fn matches(self, line: &[char], patterns: &EntryPatterns) -> (r: bool)
        ensures
            r == self.accepts(line@),
    {
        match self {
            LineKind::Stash => starts_with(line, chars_of("# stash").as_slice()),
            LineKind::Untracked => starts_with(line, chars_of("?").as_slice()),
            LineKind::Staged => patterns.is_staged(line),
            LineKind::Unstaged => patterns.is_unstaged(line),
        }
    }
}

/// Whether one of `lines` is of kind `kind`.
pub open spec fn any_line(lines: Seq<Seq<char>>, kind: LineKind) -> bool {
    exists|i: int| 0 <= i < lines.len() && kind.accepts(#[trigger] lines[i])
}

/// Executable form of [`any_line`].
pub fn has_line(lines: &[Vec<char>], kind: LineKind, patterns: &EntryPatterns) -> (r: bool)
    ensures
        r == any_line(views(lines@), kind),
{
    let mut i: usize = 0;
    while i < lines.len()
        invariant
            i <= lines@.len(),
            forall|j: int| 0 <= j < i ==> !kind.accepts(#[trigger] views(lines@)[j]),
        decreases lines@.len() - i,
    {
        if kind.matches(lines[i].as_slice(), patterns) {
            assert(kind.accepts(views(lines@)[i as int]));
            return true;
        }
        i += 1;
    }
    false
}

/// The word that stands in the branch field of the second header when no
/// branch is checked out.
pub open spec fn detached_marker() -> Seq<char> {
    "(detached)"@
}

/// The name shown for a detached head: the first seven characters of the
/// commit id, in parentheses and followed by an ellipsis.
pub open spec fn detached_name(commit_id: Seq<char>) -> Seq<char> {
    seq!['('] + commit_id.take(7) + seq!['.', '.', '.', ')']
}

/// The branch name that the first two of `lines` give, or the defect that
/// keeps them from giving one. The third field of the first line is the
/// commit id, which has seven characters or more; the third field of the
/// second line is the branch, or the marker of a detached head, which is
/// named after the commit id.
pub open spec fn branch_name_of(lines: Seq<Seq<char>>) -> Result<Seq<char>, ParseError> {
    if lines.len() < 1 {
        Err(ParseError::MalformedStatusInput(Malformation::MissingOidHeader))
    } else if fields(lines[0]).len() < 3 {
        Err(ParseError::MalformedStatusInput(Malformation::MalformedOidHeader))
    } else if lines.len() < 2 {
        Err(ParseError::MalformedStatusInput(Malformation::MissingHeadHeader))
    } else if fields(lines[1]).len() < 3 {
        Err(ParseError::MalformedStatusInput(Malformation::MalformedHeadHeader))
    } else if fields(lines[0])[2].len() < 7 {
        Err(ParseError::MalformedStatusInput(Malformation::TruncatedCommitId))
    } else if fields(lines[1])[2] == detached_marker() {
        Ok(detached_name(fields(lines[0])[2]))
    } else {
        Ok(fields(lines[1])[2])
    }
}

impl GitRemoteDiff {
    /// The divergence that the counts of the `# branch.ab` header stand for:
    /// `outgoing` commits ahead of upstream and `incoming` commits behind.
    /// Only whether a count is zero matters, not its sign.
    pub open spec fn of_counts(outgoing: int, incoming: int) -> GitRemoteDiff {
        GitRemoteDiff { incoming: incoming != 0, outgoing: outgoing != 0 }
    }

    /// The symbols that show the divergence: `=` where the branches are on
    /// par, else `<` for incoming commits, then `>` for outgoing ones.
    pub open spec fn symbols(self) -> Seq<char> {
        if !self.incoming && !self.outgoing {
            seq!['=']
        } else if !self.outgoing {
            seq!['<']
        } else if !self.incoming {
            seq!['>']
        } else {
            seq!['<', '>']
        }
    }

    /// Executable form of [`GitRemoteDiff::symbols`].
    pub fn symbol_chars(&self) -> (chars: Vec<char>)
        ensures
            chars@ == self.symbols(),
    {
        let mut chars: Vec<char> = Vec::new();
        if !self.incoming && !self.outgoing {
            chars.push('=');
            return chars;
        }
        if self.incoming {
            chars.push('<');
        }
        if self.outgoing {
            chars.push('>');
        }
        assert(chars@ =~= self.symbols());
        chars
    }

    /// The symbols of the divergence as a string.
    pub fn to_string(&self) -> (text: String)
        ensures
            text@ == self.symbols(),
    {
        let chars = self.symbol_chars();
        string_of(chars.as_slice())
    }

    /// The divergence that the upstream header `header` reports, or the
    /// defect of the header. Its third field counts the outgoing commits, its
    /// fourth the incoming ones.
    pub open spec fn of_header(header: Seq<char>) -> Result<GitRemoteDiff, ParseError> {
        let counts = fields(header);
        if counts.len() < 3 {
            Err(ParseError::MalformedStatusInput(Malformation::MissingOutgoingCount))
        } else if signed_decimal(counts[2]) is None {
            Err(ParseError::MalformedStatusInput(Malformation::InvalidOutgoingCount))
        } else if counts.len() < 4 {
            Err(ParseError::MalformedStatusInput(Malformation::MissingIncomingCount))
        } else if signed_decimal(counts[3]) is None {
            Err(ParseError::MalformedStatusInput(Malformation::InvalidIncomingCount))
        } else {
            Ok(GitRemoteDiff::of_counts(signed_decimal(counts[2])->0, signed_decimal(counts[3])->0))
        }
    }

    /// The divergence that `lines` report: that of their first upstream
    /// header, and none where no line is one.
    pub open spec fn of_lines(lines: Seq<Seq<char>>) -> Result<Option<GitRemoteDiff>, ParseError>
        decreases lines.len(),
    {
        if lines.len() == 0 {
            Ok(None)
        } else if upstream_header(lines[0]) {
            match GitRemoteDiff::of_header(lines[0]) {
                Ok(diff) => Ok(Some(diff)),
                Err(error) => Err(error),
            }
        } else {
            GitRemoteDiff::of_lines(lines.drop_first())
        }
    }

    /// Reads the counts of an upstream header.
    fn parse_header(header: &[char]) -> (r: Result<GitRemoteDiff, ParseError>)
        ensures
            r == GitRemoteDiff::of_header(header@),
    {
        let counts = split_fields(header);
        if counts.len() < 3 {
            return Err(ParseError::MalformedStatusInput(Malformation::MissingOutgoingCount));
        }
        assert(views(counts@)[2] == counts@[2]@);
        let outgoing_count = match parse_signed_decimal(counts[2].as_slice()) {
            Some(count) => count,
            None => {
                return Err(ParseError::MalformedStatusInput(Malformation::InvalidOutgoingCount));
            },
        };
        if counts.len() < 4 {
            return Err(ParseError::MalformedStatusInput(Malformation::MissingIncomingCount));
        }
        assert(views(counts@)[3] == counts@[3]@);
        let incoming_count = match parse_signed_decimal(counts[3].as_slice()) {
            Some(count) => count,
            None => {
                return Err(ParseError::MalformedStatusInput(Malformation::InvalidIncomingCount));
            },
        };
        Ok(GitRemoteDiff { incoming: incoming_count != 0, outgoing: outgoing_count != 0 })
    }

    /// Finds the first upstream header among the trimmed lines `lines` and
    /// reads the divergence from it.
    pub fn parse(lines: &[Vec<char>]) -> (r: Result<Option<GitRemoteDiff>, ParseError>)
        ensures
            r == GitRemoteDiff::of_lines(views(lines@)),
    {
        let mut i: usize = 0;
        proof {
            assert(views(lines@).skip(0) =~= views(lines@));
        }
        while i < lines.len()
            invariant
                i <= lines@.len(),
                GitRemoteDiff::of_lines(views(lines@).skip(i as int)) == GitRemoteDiff::of_lines(
                    views(lines@),
                ),
            decreases lines@.len() - i,
        {
            proof {
                let rest = views(lines@).skip(i as int);
                assert(rest[0] == lines@[i as int]@);
                assert(rest.drop_first() =~= views(lines@).skip(i + 1));
            }
            if is_upstream_header(lines[i].as_slice()) {
                return match GitRemoteDiff::parse_header(lines[i].as_slice()) {
                    Ok(diff) => Ok(Some(diff)),
                    Err(error) => Err(error),
                };
            }
            i += 1;
        }
        Ok(None)
    }
}

/// The status of a working tree, as the prompt shows it.
#[derive(Clone, Debug, PartialEq, Eq)]
pub struct GitInfo {
    /// The checked-out branch, or a short commit id where the head is detached.
    pub branch_name: String,
    /// The divergence from the upstream branch, if the branch tracks one.
    pub remote_diff: Option<GitRemoteDiff>,
    /// Something is stashed.
    pub stash: bool,
    /// Some file is untracked.
    pub untracked: bool,
    /// Some change is staged.
    pub staged: bool,
    /// Some change is not staged.
    pub unstaged: bool,
}

/// The mathematical content of a [`GitInfo`].
pub struct GitInfoView {
    pub branch_name: Seq<char>,
    pub remote_diff: Option<GitRemoteDiff>,
    pub stash: bool,
    pub untracked: bool,
    pub staged: bool,
    pub unstaged: bool,
}

impl View for GitInfo {
    type V = GitInfoView;

    open spec fn view(&self) -> GitInfoView {
        GitInfoView {
            branch_name: self.branch_name@,
            remote_diff: self.remote_diff,
            stash: self.stash,
            untracked: self.untracked,
            staged: self.staged,
            unstaged: self.unstaged,
        }
    }
}

/// The record that the trimmed lines `lines` of a status text stand for, or
/// the first defect in them. The first two lines are the headers that name
/// the commit and the branch; the lines after them are searched, in any
/// order, for the upstream header, the stash header and the entries.
pub open spec fn status_of_lines(lines: Seq<Seq<char>>) -> Result<GitInfoView, ParseError> {
    match branch_name_of(lines) {
        Err(error) => Err(error),
        Ok(branch_name) => {
            let rest = lines.skip(2);
            match GitRemoteDiff::of_lines(rest) {
                Err(error) => Err(error),
                Ok(remote_diff) => Ok(
                    GitInfoView {
                        branch_name,
                        remote_diff,
                        stash: any_line(rest, LineKind::Stash),
                        untracked: any_line(rest, LineKind::Untracked),
                        staged: any_line(rest, LineKind::Staged),
                        unstaged: any_line(rest, LineKind::Unstaged),
                    },
                ),
            }
        },
    }
}

/// The record that the status text `text` stands for, or its first defect.
pub open spec fn parse_status(text: Seq<char>) -> Result<GitInfoView, ParseError> {
    status_of_lines(trimmed_lines(text))
}

impl GitInfo {
    /// Derives the branch name from the two header lines at the start of the
    /// trimmed lines `lines`.
    pub fn make_branch_name(lines: &[Vec<char>]) -> (r: Result<String, ParseError>)
        ensures
            r matches Ok(name) ==> branch_name_of(views(lines@)) == Ok::<Seq<char>, ParseError>(
                name@,
            ),
            r matches Err(error) ==> branch_name_of(views(lines@)) == Err::<
                Seq<char>,
                ParseError,
            >(error),
    {
        if lines.len() < 1 {
            return Err(ParseError::MalformedStatusInput(Malformation::MissingOidHeader));
        }
        assert(views(lines@)[0] == lines@[0]@);
        let oid_fields = split_fields(lines[0].as_slice());
        if oid_fields.len() < 3 {
            return Err(ParseError::MalformedStatusInput(Malformation::MalformedOidHeader));
        }
        if lines.len() < 2 {
            return Err(ParseError::MalformedStatusInput(Malformation::MissingHeadHeader));
        }
        assert(views(lines@)[1] == lines@[1]@);
        let head_fields = split_fields(lines[1].as_slice());
        if head_fields.len() < 3 {
            return Err(ParseError::MalformedStatusInput(Malformation::MalformedHeadHeader));
        }
        assert(views(oid_fields@)[2] == oid_fields@[2]@);
        assert(views(head_fields@)[2] == head_fields@[2]@);
        let commit_id = oid_fields[2].as_slice();
        let branch = head_fields[2].as_slice();
        if commit_id.len() < 7 {
            return Err(ParseError::MalformedStatusInput(Malformation::TruncatedCommitId));
        }
        let detached = chars_of("(detached)");
        if !same_chars(branch, detached.as_slice()) {
            return Ok(string_of(branch));
        }
        let mut name: Vec<char> = Vec::new();
        name.push('(');
        push_all(&mut name, slice_subrange(commit_id, 0, 7));
        name.push('.');
        name.push('.');
        name.push('.');
        name.push(')');
        assert(name@ =~= detached_name(commit_id@));
        Ok(string_of(name.as_slice()))
    }
}

impl FromStr for GitInfo {
    type Err = ParseError;

    /// Parses the output of `git status --porcelain=v2 --branch --show-stash`.
    fn from_str(git_status_output: &str) -> (r: Result<GitInfo, ParseError>)
        ensures
            r matches Ok(info) ==> parse_status(git_status_output@) == Ok::<
                GitInfoView,
                ParseError,
            >(info@),
            r matches Err(error) ==> parse_status(git_status_output@) == Err::<
                GitInfoView,
                ParseError,
            >(error),
    {
        let text = chars_of(git_status_output);
        let lines = split_trimmed_lines(text.as_slice());
        let branch_name = GitInfo::make_branch_name(lines.as_slice())?;
        let rest = slice_subrange(lines.as_slice(), 2, lines.len());
        assert(views(rest@) =~= views(lines@).skip(2));
        let remote_diff = GitRemoteDiff::parse(rest)?;
        let patterns = EntryPatterns::new();
        let stash = has_line(rest, LineKind::Stash, &patterns);
        let untracked = has_line(rest, LineKind::Untracked, &patterns);
        let staged = has_line(rest, LineKind::Staged, &patterns);
        let unstaged = has_line(rest, LineKind::Unstaged, &patterns);
        Ok(GitInfo { branch_name, remote_diff, stash, untracked, staged, unstaged })
    }
}

} // verus!
