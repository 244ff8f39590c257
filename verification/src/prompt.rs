//! The prompt line: the current directory, then the version-control segment
//! with its symbols, between the escape sequences that colour them.

use crate::git_info::{parse_status, GitInfo, GitInfoView, GitRemoteDiff, ParseError};
use crate::git_patch::GitPatch;
use crate::text::{chars_of, push_all, string_of, views};
use crate::ZygalError;
use std::str::FromStr;
use vstd::prelude::*;

verus! {

/// What opens the prompt, before the current directory.
pub const CURRENT_DIR: &'static str = "%F{0}%K{208} ";

/// What closes the prompt: a line break and the line on which commands are
/// typed.
pub const NEW_LINE: &'static str = "\n%F{0}%K{208} %# %f%k ";

/// What the prompt reads of the current directory, with the home directory
/// already abbreviated to `~`.
#[derive(Clone, Debug, PartialEq, Eq)]
pub struct CurrentDir {
    /// The path as it is displayed.
    pub display: String,
    /// The number of components of the path, the root counted as one.
    pub components: usize,
    /// The last component of the path, unless the path ends in the root or
    /// in `..`.
    pub file_name: Option<String>,
}

impl CurrentDir {
    /// A path is only shortened to its last component when it has one.
    pub open spec fn well_formed(&self) -> bool {
        1 <= self.components <= 3 || self.file_name is Some
    }

    /// What the prompt shows of the directory: a path of one component
    /// between two spaces on each side, a path of two or three components as
    /// it is, and of a longer path the last component after `*/`.
    pub open spec fn segment_content(&self) -> Seq<char> {
        if self.components == 1 {
            seq![' ', ' '] + self.display@ + seq![' ', ' ']
        } else if self.components == 2 || self.components == 3 {
            self.display@
        } else {
            seq!['*', '/'] + self.file_name->0@
        }
    }
}

/// Renders the current directory for the prompt.
pub fn current_dir_segment_content(current_dir: &CurrentDir) -> (content: String)
    requires
        current_dir.well_formed(),
    ensures
        content@ == current_dir.segment_content(),
{
    let mut content: Vec<char> = Vec::new();
    if current_dir.components == 1 {
        content.push(' ');
        content.push(' ');
        push_all(&mut content, chars_of(current_dir.display.as_str()).as_slice());
        content.push(' ');
        content.push(' ');
    } else if current_dir.components == 2 || current_dir.components == 3 {
        push_all(&mut content, chars_of(current_dir.display.as_str()).as_slice());
    } else {
        content.push('*');
        content.push('/');
        match &current_dir.file_name {
            Some(file_name) => {
                push_all(&mut content, chars_of(file_name.as_str()).as_slice());
            },
            None => {},
        }
    }
    assert(content@ =~= current_dir.segment_content());
    string_of(content.as_slice())
}

impl GitInfoView {
    /// Whether the record holds nothing to show but the branch.
    pub open spec fn has_only_branch(self) -> bool {
        !(self.remote_diff is Some || self.stash || self.untracked || self.unstaged || self.staged)
    }
}

impl GitInfo {
    /// Whether the record holds nothing to show but the branch.
    pub fn has_only_branch(&self) -> (r: bool)
        ensures
            r == self@.has_only_branch(),
    {
        !(self.remote_diff.is_some() || self.stash || self.untracked || self.unstaged
            || self.staged)
    }
}

/// `symbol` if `present`, and nothing otherwise.
pub open spec fn symbol_if(present: bool, symbol: char) -> Seq<char> {
    if present {
        seq![symbol]
    } else {
        seq![]
    }
}

/// The symbol of the operation in progress, and nothing where there is none.
pub open spec fn patch_symbol(patch: Option<GitPatch>) -> Seq<char> {
    match patch {
        Some(patch) => seq![patch.symbol()],
        None => seq![],
    }
}

/// The symbols of the divergence from upstream, and nothing where the branch
/// tracks no upstream branch.
pub open spec fn remote_symbols(remote_diff: Option<GitRemoteDiff>) -> Seq<char> {
    match remote_diff {
        Some(remote_diff) => remote_diff.symbols(),
        None => seq![],
    }
}

/// The symbols that follow the branch name, in their fixed order: the
/// operation in progress, `*` for unstaged changes, `+` for staged changes,
/// `$` for a stash, `%` for untracked files, and the divergence from
/// upstream. What is absent contributes nothing.
pub open spec fn status_symbols(info: GitInfoView, patch: Option<GitPatch>) -> Seq<char> {
    patch_symbol(patch) + symbol_if(info.unstaged, '*') + symbol_if(info.staged, '+') + symbol_if(
        info.stash,
        '$',
    ) + symbol_if(info.untracked, '%') + remote_symbols(info.remote_diff)
}

/// The content of the version-control segment: the branch name alone where
/// there is nothing else to show, else the branch name, a space and the
/// symbols.
pub open spec fn segment_content(info: GitInfoView, patch: Option<GitPatch>) -> Seq<char> {
    if info.has_only_branch() && patch is None {
        info.branch_name
    } else {
        info.branch_name + seq![' '] + status_symbols(info, patch)
    }
}

/// Appends `symbol` to `out` if `present`.
fn push_if(out: &mut Vec<char>, present: bool, symbol: char)
    ensures
        final(out)@ == old(out)@ + symbol_if(present, symbol),
{
    if present {
        out.push(symbol);
    }
    assert(out@ =~= old(out)@ + symbol_if(present, symbol));
}

/// Executable form of [`status_symbols`].
fn status_symbol_chars(git_info: &GitInfo, git_patch: Option<GitPatch>) -> (symbols: Vec<char>)
    ensures
        symbols@ == status_symbols(git_info@, git_patch),
{
    let mut symbols: Vec<char> = Vec::new();
    if let Some(patch) = git_patch {
        symbols.push(patch.symbol_char());
    }
    assert(symbols@ =~= patch_symbol(git_patch));
    push_if(&mut symbols, git_info.unstaged, '*');
    push_if(&mut symbols, git_info.staged, '+');
    push_if(&mut symbols, git_info.stash, '$');
    push_if(&mut symbols, git_info.untracked, '%');
    let ghost flags = symbols@;
    if let Some(remote_diff) = git_info.remote_diff {
        push_all(&mut symbols, remote_diff.symbol_chars().as_slice());
    }
    assert(symbols@ =~= flags + remote_symbols(git_info.remote_diff));
    symbols
}

/// Encodes a status record and the operation in progress, if any, as the
/// content of the version-control segment.
pub fn git_segment_content(git_info: GitInfo, git_patch: Option<GitPatch>) -> (content: String)
    ensures
        content@ == segment_content(git_info@, git_patch),
{
    if git_info.has_only_branch() && git_patch.is_none() {
        return git_info.branch_name;
    }
    let symbols = status_symbol_chars(&git_info, git_patch);
    let mut content = chars_of(git_info.branch_name.as_str());
    content.push(' ');
    assert(content@ =~= git_info@.branch_name + seq![' ']);
    push_all(&mut content, symbols.as_slice());
    string_of(content.as_slice())
}

/// `s` as it has to be written in a zsh prompt to be shown as it is: with
/// every percent sign doubled.
pub open spec fn escaped(s: Seq<char>) -> Seq<char>
    decreases s.len(),
{
    if s.len() == 0 {
        seq![]
    } else if s.last() == '%' {
        escaped(s.drop_last()) + seq!['%', '%']
    } else {
        escaped(s.drop_last()) + seq![s.last()]
    }
}

/// Escapes `s` for a zsh prompt.
pub fn shell_escape(s: &str) -> (out: String)
    ensures
        out@ == escaped(s@),
{
    let chars = chars_of(s);
    let mut out: Vec<char> = Vec::new();
    let mut i: usize = 0;
    while i < chars.len()
        invariant
            i <= chars@.len(),
            out@ == escaped(chars@.take(i as int)),
        decreases chars@.len() - i,
    {
        assert(chars@.take(i + 1).drop_last() =~= chars@.take(i as int));
        if chars[i] == '%' {
            out.push('%');
            out.push('%');
        } else {
            out.push(chars[i]);
        }
        i += 1;
        assert(out@ =~= escaped(chars@.take(i as int)));
    }
    assert(chars@.take(chars@.len() as int) =~= chars@);
    string_of(out.as_slice())
}

/// The version-control segment of the prompt: the escaped content in square
/// brackets, on a background of its own.
pub open spec fn git_segment(content: Seq<char>) -> Seq<char> {
    "%K{220} ["@ + escaped(content) + "] "@
}

/// The prompt that shows `dir_content` and then `segment`.
pub open spec fn prompt_line(dir_content: Seq<char>, segment: Seq<char>) -> Seq<char> {
    CURRENT_DIR@ + dir_content + seq![' '] + segment + "%f%k"@ + NEW_LINE@
}

/// The prompt for the directory `current_dir`, the output `git_status` of
/// `git status`, absent outside a repository, and the operation `git_patch`
/// that the repository is in the middle of.
pub open spec fn prompt_of(
    current_dir: &CurrentDir,
    git_status: Option<&str>,
    git_patch: Option<GitPatch>,
) -> Result<Seq<char>, ParseError> {
    match git_status {
        None => Ok(prompt_line(current_dir.segment_content(), seq![])),
        Some(text) => match parse_status(text@) {
            Ok(info) => Ok(
                prompt_line(
                    current_dir.segment_content(),
                    git_segment(segment_content(info, git_patch)),
                ),
            ),
            Err(error) => Err(error),
        },
    }
}

/// Renders the prompt. Outside a repository, where there is no status
/// output, the prompt has no version-control segment and `git_patch` is not
/// looked at. Status output that cannot be parsed is an error.
pub fn prompt(
    current_dir: &CurrentDir,
    git_status: Option<&str>,
    git_patch: Option<GitPatch>,
) -> (r: Result<String, ParseError>)
    requires
        current_dir.well_formed(),
    ensures
        r matches Ok(line) ==> prompt_of(current_dir, git_status, git_patch) == Ok::<
            Seq<char>,
            ParseError,
        >(line@),
        r matches Err(error) ==> prompt_of(current_dir, git_status, git_patch) == Err::<
            Seq<char>,
            ParseError,
        >(error),
{
    let current_dir_content = current_dir_segment_content(current_dir);
    let mut line = chars_of(CURRENT_DIR);
    push_all(&mut line, chars_of(current_dir_content.as_str()).as_slice());
    line.push(' ');
    let ghost segment: Seq<char>;
    match git_status {
        Some(text) => {
            let git_info = GitInfo::from_str(text)?;
            let content = git_segment_content(git_info, git_patch);
            let ghost before = line@;
            push_all(&mut line, chars_of("%K{220} [").as_slice());
            push_all(&mut line, chars_of(shell_escape(content.as_str()).as_str()).as_slice());
            push_all(&mut line, chars_of("] ").as_slice());
            proof {
                segment = git_segment(content@);
                assert(line@ =~= before + segment);
            }
        },
        None => {
            proof {
                segment = seq![];
                assert(line@ =~= line@ + segment);
            }
        },
    }
    push_all(&mut line, chars_of("%f%k").as_slice());
    push_all(&mut line, chars_of(NEW_LINE).as_slice());
    assert(line@ =~= prompt_line(current_dir.segment_content(), segment));
    Ok(string_of(line.as_slice()))
}

/// The symbols of the divergence that the trimmed lines `lines` report, and
/// nothing where no line is an upstream header.
pub open spec fn remote_symbols_of(lines: Seq<Seq<char>>) -> Result<Seq<char>, ZygalError> {
    match GitRemoteDiff::of_lines(lines) {
        Ok(remote_diff) => Ok(remote_symbols(remote_diff)),
        Err(_) => Err(ZygalError::GitOutputError),
    }
}

/// Finds the first upstream header among the trimmed lines `git_status_lines`
/// and gives the symbols of the divergence that it reports.
pub fn make_remote_symbols(git_status_lines: &[Vec<char>]) -> (r: Result<
    &'static str,
    ZygalError,
>)
    ensures
        r matches Ok(symbols) ==> remote_symbols_of(views(git_status_lines@)) == Ok::<
            Seq<char>,
            ZygalError,
        >(symbols@),
        r matches Err(error) ==> remote_symbols_of(views(git_status_lines@)) == Err::<
            Seq<char>,
            ZygalError,
        >(error),
{
    let remote_diff = match GitRemoteDiff::parse(git_status_lines) {
        Ok(remote_diff) => remote_diff,
        Err(_) => {
            return Err(ZygalError::GitOutputError);
        },
    };
    proof {
        reveal_strlit("");
        reveal_strlit("=");
        reveal_strlit("<");
        reveal_strlit(">");
        reveal_strlit("<>");
    }
    let symbols = match remote_diff {
        None => "",
        Some(GitRemoteDiff { incoming: false, outgoing: false }) => "=",
        Some(GitRemoteDiff { incoming: true, outgoing: false }) => "<",
        Some(GitRemoteDiff { incoming: false, outgoing: true }) => ">",
        Some(GitRemoteDiff { incoming: true, outgoing: true }) => "<>",
    };
    assert(symbols@ =~= remote_symbols(remote_diff));
    Ok(symbols)
}

/// The content of the version-control segment for the status output `text`,
/// with no operation in progress.
pub open spec fn git_info_of(text: Seq<char>) -> Result<Seq<char>, ZygalError> {
    match parse_status(text) {
        Ok(info) => Ok(segment_content(info, None)),
        Err(_) => Err(ZygalError::GitOutputError),
    }
}

/// Parses the output of `git status` and encodes it as the content of the
/// version-control segment, with no operation in progress.
pub fn make_git_info(git_status_output: &str) -> (r: Result<String, ZygalError>)
    ensures
        r matches Ok(content) ==> git_info_of(git_status_output@) == Ok::<Seq<char>, ZygalError>(
            content@,
        ),
        r matches Err(error) ==> git_info_of(git_status_output@) == Err::<Seq<char>, ZygalError>(
            error,
        ),
{
    match GitInfo::from_str(git_status_output) {
        Ok(git_info) => Ok(git_segment_content(git_info, None)),
        Err(_) => Err(ZygalError::GitOutputError),
    }
}

} // verus!
