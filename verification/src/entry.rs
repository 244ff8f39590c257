//! Changed entries of a status text: the lines that report a tracked file
//! with a change in the index or in the working tree.
//!
//! The two patterns are regular expressions, compiled and matched by the
//! `regex` crate. What they accept is stated here as plain conditions on the
//! first four characters of a line.

use crate::text::string_of;
use regex::Regex;
use vstd::prelude::*;

verus! {

/// The pattern of an entry with a staged change.
pub const STAGED_PATTERN: &'static str = "^[12u] [MTARCDU].";

/// The pattern of an entry with an unstaged change.
pub const UNSTAGED_PATTERN: &'static str = "^[12u] .[MTARCDU]";

/// Whether `c` opens a changed entry: `1` for an ordinary change, `2` for a
/// rename or copy, `u` for an unmerged file.
pub open spec fn entry_marker(c: char) -> bool {
    c == '1' || c == '2' || c == 'u'
}

/// Whether `c` is the code of a change: modified, type changed, added,
/// renamed, copied, deleted or unmerged. The code of no change is `.`.
pub open spec fn change_code(c: char) -> bool {
    c == 'M' || c == 'T' || c == 'A' || c == 'R' || c == 'C' || c == 'D' || c == 'U'
}

/// Whether `line` is a changed entry with a staged change: an entry marker, a
/// space, a change code in the index column, and one more character, which
/// may be anything but a line feed.
pub open spec fn staged_entry(line: Seq<char>) -> bool {
    &&& line.len() >= 4
    &&& entry_marker(line[0])
    &&& line[1] == ' '
    &&& change_code(line[2])
    &&& line[3] != '\n'
}

/// Whether `line` is a changed entry with an unstaged change: an entry
/// marker, a space, one character that may be anything but a line feed, and a
/// change code in the working tree column.
pub open spec fn unstaged_entry(line: Seq<char>) -> bool {
    &&& line.len() >= 4
    &&& entry_marker(line[0])
    &&& line[1] == ' '
    &&& line[2] != '\n'
    &&& change_code(line[3])
}

/// The compiled regular expression of the `regex` crate.
#[verifier::external_type_specification]
#[verifier::external_body]
pub struct ExRegex(regex::Regex);

/// The pattern that a regular expression was compiled from: the text that
/// `Regex::as_str` returns.
pub uninterp spec fn pattern_of(regex: &Regex) -> Seq<char>;

/// Compiles `pattern` with `regex::Regex::new`. Trusted, and for the two
/// entry patterns only: both are valid and small, so they compile, and the
/// regular expression keeps the pattern that it was compiled from.
#[verifier::external_body]
fn compile(pattern: &str) -> (regex: Regex)
    requires
        pattern@ == STAGED_PATTERN@ || pattern@ == UNSTAGED_PATTERN@,
    ensures
        pattern_of(&regex) == pattern@,
{
    Regex::new(pattern).expect("the entry patterns are valid")
}

/// Searches `line` with `regex::Regex::is_match`. Trusted, and for the two
/// entry patterns only: since each is anchored at the start of the haystack
/// and made of four single-character items, a match exists exactly when the
/// first four characters of `line` belong to the four classes in turn, where
/// `.` is any character but a line feed.
#[verifier::external_body]
fn is_match(regex: &Regex, line: &str) -> (r: bool)
    requires
        pattern_of(regex) == STAGED_PATTERN@ || pattern_of(regex) == UNSTAGED_PATTERN@,
    ensures
        pattern_of(regex) == STAGED_PATTERN@ ==> r == staged_entry(line@),
        pattern_of(regex) == UNSTAGED_PATTERN@ ==> r == unstaged_entry(line@),
{
    regex.is_match(line)
}

/// The two entry patterns, compiled once to be matched against many lines.
pub struct EntryPatterns {
    staged: Regex,
    unstaged: Regex,
}

impl EntryPatterns {
    /// Each regular expression is compiled from its pattern.
    #[verifier::type_invariant]
    pub closed spec fn well_formed(&self) -> bool {
        &&& pattern_of(&self.staged) == STAGED_PATTERN@
        &&& pattern_of(&self.unstaged) == UNSTAGED_PATTERN@
    }

    /// Compiles the two entry patterns.
    pub fn new() -> (patterns: EntryPatterns)
        ensures
            patterns.well_formed(),
    {
        EntryPatterns { staged: compile(STAGED_PATTERN), unstaged: compile(UNSTAGED_PATTERN) }
    }

    /// Whether `line` is a changed entry with a staged change.
    pub fn is_staged(&self, line: &[char]) -> (r: bool)
        ensures
            r == staged_entry(line@),
    {
        proof {
            use_type_invariant(self);
        }
        let line = string_of(line);
        is_match(&self.staged, line.as_str())
    }

    /// Whether `line` is a changed entry with an unstaged change.
    pub fn is_unstaged(&self, line: &[char]) -> (r: bool)
        ensures
            r == unstaged_entry(line@),
    {
        proof {
            use_type_invariant(self);
        }
        let line = string_of(line);
        is_match(&self.unstaged, line.as_str())
    }
}

} // verus!
