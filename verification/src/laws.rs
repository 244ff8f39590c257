//! Laws of the parser and the encoder, stated over the specification
//! functions that the contracts of the executable functions use.

use crate::git_info::{
    any_line, branch_name_of, detached_marker, parse_status, GitInfoView, GitRemoteDiff, LineKind,
    Malformation, ParseError,
};
use crate::git_patch::GitPatch;
use crate::prompt::{
    git_info_of, patch_symbol, remote_symbols, segment_content, status_symbols, symbol_if,
};
use crate::text::{fields, lemma_fields_are_words, trimmed_lines, whitespace};
use vstd::prelude::*;

verus! {

/// Rendering is deterministic: status texts of the same characters are
/// parsed to the same record or rejected for the same defect, and are
/// rendered to the same segment content, whatever operation is in progress.
pub proof fn law_rendering_is_deterministic(a: &str, b: &str, patch: Option<GitPatch>)
    requires
        a@ == b@,
    ensures
        parse_status(a@) == parse_status(b@),
        git_info_of(a@) == git_info_of(b@),
        parse_status(a@) matches Ok(info) ==> segment_content(info, patch) == segment_content(
            parse_status(b@)->Ok_0,
            patch,
        ),
{
}

/// A clean branch is shown by its name alone: with no upstream branch, no
/// flag set and no operation in progress, the segment content is the branch
/// name, with no space after it.
pub proof fn law_clean_branch_is_name_alone(info: GitInfoView)
    requires
        info.remote_diff is None,
        !info.stash,
        !info.untracked,
        !info.staged,
        !info.unstaged,
    ensures
        segment_content(info, None) == info.branch_name,
{
}

/// The place of a symbol in the fixed order of the segment: the operation in
/// progress comes first, then `*`, `+`, `$`, `%`, and the divergence from
/// upstream last, `<` before `>`.
pub open spec fn symbol_rank(c: char) -> int {
    if c == '*' {
        1
    } else if c == '+' {
        2
    } else if c == '$' {
        3
    } else if c == '%' {
        4
    } else if c == '=' || c == '<' {
        5
    } else if c == '>' {
        6
    } else {
        0
    }
}

/// Whether the symbols of `s` have ranks from `low` up to, not including,
/// `high`, each rank greater than the one before.
pub open spec fn ascending(s: Seq<char>, low: int, high: int) -> bool {
    &&& forall|i: int| 0 <= i < s.len() ==> low <= symbol_rank(#[trigger] s[i]) < high
    &&& forall|i: int, j: int|
        0 <= i < j < s.len() ==> symbol_rank(#[trigger] s[i]) < symbol_rank(#[trigger] s[j])
}

/// Symbols of lower ranks followed by symbols of higher ranks are ascending,
/// and a symbol occurs among them exactly when it occurs in the part that its
/// rank belongs to.
proof fn lemma_ascending_concat(a: Seq<char>, b: Seq<char>, low: int, middle: int, high: int)
    requires
        low <= middle <= high,
        ascending(a, low, middle),
        ascending(b, middle, high),
    ensures
        ascending(a + b, low, high),
        forall|symbol: char|
            symbol_rank(symbol) < middle ==> (#[trigger] (a + b).contains(symbol)
                <==> a.contains(symbol)),
        forall|symbol: char|
            symbol_rank(symbol) >= middle ==> (#[trigger] (a + b).contains(symbol)
                <==> b.contains(symbol)),
{
    let s = a + b;
    assert forall|i: int| 0 <= i < s.len() implies low <= symbol_rank(#[trigger] s[i]) < high by {
        if i < a.len() {
            assert(s[i] == a[i]);
        } else {
            assert(s[i] == b[i - a.len()]);
        }
    }
    assert forall|i: int, j: int| 0 <= i < j < s.len() implies symbol_rank(#[trigger] s[i])
        < symbol_rank(#[trigger] s[j]) by {
        if i < a.len() {
            assert(s[i] == a[i]);
        } else {
            assert(s[i] == b[i - a.len()]);
        }
        if j < a.len() {
            assert(s[j] == a[j]);
        } else {
            assert(s[j] == b[j - a.len()]);
        }
    }
    assert forall|symbol: char| #[trigger] s.contains(symbol) <==> a.contains(symbol)
        || b.contains(symbol) by {
        if s.contains(symbol) {
            let i = choose|i: int| 0 <= i < s.len() && s[i] == symbol;
            if i < a.len() {
                assert(a[i] == symbol);
            } else {
                assert(b[i - a.len()] == symbol);
            }
        }
        if a.contains(symbol) {
            let i = choose|i: int| 0 <= i < a.len() && a[i] == symbol;
            assert(s[i] == symbol);
        }
        if b.contains(symbol) {
            let i = choose|i: int| 0 <= i < b.len() && b[i] == symbol;
            assert(s[i + a.len()] == symbol);
        }
    }
}

/// A flag shows its symbol, and nothing else, exactly when it is set.
proof fn lemma_flag_symbol(present: bool, symbol: char)
    ensures
        ascending(symbol_if(present, symbol), symbol_rank(symbol), symbol_rank(symbol) + 1),
        symbol_if(present, symbol).contains(symbol) <==> present,
{
    let s = symbol_if(present, symbol);
    if present {
        assert(s[0] == symbol);
    }
}

/// The symbol of an operation ranks before all others.
proof fn lemma_patch_symbol(patch: Option<GitPatch>)
    ensures
        ascending(patch_symbol(patch), 0, 1),
{
}

/// The symbols of a divergence rank after all others, `<` before `>`, and
/// each occurs as the divergence has it.
proof fn lemma_remote_symbols(remote_diff: Option<GitRemoteDiff>)
    ensures
        ascending(remote_symbols(remote_diff), 5, 7),
        remote_symbols(remote_diff).contains('=') <==> remote_diff == Some(
            GitRemoteDiff { incoming: false, outgoing: false },
        ),
        remote_symbols(remote_diff).contains('<') <==> remote_diff is Some
            && remote_diff->0.incoming,
        remote_symbols(remote_diff).contains('>') <==> remote_diff is Some
            && remote_diff->0.outgoing,
{
    let r = remote_symbols(remote_diff);
    if remote_diff is Some {
        let diff = remote_diff->0;
        if diff.incoming {
            assert(r[0] == '<');
        }
        if diff.outgoing {
            assert(r[r.len() - 1] == '>');
        }
        if !diff.incoming && !diff.outgoing {
            assert(r[0] == '=');
        }
    }
}

/// The symbols stand in one fixed order: whatever the record and the
/// operation, the operation's symbol comes first, then `*`, `+`, `$`, `%` and
/// the symbols of the divergence, `<` before `>`, and none occurs twice. The
/// order of the lines of the status text plays no part: the symbols depend on
/// the record alone.
pub proof fn law_symbols_in_fixed_order(info: GitInfoView, patch: Option<GitPatch>)
    ensures
        ascending(status_symbols(info, patch), 0, 7),
        !(info.has_only_branch() && patch is None) ==> segment_content(info, patch)
            == info.branch_name + seq![' '] + status_symbols(info, patch),
{
    lemma_symbols_by_rank(info, patch);
}

/// Each symbol is shown exactly when the record has what it stands for: `*`
/// for unstaged changes, `+` for staged changes, `$` for a stash, `%` for
/// untracked files, `=` for an upstream branch on par, `<` for incoming and
/// `>` for outgoing commits.
pub proof fn law_symbols_show_the_record(info: GitInfoView, patch: Option<GitPatch>)
    ensures
        status_symbols(info, patch).contains('*') <==> info.unstaged,
        status_symbols(info, patch).contains('+') <==> info.staged,
        status_symbols(info, patch).contains('$') <==> info.stash,
        status_symbols(info, patch).contains('%') <==> info.untracked,
        status_symbols(info, patch).contains('=') <==> info.remote_diff == Some(
            GitRemoteDiff { incoming: false, outgoing: false },
        ),
        status_symbols(info, patch).contains('<') <==> info.remote_diff is Some
            && info.remote_diff->0.incoming,
        status_symbols(info, patch).contains('>') <==> info.remote_diff is Some
            && info.remote_diff->0.outgoing,
{
    lemma_symbols_by_rank(info, patch);
    lemma_remote_symbols(info.remote_diff);
    lemma_flag_symbol(info.unstaged, '*');
    lemma_flag_symbol(info.staged, '+');
    lemma_flag_symbol(info.stash, '$');
    lemma_flag_symbol(info.untracked, '%');
}

/// The symbols are ascending, and a symbol occurs among them exactly when it
/// occurs in the part of its rank.
proof fn lemma_symbols_by_rank(info: GitInfoView, patch: Option<GitPatch>)
    ensures
        ascending(status_symbols(info, patch), 0, 7),
        status_symbols(info, patch).contains('*') <==> symbol_if(info.unstaged, '*').contains('*'),
        status_symbols(info, patch).contains('+') <==> symbol_if(info.staged, '+').contains('+'),
        status_symbols(info, patch).contains('$') <==> symbol_if(info.stash, '$').contains('$'),
        status_symbols(info, patch).contains('%') <==> symbol_if(info.untracked, '%').contains(
            '%',
        ),
        forall|symbol: char|
            symbol_rank(symbol) >= 5 ==> (#[trigger] status_symbols(info, patch).contains(symbol)
                <==> remote_symbols(info.remote_diff).contains(symbol)),
{
    let p = patch_symbol(patch);
    let a = symbol_if(info.unstaged, '*');
    let b = symbol_if(info.staged, '+');
    let c = symbol_if(info.stash, '$');
    let d = symbol_if(info.untracked, '%');
    let r = remote_symbols(info.remote_diff);
    lemma_patch_symbol(patch);
    lemma_flag_symbol(info.unstaged, '*');
    lemma_flag_symbol(info.staged, '+');
    lemma_flag_symbol(info.stash, '$');
    lemma_flag_symbol(info.untracked, '%');
    lemma_remote_symbols(info.remote_diff);
    lemma_ascending_concat(p, a, 0, 1, 2);
    lemma_ascending_concat(p + a, b, 0, 2, 3);
    lemma_ascending_concat(p + a + b, c, 0, 3, 4);
    lemma_ascending_concat(p + a + b + c, d, 0, 4, 5);
    lemma_ascending_concat(p + a + b + c + d, r, 0, 5, 7);
}

/// The flags do not depend on the order of the lines, nor on how often a
/// line occurs: lines of which each occurs among the others have a line of a
/// kind exactly when the others have one.
pub proof fn law_flags_ignore_line_order(a: Seq<Seq<char>>, b: Seq<Seq<char>>, kind: LineKind)
    requires
        forall|line: Seq<char>| a.contains(line) <==> b.contains(line),
    ensures
        any_line(a, kind) == any_line(b, kind),
{
    if any_line(a, kind) {
        let i = choose|i: int| 0 <= i < a.len() && kind.accepts(#[trigger] a[i]);
        assert(a.contains(a[i]));
        let j = choose|j: int| 0 <= j < b.len() && b[j] == a[i];
        assert(kind.accepts(b[j]));
    }
    if any_line(b, kind) {
        let i = choose|i: int| 0 <= i < b.len() && kind.accepts(#[trigger] b[i]);
        assert(b.contains(b[i]));
        let j = choose|j: int| 0 <= j < a.len() && a[j] == b[i];
        assert(kind.accepts(a[j]));
    }
}

/// The divergence is shown by the counts of the upstream header alone: `=`
/// where both are zero, `>` where only commits are outgoing, `<` where only
/// commits are incoming, and `<>` where commits go both ways.
pub proof fn law_remote_symbols_of_counts(outgoing: int, incoming: int)
    ensures
        outgoing == 0 && incoming == 0 ==> GitRemoteDiff::of_counts(outgoing, incoming).symbols()
            == seq!['='],
        outgoing != 0 && incoming == 0 ==> GitRemoteDiff::of_counts(outgoing, incoming).symbols()
            == seq!['>'],
        outgoing == 0 && incoming != 0 ==> GitRemoteDiff::of_counts(outgoing, incoming).symbols()
            == seq!['<'],
        outgoing != 0 && incoming != 0 ==> GitRemoteDiff::of_counts(outgoing, incoming).symbols()
            == seq!['<', '>'],
{
}

/// A detached head is shown by its commit id: where the branch field of the
/// second header is `(detached)` and the commit id of the first header has
/// seven characters or more, the branch name is `(`, the first seven
/// characters of the commit id and `...)`, in every record that the text is
/// parsed to.
pub proof fn law_detached_head_shows_commit_id(text: Seq<char>)
    requires
        trimmed_lines(text).len() >= 2,
        fields(trimmed_lines(text)[0]).len() >= 3,
        fields(trimmed_lines(text)[1]).len() >= 3,
        fields(trimmed_lines(text)[1])[2] == detached_marker(),
        fields(trimmed_lines(text)[0])[2].len() >= 7,
    ensures
        branch_name_of(trimmed_lines(text)) == Ok::<Seq<char>, ParseError>(
            seq!['('] + fields(trimmed_lines(text)[0])[2].take(7) + seq!['.', '.', '.', ')'],
        ),
        parse_status(text) matches Ok(info) ==> info.branch_name == seq!['('] + fields(
            trimmed_lines(text)[0],
        )[2].take(7) + seq!['.', '.', '.', ')'],
{
}

/// A named branch is shown by its name: where the branch field of the second
/// header is anything but `(detached)`, it is the branch name, as it stands,
/// of every record that the text is parsed to.
pub proof fn law_named_branch_is_shown_verbatim(text: Seq<char>)
    requires
        trimmed_lines(text).len() >= 2,
        fields(trimmed_lines(text)[1]).len() >= 3,
        fields(trimmed_lines(text)[1])[2] != detached_marker(),
    ensures
        parse_status(text) matches Ok(info) ==> info.branch_name == fields(
            trimmed_lines(text)[1],
        )[2],
{
}

/// A commit id of fewer than seven characters is rejected, whether the head
/// is detached or not.
pub proof fn law_truncated_commit_id_is_rejected(text: Seq<char>)
    requires
        trimmed_lines(text).len() >= 2,
        fields(trimmed_lines(text)[0]).len() >= 3,
        fields(trimmed_lines(text)[1]).len() >= 3,
        fields(trimmed_lines(text)[0])[2].len() < 7,
    ensures
        parse_status(text) == Err::<GitInfoView, ParseError>(
            ParseError::MalformedStatusInput(Malformation::TruncatedCommitId),
        ),
{
}

/// The branch name of a record is a word: it is not empty and holds no
/// white space, so no line break either.
pub proof fn law_branch_name_is_a_word(text: Seq<char>)
    ensures
        parse_status(text) matches Ok(info) ==> info.branch_name.len() > 0 && forall|i: int|
            0 <= i < info.branch_name.len() ==> !whitespace(#[trigger] info.branch_name[i]),
{
    let lines = trimmed_lines(text);
    if parse_status(text) is Ok {
        let name = parse_status(text)->Ok_0.branch_name;
        assert(branch_name_of(lines) == Ok::<Seq<char>, ParseError>(name));
        let commit_id = fields(lines[0])[2];
        let branch = fields(lines[1])[2];
        lemma_fields_are_words(lines[0]);
        lemma_fields_are_words(lines[1]);
        if branch == detached_marker() {
            assert forall|i: int| 0 <= i < name.len() implies !whitespace(#[trigger] name[i]) by {
                if 1 <= i < 8 {
                    assert(name[i] == commit_id[i - 1]);
                }
            }
        }
    }
}

/// The segment is a single line: the content that a status text is rendered
/// to holds no line feed, whatever operation is in progress.
pub proof fn law_segment_is_one_line(text: Seq<char>, patch: Option<GitPatch>)
    ensures
        parse_status(text) matches Ok(info) ==> forall|i: int|
            0 <= i < segment_content(info, patch).len() ==> #[trigger] segment_content(
                info,
                patch,
            )[i] != '\n',
{
    if parse_status(text) is Ok {
        let info = parse_status(text)->Ok_0;
        let name = info.branch_name;
        let symbols = status_symbols(info, patch);
        let content = segment_content(info, patch);
        law_branch_name_is_a_word(text);
        law_symbols_in_fixed_order(info, patch);
        assert forall|i: int| 0 <= i < content.len() implies #[trigger] content[i] != '\n' by {
            if i < name.len() {
                assert(content[i] == name[i]);
            } else if i > name.len() {
                assert(content[i] == symbols[i - name.len() - 1]);
                assert(symbol_rank(symbols[i - name.len() - 1]) >= 0);
            }
        }
    }
}

/// A status text without its two headers is rejected: with fewer than two
/// lines, or with fewer than three fields in the first or the second line,
/// parsing ends in an error that names the first header that is missing or
/// malformed, and never in a record.
pub proof fn law_missing_header_is_rejected(text: Seq<char>)
    requires
        trimmed_lines(text).len() < 2 || fields(trimmed_lines(text)[0]).len() < 3 || fields(
            trimmed_lines(text)[1],
        ).len() < 3,
    ensures
        parse_status(text) is Err,
        parse_status(text)->Err_0 == ParseError::MalformedStatusInput(
            if trimmed_lines(text).len() < 1 {
                Malformation::MissingOidHeader
            } else if fields(trimmed_lines(text)[0]).len() < 3 {
                Malformation::MalformedOidHeader
            } else if trimmed_lines(text).len() < 2 {
                Malformation::MissingHeadHeader
            } else {
                Malformation::MalformedHeadHeader
            },
        ),
        git_info_of(text) is Err,
{
}

} // verus!
