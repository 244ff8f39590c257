use std::path::Path;

use zygal_prompt::git_info::{GitInfo, GitRemoteDiff, Malformation, ParseError};
use zygal_prompt::git_patch::GitPatch;
use zygal_prompt::prompt::{
    current_dir_segment_content, git_segment_content, make_git_info, make_remote_symbols, prompt,
    shell_escape, CurrentDir, CURRENT_DIR, NEW_LINE,
};
use zygal_prompt::ZygalError;

/// What the prompt reads of `path`.
fn current_dir(path: &str) -> CurrentDir {
    let path = Path::new(path);
    CurrentDir {
        display: path.display().to_string(),
        components: path.components().count(),
        file_name: path
            .file_name()
            .map(|name| name.to_string_lossy().into_owned()),
    }
}

#[test]
fn displays_git_segment_content_in_order() {
    let branch = "feature/theropods";
    let git_info = GitInfo {
        branch_name: branch.to_string(),
        remote_diff: Some(GitRemoteDiff {
            incoming: false,
            outgoing: false,
        }),
        stash: true,
        untracked: true,
        staged: true,
        unstaged: true,
    };
    let git_patch = Some(GitPatch::Rebase);
    let git_segment_content = git_segment_content(git_info, git_patch);
    assert_eq!(git_segment_content, format!("{branch} B*+$%="));
}

#[test]
fn does_not_include_trailing_space_if_only_branch_name() {
    let branch = "feature/mobula";
    let git_info = GitInfo {
        branch_name: branch.to_string(),
        remote_diff: None,
        stash: false,
        untracked: false,
        staged: false,
        unstaged: false,
    };
    let git_patch = None;
    let git_segment_content = git_segment_content(git_info, git_patch);
    assert_eq!(git_segment_content, branch);
}

#[test]
fn skips_remote_symbols_if_no_remote() {
    let branch = "feature/mellivora";
    let git_info = GitInfo {
        branch_name: branch.to_string(),
        remote_diff: None,
        stash: true,
        untracked: false,
        staged: true,
        unstaged: false,
    };
    let git_patch = Some(GitPatch::CherryPick);
    let git_segment_content = git_segment_content(git_info, git_patch);
    assert_eq!(git_segment_content, format!("{branch} H+$"));
}

#[test]
fn skips_patch_symbol_if_no_patch() {
    let git_patch = None;
    let branch = "feature/ateles";
    let git_info = GitInfo {
        branch_name: branch.to_string(),
        remote_diff: Some(GitRemoteDiff {
            incoming: false,
            outgoing: true,
        }),
        stash: false,
        untracked: false,
        staged: true,
        unstaged: false,
    };
    let git_segment_content = git_segment_content(git_info, git_patch);
    assert_eq!(git_segment_content, format!("{branch} +>"));
}

#[test]
fn truncates_from_4th_nested_directory() {
    let current_dir = current_dir("/current/working/directory");
    let current_dir_content = current_dir_segment_content(&current_dir);
    assert_eq!(current_dir_content, "*/directory");
}

#[test]
fn does_not_truncate_until_4th_nested_directory() {
    let current_dir = current_dir("/current/working");
    let current_dir_content = current_dir_segment_content(&current_dir);
    assert_eq!(current_dir_content, "/current/working");
}

#[test]
fn adds_padding_to_root() {
    let current_dir = current_dir("/");
    let current_dir_content = current_dir_segment_content(&current_dir);
    assert_eq!(current_dir_content, "  /  ");
}

#[test]
fn shows_abbreviated_home_like_any_other_path() {
    assert_eq!(
        current_dir_segment_content(&current_dir("~/in/home")),
        "~/in/home"
    );
    assert_eq!(current_dir_segment_content(&current_dir("~")), "  ~  ");
    assert_eq!(
        current_dir_segment_content(&current_dir("~/in/home/deeper")),
        "*/deeper"
    );
}

#[test]
fn no_git_info_when_not_in_git_repository() {
    let tmp_dir = "/tmp/zygal-prompt-test.0";
    assert_eq!(
        prompt(&current_dir(tmp_dir), None, None),
        Ok(format!(
            "%F{{0}}%K{{208}} {} %f%k\n%F{{0}}%K{{208}} %# %f%k ",
            tmp_dir
        ))
    );
}

#[test]
fn includes_git_info_when_in_git_repository() {
    let tmp_dir = "/tmp/zygal-prompt-test.1";
    let branch = "archaea";
    let git_status =
        format!("# branch.oid 8a3c0de1f2b94c57a6d0e1f2a3b4c5d6e7f80912\n# branch.head {branch}\n");
    assert_eq!(
        prompt(&current_dir(tmp_dir), Some(&git_status), None),
        Ok(format!(
            "%F{{0}}%K{{208}} {} %K{{220}} [{branch}] %f%k\n%F{{0}}%K{{208}} %# %f%k ",
            tmp_dir
        ))
    );
}

/// The status of a repository with one file in conflict, on `head`.
fn conflict_status(head: &str) -> String {
    format!(
        "# branch.oid 4f5e6d7c8b9a0f1e2d3c4b5a69788796a5b4c3d2\n# branch.head {head}\nu AA N... 000000 100644 100644 100644 0000000000000000000000000000000000000000 1a2b3c4d5e6f708192a3b4c5d6e7f8091a2b3c4d 5e6f708192a3b4c5d6e7f8091a2b3c4d5e6f7081 amniotes.txt\n"
    )
}

#[test]
fn includes_merging_when_merge_conflicts() {
    let tmp_dir = "/tmp/zygal-prompt-test.2";
    let main_branch = "angiosperms";
    let git_status = conflict_status(main_branch);
    assert_eq!(
        prompt(
            &current_dir(tmp_dir),
            Some(&git_status),
            Some(GitPatch::Merge)
        ),
        Ok(format!(
            "%F{{0}}%K{{208}} {} %K{{220}} [{main_branch} M*+] %f%k\n%F{{0}}%K{{208}} %# %f%k ",
            tmp_dir
        ))
    );
}

#[test]
fn includes_rebasing_when_rebase_conflicts() {
    let tmp_dir = "/tmp/zygal-prompt-test.3";
    let git_status = conflict_status("(detached)");
    let sha = "4f5e6d7";
    assert_eq!(
        prompt(
            &current_dir(tmp_dir),
            Some(&git_status),
            Some(GitPatch::Rebase)
        ),
        Ok(format!(
            "%F{{0}}%K{{208}} {} %K{{220}} [({}...) B*+] %f%k\n%F{{0}}%K{{208}} %# %f%k ",
            tmp_dir,
            sha.trim()
        ))
    );
}

#[test]
fn includes_cherry_pick_when_cherry_pick_conflicts() {
    let tmp_dir = "/tmp/zygal-prompt-test.4";
    let main_branch = "chondrichthyes";
    let git_status = conflict_status(main_branch);
    assert_eq!(
        prompt(
            &current_dir(tmp_dir),
            Some(&git_status),
            Some(GitPatch::CherryPick)
        ),
        Ok(format!(
            "%F{{0}}%K{{208}} {} %K{{220}} [{main_branch} H*+] %f%k\n%F{{0}}%K{{208}} %# %f%k ",
            tmp_dir
        ))
    );
}

#[test]
fn includes_revert_when_revert_conflicts() {
    let tmp_dir = "/tmp/zygal-prompt-test.5";
    let branch = "arthropoda";
    let git_status = format!(
        "# branch.oid 4f5e6d7c8b9a0f1e2d3c4b5a69788796a5b4c3d2\n# branch.head {branch}\nu UU N... 100644 100644 100644 100644 1a2b3c4d5e6f708192a3b4c5d6e7f8091a2b3c4d 5e6f708192a3b4c5d6e7f8091a2b3c4d5e6f7081 2b3c4d5e6f708192a3b4c5d6e7f8091a2b3c4d5e limbs.txt\n"
    );
    assert_eq!(
        prompt(
            &current_dir(tmp_dir),
            Some(&git_status),
            Some(GitPatch::Revert)
        ),
        Ok(format!(
            "%F{{0}}%K{{208}} {} %K{{220}} [{branch} V*+] %f%k\n%F{{0}}%K{{208}} %# %f%k ",
            tmp_dir
        ))
    );
}

#[test]
fn prompt_doubles_percent_signs_of_the_segment() {
    let git_status = "# branch.oid 0123456789abcdef\n# branch.head 100%\n? new\n";
    assert_eq!(
        prompt(&current_dir("/"), Some(git_status), None),
        Ok("%F{0}%K{208}   /   %K{220} [100%% %%] %f%k\n%F{0}%K{208} %# %f%k ".to_string())
    );
}

#[test]
fn prompt_is_made_of_its_parts() {
    let dir = current_dir("/usr/lib");
    let git_status = "# branch.oid 0123456789abcdef\n# branch.head main\n# branch.ab +1 -1\n";
    let content = make_git_info(git_status).unwrap();
    assert_eq!(content, "main <>");
    assert_eq!(
        prompt(&dir, Some(git_status), None).unwrap(),
        format!(
            "{CURRENT_DIR}{} %K{{220}} [{}] %f%k{NEW_LINE}",
            current_dir_segment_content(&dir),
            shell_escape(&content)
        )
    );
}

#[test]
fn prompt_ignores_the_operation_outside_a_repository() {
    assert_eq!(
        prompt(&current_dir("/usr"), None, Some(GitPatch::Merge)),
        prompt(&current_dir("/usr"), None, None)
    );
}

#[test]
fn prompt_rejects_malformed_status() {
    assert_eq!(
        prompt(&current_dir("/usr"), Some("# branch.oid 0123456789"), None),
        Err(ParseError::MalformedStatusInput(
            Malformation::MissingHeadHeader
        ))
    );
    assert_eq!(
        prompt(&current_dir("/usr"), Some(""), Some(GitPatch::Rebase)),
        Err(ParseError::MalformedStatusInput(
            Malformation::MissingOidHeader
        ))
    );
}

#[test]
fn make_git_info_renders_the_status() {
    let git_status = "
        # branch.oid unused-invalid-sha-but-7charslong
        # branch.head feature/monothremes
        # branch.ab +0 -12
        2 D.
        1 M.
        ? untracked-file
    ";
    assert_eq!(
        make_git_info(git_status.trim()),
        Ok("feature/monothremes +%<".to_string())
    );
}

#[test]
fn make_git_info_renders_detached_head() {
    let git_status = "
        # branch.oid dfcac0b563036735405591415163566f9f908e1e
        # branch.head (detached)
        # branch.ab +0 -0
        # stash number-not-used
        u .D
        2 .R
    ";
    assert_eq!(
        make_git_info(git_status.trim()),
        Ok("(dfcac0b...) *$=".to_string())
    );
}

#[test]
fn make_git_info_omits_remote_without_upstream() {
    let git_status = "
        # branch.oid unused-invalid-sha
        # branch.head feature/hymenoptera
        u .D
        2 D.
        1 DD
    ";
    assert_eq!(
        make_git_info(git_status.trim()),
        Ok("feature/hymenoptera *+".to_string())
    );
}

#[test]
fn make_git_info_shows_clean_branch_by_name_alone() {
    let git_status = "# branch.oid 0123456789abcdef\n# branch.head main\n";
    assert_eq!(make_git_info(git_status), Ok("main".to_string()));
}

#[test]
fn make_git_info_rejects_malformed_status() {
    assert_eq!(
        make_git_info("# stash number-not-used"),
        Err(ZygalError::GitOutputError)
    );
    assert_eq!(
        make_git_info("# branch.oid 0123456789abcdef\n# branch.head main\n# branch.ab one two"),
        Err(ZygalError::GitOutputError)
    );
}

/// The lines of `text`, trimmed.
fn lines_of(text: &str) -> Vec<Vec<char>> {
    text.lines().map(|line| line.trim().chars().collect()).collect()
}

#[test]
fn make_remote_symbols_shows_the_divergence() {
    assert_eq!(make_remote_symbols(&lines_of("# branch.ab +0 -0")), Ok("="));
    assert_eq!(make_remote_symbols(&lines_of("# branch.ab +7 -0")), Ok(">"));
    assert_eq!(make_remote_symbols(&lines_of("# branch.ab +0 -3")), Ok("<"));
    assert_eq!(make_remote_symbols(&lines_of("# branch.ab +9 -3")), Ok("<>"));
    assert_eq!(
        make_remote_symbols(&lines_of("# stash 1\n u .D\n# branch.ab +1 -0\n? x")),
        Ok(">")
    );
}

#[test]
fn make_remote_symbols_shows_nothing_without_upstream() {
    assert_eq!(make_remote_symbols(&lines_of("u AD")), Ok(""));
    assert_eq!(make_remote_symbols(&[]), Ok(""));
}

#[test]
fn make_remote_symbols_rejects_malformed_counts() {
    assert_eq!(
        make_remote_symbols(&lines_of("# branch.ab")),
        Err(ZygalError::GitOutputError)
    );
    assert_eq!(
        make_remote_symbols(&lines_of("# branch.ab +1 many")),
        Err(ZygalError::GitOutputError)
    );
}

#[test]
fn rendering_is_deterministic() {
    let git_status = "# branch.oid 0123456789abcdef\n# branch.head main\n1 AM file\n? other\n";
    let first = make_git_info(git_status);
    let second = make_git_info(&git_status.to_string());
    assert_eq!(first, second);
    assert_eq!(first, Ok("main *+%".to_string()));
}

#[test]
fn shell_escape_doubles_every_percent_sign() {
    assert_eq!(shell_escape(""), "");
    assert_eq!(shell_escape("main"), "main");
    assert_eq!(shell_escape("%"), "%%");
    assert_eq!(shell_escape("main *%"), "main *%%");
    assert_eq!(shell_escape("%a%%b"), "%%a%%%%b");
}

#[test]
fn has_only_branch_without_flags_and_upstream() {
    let clean = GitInfo {
        branch_name: "main".to_string(),
        remote_diff: None,
        stash: false,
        untracked: false,
        staged: false,
        unstaged: false,
    };
    assert!(clean.has_only_branch());
    assert!(!GitInfo {
        stash: true,
        ..clean.clone()
    }
    .has_only_branch());
    assert!(!GitInfo {
        untracked: true,
        ..clean.clone()
    }
    .has_only_branch());
    assert!(!GitInfo {
        staged: true,
        ..clean.clone()
    }
    .has_only_branch());
    assert!(!GitInfo {
        unstaged: true,
        ..clean.clone()
    }
    .has_only_branch());
    assert!(!GitInfo {
        remote_diff: Some(GitRemoteDiff {
            incoming: false,
            outgoing: false
        }),
        ..clean
    }
    .has_only_branch());
}

#[test]
fn shows_the_operation_even_on_a_clean_branch() {
    let clean = GitInfo {
        branch_name: "main".to_string(),
        remote_diff: None,
        stash: false,
        untracked: false,
        staged: false,
        unstaged: false,
    };
    assert_eq!(git_segment_content(clean, Some(GitPatch::Merge)), "main M");
}

/// The place of a symbol in the fixed order of the segment.
fn rank(symbol: char) -> usize {
    "MBHV*+$%=<>".find(symbol).map_or(usize::MAX, |at| match at {
        0..=3 => 0,
        4..=7 => at - 3,
        8 | 9 => 5,
        _ => 6,
    })
}

#[test]
fn symbols_stand_in_fixed_order_for_every_record() {
    let patches = [
        None,
        Some(GitPatch::Merge),
        Some(GitPatch::Rebase),
        Some(GitPatch::CherryPick),
        Some(GitPatch::Revert),
    ];
    let mut remotes = vec![None];
    for incoming in [false, true] {
        for outgoing in [false, true] {
            remotes.push(Some(GitRemoteDiff { incoming, outgoing }));
        }
    }
    for patch in patches {
        for remote_diff in &remotes {
            for flags in 0..16 {
                let git_info = GitInfo {
                    branch_name: "b".to_string(),
                    remote_diff: *remote_diff,
                    unstaged: flags & 1 != 0,
                    staged: flags & 2 != 0,
                    stash: flags & 4 != 0,
                    untracked: flags & 8 != 0,
                };
                let clean = git_info.has_only_branch() && patch.is_none();
                let content = git_segment_content(git_info.clone(), patch);
                if clean {
                    assert_eq!(content, "b");
                    continue;
                }
                let symbols: Vec<char> = content.strip_prefix("b ").unwrap().chars().collect();
                assert!(symbols.windows(2).all(|pair| rank(pair[0]) < rank(pair[1])));
                assert!(symbols.iter().all(|symbol| rank(*symbol) <= 6));
                assert_eq!(symbols.contains(&'*'), git_info.unstaged);
                assert_eq!(symbols.contains(&'+'), git_info.staged);
                assert_eq!(symbols.contains(&'$'), git_info.stash);
                assert_eq!(symbols.contains(&'%'), git_info.untracked);
                assert_eq!(
                    symbols.iter().any(|symbol| "MBHV".contains(*symbol)),
                    patch.is_some()
                );
                assert_eq!(
                    symbols.iter().any(|symbol| "=<>".contains(*symbol)),
                    remote_diff.is_some()
                );
            }
        }
    }
}
