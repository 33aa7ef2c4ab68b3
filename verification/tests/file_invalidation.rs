use warp_app::file_invalidation::{FileInvalidationError, FileInvalidationErrorKind};
use warp_app::text::str_contains;

use FileInvalidationErrorKind as K;

fn kind(message: &str) -> FileInvalidationErrorKind {
    FileInvalidationErrorKind::from_message(message)
}

#[test]
fn each_phrase_gives_its_kind() {
    let cases: Vec<(&str, FileInvalidationErrorKind)> = vec![
        ("fatal: detected dubious ownership in repository at '/repo'", K::GitRejectedRepositoryOwnership),
        ("git: No such file or directory (os error 2)", K::GitUnavailable),
        ("program not found", K::GitUnavailable),
        ("xcrun: error: No developer tools were found, requesting install", K::GitUnavailable),
        ("sh: git-lfs: command not found", K::GitLfsUnavailable),
        ("You have not agreed to the Xcode license agreements.", K::XcodeLicenseNotAccepted),
        ("fatal: empty string is not a valid pathspec. please use . instead", K::InvalidEmptyPathspec),
        ("fatal: '/tmp/x': '/tmp/x' is outside repository at '/repo'", K::PathOutsideRepository),
        ("fatal: not a git repository (or any of the parent directories): .git", K::NotGitRepository),
        ("fatal: this operation must be run in a work tree", K::NotWorkTree),
        ("Operation not permitted (os error 1)", K::RepositoryPathNotAccessible),
        ("Permission denied (os error 13)", K::RepositoryPathNotAccessible),
        ("refusing a non-UTF-8 path", K::NonUtf8Path),
        ("fatal: bad revision 'abc'", K::GitRevisionUnavailable),
        ("fatal: ambiguous argument: unknown revision or path", K::GitRevisionUnavailable),
        ("fatal: bad tree object HEAD", K::GitHeadTreeInvalid),
        ("Invalid status code: ??", K::InvalidGitStatusOutput),
        ("The directory name is invalid. (os error 267)", K::RepositoryPathInvalid),
    ];
    for (message, expected) in cases {
        assert_eq!(kind(message), expected, "{message}");
    }
}

#[test]
fn messages_without_a_phrase_are_unknown() {
    assert_eq!(kind(""), K::Unknown);
    assert_eq!(kind("something else went wrong"), K::Unknown);
    // Case matters: the phrases are matched exactly.
    assert_eq!(kind("permission denied"), K::Unknown);
    assert_eq!(kind("NOT A GIT REPOSITORY"), K::Unknown);
    // A phrase cut short is no match.
    assert_eq!(kind("os error 26"), K::Unknown);
    assert_eq!(kind("Ünïcödé ✓ — nothing known here"), K::Unknown);
}

#[test]
fn earlier_phrases_win() {
    assert_eq!(
        kind("Permission denied: detected dubious ownership in repository"),
        K::GitRejectedRepositoryOwnership
    );
    assert_eq!(kind("not a git repository: No such file or directory"), K::GitUnavailable);
    assert_eq!(kind("bad revision; Invalid status code"), K::GitRevisionUnavailable);
    assert_eq!(kind("Invalid status code (os error 267)"), K::InvalidGitStatusOutput);
}

#[test]
fn phrases_are_found_inside_non_ascii_text() {
    assert_eq!(kind("ñ€✓ fatal: not a git repository ✓"), K::NotGitRepository);
    assert_eq!(kind("日本語: Permission denied"), K::RepositoryPathNotAccessible);
}

#[test]
fn more_text_only_moves_to_earlier_kinds() {
    let part = "fatal: not a git repository";
    assert_eq!(kind(part), K::NotGitRepository);
    // A later phrase added does not change the kind.
    assert_eq!(kind(&format!("{part}: Permission denied")), K::NotGitRepository);
    // An earlier phrase added takes over.
    assert_eq!(
        kind(&format!("detected dubious ownership in repository: {part}")),
        K::GitRejectedRepositoryOwnership
    );
}

#[test]
fn descriptions_of_kinds() {
    let cases: Vec<(FileInvalidationErrorKind, &str)> = vec![
        (K::GitRejectedRepositoryOwnership, "git rejected repository ownership"),
        (K::GitUnavailable, "git is unavailable"),
        (K::GitLfsUnavailable, "git lfs is unavailable"),
        (K::XcodeLicenseNotAccepted, "xcode license is not accepted"),
        (K::InvalidEmptyPathspec, "invalid empty pathspec"),
        (K::PathOutsideRepository, "path is outside repository"),
        (K::NotGitRepository, "path is not a git repository"),
        (K::NotWorkTree, "repository is not a work tree"),
        (K::RepositoryPathNotAccessible, "repository path is not accessible"),
        (K::NonUtf8Path, "path is not valid UTF-8"),
        (K::GitRevisionUnavailable, "git revision is unavailable"),
        (K::GitHeadTreeInvalid, "git head tree is invalid"),
        (K::InvalidGitStatusOutput, "git status output is invalid"),
        (K::RepositoryPathInvalid, "repository path is invalid"),
        (K::Unknown, "unknown file invalidation error"),
    ];
    for (k, text) in cases {
        assert_eq!(k.description(), text);
    }
}

#[test]
fn actionability_of_kinds() {
    let all = vec![
        K::GitRejectedRepositoryOwnership,
        K::GitUnavailable,
        K::GitLfsUnavailable,
        K::XcodeLicenseNotAccepted,
        K::InvalidEmptyPathspec,
        K::PathOutsideRepository,
        K::NotGitRepository,
        K::NotWorkTree,
        K::RepositoryPathNotAccessible,
        K::NonUtf8Path,
        K::GitRevisionUnavailable,
        K::GitHeadTreeInvalid,
        K::InvalidGitStatusOutput,
        K::RepositoryPathInvalid,
    ];
    for k in all {
        let expected = k == K::InvalidEmptyPathspec || k == K::InvalidGitStatusOutput;
        assert_eq!(k.is_actionable(false), expected, "{k:?}");
        assert_eq!(k.is_actionable(true), expected, "{k:?}");
    }
    assert!(K::Unknown.is_actionable(true));
    assert!(!K::Unknown.is_actionable(false));
}

#[test]
fn error_is_classified_by_its_whole_chain() {
    let inner = anyhow::Error::msg("fatal: not a git repository (or any of the parent directories): .git");
    let error = inner.context("failed to read status");
    let err = FileInvalidationError::from(error);
    assert_eq!(
        err.message(),
        "failed to read status: fatal: not a git repository (or any of the parent directories): .git"
    );
    assert_eq!(err.kind(), K::NotGitRepository);
    assert_eq!(err.description(), "path is not a git repository");
    assert_eq!(format!("{}", err.error()), "failed to read status");
}

#[test]
fn error_with_plain_message() {
    let err = FileInvalidationError::from(anyhow::Error::msg("Invalid status code: XY"));
    assert_eq!(err.message(), "Invalid status code: XY");
    assert_eq!(err.kind(), K::InvalidGitStatusOutput);
    assert!(err.is_actionable(false));
    assert!(err.is_transient());
}

#[test]
fn error_from_rendered_text() {
    let err = FileInvalidationError::from_rendered(
        anyhow::Error::msg("ignored for classification"),
        "sh: git-lfs: command not found".to_string(),
    );
    assert_eq!(err.kind(), K::GitLfsUnavailable);
    assert_eq!(err.message(), "sh: git-lfs: command not found");
    assert!(!err.is_actionable(true));
    assert!(err.is_transient());
}

#[test]
fn unknown_error_follows_the_underlying_error() {
    let err = FileInvalidationError::from(anyhow::Error::msg("disk on fire"));
    assert_eq!(err.kind(), K::Unknown);
    assert_eq!(err.description(), "unknown file invalidation error");
    assert!(err.is_actionable(true));
    assert!(!err.is_actionable(false));
    assert!(err.is_transient());
}

#[test]
fn substring_search() {
    assert!(str_contains("abc", ""));
    assert!(str_contains("", ""));
    assert!(!str_contains("", "a"));
    assert!(str_contains("abc", "abc"));
    assert!(str_contains("xxabcxx", "abc"));
    assert!(str_contains("abab", "bab"));
    assert!(!str_contains("ab", "abc"));
    assert!(!str_contains("aab", "abb"));
    assert!(str_contains("ññb✓", "ñb"));
}
