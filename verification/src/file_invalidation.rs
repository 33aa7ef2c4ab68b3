use vstd::prelude::*;

use crate::text::{chars_of, contains_chars, has_substr, lemma_has_substr_transitive};

verus! {

/// Why invalidating a file of a local repository failed.
#[derive(Debug, Clone, Copy, PartialEq, Eq, Structural)]
pub enum FileInvalidationErrorKind {
    GitRejectedRepositoryOwnership,
    GitUnavailable,
    GitLfsUnavailable,
    XcodeLicenseNotAccepted,
    InvalidEmptyPathspec,
    PathOutsideRepository,
    NotGitRepository,
    NotWorkTree,
    RepositoryPathNotAccessible,
    NonUtf8Path,
    GitRevisionUnavailable,
    GitHeadTreeInvalid,
    InvalidGitStatusOutput,
    RepositoryPathInvalid,
    Unknown,
}

/// The kind of failure that an error message reports. The phrases are tried in
/// order and the first one found in the message decides; a message holding none
/// of them is `Unknown`.
pub open spec fn kind_for_message(m: Seq<char>) -> FileInvalidationErrorKind {
    if has_substr(m, "detected dubious ownership in repository"@) {
        FileInvalidationErrorKind::GitRejectedRepositoryOwnership
    } else if has_substr(m, "No such file or directory"@) || has_substr(m, "program not found"@)
        || has_substr(m, "No developer tools were found"@) {
        FileInvalidationErrorKind::GitUnavailable
    } else if has_substr(m, "git-lfs: command not found"@) {
        FileInvalidationErrorKind::GitLfsUnavailable
    } else if has_substr(m, "Xcode license agreements"@) {
        FileInvalidationErrorKind::XcodeLicenseNotAccepted
    } else if has_substr(m, "empty string is not a valid pathspec"@) {
        FileInvalidationErrorKind::InvalidEmptyPathspec
    } else if has_substr(m, "outside repository"@) {
        FileInvalidationErrorKind::PathOutsideRepository
    } else if has_substr(m, "not a git repository"@) {
        FileInvalidationErrorKind::NotGitRepository
    } else if has_substr(m, "this operation must be run in a work tree"@) {
        FileInvalidationErrorKind::NotWorkTree
    } else if has_substr(m, "Operation not permitted"@) || has_substr(m, "Permission denied"@) {
        FileInvalidationErrorKind::RepositoryPathNotAccessible
    } else if has_substr(m, "non-UTF-8 path"@) {
        FileInvalidationErrorKind::NonUtf8Path
    } else if has_substr(m, "bad revision"@) || has_substr(m, "unknown revision"@) {
        FileInvalidationErrorKind::GitRevisionUnavailable
    } else if has_substr(m, "bad tree object HEAD"@) {
        FileInvalidationErrorKind::GitHeadTreeInvalid
    } else if has_substr(m, "Invalid status code"@) {
        FileInvalidationErrorKind::InvalidGitStatusOutput
    } else if has_substr(m, "os error 267"@) {
        FileInvalidationErrorKind::RepositoryPathInvalid
    } else {
        FileInvalidationErrorKind::Unknown
    }
}

/// The sentence that describes each kind of failure to a user.
pub open spec fn kind_description(kind: FileInvalidationErrorKind) -> Seq<char> {
    match kind {
        FileInvalidationErrorKind::GitRejectedRepositoryOwnership => "git rejected repository ownership"@,
        FileInvalidationErrorKind::GitUnavailable => "git is unavailable"@,
        FileInvalidationErrorKind::GitLfsUnavailable => "git lfs is unavailable"@,
        FileInvalidationErrorKind::XcodeLicenseNotAccepted => "xcode license is not accepted"@,
        FileInvalidationErrorKind::InvalidEmptyPathspec => "invalid empty pathspec"@,
        FileInvalidationErrorKind::PathOutsideRepository => "path is outside repository"@,
        FileInvalidationErrorKind::NotGitRepository => "path is not a git repository"@,
        FileInvalidationErrorKind::NotWorkTree => "repository is not a work tree"@,
        FileInvalidationErrorKind::RepositoryPathNotAccessible => "repository path is not accessible"@,
        FileInvalidationErrorKind::NonUtf8Path => "path is not valid UTF-8"@,
        FileInvalidationErrorKind::GitRevisionUnavailable => "git revision is unavailable"@,
        FileInvalidationErrorKind::GitHeadTreeInvalid => "git head tree is invalid"@,
        FileInvalidationErrorKind::InvalidGitStatusOutput => "git status output is invalid"@,
        FileInvalidationErrorKind::RepositoryPathInvalid => "repository path is invalid"@,
        FileInvalidationErrorKind::Unknown => "unknown file invalidation error"@,
    }
}

/// Whether a failure of this kind is one the user can act on. For `Unknown`
/// failures that is what the underlying error says of itself (`inner_actionable`).
pub open spec fn kind_is_actionable(kind: FileInvalidationErrorKind, inner_actionable: bool) -> bool {
    match kind {
        FileInvalidationErrorKind::InvalidEmptyPathspec
        | FileInvalidationErrorKind::InvalidGitStatusOutput => true,
        FileInvalidationErrorKind::Unknown => inner_actionable,
        _ => false,
    }
}

/// The place of a kind in the order in which messages are classified: the
/// phrases of a kind of lower rank are looked for first.
pub open spec fn kind_rank(kind: FileInvalidationErrorKind) -> nat {
    match kind {
        FileInvalidationErrorKind::GitRejectedRepositoryOwnership => 0,
        FileInvalidationErrorKind::GitUnavailable => 1,
        FileInvalidationErrorKind::GitLfsUnavailable => 2,
        FileInvalidationErrorKind::XcodeLicenseNotAccepted => 3,
        FileInvalidationErrorKind::InvalidEmptyPathspec => 4,
        FileInvalidationErrorKind::PathOutsideRepository => 5,
        FileInvalidationErrorKind::NotGitRepository => 6,
        FileInvalidationErrorKind::NotWorkTree => 7,
        FileInvalidationErrorKind::RepositoryPathNotAccessible => 8,
        FileInvalidationErrorKind::NonUtf8Path => 9,
        FileInvalidationErrorKind::GitRevisionUnavailable => 10,
        FileInvalidationErrorKind::GitHeadTreeInvalid => 11,
        FileInvalidationErrorKind::InvalidGitStatusOutput => 12,
        FileInvalidationErrorKind::RepositoryPathInvalid => 13,
        FileInvalidationErrorKind::Unknown => 14,
    }
}

/// More text never moves a message to a later kind: a message that holds another
/// one (as the rendering of an error holds that of each of its causes) is
/// classified as the kind of the part, or as one whose phrases are looked for
/// before it.
pub proof fn lemma_more_text_never_lowers_priority(part: Seq<char>, whole: Seq<char>)
    requires
        has_substr(whole, part),
    ensures
        kind_rank(kind_for_message(whole)) <= kind_rank(kind_for_message(part)),
{
    assert forall|phrase: Seq<char>| #[trigger] has_substr(part, phrase) implies has_substr(whole, phrase) by {
        lemma_has_substr_transitive(whole, part, phrase);
    }
}

/// A phrase found anywhere in a message settles the classification at its kind or
/// earlier: the message is classified as that phrase's kind, or as a kind whose
/// phrases are looked for before it (never as a later kind, never `Unknown`).
pub proof fn lemma_phrase_bounds_kind(m: Seq<char>)
    ensures
        has_substr(m, "detected dubious ownership in repository"@) ==> kind_rank(kind_for_message(m)) <= kind_rank(FileInvalidationErrorKind::GitRejectedRepositoryOwnership),
        has_substr(m, "No such file or directory"@) ==> kind_rank(kind_for_message(m)) <= kind_rank(FileInvalidationErrorKind::GitUnavailable),
        has_substr(m, "program not found"@) ==> kind_rank(kind_for_message(m)) <= kind_rank(FileInvalidationErrorKind::GitUnavailable),
        has_substr(m, "No developer tools were found"@) ==> kind_rank(kind_for_message(m)) <= kind_rank(FileInvalidationErrorKind::GitUnavailable),
        has_substr(m, "git-lfs: command not found"@) ==> kind_rank(kind_for_message(m)) <= kind_rank(FileInvalidationErrorKind::GitLfsUnavailable),
        has_substr(m, "Xcode license agreements"@) ==> kind_rank(kind_for_message(m)) <= kind_rank(FileInvalidationErrorKind::XcodeLicenseNotAccepted),
        has_substr(m, "empty string is not a valid pathspec"@) ==> kind_rank(kind_for_message(m)) <= kind_rank(FileInvalidationErrorKind::InvalidEmptyPathspec),
        has_substr(m, "outside repository"@) ==> kind_rank(kind_for_message(m)) <= kind_rank(FileInvalidationErrorKind::PathOutsideRepository),
        has_substr(m, "not a git repository"@) ==> kind_rank(kind_for_message(m)) <= kind_rank(FileInvalidationErrorKind::NotGitRepository),
        has_substr(m, "this operation must be run in a work tree"@) ==> kind_rank(kind_for_message(m)) <= kind_rank(FileInvalidationErrorKind::NotWorkTree),
        has_substr(m, "Operation not permitted"@) ==> kind_rank(kind_for_message(m)) <= kind_rank(FileInvalidationErrorKind::RepositoryPathNotAccessible),
        has_substr(m, "Permission denied"@) ==> kind_rank(kind_for_message(m)) <= kind_rank(FileInvalidationErrorKind::RepositoryPathNotAccessible),
        has_substr(m, "non-UTF-8 path"@) ==> kind_rank(kind_for_message(m)) <= kind_rank(FileInvalidationErrorKind::NonUtf8Path),
        has_substr(m, "bad revision"@) ==> kind_rank(kind_for_message(m)) <= kind_rank(FileInvalidationErrorKind::GitRevisionUnavailable),
        has_substr(m, "unknown revision"@) ==> kind_rank(kind_for_message(m)) <= kind_rank(FileInvalidationErrorKind::GitRevisionUnavailable),
        has_substr(m, "bad tree object HEAD"@) ==> kind_rank(kind_for_message(m)) <= kind_rank(FileInvalidationErrorKind::GitHeadTreeInvalid),
        has_substr(m, "Invalid status code"@) ==> kind_rank(kind_for_message(m)) <= kind_rank(FileInvalidationErrorKind::InvalidGitStatusOutput),
        has_substr(m, "os error 267"@) ==> kind_rank(kind_for_message(m)) <= kind_rank(FileInvalidationErrorKind::RepositoryPathInvalid),
{
}

/// Every kind but `Unknown` is given only to a message that holds one of that
/// kind's phrases, and `Unknown` only to a message that holds none of them.
pub proof fn lemma_kind_has_its_phrase(m: Seq<char>)
    ensures
        kind_for_message(m) == FileInvalidationErrorKind::GitRejectedRepositoryOwnership ==> (has_substr(m, "detected dubious ownership in repository"@)),
        kind_for_message(m) == FileInvalidationErrorKind::GitUnavailable ==> (has_substr(m, "No such file or directory"@) || has_substr(m, "program not found"@) || has_substr(m, "No developer tools were found"@)),
        kind_for_message(m) == FileInvalidationErrorKind::GitLfsUnavailable ==> (has_substr(m, "git-lfs: command not found"@)),
        kind_for_message(m) == FileInvalidationErrorKind::XcodeLicenseNotAccepted ==> (has_substr(m, "Xcode license agreements"@)),
        kind_for_message(m) == FileInvalidationErrorKind::InvalidEmptyPathspec ==> (has_substr(m, "empty string is not a valid pathspec"@)),
        kind_for_message(m) == FileInvalidationErrorKind::PathOutsideRepository ==> (has_substr(m, "outside repository"@)),
        kind_for_message(m) == FileInvalidationErrorKind::NotGitRepository ==> (has_substr(m, "not a git repository"@)),
        kind_for_message(m) == FileInvalidationErrorKind::NotWorkTree ==> (has_substr(m, "this operation must be run in a work tree"@)),
        kind_for_message(m) == FileInvalidationErrorKind::RepositoryPathNotAccessible ==> (has_substr(m, "Operation not permitted"@) || has_substr(m, "Permission denied"@)),
        kind_for_message(m) == FileInvalidationErrorKind::NonUtf8Path ==> (has_substr(m, "non-UTF-8 path"@)),
        kind_for_message(m) == FileInvalidationErrorKind::GitRevisionUnavailable ==> (has_substr(m, "bad revision"@) || has_substr(m, "unknown revision"@)),
        kind_for_message(m) == FileInvalidationErrorKind::GitHeadTreeInvalid ==> (has_substr(m, "bad tree object HEAD"@)),
        kind_for_message(m) == FileInvalidationErrorKind::InvalidGitStatusOutput ==> (has_substr(m, "Invalid status code"@)),
        kind_for_message(m) == FileInvalidationErrorKind::RepositoryPathInvalid ==> (has_substr(m, "os error 267"@)),
        kind_for_message(m) == FileInvalidationErrorKind::Unknown <==> !(
            has_substr(m, "detected dubious ownership in repository"@) ||
            has_substr(m, "No such file or directory"@) ||
            has_substr(m, "program not found"@) ||
            has_substr(m, "No developer tools were found"@) ||
            has_substr(m, "git-lfs: command not found"@) ||
            has_substr(m, "Xcode license agreements"@) ||
            has_substr(m, "empty string is not a valid pathspec"@) ||
            has_substr(m, "outside repository"@) ||
            has_substr(m, "not a git repository"@) ||
            has_substr(m, "this operation must be run in a work tree"@) ||
            has_substr(m, "Operation not permitted"@) ||
            has_substr(m, "Permission denied"@) ||
            has_substr(m, "non-UTF-8 path"@) ||
            has_substr(m, "bad revision"@) ||
            has_substr(m, "unknown revision"@) ||
            has_substr(m, "bad tree object HEAD"@) ||
            has_substr(m, "Invalid status code"@) ||
            has_substr(m, "os error 267"@)
        ),
{
}

/// Only an `Unknown` failure takes its actionability from the underlying error;
/// for every other kind it is fixed by the kind.
pub proof fn lemma_actionability_fixed_by_kind(kind: FileInvalidationErrorKind, a: bool, b: bool)
    requires
        kind != FileInvalidationErrorKind::Unknown,
    ensures
        kind_is_actionable(kind, a) == kind_is_actionable(kind, b),
        kind_is_actionable(kind, a) <==> (kind == FileInvalidationErrorKind::InvalidEmptyPathspec
            || kind == FileInvalidationErrorKind::InvalidGitStatusOutput),
{
}

/// Whether the chars of `text` hold the phrase `pattern`.
fn mentions(text: &Vec<char>, pattern: &str) -> (b: bool)
    ensures
        b == has_substr(text@, pattern@),
{
    let p = chars_of(pattern);
    contains_chars(text, &p)
}

impl FileInvalidationErrorKind {
    /// Classifies an error message by the phrases that git and the system put in it.
    pub fn from_message(message: &str) -> (kind: Self)
        ensures
            kind == kind_for_message(message@),
    {
        let m = chars_of(message);
        if mentions(&m, "detected dubious ownership in repository") {
            FileInvalidationErrorKind::GitRejectedRepositoryOwnership
        } else if mentions(&m, "No such file or directory") || mentions(&m, "program not found")
            || mentions(&m, "No developer tools were found") {
            FileInvalidationErrorKind::GitUnavailable
        } else if mentions(&m, "git-lfs: command not found") {
            FileInvalidationErrorKind::GitLfsUnavailable
        } else if mentions(&m, "Xcode license agreements") {
            FileInvalidationErrorKind::XcodeLicenseNotAccepted
        } else if mentions(&m, "empty string is not a valid pathspec") {
            FileInvalidationErrorKind::InvalidEmptyPathspec
        } else if mentions(&m, "outside repository") {
            FileInvalidationErrorKind::PathOutsideRepository
        } else if mentions(&m, "not a git repository") {
            FileInvalidationErrorKind::NotGitRepository
        } else if mentions(&m, "this operation must be run in a work tree") {
            FileInvalidationErrorKind::NotWorkTree
        } else if mentions(&m, "Operation not permitted") || mentions(&m, "Permission denied") {
            FileInvalidationErrorKind::RepositoryPathNotAccessible
        } else if mentions(&m, "non-UTF-8 path") {
            FileInvalidationErrorKind::NonUtf8Path
        } else if mentions(&m, "bad revision") || mentions(&m, "unknown revision") {
            FileInvalidationErrorKind::GitRevisionUnavailable
        } else if mentions(&m, "bad tree object HEAD") {
            FileInvalidationErrorKind::GitHeadTreeInvalid
        } else if mentions(&m, "Invalid status code") {
            FileInvalidationErrorKind::InvalidGitStatusOutput
        } else if mentions(&m, "os error 267") {
            FileInvalidationErrorKind::RepositoryPathInvalid
        } else {
            FileInvalidationErrorKind::Unknown
        }
    }

    /// The sentence that describes this kind of failure.
    pub fn description(&self) -> (s: &'static str)
        ensures
            s@ == kind_description(*self),
    {
        match self {
            FileInvalidationErrorKind::GitRejectedRepositoryOwnership => "git rejected repository ownership",
            FileInvalidationErrorKind::GitUnavailable => "git is unavailable",
            FileInvalidationErrorKind::GitLfsUnavailable => "git lfs is unavailable",
            FileInvalidationErrorKind::XcodeLicenseNotAccepted => "xcode license is not accepted",
            FileInvalidationErrorKind::InvalidEmptyPathspec => "invalid empty pathspec",
            FileInvalidationErrorKind::PathOutsideRepository => "path is outside repository",
            FileInvalidationErrorKind::NotGitRepository => "path is not a git repository",
            FileInvalidationErrorKind::NotWorkTree => "repository is not a work tree",
            FileInvalidationErrorKind::RepositoryPathNotAccessible => "repository path is not accessible",
            FileInvalidationErrorKind::NonUtf8Path => "path is not valid UTF-8",
            FileInvalidationErrorKind::GitRevisionUnavailable => "git revision is unavailable",
            FileInvalidationErrorKind::GitHeadTreeInvalid => "git head tree is invalid",
            FileInvalidationErrorKind::InvalidGitStatusOutput => "git status output is invalid",
            FileInvalidationErrorKind::RepositoryPathInvalid => "repository path is invalid",
            FileInvalidationErrorKind::Unknown => "unknown file invalidation error",
        }
    }

    /// Whether a failure of this kind is one the user can act on; `inner_actionable`
    /// is what the underlying error says of itself, and decides for `Unknown` alone.
    pub fn is_actionable(&self, inner_actionable: bool) -> (b: bool)
        ensures
            b == kind_is_actionable(*self, inner_actionable),
    {
        match self {
            FileInvalidationErrorKind::InvalidEmptyPathspec
            | FileInvalidationErrorKind::InvalidGitStatusOutput => true,
            FileInvalidationErrorKind::Unknown => inner_actionable,
            FileInvalidationErrorKind::GitRejectedRepositoryOwnership
            | FileInvalidationErrorKind::GitUnavailable
            | FileInvalidationErrorKind::GitLfsUnavailable
            | FileInvalidationErrorKind::XcodeLicenseNotAccepted
            | FileInvalidationErrorKind::PathOutsideRepository
            | FileInvalidationErrorKind::NotGitRepository
            | FileInvalidationErrorKind::NotWorkTree
            | FileInvalidationErrorKind::RepositoryPathNotAccessible
            | FileInvalidationErrorKind::NonUtf8Path
            | FileInvalidationErrorKind::GitRevisionUnavailable
            | FileInvalidationErrorKind::GitHeadTreeInvalid
            | FileInvalidationErrorKind::RepositoryPathInvalid => false,
        }
    }
}

/// `anyhow::Error`, carried through the library as an opaque value.
#[verifier::external_type_specification]
#[verifier::external_body]
pub struct ExAnyhowError(anyhow::Error);

/// Renders `error` the way anyhow's alternate `Display` (`{:#}`) does: the error's
/// own message, then ": " and the message of each cause in its chain.
/// The error is opaque to Verus, so the contract says nothing of the text.
#[verifier::external_body]
fn render_error_chain(error: &anyhow::Error) -> (text: String) {
    format!("{error:#}")
}

/// A failed file invalidation: the underlying error, the text it was classified
/// by, and the kind of failure that text reports.
#[derive(Debug)]
pub struct FileInvalidationError {
    kind: FileInvalidationErrorKind,
    message: String,
    error: anyhow::Error,
}

impl FileInvalidationError {
    /// The kind always is the one that the recorded message reports.
    #[verifier::type_invariant]
    spec fn classified(self) -> bool {
        self.kind == kind_for_message(self.message@)
    }

    /// The kind of failure.
    pub closed spec fn kind_spec(self) -> FileInvalidationErrorKind {
        self.kind
    }

    /// The text the failure was classified by.
    pub closed spec fn message_spec(self) -> Seq<char> {
        self.message@
    }

    /// The underlying error.
    pub closed spec fn error_spec(self) -> anyhow::Error {
        self.error
    }

    /// Wraps `error`, classifying it by `message`, its rendered text.
    pub fn from_rendered(error: anyhow::Error, message: String) -> (r: Self)
        ensures
            r.kind_spec() == kind_for_message(message@),
            r.message_spec() == message@,
            r.error_spec() == error,
    {
        let kind = FileInvalidationErrorKind::from_message(message.as_str());
        FileInvalidationError { kind, message, error }
    }

    /// Wraps `error`, classifying it by its alternate rendering (its message
    /// followed by the messages of its causes).
    pub fn from(error: anyhow::Error) -> (r: Self)
        ensures
            r.kind_spec() == kind_for_message(r.message_spec()),
            r.error_spec() == error,
    {
        let message = render_error_chain(&error);
        Self::from_rendered(error, message)
    }

    /// The kind of failure.
    pub fn kind(&self) -> (k: FileInvalidationErrorKind)
        ensures
            k == self.kind_spec(),
            k == kind_for_message(self.message_spec()),
    {
        proof {
            use_type_invariant(self);
        }
        self.kind
    }

    /// The text the failure was classified by.
    pub fn message(&self) -> (m: &str)
        ensures
            m@ == self.message_spec(),
    {
        self.message.as_str()
    }

    /// The underlying error.
    pub fn error(&self) -> (e: &anyhow::Error)
        ensures
            *e == self.error_spec(),
    {
        &self.error
    }

    /// The sentence that describes the failure to a user: that of its kind.
    pub fn description(&self) -> (s: &'static str)
        ensures
            s@ == kind_description(self.kind_spec()),
    {
        self.kind.description()
    }

    /// Whether the user can act on the failure; `inner_actionable` is what the
    /// underlying error says of itself, and decides for `Unknown` failures alone.
    pub fn is_actionable(&self, inner_actionable: bool) -> (b: bool)
        ensures
            b == kind_is_actionable(self.kind_spec(), inner_actionable),
    {
        self.kind.is_actionable(inner_actionable)
    }

    /// A failed invalidation is always worth retrying.
    pub fn is_transient(&self) -> (b: bool)
        ensures
            b,
    {
        true
    }
}

/// `std::path::PathBuf`, carried through the library as an opaque value.
#[verifier::external_type_specification]
#[verifier::external_body]
pub struct ExPathBuf(std::path::PathBuf);

/// A request to recompute the diff of one file of a local repository. `Mode` is
/// the diff mode that the application compares the file in.
#[derive(Debug)]
pub struct FileInvalidationTask<Mode> {
    pub file: std::path::PathBuf,
    pub repo_path: std::path::PathBuf,
    pub mode: Mode,
    pub merge_base: Option<String>,
}

} // verus!
