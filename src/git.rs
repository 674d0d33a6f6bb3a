//! Interpretation of what the version-control tool prints.
//!
//! Running the tool is the caller's part; these functions turn its output
//! into the values and errors that the commands work with.
use crate::text::{chars_of, is_blank, lines_of, string_views, text_lines, trim, trimmed};
use vstd::prelude::*;

verus! {

/// Prefix that a remote's default branch carries in `symbolic-ref` output.
pub const REMOTE_PREFIX: &'static str = "origin/";

/// Detail of the failure when no default branch can be found.
pub const NO_DEFAULT_BRANCH: &'static str = "Could not determine default branch";

/// Why a version-control query failed.
#[derive(Debug)]
pub enum GitError {
    /// The tool ran and reported failure; its error output is kept.
    CommandFailed(String),
    NotARepository,
    NoStagedChanges,
    /// The tool could not be started.
    ExecutionError(String),
}

impl GitError {
    pub open spec fn spec_message(&self) -> Seq<char> {
        match self {
            GitError::CommandFailed(d) => "Git command failed: "@ + d@,
            GitError::NotARepository => "Not a git repository"@,
            GitError::NoStagedChanges => "No staged changes"@,
            GitError::ExecutionError(d) => "Failed to execute git: "@ + d@,
        }
    }

    /// Human-readable description of the error.
    pub fn message(&self) -> (r: String)
        ensures
            r@ == self.spec_message(),
    {
        match self {
            GitError::CommandFailed(d) => {
                let mut s = String::from_str("Git command failed: ");
                s.append(d.as_str());
                s
            },
            GitError::NotARepository => String::from_str("Not a git repository"),
            GitError::NoStagedChanges => String::from_str("No staged changes"),
            GitError::ExecutionError(d) => {
                let mut s = String::from_str("Failed to execute git: ");
                s.append(d.as_str());
                s
            },
        }
    }
}

/// `branch` without a leading [`REMOTE_PREFIX`], where it has one.
pub open spec fn without_remote(branch: Seq<char>) -> Seq<char> {
    let p = REMOTE_PREFIX@;
    if branch.len() >= p.len() && branch.subrange(0, p.len() as int) == p {
        branch.subrange(p.len() as int, branch.len() as int)
    } else {
        branch
    }
}

/// The version-control tool, as seen through its output.
pub struct Git;

impl Git {
    /// What a finished command yields: its output when it succeeded, else
    /// a failure that carries its error output.
    pub fn command_result(success: bool, stdout: String, stderr: String) -> (r: Result<
        String,
        GitError,
    >)
        ensures
            success ==> (r matches Ok(o) && o == stdout),
            !success ==> (r matches Err(GitError::CommandFailed(e)) && e == stderr),
    {
        if success {
            Ok(stdout)
        } else {
            Err(GitError::CommandFailed(stderr))
        }
    }

    /// The default branch when the remote names none: `main` if it exists,
    /// else `master` if it exists, else a failure.
    pub fn fallback_default_branch(main_exists: bool, master_exists: bool) -> (r: Result<
        String,
        GitError,
    >)
        ensures
            main_exists ==> (r matches Ok(b) && b@ == "main"@),
            !main_exists && master_exists ==> (r matches Ok(b) && b@ == "master"@),
            !main_exists && !master_exists ==> (r matches Err(GitError::CommandFailed(e))
                && e@ == NO_DEFAULT_BRANCH@),
    {
        if main_exists {
            Ok(String::from_str("main"))
        } else if master_exists {
            Ok(String::from_str("master"))
        } else {
            Err(GitError::CommandFailed(String::from_str(NO_DEFAULT_BRANCH)))
        }
    }

    /// The staged diff, unless it is blank: then nothing is staged.
    pub fn staged_diff_from_output(diff: String) -> (r: Result<String, GitError>)
        ensures
            trim(diff@).len() == 0 ==> r matches Err(GitError::NoStagedChanges),
            trim(diff@).len() > 0 ==> (r matches Ok(d) && d == diff),
    {
        if is_blank(diff.as_str()) {
            Err(GitError::NoStagedChanges)
        } else {
            Ok(diff)
        }
    }

    /// Whether a listing (a diff, or the names of untracked files) shows anything.
    pub fn shows_changes(output: &str) -> (r: bool)
        ensures
            r == (trim(output@).len() > 0),
    {
        !is_blank(output)
    }

    /// The branch name that `rev-parse --abbrev-ref HEAD` printed.
    pub fn branch_from_output(output: &str) -> (r: String)
        ensures
            r@ == trim(output@),
    {
        trimmed(output)
    }

    /// The local name of the remote's default branch that
    /// `symbolic-ref --short` printed.
    pub fn default_branch_from_output(output: &str) -> (r: String)
        ensures
            r@ == without_remote(trim(output@)),
    {
        let t = trimmed(output);
        let v = chars_of(t.as_str());
        let p = chars_of(REMOTE_PREFIX);
        let n = v.len();
        let k = p.len();
        if n >= k {
            let mut i: usize = 0;
            while i < k
                invariant
                    k == p@.len(),
                    k <= n == v@.len(),
                    v@ == t@,
                    t@ == trim(output@),
                    p@ == REMOTE_PREFIX@,
                    i <= k,
                    forall|j: int| 0 <= j < i ==> v@[j] == p@[j],
                decreases k - i,
            {
                if v[i] != p[i] {
                    assert(v@.subrange(0, k as int)[i as int] == v@[i as int]);
                    assert(v@.subrange(0, k as int) != p@);
                    return t;
                }
                i = i + 1;
            }
            assert(v@.subrange(0, k as int) =~= p@);
            String::from_str(t.as_str().substring_char(k, n))
        } else {
            t
        }
    }

    /// The commit subjects that `log --pretty=format:%s` printed, one per line.
    pub fn subjects_from_output(output: &str) -> (r: Vec<String>)
        ensures
            string_views(r@) == text_lines(output@),
    {
        lines_of(output)
    }
}

} // verus!
