//! The decisions of the `commit`, `pr` and `config` commands.
//!
//! The commands alternate between asking the version-control tool, the
//! terminal or a model and deciding what to do next; the deciding is here.
use crate::config::{AutoStage, Config, Format, Language};
use crate::git::GitError;
use crate::text::{is_blank, trim};
use vstd::prelude::*;

verus! {

/// Base branch used when none is given and none can be detected.
pub const FALLBACK_BASE_BRANCH: &'static str = "main";

/// Options of the `commit` command.
#[derive(Debug, Clone)]
pub struct CommitArgs {
    /// Stage all changes before committing.
    pub all: bool,
    /// Take the first suggestion without asking.
    pub yes: bool,
    /// Only print the generated messages; do not commit.
    pub dry_run: bool,
    /// Commit type to request, instead of letting the model choose.
    pub commit_type: Option<String>,
}

/// Options of the `pr` command.
#[derive(Debug, Clone)]
pub struct PrArgs {
    /// Branch to compare against; detected when absent.
    pub base: Option<String>,
    /// Copy the generated description to the clipboard.
    pub copy: bool,
}

/// Settings that the `config` command changes; `None` leaves one as it is.
#[derive(Debug, Clone)]
pub struct ConfigArgs {
    pub provider: Option<String>,
    pub model: Option<String>,
    pub api_key: Option<String>,
    pub base_url: Option<String>,
    pub lang: Option<Language>,
    pub format: Option<Format>,
    pub ollama_url: Option<String>,
}

/// What to do when nothing is staged.
#[derive(Debug, Clone, Copy, PartialEq, Eq, Structural)]
pub enum StagingDecision {
    /// Stage everything and read the staged diff again.
    Stage,
    /// Ask the user whether to stage everything.
    Confirm,
    /// Stop: there are changes, but the policy forbids staging them.
    RefuseByPolicy,
    /// Stop: there is nothing to commit at all.
    NothingToCommit,
}

/// The decision for a state with no staged changes.
pub open spec fn staging_decision(
    has_unstaged: bool,
    has_untracked: bool,
    policy: AutoStage,
    interactive: bool,
) -> StagingDecision {
    if !(has_unstaged || has_untracked) {
        StagingDecision::NothingToCommit
    } else {
        match policy {
            AutoStage::Always => StagingDecision::Stage,
            AutoStage::Never => StagingDecision::RefuseByPolicy,
            AutoStage::Ask => if interactive {
                StagingDecision::Confirm
            } else {
                StagingDecision::Stage
            },
        }
    }
}

/// Decides, when nothing is staged, between staging everything, asking
/// first, and stopping. Without a terminal `ask` stages silently.
pub fn decide_staging(
    has_unstaged: bool,
    has_untracked: bool,
    policy: AutoStage,
    interactive: bool,
) -> (r: StagingDecision)
    ensures
        r == staging_decision(has_unstaged, has_untracked, policy, interactive),
{
    if !(has_unstaged || has_untracked) {
        StagingDecision::NothingToCommit
    } else {
        match policy {
            AutoStage::Always => StagingDecision::Stage,
            AutoStage::Never => StagingDecision::RefuseByPolicy,
            AutoStage::Ask => if interactive {
                StagingDecision::Confirm
            } else {
                StagingDecision::Stage
            },
        }
    }
}

/// The suggestion taken without asking: the first one, when confirmation
/// is automatic, when there is only one, or when there is no terminal to
/// ask on. `None` means the user picks.
pub fn default_choice(count: usize, auto_confirm: bool, interactive: bool) -> (r: Option<usize>)
    requires
        count > 0,
    ensures
        (auto_confirm || count == 1 || !interactive) ==> r == Some(0usize),
        !(auto_confirm || count == 1 || !interactive) ==> r is None,
{
    if auto_confirm || count == 1 || !interactive {
        Some(0)
    } else {
        None
    }
}

/// Whether a branch differs from its base: a non-blank diff or at least one commit.
pub fn has_pr_changes(diff: &str, commits: &[String]) -> (r: bool)
    ensures
        r == (trim(diff@).len() > 0 || commits@.len() > 0),
{
    !is_blank(diff) || commits.len() > 0
}

/// The branch to compare against: the one given, else the detected one,
/// else [`FALLBACK_BASE_BRANCH`].
pub fn choose_base_branch(given: Option<String>, detected: Result<String, GitError>) -> (r: String)
    ensures
        r@ == match given {
            Some(b) => b@,
            None => match detected {
                Ok(b) => b@,
                Err(_) => FALLBACK_BASE_BRANCH@,
            },
        },
{
    match given {
        Some(b) => b,
        None => match detected {
            Ok(b) => b,
            Err(_) => String::from_str(FALLBACK_BASE_BRANCH),
        },
    }
}

/// `new` where it is given, else `old`.
pub open spec fn updated<T>(old: T, new: Option<T>) -> T {
    match new {
        Some(v) => v,
        None => old,
    }
}

/// `Some(new)` where it is given, else `old`.
pub open spec fn updated_opt<T>(old: Option<T>, new: Option<T>) -> Option<T> {
    match new {
        Some(v) => Some(v),
        None => old,
    }
}

impl ConfigArgs {
    /// Whether the arguments change anything.
    pub open spec fn changes_something(&self) -> bool {
        ||| self.provider is Some
        ||| self.model is Some
        ||| self.api_key is Some
        ||| self.base_url is Some
        ||| self.lang is Some
        ||| self.format is Some
        ||| self.ollama_url is Some
    }
}

impl Config {
    /// Applies the settings that `args` gives and leaves the others as they
    /// were. Returns whether any was given, so that the caller knows to save.
    pub fn apply_args(&mut self, args: ConfigArgs) -> (changed: bool)
        ensures
            changed == args.changes_something(),
            final(self).provider.name == updated(old(self).provider.name, args.provider),
            final(self).provider.model == updated(old(self).provider.model, args.model),
            final(self).provider.api_key == updated_opt(old(self).provider.api_key, args.api_key),
            final(self).provider.base_url == updated_opt(
                old(self).provider.base_url,
                args.base_url,
            ),
            final(self).provider.ollama_url == updated(
                old(self).provider.ollama_url,
                args.ollama_url,
            ),
            final(self).options.language == updated(old(self).options.language, args.lang),
            final(self).options.format == updated(old(self).options.format, args.format),
            final(self).options.auto_stage == old(self).options.auto_stage,
    {
        let mut changed = false;
        if let Some(v) = args.provider {
            self.provider.name = v;
            changed = true;
        }
        if let Some(v) = args.model {
            self.provider.model = v;
            changed = true;
        }
        if let Some(v) = args.api_key {
            self.provider.api_key = Some(v);
            changed = true;
        }
        if let Some(v) = args.base_url {
            self.provider.base_url = Some(v);
            changed = true;
        }
        if let Some(v) = args.lang {
            self.options.language = v;
            changed = true;
        }
        if let Some(v) = args.format {
            self.options.format = v;
            changed = true;
        }
        if let Some(v) = args.ollama_url {
            self.provider.ollama_url = v;
            changed = true;
        }
        changed
    }
}

} // verus!
