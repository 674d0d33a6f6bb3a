use git_ai::commands::{
    choose_base_branch, decide_staging, default_choice, has_pr_changes, ConfigArgs, StagingDecision,
};
use git_ai::config::{AutoStage, Config, Format, Language};
use git_ai::git::{Git, GitError};
use git_ai::prompt::build_commit_prompt;
use git_ai::suggestions::parse_suggestions;

#[test]
fn scenario_commit_with_unscoped_style() {
    let mut config = Config::default();
    config.options.format = Format::Conventional;
    let prompt = build_commit_prompt("+ added line", &config, None);
    assert!(prompt.contains("```\n+ added line\n```"));
    assert!(prompt.contains("WITHOUT scope"));
    let reply = "1. feat: add new line\n2. feat: introduce line\n3. chore: add line";
    let messages = parse_suggestions(reply);
    assert_eq!(messages.len(), 3);
    let index = default_choice(messages.len(), false, false).unwrap();
    assert_eq!(index, 0);
    assert_eq!(messages[index], "feat: add new line");
}

#[test]
fn scenario_never_policy_refuses_to_stage() {
    assert_eq!(Git::staged_diff_from_output("  \n".to_string()).unwrap_err().message(), "No staged changes");
    assert_eq!(decide_staging(true, false, AutoStage::Never, true), StagingDecision::RefuseByPolicy);
    assert_eq!(decide_staging(true, false, AutoStage::Never, false), StagingDecision::RefuseByPolicy);
}

#[test]
fn scenario_pr_without_changes() {
    assert!(!has_pr_changes("", &[]));
    assert!(!has_pr_changes(" \n", &[]));
    assert!(has_pr_changes("", &["feat: x".to_string()]));
    assert!(has_pr_changes("+ a", &[]));
}

#[test]
fn staging_decisions() {
    assert_eq!(decide_staging(false, false, AutoStage::Always, true), StagingDecision::NothingToCommit);
    assert_eq!(decide_staging(false, true, AutoStage::Always, true), StagingDecision::Stage);
    assert_eq!(decide_staging(true, true, AutoStage::Ask, true), StagingDecision::Confirm);
    assert_eq!(decide_staging(true, false, AutoStage::Ask, false), StagingDecision::Stage);
}

#[test]
fn default_choice_cases() {
    assert_eq!(default_choice(3, true, true), Some(0));
    assert_eq!(default_choice(1, false, true), Some(0));
    assert_eq!(default_choice(3, false, true), None);
}

#[test]
fn base_branch_choice() {
    assert_eq!(choose_base_branch(Some("dev".to_string()), Ok("main".to_string())), "dev");
    assert_eq!(choose_base_branch(None, Ok("trunk".to_string())), "trunk");
    assert_eq!(choose_base_branch(None, Err(GitError::NotARepository)), "main");
}

#[test]
fn git_output_interpretation() {
    assert_eq!(Git::staged_diff_from_output("diff --git a b\n".to_string()).unwrap(), "diff --git a b\n");
    assert!(Git::shows_changes(" x "));
    assert!(!Git::shows_changes("\n\n"));
    assert_eq!(Git::branch_from_output("feature/x\n"), "feature/x");
    assert_eq!(Git::default_branch_from_output("origin/main\n"), "main");
    assert_eq!(Git::default_branch_from_output("upstream/main"), "upstream/main");
    assert_eq!(Git::default_branch_from_output("origin"), "origin");
    assert_eq!(Git::subjects_from_output("feat: a\nfix: b\r\n"), vec!["feat: a", "fix: b"]);
    assert_eq!(Git::subjects_from_output("one\n\ntwo"), vec!["one", "", "two"]);
    assert!(Git::subjects_from_output("").is_empty());
}

#[test]
fn command_status_and_default_branch_fallback() {
    assert_eq!(Git::command_result(true, "out".to_string(), "err".to_string()).unwrap(), "out");
    match Git::command_result(false, "out".to_string(), "err".to_string()) {
        Err(GitError::CommandFailed(e)) => assert_eq!(e, "err"),
        other => panic!("unexpected: {:?}", other),
    }
    assert_eq!(Git::fallback_default_branch(true, true).unwrap(), "main");
    assert_eq!(Git::fallback_default_branch(false, true).unwrap(), "master");
    assert_eq!(
        Git::fallback_default_branch(false, false).unwrap_err().message(),
        "Git command failed: Could not determine default branch"
    );
}

#[test]
fn git_error_messages() {
    assert_eq!(GitError::CommandFailed("boom".to_string()).message(), "Git command failed: boom");
    assert_eq!(GitError::NotARepository.message(), "Not a git repository");
}

#[test]
fn config_args_apply() {
    let mut c = Config::default();
    let none = ConfigArgs {
        provider: None, model: None, api_key: None, base_url: None, lang: None, format: None, ollama_url: None,
    };
    assert!(!c.apply_args(none));
    assert_eq!(c.provider.name, "ollama");
    let some = ConfigArgs {
        provider: Some("openai".to_string()),
        model: None,
        api_key: Some("k".to_string()),
        base_url: None,
        lang: Some(Language::Ko),
        format: Some(Format::Gitmoji),
        ollama_url: None,
    };
    assert!(c.apply_args(some));
    assert_eq!(c.provider.name, "openai");
    assert_eq!(c.provider.model, "llama3.2");
    assert_eq!(c.provider.api_key.as_deref(), Some("k"));
    assert_eq!(c.options.language, Language::Ko);
    assert_eq!(c.options.format, Format::Gitmoji);
    assert_eq!(c.options.auto_stage, AutoStage::Ask);
}

#[test]
fn names_of_options() {
    assert_eq!(Language::from_name("ko"), Some(Language::Ko));
    assert_eq!(Language::from_name("fr"), None);
    assert_eq!(Format::from_name("conventional-scoped"), Some(Format::ConventionalScoped));
    assert_eq!(Format::from_name("Free"), None);
    assert_eq!(Format::Gitmoji.as_str(), "gitmoji");
    assert_eq!(AutoStage::Never.as_str(), "never");
    assert_eq!(Language::default().as_str(), "en");
}

#[test]
fn config_path_is_under_the_tool_directory() {
    let p = Config::config_path();
    assert!(p.ends_with("git-ai/config.toml"));
    assert!(Config::config_dir().ends_with("git-ai"));
}
