use git_ai::config::{Config, Format, Language};
use git_ai::prompt::{build_commit_prompt, build_pr_prompt, MAX_DIFF_BYTES};
use git_ai::text::truncate_diff;

fn config_with(lang: Language, format: Format) -> Config {
    let mut c = Config::default();
    c.options.language = lang;
    c.options.format = format;
    c
}

fn embedded_diff(prompt: &str) -> String {
    let start = prompt.find("```\n").unwrap() + 4;
    let end = prompt.rfind("\n```").unwrap();
    prompt[start..end].to_string()
}

#[test]
fn long_diff_is_cut_to_the_limit() {
    let diff = "a".repeat(5000);
    let p = build_commit_prompt(&diff, &Config::default(), None);
    assert_eq!(embedded_diff(&p), "a".repeat(4000));
    assert_eq!(MAX_DIFF_BYTES, 4000);
}

#[test]
fn short_diff_is_embedded_whole() {
    let diff = "+ added line\n- removed line";
    let p = build_commit_prompt(diff, &Config::default(), None);
    assert_eq!(embedded_diff(&p), diff);
}

#[test]
fn diff_of_exactly_the_limit_is_whole() {
    let diff = "b".repeat(4000);
    let p = build_pr_prompt(&diff, &[], &Config::default());
    assert_eq!(embedded_diff(&p), diff);
}

#[test]
fn multibyte_diff_is_cut_between_characters() {
    let diff = "한".repeat(4001);
    let p = build_commit_prompt(&diff, &Config::default(), None);
    assert_eq!(embedded_diff(&p), "한".repeat(1333));
}

#[test]
fn long_ascii_diff_in_pr_prompt_is_cut_at_the_byte_limit() {
    let diff = format!("{}{}", "x".repeat(3999), "é");
    let p = build_pr_prompt(&diff, &[], &Config::default());
    assert_eq!(embedded_diff(&p), "x".repeat(3999));
}

#[test]
fn truncate_diff_counts_bytes() {
    assert_eq!(truncate_diff("héllo", 2), "h");
    assert_eq!(truncate_diff("héllo", 3), "hé");
    assert_eq!(truncate_diff("éaaa", 3), "éa");
    assert_eq!(truncate_diff("aé", 2), "a");
    assert_eq!(truncate_diff("한", 2), "");
    assert_eq!(truncate_diff("abc", 5), "abc");
    assert_eq!(truncate_diff("", 0), "");
}

#[test]
fn commit_prompt_without_type_lists_types() {
    let p = build_commit_prompt("+ x", &config_with(Language::En, Format::Conventional), None);
    assert!(p.starts_with("You are a helpful assistant that generates Git commit messages"));
    assert!(p.contains("- Write the commit message in English.\n- Use Conventional Commits format WITHOUT scope."));
    assert!(p.contains("Choose the appropriate type: feat, fix, docs, style, refactor, test, chore"));
    assert!(p.contains("Generate 3 different suggestions"));
    assert!(p.contains("under 72 characters"));
    assert!(p.ends_with("1. type: description\n2. type(scope): description\n3. type: description"));
}

#[test]
fn commit_prompt_names_given_type() {
    let p = build_commit_prompt("+ x", &config_with(Language::Ko, Format::ConventionalScoped), Some("fix"));
    assert!(p.contains("Write the commit message in Korean."));
    assert!(p.contains("Use Conventional Commits format WITH scope."));
    assert!(p.contains("  - Use 'fix' as the commit type."));
    assert!(!p.contains("Choose the appropriate type"));
}

#[test]
fn gitmoji_prompt_has_mapping() {
    let p = build_commit_prompt("+ x", &config_with(Language::En, Format::Gitmoji), None);
    assert!(p.contains("  - ✨ feat: new feature\n  - 🐛 fix: bug fix"));
    assert!(p.contains("  - ♻️ refactor: code refactoring"));
}

#[test]
fn free_prompt_names_a_given_type_only() {
    let p = build_commit_prompt("+ x", &config_with(Language::En, Format::Free), Some("feat"));
    assert!(p.contains("- Write a clear, concise commit message.\n  - Use 'feat' as the commit type.\n- Keep the subject line"));
    let q = build_commit_prompt("+ x", &config_with(Language::En, Format::Free), None);
    assert!(q.contains("- Write a clear, concise commit message.\n- Keep the subject line"));
    assert!(!q.contains("Choose the appropriate type"));
}

#[test]
fn pr_prompt_lists_commits() {
    let commits = vec!["feat: one".to_string(), "fix: two".to_string()];
    let p = build_pr_prompt("+ x", &commits, &config_with(Language::Ko, Format::Free));
    assert!(p.contains("- Write the PR description in Korean."));
    assert!(p.contains("\n\nCommits in this PR:\n- feat: one\n- fix: two\n\nGit diff (truncated if too long):\n```\n+ x\n```\n"));
    assert!(p.ends_with("Generate the PR title and description:"));
}

#[test]
fn pr_prompt_without_commits_has_no_section() {
    let p = build_pr_prompt("+ x", &[], &Config::default());
    assert!(!p.contains("Commits in this PR"));
    assert!(p.contains("Keep it professional and informative.\n\n\n\nGit diff (truncated if too long):"));
}
