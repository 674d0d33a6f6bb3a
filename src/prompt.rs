//! Instruction text sent to the model for commit messages and PR descriptions.
use crate::config::{Config, Format, Language};
use crate::text::{cut_point, lemma_cut_point, string_views, truncate_diff, truncated};
use vstd::utf8::{
    decode_utf8_encode_utf8, encode_utf8, encode_utf8_valid_utf8, valid_utf8_split,
};
use vstd::prelude::*;

verus! {

/// Most bytes of a diff that a prompt embeds; a longer diff is cut back to
/// the last character boundary at or below this many bytes.
pub const MAX_DIFF_BYTES: usize = 4000;

pub const COMMIT_INTRO: &'static str =
    "You are a helpful assistant that generates Git commit messages based on the given diff.\n\nInstructions:\n- ";

pub const COMMIT_RULES: &'static str = "\n- Keep the subject line under 72 characters\n- Be specific about what changed\n- Generate 3 different suggestions\n- Output ONLY the commit messages, one per line, starting with \"1. \", \"2. \", \"3. \"\n- Do NOT include any explanations, markdown formatting, or extra text\n\nGit diff:";

pub const COMMIT_OUTRO: &'static str = "\n\nOutput format (follow EXACTLY):\n1. type: description\n2. type(scope): description\n3. type: description";

pub const CONVENTIONAL_BLOCK: &'static str = "Use Conventional Commits format WITHOUT scope. Follow this pattern EXACTLY:\n  - type: description\n\nExamples:\n  - feat: add user authentication\n  - fix: resolve timeout issue\n  - docs: update README with examples\n\nIMPORTANT:\n  - Do NOT use scope: \u{274c} feat(api): description\n  - Only use type and description: \u{2705} feat: description\n  - ";

pub const SCOPED_BLOCK: &'static str = "Use Conventional Commits format WITH scope. Follow this pattern EXACTLY:\n  - type(scope): description\n\nExamples:\n  - feat(auth): add user authentication\n  - fix(api): resolve timeout issue\n  - docs(readme): update installation guide\n\nIMPORTANT:\n  - Always include scope: \u{2705} feat(api): description\n  - Never omit scope: \u{274c} feat: description\n  - Never nest parentheses: \u{274c} feat(api): fix)\n  - ";

pub const GITMOJI_BLOCK: &'static str = "Use Gitmoji with Conventional Commits format. Follow this pattern EXACTLY:\n  - emoji type: description\n\nGitmoji mapping:\n  - \u{2728} feat: new feature\n  - \u{1f41b} fix: bug fix\n  - \u{1f4dd} docs: documentation\n  - \u{1f484} style: formatting, styling\n  - \u{267b}\u{fe0f} refactor: code refactoring\n  - \u{2705} test: adding tests\n  - \u{1f527} chore: maintenance\n\nExamples:\n  - \u{2728} feat: add user authentication\n  - \u{1f41b} fix: resolve timeout issue\n  - \u{1f4dd} docs: update README with examples\n  - \u{267b}\u{fe0f} refactor: simplify error handling\n\nIMPORTANT:\n  - Always start with the emoji: \u{2705} \u{2728} feat: description\n  - Never omit emoji: \u{274c} feat: description\n  - Use the correct emoji for the type\n  - Keep type keyword after emoji for clarity\n  - ";

/// Opens the fenced block that holds the diff.
pub const DIFF_FENCE_OPEN: &'static str = "\n```\n";

/// Closes the fenced block that holds the diff.
pub const DIFF_FENCE_CLOSE: &'static str = "\n```";

/// Put between the free-form instruction and a given commit type.
pub const FREE_TYPE_SEPARATOR: &'static str = "\n  - ";

pub const FREE_BLOCK: &'static str = "Write a clear, concise commit message.";

pub const TYPE_CHOICE: &'static str =
    "Choose the appropriate type: feat, fix, docs, style, refactor, test, chore";

pub const TYPE_GIVEN_OPEN: &'static str = "Use '";

pub const TYPE_GIVEN_CLOSE: &'static str = "' as the commit type.";

pub const COMMIT_EN: &'static str = "Write the commit message in English.";

pub const COMMIT_KO: &'static str = "Write the commit message in Korean.";

pub const PR_INTRO: &'static str =
    "You are a helpful assistant that generates Pull Request descriptions.\n\nInstructions:\n- ";

pub const PR_RULES: &'static str = "\n- Generate a clear, well-structured PR description.\n- Include a concise title (first line, without any prefix like \"Title:\").\n- Include a summary section explaining what this PR does.\n- Include a list of key changes.\n- Keep it professional and informative.\n\n";

pub const PR_DIFF_OPEN: &'static str = "\n\nGit diff (truncated if too long):";

pub const PR_OUTRO: &'static str = "\n\nGenerate the PR title and description:";

pub const PR_EN: &'static str = "Write the PR description in English.";

pub const PR_KO: &'static str = "Write the PR description in Korean.";

pub const COMMITS_HEADING: &'static str = "Commits in this PR:\n";

pub const BULLET: &'static str = "- ";

pub const NEWLINE_BULLET: &'static str = "\n- ";

pub open spec fn opt_view(t: Option<&str>) -> Option<Seq<char>> {
    match t {
        Some(s) => Some(s@),
        None => None,
    }
}

/// The sentence that fixes the language of a commit message.
pub open spec fn commit_language_line(lang: Language) -> Seq<char> {
    match lang {
        Language::En => COMMIT_EN@,
        Language::Ko => COMMIT_KO@,
    }
}

/// The sentence that fixes the language of a PR description.
pub open spec fn pr_language_line(lang: Language) -> Seq<char> {
    match lang {
        Language::En => PR_EN@,
        Language::Ko => PR_KO@,
    }
}

/// Names the commit type when one is given, else lists the permitted ones.
pub open spec fn type_hint(commit_type: Option<Seq<char>>) -> Seq<char> {
    match commit_type {
        Some(t) => TYPE_GIVEN_OPEN@ + t + TYPE_GIVEN_CLOSE@,
        None => TYPE_CHOICE@,
    }
}

/// The instruction block for a message style.
pub open spec fn format_block(format: Format, commit_type: Option<Seq<char>>) -> Seq<char> {
    match format {
        Format::Conventional => CONVENTIONAL_BLOCK@ + type_hint(commit_type),
        Format::ConventionalScoped => SCOPED_BLOCK@ + type_hint(commit_type),
        Format::Gitmoji => GITMOJI_BLOCK@ + type_hint(commit_type),
        Format::Free => match commit_type {
            Some(t) => FREE_BLOCK@ + FREE_TYPE_SEPARATOR@ + type_hint(Some(t)),
            None => FREE_BLOCK@,
        },
    }
}

/// The instructions of a commit prompt, up to the fenced diff.
pub open spec fn commit_instructions(
    lang: Language,
    format: Format,
    commit_type: Option<Seq<char>>,
) -> Seq<char> {
    COMMIT_INTRO@ + commit_language_line(lang) + NEWLINE_BULLET@ + format_block(
        format,
        commit_type,
    ) + COMMIT_RULES@
}

/// Everything of a commit prompt that comes before the diff.
pub open spec fn commit_head(lang: Language, format: Format, commit_type: Option<Seq<char>>) -> Seq<
    char,
> {
    commit_instructions(lang, format, commit_type) + DIFF_FENCE_OPEN@
}

/// Everything of a commit prompt that comes after the diff.
pub open spec fn commit_tail() -> Seq<char> {
    DIFF_FENCE_CLOSE@ + COMMIT_OUTRO@
}

/// The commit prompt for `diff`.
pub open spec fn commit_prompt(
    diff: Seq<char>,
    lang: Language,
    format: Format,
    commit_type: Option<Seq<char>>,
) -> Seq<char> {
    commit_head(lang, format, commit_type) + truncated(diff, MAX_DIFF_BYTES as nat)
        + commit_tail()
}

/// `- c` for each commit subject, one per line.
pub open spec fn bullet_list(commits: Seq<Seq<char>>) -> Seq<char>
    decreases commits.len(),
{
    if commits.len() == 0 {
        Seq::empty()
    } else if commits.len() == 1 {
        BULLET@ + commits[0]
    } else {
        bullet_list(commits.drop_last()) + NEWLINE_BULLET@ + commits.last()
    }
}

/// The commit section of a PR prompt; empty when there are no commits.
pub open spec fn commits_section(commits: Seq<Seq<char>>) -> Seq<char> {
    if commits.len() == 0 {
        Seq::empty()
    } else {
        COMMITS_HEADING@ + bullet_list(commits)
    }
}

/// The instructions of a PR prompt, up to the fenced diff.
pub open spec fn pr_instructions(commits: Seq<Seq<char>>, lang: Language) -> Seq<char> {
    PR_INTRO@ + pr_language_line(lang) + PR_RULES@ + commits_section(commits) + PR_DIFF_OPEN@
}

/// Everything of a PR prompt that comes before the diff.
pub open spec fn pr_head(commits: Seq<Seq<char>>, lang: Language) -> Seq<char> {
    pr_instructions(commits, lang) + DIFF_FENCE_OPEN@
}

/// Everything of a PR prompt that comes after the diff.
pub open spec fn pr_tail() -> Seq<char> {
    DIFF_FENCE_CLOSE@ + PR_OUTRO@
}

/// The PR prompt for `diff` and the subjects of `commits`.
pub open spec fn pr_prompt(diff: Seq<char>, commits: Seq<Seq<char>>, lang: Language) -> Seq<char> {
    pr_head(commits, lang) + truncated(diff, MAX_DIFF_BYTES as nat) + pr_tail()
}

fn append_type_hint(s: &mut String, commit_type: Option<&str>)
    ensures
        final(s)@ == old(s)@ + type_hint(opt_view(commit_type)),
{
    match commit_type {
        Some(t) => {
            s.append(TYPE_GIVEN_OPEN);
            s.append(t);
            s.append(TYPE_GIVEN_CLOSE);
        },
        None => {
            s.append(TYPE_CHOICE);
        },
    }
}

/// Builds the instruction text for a commit message: language, style,
/// commit type, the diff in a fenced block cut to [`MAX_DIFF_BYTES`] bytes,
/// and the
/// request for exactly three numbered suggestions.
pub fn build_commit_prompt(diff: &str, config: &Config, commit_type: Option<&str>) -> (r: String)
    ensures
        r@ == commit_prompt(
            diff@,
            config.options.language,
            config.options.format,
            opt_view(commit_type),
        ),
{
    let mut s = String::from_str(COMMIT_INTRO);
    match config.options.language {
        Language::En => s.append(COMMIT_EN),
        Language::Ko => s.append(COMMIT_KO),
    }
    s.append(NEWLINE_BULLET);
    match config.options.format {
        Format::Conventional => {
            s.append(CONVENTIONAL_BLOCK);
            append_type_hint(&mut s, commit_type);
        },
        Format::ConventionalScoped => {
            s.append(SCOPED_BLOCK);
            append_type_hint(&mut s, commit_type);
        },
        Format::Gitmoji => {
            s.append(GITMOJI_BLOCK);
            append_type_hint(&mut s, commit_type);
        },
        Format::Free => {
            s.append(FREE_BLOCK);
            if let Some(t) = commit_type {
                s.append(FREE_TYPE_SEPARATOR);
                append_type_hint(&mut s, Some(t));
            }
        },
    }
    s.append(COMMIT_RULES);
    s.append(DIFF_FENCE_OPEN);
    s.append(truncate_diff(diff, MAX_DIFF_BYTES));
    s.append(DIFF_FENCE_CLOSE);
    s.append(COMMIT_OUTRO);
    s
}

fn append_bullets(s: &mut String, commits: &[String])
    ensures
        final(s)@ == old(s)@ + bullet_list(string_views(commits@)),
{
    let ghost start = s@;
    let n = commits.len();
    let mut i: usize = 0;
    while i < n
        invariant
            n == commits@.len(),
            i <= n,
            s@ == start + bullet_list(string_views(commits@.subrange(0, i as int))),
        decreases n - i,
    {
        let ghost before = string_views(commits@.subrange(0, i as int));
        let ghost after = string_views(commits@.subrange(0, i + 1));
        assert(after.drop_last() =~= before);
        if i == 0 {
            s.append(BULLET);
            assert(after[0] == commits@[0]@);
        } else {
            s.append(NEWLINE_BULLET);
        }
        s.append(commits[i].as_str());
        assert(s@ =~= start + bullet_list(after));
        i = i + 1;
    }
    assert(commits@.subrange(0, n as int) =~= commits@);
}

/// Builds the instruction text for a PR title and description: language,
/// the commit subjects as a bulleted section (left out when there are none)
/// and the diff in a fenced block cut to [`MAX_DIFF_BYTES`] bytes.
pub fn build_pr_prompt(diff: &str, commits: &[String], config: &Config) -> (r: String)
    ensures
        r@ == pr_prompt(diff@, string_views(commits@), config.options.language),
{
    let mut s = String::from_str(PR_INTRO);
    match config.options.language {
        Language::En => s.append(PR_EN),
        Language::Ko => s.append(PR_KO),
    }
    s.append(PR_RULES);
    if commits.len() > 0 {
        s.append(COMMITS_HEADING);
        append_bullets(&mut s, commits);
    }
    s.append(PR_DIFF_OPEN);
    s.append(DIFF_FENCE_OPEN);
    s.append(truncate_diff(diff, MAX_DIFF_BYTES));
    s.append(DIFF_FENCE_CLOSE);
    s.append(PR_OUTRO);
    s
}

/// Both prompts hold the diff in a fenced block, between text that does not
/// depend on it. A diff of at most [`MAX_DIFF_BYTES`] bytes appears whole; a
/// longer one appears as its first bytes up to the last character boundary at
/// or below the limit.
pub proof fn lemma_prompts_embed_truncated_diff(
    diff: Seq<char>,
    commits: Seq<Seq<char>>,
    lang: Language,
    format: Format,
    commit_type: Option<Seq<char>>,
)
    ensures
        commit_prompt(diff, lang, format, commit_type) == commit_instructions(
            lang,
            format,
            commit_type,
        ) + DIFF_FENCE_OPEN@ + truncated(diff, MAX_DIFF_BYTES as nat) + DIFF_FENCE_CLOSE@
            + COMMIT_OUTRO@,
        pr_prompt(diff, commits, lang) == pr_instructions(commits, lang) + DIFF_FENCE_OPEN@
            + truncated(diff, MAX_DIFF_BYTES as nat) + DIFF_FENCE_CLOSE@ + PR_OUTRO@,
        encode_utf8(diff).len() <= MAX_DIFF_BYTES ==> truncated(diff, MAX_DIFF_BYTES as nat)
            == diff,
        encode_utf8(diff).len() > MAX_DIFF_BYTES ==> encode_utf8(
            truncated(diff, MAX_DIFF_BYTES as nat),
        ) == encode_utf8(diff).subrange(0, cut_point(encode_utf8(diff), MAX_DIFF_BYTES as int)),
        encode_utf8(diff).len() > MAX_DIFF_BYTES ==> cut_point(
            encode_utf8(diff),
            MAX_DIFF_BYTES as int,
        ) <= MAX_DIFF_BYTES,
{
    let b = encode_utf8(diff);
    encode_utf8_valid_utf8(diff);
    let k = cut_point(b, MAX_DIFF_BYTES as int);
    lemma_cut_point(b, MAX_DIFF_BYTES as int);
    if b.len() > MAX_DIFF_BYTES {
        valid_utf8_split(b, k);
        decode_utf8_encode_utf8(b.subrange(0, k));
    }
    assert(commit_prompt(diff, lang, format, commit_type) =~= commit_instructions(
        lang,
        format,
        commit_type,
    ) + DIFF_FENCE_OPEN@ + truncated(diff, MAX_DIFF_BYTES as nat) + DIFF_FENCE_CLOSE@
        + COMMIT_OUTRO@);
    assert(pr_prompt(diff, commits, lang) =~= pr_instructions(commits, lang) + DIFF_FENCE_OPEN@
        + truncated(diff, MAX_DIFF_BYTES as nat) + DIFF_FENCE_CLOSE@ + PR_OUTRO@);
}

} // verus!
