use std::path::PathBuf;
use vstd::prelude::*;

verus! {

/// Language in which generated text is written.
#[derive(Clone, Copy, Debug, PartialEq, Eq, Structural)]
pub enum Language {
    En,
    Ko,
}

impl Default for Language {
    fn default() -> (r: Self)
        ensures
            r == Language::En,
    {
        Language::En
    }
}

impl Language {
    /// Name used in configuration files and on the command line.
    pub open spec fn spec_name(self) -> Seq<char> {
        match self {
            Language::En => "en"@,
            Language::Ko => "ko"@,
        }
    }

    /// The language whose name is `s`, if any.
    pub fn from_name(s: &str) -> (r: Option<Language>)
        ensures
            r == Some(Language::En) <==> s@ == Language::En.spec_name(),
            r == Some(Language::Ko) <==> s@ == Language::Ko.spec_name(),
    {
        proof {
            reveal_strlit("en");
            reveal_strlit("ko");
            assert(Language::En.spec_name()[0] != Language::Ko.spec_name()[0]);
        }
        if crate::text::text_eq(s, "en") {
            Some(Language::En)
        } else if crate::text::text_eq(s, "ko") {
            Some(Language::Ko)
        } else {
            None
        }
    }

    pub fn as_str(&self) -> (r: &'static str)
        ensures
            r@ == self.spec_name(),
    {
        match self {
            Language::En => "en",
            Language::Ko => "ko",
        }
    }
}

/// Shape of a generated commit message.
#[derive(Clone, Copy, Debug, PartialEq, Eq, Structural)]
pub enum Format {
    /// Conventional Commits without scope: `type: description`.
    Conventional,
    /// Conventional Commits with scope: `type(scope): description`.
    ConventionalScoped,
    /// An emoji, then the conventional type: `✨ feat: description`.
    Gitmoji,
    /// Free-form message.
    Free,
}

impl Default for Format {
    fn default() -> (r: Self)
        ensures
            r == Format::Conventional,
    {
        Format::Conventional
    }
}

impl Format {
    pub open spec fn spec_name(self) -> Seq<char> {
        match self {
            Format::Conventional => "conventional"@,
            Format::ConventionalScoped => "conventional-scoped"@,
            Format::Gitmoji => "gitmoji"@,
            Format::Free => "free"@,
        }
    }

    /// The format whose name is `s`, if any.
    pub fn from_name(s: &str) -> (r: Option<Format>)
        ensures
            r == Some(Format::Conventional) <==> s@ == Format::Conventional.spec_name(),
            r == Some(Format::ConventionalScoped) <==> s@ == Format::ConventionalScoped.spec_name(),
            r == Some(Format::Gitmoji) <==> s@ == Format::Gitmoji.spec_name(),
            r == Some(Format::Free) <==> s@ == Format::Free.spec_name(),
    {
        proof {
            reveal_strlit("conventional");
            reveal_strlit("conventional-scoped");
            reveal_strlit("gitmoji");
            reveal_strlit("free");
            assert(Format::Conventional.spec_name().len() == 12);
            assert(Format::ConventionalScoped.spec_name().len() == 19);
            assert(Format::Gitmoji.spec_name().len() == 7);
            assert(Format::Free.spec_name().len() == 4);
        }
        if crate::text::text_eq(s, "conventional") {
            Some(Format::Conventional)
        } else if crate::text::text_eq(s, "conventional-scoped") {
            Some(Format::ConventionalScoped)
        } else if crate::text::text_eq(s, "gitmoji") {
            Some(Format::Gitmoji)
        } else if crate::text::text_eq(s, "free") {
            Some(Format::Free)
        } else {
            None
        }
    }

    pub fn as_str(&self) -> (r: &'static str)
        ensures
            r@ == self.spec_name(),
    {
        match self {
            Format::Conventional => "conventional",
            Format::ConventionalScoped => "conventional-scoped",
            Format::Gitmoji => "gitmoji",
            Format::Free => "free",
        }
    }
}

/// Whether to stage all changes when nothing is staged.
#[derive(Clone, Copy, Debug, PartialEq, Eq, Structural)]
pub enum AutoStage {
    Ask,
    Always,
    Never,
}

impl Default for AutoStage {
    fn default() -> (r: Self)
        ensures
            r == AutoStage::Ask,
    {
        AutoStage::Ask
    }
}

impl AutoStage {
    pub open spec fn spec_name(self) -> Seq<char> {
        match self {
            AutoStage::Ask => "ask"@,
            AutoStage::Always => "always"@,
            AutoStage::Never => "never"@,
        }
    }

    pub fn as_str(&self) -> (r: &'static str)
        ensures
            r@ == self.spec_name(),
    {
        match self {
            AutoStage::Ask => "ask",
            AutoStage::Always => "always",
            AutoStage::Never => "never",
        }
    }
}

/// The whole configuration, read once per invocation.
#[derive(Debug, Clone)]
pub struct Config {
    pub provider: ProviderConfig,
    pub options: OptionsConfig,
}

/// Which model backend to use and how to reach it.
#[derive(Debug, Clone)]
pub struct ProviderConfig {
    pub name: String,
    pub model: String,
    pub api_key: Option<String>,
    /// Base URL for OpenAI-compatible providers (Together, Groq, etc.)
    pub base_url: Option<String>,
    pub ollama_url: String,
}

/// Output options.
#[derive(Debug, Clone, Copy, PartialEq, Eq, Structural)]
pub struct OptionsConfig {
    pub language: Language,
    pub format: Format,
    pub auto_stage: AutoStage,
}

pub open spec fn spec_default_provider() -> Seq<char> {
    "ollama"@
}

pub open spec fn spec_default_model() -> Seq<char> {
    "llama3.2"@
}

pub open spec fn spec_default_ollama_url() -> Seq<char> {
    "http://localhost:11434"@
}

pub fn default_provider() -> (r: String)
    ensures
        r@ == spec_default_provider(),
{
    String::from_str("ollama")
}

pub fn default_model() -> (r: String)
    ensures
        r@ == spec_default_model(),
{
    String::from_str("llama3.2")
}

pub fn default_ollama_url() -> (r: String)
    ensures
        r@ == spec_default_ollama_url(),
{
    String::from_str("http://localhost:11434")
}

impl ProviderConfig {
    /// The values a missing configuration file stands for.
    pub open spec fn is_default(&self) -> bool {
        &&& self.name@ == spec_default_provider()
        &&& self.model@ == spec_default_model()
        &&& self.api_key is None
        &&& self.base_url is None
        &&& self.ollama_url@ == spec_default_ollama_url()
    }
}

impl Default for ProviderConfig {
    fn default() -> (r: Self)
        ensures
            r.is_default(),
    {
        ProviderConfig {
            name: default_provider(),
            model: default_model(),
            api_key: None,
            base_url: None,
            ollama_url: default_ollama_url(),
        }
    }
}

impl Default for OptionsConfig {
    fn default() -> (r: Self)
        ensures
            r.language == Language::En,
            r.format == Format::Conventional,
            r.auto_stage == AutoStage::Ask,
    {
        OptionsConfig {
            language: Language::default(),
            format: Format::default(),
            auto_stage: AutoStage::default(),
        }
    }
}

impl Default for Config {
    fn default() -> (r: Self)
        ensures
            r.provider.is_default(),
            r.options.language == Language::En,
            r.options.format == Format::Conventional,
            r.options.auto_stage == AutoStage::Ask,
    {
        Config { provider: ProviderConfig::default(), options: OptionsConfig::default() }
    }
}

#[verifier::external_type_specification]
#[verifier::external_body]
pub struct ExPathBuf(PathBuf);

/// Relies on dirs::config_dir: the user's configuration directory, if the
/// platform has one. It depends on the environment, so nothing is stated of it.
#[verifier::external_body]
fn user_config_dir() -> (r: Option<PathBuf>) {
    dirs::config_dir()
}

/// Relies on `PathBuf::from` for a `&str`: a path holding that text.
#[verifier::external_body]
fn path_from_str(s: &str) -> (r: PathBuf) {
    PathBuf::from(s)
}

/// Relies on `Path::join`: `base` extended by one component.
#[verifier::external_body]
fn path_join(base: &PathBuf, component: &str) -> (r: PathBuf) {
    base.join(component)
}

impl Config {
    /// Directory that holds the configuration file: `git-ai` under the
    /// user's configuration directory, or under the working directory when
    /// the platform has none.
    pub fn config_dir() -> PathBuf {
        let base = match user_config_dir() {
            Some(p) => p,
            None => path_from_str("."),
        };
        path_join(&base, "git-ai")
    }

    /// Path of the configuration file: `config.toml` in [`Config::config_dir`].
    pub fn config_path() -> PathBuf {
        let dir = Config::config_dir();
        path_join(&dir, "config.toml")
    }
}

} // verus!
