//! The manifest: providers, groups and standalone repositories, and the secrets that it
//! refers to.

use vstd::prelude::*;
use vstd::string::*;
use crate::text::{chars_of, chain, ends_with, ends_with_chars, matches_at, starts_with};

verus! {

/// The text of an optional string.
pub open spec fn option_text(value: Option<String>) -> Option<Seq<char>> {
    match value {
        Some(text) => Some(text@),
        None => None,
    }
}

/// The name of the environment variable that `raw` refers to, where `raw` has the form
/// `${NAME}`; `None` where `raw` is a literal value.
pub open spec fn variable_name(raw: Seq<char>) -> Option<Seq<char>> {
    if starts_with(raw, "${"@) && ends_with(raw, "}"@) {
        Some(raw.subrange(2, raw.len() - 1))
    } else {
        None
    }
}

/// What `raw` stands for in the environment `env`: a literal stands for itself, a
/// reference for the value of its variable, and for nothing where the variable is not set.
pub open spec fn resolved(raw: Seq<char>, env: Map<Seq<char>, Seq<char>>) -> Option<Seq<char>> {
    match variable_name(raw) {
        None => Some(raw),
        Some(name) => if env.contains_key(name) {
            Some(env[name])
        } else {
            None
        },
    }
}

/// The variables that a list of definitions sets; of two definitions of one name the
/// later one holds.
pub open spec fn definitions(entries: Seq<(String, String)>) -> Map<Seq<char>, Seq<char>>
    decreases entries.len(),
{
    if entries.len() == 0 {
        Map::empty()
    } else {
        definitions(entries.drop_last()).insert(entries.last().0@, entries.last().1@)
    }
}

/// The environment variables that secrets are resolved against, as the caller read them.
pub struct Environment {
    entries: Vec<(String, String)>,
}

impl View for Environment {
    type V = Map<Seq<char>, Seq<char>>;

    closed spec fn view(&self) -> Map<Seq<char>, Seq<char>> {
        definitions(self.entries@)
    }
}

impl Environment {
    /// An environment in which no variable is set.
    pub fn new() -> (env: Self)
        ensures
            env@ == Map::<Seq<char>, Seq<char>>::empty(),
    {
        Environment { entries: Vec::new() }
    }

    /// Sets `name` to `value`, in place of any value it had.
    pub fn set(&mut self, name: String, value: String)
        ensures
            final(self)@ == old(self)@.insert(name@, value@),
    {
        self.entries.push((name, value));
        assert(self.entries@.drop_last() =~= old(self).entries@);
    }

    /// The value of `name`, if it is set.
    pub fn get(&self, name: &str) -> (value: Option<String>)
        ensures
            self@.contains_key(name@) ==> value.is_some() && value.unwrap()@ == self@[name@],
            !self@.contains_key(name@) ==> value.is_none(),
    {
        let wanted = name.to_owned();
        let mut i: usize = self.entries.len();
        assert(self.entries@.take(i as int) =~= self.entries@);
        while i > 0
            invariant
                i <= self.entries.len(),
                wanted@ == name@,
                definitions(self.entries@).contains_key(name@) == definitions(
                    self.entries@.take(i as int),
                ).contains_key(name@),
                definitions(self.entries@).contains_key(name@) ==> definitions(self.entries@)[name@]
                    == definitions(self.entries@.take(i as int))[name@],
            decreases i,
        {
            assert(self.entries@.take(i as int).drop_last() =~= self.entries@.take(i - 1));
            i -= 1;
            if self.entries[i].0 == wanted {
                return Some(self.entries[i].1.clone());
            }
        }
        None
    }
}

/// A secret in the manifest: a literal value, or `${NAME}` for the value of the
/// environment variable `NAME`.
#[derive(Debug, PartialEq)]
pub struct EnvString(String);

impl View for EnvString {
    type V = Seq<char>;

    closed spec fn view(&self) -> Seq<char> {
        self.0@
    }
}

impl Clone for EnvString {
    fn clone(&self) -> (copy: Self)
        ensures
            copy == *self,
    {
        EnvString(self.0.clone())
    }
}

/// A secret could not be resolved.
#[derive(Debug, PartialEq)]
pub enum EnvResolutionError {
    /// The environment variable that the secret refers to is not set.
    VariableNotSet { var_name: String },
}

impl EnvResolutionError {
    /// The error in words.
    pub open spec fn text(&self) -> Seq<char> {
        "Environment variable '"@ + self->var_name@ + "' is not set"@
    }

    /// The error in words.
    pub fn message(&self) -> (text: String)
        ensures
            text@ == self.text(),
    {
        match self {
            EnvResolutionError::VariableNotSet { var_name } => {
                let mut text = chain("Environment variable '", var_name.as_str());
                text.append("' is not set");
                text
            },
        }
    }
}

impl EnvString {
    /// The secret as the manifest writes it.
    pub fn new(value: String) -> (secret: Self)
        ensures
            secret@ == value@,
    {
        EnvString(value)
    }

    /// The secret as the manifest writes it, unresolved.
    pub fn raw(&self) -> (text: &str)
        ensures
            text@ == self@,
    {
        self.0.as_str()
    }

    /// The name of the environment variable that the secret refers to, if it is a
    /// reference.
    pub fn variable(&self) -> (name: Option<String>)
        ensures
            option_text(name) == variable_name(self@),
    {
        let chars = chars_of(self.0.as_str());
        let opening = chars_of("${");
        let closing = chars_of("}");
        proof {
            reveal_strlit("${");
            reveal_strlit("}");
        }
        let n: usize = chars.len();
        assert(chars@.subrange(0, n as int) =~= chars@);
        if matches_at(&chars, 0, &opening) && ends_with_chars(&chars, n, &closing) {
            assert(chars@.subrange(n - 1, n as int)[0] == '}');
            Some(self.0.as_str().substring_char(2, n - 1).to_owned())
        } else {
            None
        }
    }

    /// The value of the secret in `env`: the literal itself, or the value of the variable
    /// it refers to. A reference to a variable that is not set is an error that names the
    /// variable.
    pub fn resolve(&self, env: &Environment) -> (value: Result<String, EnvResolutionError>)
        ensures
            match resolved(self@, env@) {
                Some(text) => value.is_ok() && value.unwrap()@ == text,
                None => value.is_err() && Some(value.unwrap_err()->var_name@) == variable_name(
                    self@,
                ),
            },
    {
        match self.variable() {
            None => Ok(self.0.clone()),
            Some(name) => match env.get(name.as_str()) {
                Some(text) => Ok(text),
                None => Err(EnvResolutionError::VariableNotSet { var_name: name }),
            },
        }
    }
}

/// A repository that the manifest names by its URL.
#[derive(Debug, PartialEq)]
pub struct RepoConfig {
    /// The clone URL, ssh or https.
    pub url: String,
    /// The directory to clone into, relative to the manifest or absolute.
    pub local_dir: Option<String>,
}

/// A repository entry as texts.
pub struct RepoConfigView {
    pub url: Seq<char>,
    pub local_dir: Option<Seq<char>>,
}

impl View for RepoConfig {
    type V = RepoConfigView;

    open spec fn view(&self) -> RepoConfigView {
        RepoConfigView { url: self.url@, local_dir: option_text(self.local_dir) }
    }
}

impl Clone for RepoConfig {
    fn clone(&self) -> (copy: Self)
        ensures
            copy == *self,
    {
        RepoConfig { url: self.url.clone(), local_dir: clone_option(&self.local_dir) }
    }
}

/// A group of a provider (an organization, for GitHub) whose projects are synchronized.
#[derive(Debug, PartialEq)]
pub struct GroupConfig {
    /// The full path of the group.
    pub name: String,
    /// The directory below which the group's projects are cloned.
    pub local_dir: Option<String>,
    /// Whether the projects of subgroups are included.
    pub recursive: bool,
}

/// A group entry as texts.
pub struct GroupConfigView {
    pub name: Seq<char>,
    pub local_dir: Option<Seq<char>>,
    pub recursive: bool,
}

impl View for GroupConfig {
    type V = GroupConfigView;

    open spec fn view(&self) -> GroupConfigView {
        GroupConfigView {
            name: self.name@,
            local_dir: option_text(self.local_dir),
            recursive: self.recursive,
        }
    }
}

impl Clone for GroupConfig {
    fn clone(&self) -> (copy: Self)
        ensures
            copy == *self,
    {
        GroupConfig {
            name: self.name.clone(),
            local_dir: clone_option(&self.local_dir),
            recursive: self.recursive,
        }
    }
}

/// How to reach GitLab.
#[derive(Debug, PartialEq)]
pub struct GitLabProvider {
    /// The base URL of the GitLab instance.
    pub host: String,
    /// The access token.
    pub token: EnvString,
}

impl Clone for GitLabProvider {
    fn clone(&self) -> (copy: Self)
        ensures
            copy == *self,
    {
        GitLabProvider { host: self.host.clone(), token: self.token.clone() }
    }
}

/// How to reach GitHub.
#[derive(Debug, PartialEq)]
pub struct GitHubProvider {
    /// The access token.
    pub token: EnvString,
}

impl Clone for GitHubProvider {
    fn clone(&self) -> (copy: Self)
        ensures
            copy == *self,
    {
        GitHubProvider { token: self.token.clone() }
    }
}

/// The providers that the manifest configures.
#[derive(Debug, PartialEq)]
pub struct Providers {
    pub gitlab: Option<GitLabProvider>,
    pub github: Option<GitHubProvider>,
}

impl Clone for Providers {
    fn clone(&self) -> (copy: Self)
        ensures
            copy == *self,
    {
        Providers {
            gitlab: match &self.gitlab {
                Some(provider) => Some(provider.clone()),
                None => None,
            },
            github: match &self.github {
                Some(provider) => Some(provider.clone()),
                None => None,
            },
        }
    }
}

impl Default for Providers {
    fn default() -> (providers: Self)
        ensures
            providers.gitlab.is_none(),
            providers.github.is_none(),
    {
        Providers { gitlab: None, github: None }
    }
}

/// The groups to synchronize, by provider.
#[derive(Debug, PartialEq)]
pub struct Groups {
    pub gitlab: Vec<GroupConfig>,
    pub github: Vec<GroupConfig>,
}

impl Clone for Groups {
    fn clone(&self) -> (copy: Self)
        ensures
            copy.gitlab@ == self.gitlab@,
            copy.github@ == self.github@,
    {
        Groups { gitlab: clone_groups(&self.gitlab), github: clone_groups(&self.github) }
    }
}

impl Default for Groups {
    fn default() -> (groups: Self)
        ensures
            groups.gitlab@.len() == 0,
            groups.github@.len() == 0,
    {
        Groups { gitlab: Vec::new(), github: Vec::new() }
    }
}

/// The manifest.
#[derive(Debug, PartialEq)]
pub struct RangerConfig {
    pub providers: Providers,
    pub groups: Groups,
    pub repos: Vec<RepoConfig>,
}

impl Clone for RangerConfig {
    fn clone(&self) -> (copy: Self)
        ensures
            copy.providers == self.providers,
            copy.groups.gitlab@ == self.groups.gitlab@,
            copy.groups.github@ == self.groups.github@,
            copy.repos@ == self.repos@,
    {
        let mut repos: Vec<RepoConfig> = Vec::new();
        let mut i: usize = 0;
        while i < self.repos.len()
            invariant
                i <= self.repos.len(),
                repos@ == self.repos@.take(i as int),
            decreases self.repos.len() - i,
        {
            repos.push(self.repos[i].clone());
            assert(self.repos@.take(i + 1) =~= self.repos@.take(i as int).push(
                self.repos@[i as int],
            ));
            i += 1;
        }
        assert(self.repos@.take(i as int) =~= self.repos@);
        RangerConfig { providers: self.providers.clone(), groups: self.groups.clone(), repos }
    }
}

impl RangerConfig {
    /// The repositories that the manifest names one by one, in its order.
    pub fn get_standalone_repos(&self) -> (repos: &[RepoConfig])
        ensures
            repos@ == self.repos@,
    {
        self.repos.as_slice()
    }

    /// Checks that the secrets of the configured providers resolve in `env`, GitLab's
    /// first. The error names the variable of the first secret that does not resolve.
    pub fn validate_providers(&self, env: &Environment) -> (checked: Result<
        (),
        EnvResolutionError,
    >)
        ensures
            match self.first_unset_variable(env@) {
                None => checked.is_ok(),
                Some(name) => checked.is_err() && checked.unwrap_err()->var_name@ == name,
            },
    {
        if let Some(gitlab) = &self.providers.gitlab {
            match gitlab.token.resolve(env) {
                Ok(_) => {},
                Err(error) => {
                    return Err(error);
                },
            }
        }
        if let Some(github) = &self.providers.github {
            match github.token.resolve(env) {
                Ok(_) => {},
                Err(error) => {
                    return Err(error);
                },
            }
        }
        Ok(())
    }

    /// The variable that the first provider secret which does not resolve in `env` refers
    /// to, GitLab's secret coming before GitHub's; `None` where every secret resolves.
    pub open spec fn first_unset_variable(&self, env: Map<Seq<char>, Seq<char>>) -> Option<
        Seq<char>,
    > {
        if self.providers.gitlab.is_some() && resolved(
            self.providers.gitlab.unwrap().token@,
            env,
        ).is_none() {
            variable_name(self.providers.gitlab.unwrap().token@)
        } else if self.providers.github.is_some() && resolved(
            self.providers.github.unwrap().token@,
            env,
        ).is_none() {
            variable_name(self.providers.github.unwrap().token@)
        } else {
            None
        }
    }
}

/// The manifest could not be loaded.
#[derive(Debug, PartialEq)]
pub enum ConfigLoadError {
    /// The file could not be read; the text is the reason.
    IoError(String),
    /// The file is not a manifest; the text is the parser's complaint.
    ParseError(String),
}

impl ConfigLoadError {
    /// The error in words.
    pub open spec fn text(&self) -> Seq<char> {
        match *self {
            ConfigLoadError::IoError(reason) => "Failed to read config file: "@ + reason@,
            ConfigLoadError::ParseError(reason) => "Failed to parse YAML config: "@ + reason@,
        }
    }

    /// The error in words.
    pub fn message(&self) -> (text: String)
        ensures
            text@ == self.text(),
    {
        match self {
            ConfigLoadError::IoError(reason) => chain(
                "Failed to read config file: ",
                reason.as_str(),
            ),
            ConfigLoadError::ParseError(reason) => chain(
                "Failed to parse YAML config: ",
                reason.as_str(),
            ),
        }
    }
}

/// A copy of a list of groups.
pub fn clone_groups(groups: &Vec<GroupConfig>) -> (copy: Vec<GroupConfig>)
    ensures
        copy@ == groups@,
{
    let mut copy: Vec<GroupConfig> = Vec::new();
    let mut i: usize = 0;
    while i < groups.len()
        invariant
            i <= groups.len(),
            copy@ == groups@.take(i as int),
        decreases groups.len() - i,
    {
        copy.push(groups[i].clone());
        assert(groups@.take(i + 1) =~= groups@.take(i as int).push(groups@[i as int]));
        i += 1;
    }
    assert(groups@.take(i as int) =~= groups@);
    copy
}

/// A copy of an optional string.
pub fn clone_option(value: &Option<String>) -> (copy: Option<String>)
    ensures
        copy == *value,
{
    match value {
        Some(text) => Some(text.clone()),
        None => None,
    }
}

} // verus!
