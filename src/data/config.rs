use vstd::prelude::*;

use crate::cli::Command;

verus! {

/// Language requested on the authorisation page when none is configured.
pub fn default_lang() -> (r: String)
    ensures
        r@ == "en"@,
{
    String::from_str("en")
}

/// Application name registered with the instance when none is configured.
pub fn default_client_name() -> (r: String)
    ensures
        r@ == "inventor_bot"@,
{
    String::from_str("inventor_bot")
}

/// Loopback port of the authorisation callback when none is configured.
pub fn default_port() -> (r: u16)
    ensures
        r == 65233,
{
    65233
}

/// Who can see a post.
#[derive(Debug, Clone, Copy, PartialEq, Eq, Structural)]
pub enum Visibility {
    Public,
    Unlisted,
}

impl Visibility {
    /// The name of the visibility in the status API.
    pub open spec fn name(self) -> Seq<char> {
        match self {
            Visibility::Public => "public"@,
            Visibility::Unlisted => "unlisted"@,
        }
    }

    pub fn as_str(&self) -> (r: &'static str)
        ensures
            r@ == self.name(),
    {
        match self {
            Visibility::Public => "public",
            Visibility::Unlisted => "unlisted",
        }
    }
}

impl Default for Visibility {
    fn default() -> (r: Visibility)
        ensures
            r == Visibility::Unlisted,
    {
        Visibility::Unlisted
    }
}

/// Caching settings.
#[derive(Debug, Clone)]
pub struct Cache {
    /// Whether the credential is kept between runs.
    pub enable: bool,
    /// Directory that holds the cache files.
    pub path: String,
    /// Whether the stored credential is encrypted with a password.
    pub protect: bool,
}

/// The agent's configuration.
#[derive(Debug, Clone)]
pub struct Config {
    /// Host of the instance the agent authenticates against.
    pub instance: String,
    pub inventors: Vec<String>,
    /// Minutes between two posts; one post only when absent.
    pub repeat: Option<u64>,
    pub visibility: Visibility,
    pub cache: Cache,
    /// Loopback port of the authorisation callback.
    pub port: u16,
    /// Application name registered with the instance.
    pub client: String,
    /// Language of the authorisation page.
    pub lang: String,
    pub dry_run: bool,
}

impl Config {
    /// Applies the command-line overrides to a configuration read from its file:
    /// the cache directory is replaced when one is given, `--no-cache` turns
    /// caching off and `--dry-run` turns dry runs on.
    pub fn get(file: Config, command: &Command) -> (r: Config)
        ensures
            r.instance@ == file.instance@,
            r.inventors@ == file.inventors@,
            r.repeat == file.repeat,
            r.visibility == file.visibility,
            r.port == file.port,
            r.client@ == file.client@,
            r.lang@ == file.lang@,
            r.cache.protect == file.cache.protect,
            r.cache.path@ == match command.cache {
                Some(p) => p@,
                None => file.cache.path@,
            },
            r.cache.enable == (file.cache.enable && !command.no_cache),
            r.dry_run == (file.dry_run || command.dry_run),
    {
        let mut config = file;
        match &command.cache {
            Some(p) => {
                config.cache.path = p.clone();
            },
            None => {},
        }
        config.cache.enable = config.cache.enable && !command.no_cache;
        config.dry_run = config.dry_run || command.dry_run;
        config
    }

    /// Whether the credential would be cached without a password.
    pub fn caches_unprotected(&self) -> (r: bool)
        ensures
            r == (self.cache.enable && !self.cache.protect),
    {
        self.cache.enable && !self.cache.protect
    }
}

} // verus!
