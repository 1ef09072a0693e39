//! Proxy settings: defaults, command-line overrides and the cache directory.
use vstd::prelude::*;

use crate::policy::PolicyConfig;
use crate::text::{
    concat, has_prefix, starts_with, strip_trailing_slashes, strip_trailing_slashes_spec,
};

verus! {

/// Port the proxy listens on unless configured otherwise.
pub const DEFAULT_PORT: u16 = 8675;

/// The cache directory that `cache_dir` stands for, given the user's home directory.
///
/// A leading `~/` is replaced by the home directory and the trailing slashes of the
/// rest are stripped; any other value is taken literally.
pub open spec fn expanded_cache_dir_spec(cache_dir: Seq<char>, home: Seq<char>) -> Seq<char> {
    if has_prefix(cache_dir, seq!['~', '/']) {
        home + seq!['/'] + strip_trailing_slashes_spec(cache_dir.skip(2))
    } else {
        cache_dir
    }
}

/// Listening address, port, cache location and git command of the proxy.
pub struct ProxyConfig {
    pub bind: String,
    pub port: u16,
    pub cache_dir: String,
    pub git_cmd: String,
}

/// The address the proxy binds to by default.
pub fn default_bind() -> (r: String)
    ensures
        r@ == "0.0.0.0"@,
{
    "0.0.0.0".to_owned()
}

/// The port the proxy listens on by default.
pub fn default_port() -> (r: u16)
    ensures
        r == 8675,
{
    DEFAULT_PORT
}

/// The cache directory used by default.
pub fn default_cache_dir() -> (r: String)
    ensures
        r@ == "~/.seedwing_proxy/cache"@,
{
    "~/.seedwing_proxy/cache".to_owned()
}

/// The git executable used by default.
pub fn default_git_cmd() -> (r: String)
    ensures
        r@ == "git"@,
{
    "git".to_owned()
}

/// The refresh interval of a repository by default: none.
pub fn default_periodic_update() -> (r: u64)
    ensures
        r == 0,
{
    0
}

impl Default for ProxyConfig {
    fn default() -> (r: ProxyConfig)
        ensures
            r.bind@ == "0.0.0.0"@,
            r.port == 8675,
            r.cache_dir@ == "~/.seedwing_proxy/cache"@,
            r.git_cmd@ == "git"@,
    {
        ProxyConfig {
            bind: default_bind(),
            port: default_port(),
            cache_dir: default_cache_dir(),
            git_cmd: default_git_cmd(),
        }
    }
}

impl ProxyConfig {
    /// Settings read from a configuration file; a missing field takes its default.
    pub fn from_fields(
        bind: Option<String>,
        port: Option<u16>,
        cache_dir: Option<String>,
        git_cmd: Option<String>,
    ) -> (r: ProxyConfig)
        ensures
            r.bind@ == (match bind { Some(b) => b@, None => "0.0.0.0"@ }),
            r.port == (match port { Some(p) => p, None => 8675 }),
            r.cache_dir@ == (match cache_dir { Some(c) => c@, None => "~/.seedwing_proxy/cache"@ }),
            r.git_cmd@ == (match git_cmd { Some(g) => g@, None => "git"@ }),
    {
        ProxyConfig {
            bind: match bind { Some(b) => b, None => default_bind() },
            port: match port { Some(p) => p, None => default_port() },
            cache_dir: match cache_dir { Some(c) => c, None => default_cache_dir() },
            git_cmd: match git_cmd { Some(g) => g, None => default_git_cmd() },
        }
    }

    pub fn bind(&self) -> (r: String)
        ensures
            r == self.bind,
    {
        self.bind.clone()
    }

    pub fn port(&self) -> (r: u16)
        ensures
            r == self.port,
    {
        self.port
    }

    pub fn cache_dir(&self) -> (r: String)
        ensures
            r == self.cache_dir,
    {
        self.cache_dir.clone()
    }

    pub(crate) fn bind_mut(&mut self) -> (r: &mut String)
        ensures
            *r == old(self).bind,
            final(self).bind == *final(r),
            final(self).port == old(self).port,
            final(self).cache_dir == old(self).cache_dir,
            final(self).git_cmd == old(self).git_cmd,
    {
        &mut self.bind
    }

    pub(crate) fn port_mut(&mut self) -> (r: &mut u16)
        ensures
            *r == old(self).port,
            final(self).port == *final(r),
            final(self).bind == old(self).bind,
            final(self).cache_dir == old(self).cache_dir,
            final(self).git_cmd == old(self).git_cmd,
    {
        &mut self.port
    }

    pub fn git_cmd(&self) -> (r: String)
        ensures
            r == self.git_cmd,
    {
        self.git_cmd.clone()
    }

    pub fn cache_dir_mut(&mut self) -> (r: &mut String)
        ensures
            *r == old(self).cache_dir,
            final(self).cache_dir == *final(r),
            final(self).bind == old(self).bind,
            final(self).port == old(self).port,
            final(self).git_cmd == old(self).git_cmd,
    {
        &mut self.cache_dir
    }

    /// Applies the command-line `--bind` and `--port` values, which take precedence
    /// over the configuration file.
    pub fn apply_overrides(&mut self, bind_override: Option<String>, port_override: Option<u16>)
        ensures
            final(self).bind == (match bind_override { Some(b) => b, None => old(self).bind }),
            final(self).port == (match port_override { Some(p) => p, None => old(self).port }),
            final(self).cache_dir == old(self).cache_dir,
            final(self).git_cmd == old(self).git_cmd,
    {
        if let Some(bind) = bind_override {
            *self.bind_mut() = bind;
        }
        if let Some(port) = port_override {
            *self.port_mut() = port;
        }
    }

    /// The cache directory with a leading `~/` replaced by `home` and the
    /// trailing slashes of the rest stripped; any other value as it is.
    pub fn expanded_cache_dir(&self, home: &str) -> (r: String)
        ensures
            r@ == expanded_cache_dir_spec(self.cache_dir@, home@),
    {
        let t = self.cache_dir.as_str();
        proof {
            reveal_strlit("~/");
        }
        if starts_with(t, "~/") {
            assert("~/"@ =~= seq!['~', '/']);
            let rest = t.substring_char(2, t.unicode_len());
            let mut r = concat(home, "/");
            proof {
                reveal_strlit("/");
            }
            assert("/"@ =~= seq!['/']);
            r.append(strip_trailing_slashes(rest).as_str());
            r
        } else {
            assert("~/"@ =~= seq!['~', '/']);
            self.cache_dir.clone()
        }
    }

    /// Address and port the HTTP server binds to.
    pub fn bind_address(&self) -> (r: (String, u16))
        ensures
            r.0 == self.bind,
            r.1 == self.port,
    {
        (self.bind.clone(), self.port)
    }
}

/// The kinds of upstream registries a scope can mirror.
#[derive(Clone, Copy, Debug, PartialEq, Eq, Structural)]
pub enum RepositoryType {
    Crates,
    M2,
    SparseCrates,
    Gems,
    Npm,
    Pip,
}

impl RepositoryType {
    /// The name of the kind as written in the configuration file.
    pub open spec fn name_spec(self) -> Seq<char> {
        match self {
            RepositoryType::Crates => "crates"@,
            RepositoryType::M2 => "m2"@,
            RepositoryType::SparseCrates => "sparse-crates"@,
            RepositoryType::Gems => "gems"@,
            RepositoryType::Npm => "npm"@,
            RepositoryType::Pip => "pip"@,
        }
    }

    pub fn name(&self) -> (r: &'static str)
        ensures
            r@ == self.name_spec(),
    {
        match self {
            RepositoryType::Crates => "crates",
            RepositoryType::M2 => "m2",
            RepositoryType::SparseCrates => "sparse-crates",
            RepositoryType::Gems => "gems",
            RepositoryType::Npm => "npm",
            RepositoryType::Pip => "pip",
        }
    }
}

/// One configured upstream registry.
pub struct RepositoryConfig {
    pub repository_type: RepositoryType,
    pub url: String,
    pub periodic_update: u64,
}

impl RepositoryConfig {
    pub fn new(repository_type: RepositoryType, url: String, periodic_update: Option<u64>) -> (r: RepositoryConfig)
        ensures
            r.repository_type == repository_type,
            r.url == url,
            r.periodic_update == (match periodic_update { Some(p) => p, None => 0 }),
    {
        let periodic_update = match periodic_update {
            Some(p) => p,
            None => default_periodic_update(),
        };
        RepositoryConfig { repository_type, url, periodic_update }
    }

    pub fn repository_type(&self) -> (r: RepositoryType)
        ensures
            r == self.repository_type,
    {
        self.repository_type
    }

    pub fn url(&self) -> (r: String)
        ensures
            r == self.url,
    {
        self.url.clone()
    }

    pub fn periodic_update(&self) -> (r: u64)
        ensures
            r == self.periodic_update,
    {
        self.periodic_update
    }
}

} // verus!

verus! {

#[verifier::external_type_specification]
#[verifier::external_body]
#[verifier::reject_recursive_types(K)]
#[verifier::reject_recursive_types(V)]
#[verifier::reject_recursive_types(S)]
pub struct ExIndexMap<K, V, S>(indexmap::IndexMap<K, V, S>);

/// The proxy's whole configuration: its own settings, the policy service and the
/// repositories it mirrors, by scope in the order of the configuration file.
pub struct Config {
    pub proxy: ProxyConfig,
    pub policy: PolicyConfig,
    pub repositories: indexmap::IndexMap<String, RepositoryConfig>,
}

impl Config {
    /// The configuration read from a file, with the command-line `--bind` and
    /// `--port` values taking precedence over the file's.
    pub fn new(
        proxy: ProxyConfig,
        policy: PolicyConfig,
        repositories: indexmap::IndexMap<String, RepositoryConfig>,
        bind_override: Option<String>,
        port_override: Option<u16>,
    ) -> (r: Config)
        ensures
            r.proxy.bind == (match bind_override { Some(b) => b, None => proxy.bind }),
            r.proxy.port == (match port_override { Some(p) => p, None => proxy.port }),
            r.proxy.cache_dir == proxy.cache_dir,
            r.proxy.git_cmd == proxy.git_cmd,
            r.policy == policy,
            r.repositories == repositories,
    {
        let mut config = Config { proxy, policy, repositories };
        config.proxy_mut().apply_overrides(bind_override, port_override);
        config
    }

    pub fn proxy(&self) -> (r: &ProxyConfig)
        ensures
            *r == self.proxy,
    {
        &self.proxy
    }

    pub(crate) fn proxy_mut(&mut self) -> (r: &mut ProxyConfig)
        ensures
            *r == old(self).proxy,
            final(self).proxy == *final(r),
            final(self).policy == old(self).policy,
            final(self).repositories == old(self).repositories,
    {
        &mut self.proxy
    }

    pub fn policy(&self) -> (r: &PolicyConfig)
        ensures
            *r == self.policy,
    {
        &self.policy
    }

    pub fn repositories(&self) -> (r: &indexmap::IndexMap<String, RepositoryConfig>)
        ensures
            *r == self.repositories,
    {
        &self.repositories
    }
}

} // verus!
