use seedwing_proxy::config::{
    Config,
    default_bind, default_cache_dir, default_git_cmd, default_periodic_update, default_port,
    ProxyConfig, RepositoryConfig, RepositoryType,
};
use seedwing_proxy::policy::{Decision, PolicyConfig};

#[test]
fn defaults_fill_missing_proxy_fields() {
    let proxy = ProxyConfig::from_fields(None, None, None, None);
    assert_eq!("0.0.0.0", proxy.bind());
    assert_eq!(8675, proxy.port());
    assert_eq!("~/.seedwing_proxy/cache", proxy.cache_dir());
    assert_eq!("git", proxy.git_cmd());
}

#[test]
fn default_proxy_config_matches_defaults() {
    let proxy = ProxyConfig::default();
    assert_eq!(default_bind(), proxy.bind());
    assert_eq!(default_port(), proxy.port());
    assert_eq!(default_cache_dir(), proxy.cache_dir());
    assert_eq!(default_git_cmd(), proxy.git_cmd());
    assert_eq!(0, default_periodic_update());
}

#[test]
fn configured_proxy_fields_are_kept() {
    let proxy = ProxyConfig::from_fields(Some("255.255.255.255".to_string()), None, None, None);
    assert_eq!("255.255.255.255", proxy.bind());
    let proxy = ProxyConfig::from_fields(None, Some(9999), None, None);
    assert_eq!(9999, proxy.port());
    let proxy = ProxyConfig::from_fields(None, None, Some("~/.test/cache_dir".to_string()), None);
    assert_eq!("~/.test/cache_dir", proxy.cache_dir());
    let proxy = ProxyConfig::from_fields(None, None, None, Some("mygitcmd".to_string()));
    assert_eq!("mygitcmd", proxy.git_cmd());
}

#[test]
fn policy_decision_defaults_to_disable() {
    let policy = PolicyConfig::new(None, "http://localhost:8080/".to_string());
    assert_eq!(Decision::Disable, policy.decision());
    assert_eq!("http://localhost:8080/", policy.url());
    assert_eq!(Decision::Disable, Decision::default());
}

#[test]
fn toml_round_trip_values() {
    // [policy] url="http://h/" decision="warn", nothing under [proxy]
    let policy = PolicyConfig::new(Some(Decision::Warn), "http://h/".to_string());
    let proxy = ProxyConfig::from_fields(None, None, None, None);
    assert_eq!(Decision::Warn, policy.decision());
    assert_eq!("0.0.0.0", proxy.bind());
    assert_eq!(8675, proxy.port());
}

#[test]
fn port_override_beats_file() {
    let mut proxy = ProxyConfig::from_fields(None, Some(9000), None, None);
    proxy.apply_overrides(None, Some(7000));
    assert_eq!(7000, proxy.port());
    assert_eq!("0.0.0.0", proxy.bind());
}

#[test]
fn bind_override_beats_file() {
    let mut proxy = ProxyConfig::from_fields(Some("10.0.0.1".to_string()), None, None, None);
    proxy.apply_overrides(Some("192.168.1.1".to_string()), None);
    assert_eq!("192.168.1.1", proxy.bind());
    assert_eq!(8675, proxy.port());
    assert_eq!(("192.168.1.1".to_string(), 8675), proxy.bind_address());
}

#[test]
fn no_override_keeps_file_values() {
    let mut proxy = ProxyConfig::from_fields(Some("10.0.0.1".to_string()), Some(1234), None, None);
    proxy.apply_overrides(None, None);
    assert_eq!("10.0.0.1", proxy.bind());
    assert_eq!(1234, proxy.port());
}

#[test]
fn cache_dir_mut_replaces_cache_dir() {
    let mut proxy = ProxyConfig::default();
    *proxy.cache_dir_mut() = "/var/cache/x".to_string();
    assert_eq!("/var/cache/x", proxy.cache_dir());
    assert_eq!("git", proxy.git_cmd());
}

fn with_cache_dir(dir: &str) -> ProxyConfig {
    ProxyConfig::from_fields(None, None, Some(dir.to_string()), None)
}

#[test]
fn tilde_cache_dir_expands_to_home() {
    let proxy = with_cache_dir("~/.seedwing_proxy/cache/");
    assert_eq!("/home/u/.seedwing_proxy/cache", proxy.expanded_cache_dir("/home/u"));
}

#[test]
fn other_cache_dir_is_literal() {
    let proxy = with_cache_dir("/var/cache/seedwing///");
    assert_eq!("/var/cache/seedwing///", proxy.expanded_cache_dir("/home/u"));
    assert_eq!("/", with_cache_dir("/").expanded_cache_dir("/home/u"));
    assert_eq!(" ~/x ", with_cache_dir(" ~/x ").expanded_cache_dir("/home/u"));
}

#[test]
fn bare_tilde_is_not_expanded() {
    assert_eq!("~", with_cache_dir("~").expanded_cache_dir("/home/u"));
    assert_eq!("~user/cache/", with_cache_dir("~user/cache/").expanded_cache_dir("/home/u"));
}

#[test]
fn tilde_slash_alone_is_home() {
    assert_eq!("/home/u/", with_cache_dir("~/").expanded_cache_dir("/home/u"));
}

#[test]
fn repository_type_names() {
    assert_eq!("crates", RepositoryType::Crates.name());
    assert_eq!("m2", RepositoryType::M2.name());
    assert_eq!("sparse-crates", RepositoryType::SparseCrates.name());
}

#[test]
fn repository_config_defaults_periodic_update() {
    let repo = RepositoryConfig::new(RepositoryType::Crates, "https://crates.io/".to_string(), None);
    assert_eq!(RepositoryType::Crates, repo.repository_type());
    assert_eq!("https://crates.io/", repo.url());
    assert_eq!(0, repo.periodic_update());
    let repo = RepositoryConfig::new(RepositoryType::M2, "https://repo.maven.apache.org/maven2".to_string(), Some(60));
    assert_eq!(60, repo.periodic_update());
}

#[test]
fn other_ecosystem_type_names() {
    assert_eq!("gems", RepositoryType::Gems.name());
    assert_eq!("npm", RepositoryType::Npm.name());
    assert_eq!("pip", RepositoryType::Pip.name());
}

fn repositories() -> indexmap::IndexMap<String, RepositoryConfig> {
    let mut repos = indexmap::IndexMap::new();
    repos.insert(
        "crates-io".to_string(),
        RepositoryConfig::new(RepositoryType::Crates, "https://crates.io/".to_string(), None),
    );
    repos.insert(
        "m2".to_string(),
        RepositoryConfig::new(RepositoryType::M2, "https://repo.maven.apache.org/maven2".to_string(), None),
    );
    repos
}

#[test]
fn config_bind_override_wins() {
    let proxy = ProxyConfig::from_fields(Some("255.255.255.255".to_string()), None, None, None);
    let policy = PolicyConfig::new(Some(Decision::Enforce), "http://localhost:8080/".to_string());
    let config = Config::new(proxy, policy, repositories(), Some("10.9.8.7".to_string()), None);
    assert_eq!("10.9.8.7", config.proxy().bind());
    assert_eq!(8675, config.proxy().port());
    assert_eq!(Decision::Enforce, config.policy().decision());
    let names: Vec<&String> = config.repositories().keys().collect();
    assert_eq!(vec!["crates-io", "m2"], names);
    assert_eq!(RepositoryType::M2, config.repositories()["m2"].repository_type());
}

#[test]
fn config_port_override_wins() {
    let proxy = ProxyConfig::from_fields(None, Some(9000), None, None);
    let policy = PolicyConfig::new(None, "http://h/".to_string());
    let config = Config::new(proxy, policy, indexmap::IndexMap::new(), None, Some(7000));
    assert_eq!(7000, config.proxy().port());
    assert_eq!("0.0.0.0", config.proxy().bind());
    assert!(config.repositories().is_empty());
}
