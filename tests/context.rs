use seedwing_proxy::context::{
    cargo_purl, crate_download_url, file_extension, gem_purl, gem_upstream_url, maven_purl,
    maven_upstream_url, npm_purl, npm_upstream_url, Context, PackageId,
};

#[test]
fn maven_purl_from_path() {
    let purl = maven_purl(
        "org/apache/commons",
        "commons-lang3",
        "3.12.0",
        "commons-lang3-3.12.0.jar",
        "https://repo.maven.apache.org/maven2",
    );
    assert_eq!(
        "pkg:maven/org.apache.commons/commons-lang3@3.12.0?type=jar&repository_url=https%3A%2F%2Frepo.maven.apache.org%2Fmaven2",
        purl
    );
}

#[test]
fn maven_purl_encodes_non_ascii() {
    let purl = maven_purl("g", "a", "1", "a-1", "http://h/é ~");
    assert_eq!("pkg:maven/g/a@1?type=unknown&repository_url=http%3A%2F%2Fh%2F%C3%A9%20~", purl);
}

#[test]
fn file_extension_after_last_dot() {
    assert_eq!("jar", file_extension("commons-lang3-3.12.0.jar"));
    assert_eq!("asc", file_extension("x.jar.asc"));
    assert_eq!("unknown", file_extension("README"));
    assert_eq!("", file_extension("trailing."));
}

#[test]
fn cargo_gem_and_npm_purls() {
    assert_eq!("pkg:cargo/foo@1.0", cargo_purl("foo", "1.0"));
    assert_eq!("pkg:gem/rails@7.0.4", gem_purl("rails", "7.0.4"));
    assert_eq!("pkg:npm/%40types/node@18.0.0", npm_purl("@types/node", "18.0.0"));
    assert_eq!("pkg:npm/left-pad@1.3.0", npm_purl("left-pad", "1.3.0"));
}

#[test]
fn upstream_urls() {
    assert_eq!(
        "https://repo.maven.apache.org/maven2/org/apache/commons/commons-lang3/3.12.0/commons-lang3-3.12.0.jar",
        maven_upstream_url(
            "https://repo.maven.apache.org/maven2",
            "org/apache/commons",
            "commons-lang3",
            "3.12.0",
            "commons-lang3-3.12.0.jar"
        )
    );
    assert_eq!("https://rubygems.org/gems/rails-7.0.4.gem", gem_upstream_url("https://rubygems.org/", "gems", "rails", "7.0.4", "gem"));
    assert_eq!(
        "https://registry.npmjs.org/left-pad/-/left-pad-1.3.0.tgz",
        npm_upstream_url("https://registry.npmjs.org/", "left-pad", "left-pad", "1.3.0", "tgz")
    );
    assert_eq!("https://crates.io//api/v1/crates/foo/1.0/download", crate_download_url("/api/v1/crates/foo/1.0/download"));
}

#[test]
fn context_hashes_payload() {
    let ctx = Context::for_payload(
        "pkg:cargo/crate@0.1.0".to_string(),
        "http://crates.io/not/a/real/crate.crate".to_string(),
        &b"hello".to_vec(),
        Some(PackageId::Crate { name: "crate".to_string() }),
        "crates".to_string(),
    );
    assert_eq!("2cf24dba5fb0a30e26e83b2ac5b9e29e1b161e5c1fa7425e73043362938b9824", ctx.hash());
    assert_eq!("http://crates.io/not/a/real/crate.crate", ctx.url());
    assert_eq!("pkg:cargo/crate@0.1.0", ctx.purl());
    assert_eq!("crates", ctx.repository_id());
    assert!(matches!(ctx.id(), Some(PackageId::Crate { name }) if name == "crate"));
    assert!(ctx.license().is_none());
}

#[test]
fn context_of_empty_payload() {
    let ctx = Context::for_payload("p".to_string(), "u".to_string(), &Vec::new(), None, "npm".to_string());
    assert_eq!("e3b0c44298fc1c149afbf4c8996fb92427ae41e4649b934ca495991b7852b855", ctx.hash());
}

#[test]
fn context_new_keeps_fields() {
    let ctx = Context::new("pkg:cargo/crate@0.1.0".into(), "http://crates.io/not/a/real/crate.crate".into(), "8675309".into());
    assert_eq!("8675309", ctx.hash());
    assert_eq!("http://crates.io/not/a/real/crate.crate", ctx.url());
    assert!(ctx.id().is_none());
    assert_eq!("", ctx.repository_id());
}
