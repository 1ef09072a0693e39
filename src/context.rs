//! Package URLs, upstream artifact URLs and the Context sent to the policy service.
use vstd::prelude::*;
use vstd::string::StringSliceAdditionalSpecFns;

use crate::text::{concat, last_index_of, replace_char, replace_char_spec, rfind_char};

verus! {

/// Lowercase hex SHA-256 digest of `data`.
pub uninterp spec fn sha256_hex(data: Seq<u8>) -> Seq<char>;

/// Whether `c` is a lowercase hexadecimal digit.
pub open spec fn is_lower_hex(c: char) -> bool {
    ('0' <= c && c <= '9') || ('a' <= c && c <= 'f')
}

/// Relies on `sha256::digest`: the hex encoding (`hex::encode`, lowercase) of the
/// 32-byte SHA-256 digest of the bytes.
#[verifier::external_body]
fn sha256_digest(data: &Vec<u8>) -> (r: String)
    ensures
        r@ == sha256_hex(data@),
        r@.len() == 64,
        forall|i: int| 0 <= i < r@.len() ==> is_lower_hex(#[trigger] r@[i]),
{
    sha256::digest(data)
}

/// Bytes that URL encoding leaves as they are: ASCII alphanumerics and `-._~`.
pub open spec fn is_unreserved(b: u8) -> bool {
    (48 <= b <= 57) || (65 <= b <= 90) || (97 <= b <= 122) || b == 45 || b == 46 || b == 95
        || b == 126
}

/// The uppercase hexadecimal digit for `d < 16`.
pub open spec fn upper_hex_digit(d: u8) -> char {
    if d < 10 {
        ((d + 48) as u8) as char
    } else {
        ((d + 55) as u8) as char
    }
}

/// `bytes` URL-encoded: unreserved bytes stay, every other byte becomes `%XX`.
pub open spec fn percent_encode_spec(bytes: Seq<u8>) -> Seq<char>
    decreases bytes.len(),
{
    if bytes.len() == 0 {
        Seq::empty()
    } else {
        let head = percent_encode_spec(bytes.drop_last());
        let b = bytes.last();
        if is_unreserved(b) {
            head.push(b as char)
        } else {
            head + seq!['%', upper_hex_digit(b / 16), upper_hex_digit(b % 16)]
        }
    }
}

/// Relies on `urlencoding::encode`: every byte of the UTF-8 encoding but ASCII
/// alphanumerics and `-._~` becomes `%` and two uppercase hex digits.
#[verifier::external_body]
fn url_encode(s: &str) -> (r: String)
    ensures
        r@ == percent_encode_spec(s.spec_bytes()),
{
    urlencoding::encode(s).into_owned()
}

/// `pkg:cargo/{name}@{version}`.
pub open spec fn cargo_purl_spec(name: Seq<char>, version: Seq<char>) -> Seq<char> {
    "pkg:cargo/"@ + name + "@"@ + version
}

/// `pkg:gem/{name}@{version}`.
pub open spec fn gem_purl_spec(name: Seq<char>, version: Seq<char>) -> Seq<char> {
    "pkg:gem/"@ + name + "@"@ + version
}

/// `pkg:npm/{package}@{version}` with each `@` of the package name written `%40`.
pub open spec fn npm_purl_spec(package: Seq<char>, version: Seq<char>) -> Seq<char> {
    "pkg:npm/"@ + replace_char_spec(package, '@', "%40"@) + "@"@ + version
}

/// The part of a file name after its last `.`, or `unknown` when it has none.
pub open spec fn file_extension_spec(file: Seq<char>) -> Seq<char> {
    match last_index_of(file, '.') {
        Some(i) => file.skip(i + 1),
        None => "unknown"@,
    }
}

/// `pkg:maven/{group with dots}/{artifact}@{version}?type={ext}&repository_url={encoded url}`.
pub open spec fn maven_purl_spec(
    group: Seq<char>,
    artifact: Seq<char>,
    version: Seq<char>,
    file: Seq<char>,
    repository_url_bytes: Seq<u8>,
) -> Seq<char> {
    "pkg:maven/"@ + replace_char_spec(group, '/', "."@) + "/"@ + artifact + "@"@ + version
        + "?type="@ + file_extension_spec(file) + "&repository_url="@ + percent_encode_spec(
        repository_url_bytes,
    )
}

/// The package URL of version `version` of crate `name`.
pub fn cargo_purl(name: &str, version: &str) -> (r: String)
    ensures
        r@ == cargo_purl_spec(name@, version@),
{
    let mut r = concat("pkg:cargo/", name);
    r.append("@");
    r.append(version);
    r
}

/// The package URL of version `version` of gem `name`.
pub fn gem_purl(name: &str, version: &str) -> (r: String)
    ensures
        r@ == gem_purl_spec(name@, version@),
{
    let mut r = concat("pkg:gem/", name);
    r.append("@");
    r.append(version);
    r
}

/// The package URL of version `version` of npm package `package`.
pub fn npm_purl(package: &str, version: &str) -> (r: String)
    ensures
        r@ == npm_purl_spec(package@, version@),
{
    let mut r = concat("pkg:npm/", replace_char(package, '@', "%40").as_str());
    r.append("@");
    r.append(version);
    r
}

/// The extension of a file name: what follows its last `.`, or `unknown`.
pub fn file_extension(file: &str) -> (r: String)
    ensures
        r@ == file_extension_spec(file@),
{
    let n = file.unicode_len();
    match rfind_char(file, '.') {
        Some(i) => file.substring_char(i + 1, n).to_owned(),
        None => "unknown".to_owned(),
    }
}

/// The package URL of a Maven artifact file served from `repository_url`.
pub fn maven_purl(
    group: &str,
    artifact: &str,
    version: &str,
    file: &str,
    repository_url: &str,
) -> (r: String)
    ensures
        r@ == maven_purl_spec(group@, artifact@, version@, file@, repository_url.spec_bytes()),
{
    let mut r = concat("pkg:maven/", replace_char(group, '/', ".").as_str());
    r.append("/");
    r.append(artifact);
    r.append("@");
    r.append(version);
    r.append("?type=");
    r.append(file_extension(file).as_str());
    r.append("&repository_url=");
    r.append(url_encode(repository_url).as_str());
    r
}

/// `{base}/{group}/{artifact}/{version}/{file}`: where a Maven artifact is fetched.
pub fn maven_upstream_url(base: &str, group: &str, artifact: &str, version: &str, file: &str) -> (r: String)
    ensures
        r@ == base@ + "/"@ + group@ + "/"@ + artifact@ + "/"@ + version@ + "/"@ + file@,
{
    let mut r = concat(base, "/");
    r.append(group);
    r.append("/");
    r.append(artifact);
    r.append("/");
    r.append(version);
    r.append("/");
    r.append(file);
    r
}

/// `{base}{package}/{name}-{version}.{ext}`: where a gem is fetched.
pub fn gem_upstream_url(base: &str, package: &str, name: &str, version: &str, ext: &str) -> (r: String)
    ensures
        r@ == base@ + package@ + "/"@ + name@ + "-"@ + version@ + "."@ + ext@,
{
    let mut r = concat(base, package);
    r.append("/");
    r.append(name);
    r.append("-");
    r.append(version);
    r.append(".");
    r.append(ext);
    r
}

/// `{base}{package}/-/{name}-{version}.{ext}`: where an npm tarball is fetched.
pub fn npm_upstream_url(base: &str, package: &str, name: &str, version: &str, ext: &str) -> (r: String)
    ensures
        r@ == base@ + package@ + "/-/"@ + name@ + "-"@ + version@ + "."@ + ext@,
{
    let mut r = concat(base, package);
    r.append("/-/");
    r.append(name);
    r.append("-");
    r.append(version);
    r.append(".");
    r.append(ext);
    r
}

/// `https://crates.io/{dl_path}`: where a crate file is fetched.
pub fn crate_download_url(dl_path: &str) -> (r: String)
    ensures
        r@ == "https://crates.io/"@ + dl_path@,
{
    concat("https://crates.io/", dl_path)
}

/// The package a Context is about, for the ecosystems that name one.
pub enum PackageId {
    Crate { name: String },
    M2 { group_id: String, artifact_id: String },
}

/// What the policy service is told about one fetched artifact.
pub struct Context {
    pub purl: String,
    pub url: String,
    pub hash: String,
    pub id: Option<PackageId>,
    /// The scope the artifact was requested through.
    pub repository_id: String,
    pub license: Option<String>,
}

impl Context {
    /// A Context with no package id, repository or license.
    pub fn new(purl: String, url: String, hash: String) -> (r: Context)
        ensures
            r.purl == purl,
            r.url == url,
            r.hash == hash,
            r.id is None,
            r.repository_id@ == Seq::<char>::empty(),
            r.license is None,
    {
        Context { purl, url, hash, id: None, repository_id: String::new(), license: None }
    }

    /// The Context of `payload`, fetched from `url` for scope `repository_id`: its
    /// hash is the payload's SHA-256.
    pub fn for_payload(
        purl: String,
        url: String,
        payload: &Vec<u8>,
        id: Option<PackageId>,
        repository_id: String,
    ) -> (r: Context)
        ensures
            r.purl == purl,
            r.url == url,
            r.hash@ == sha256_hex(payload@),
            r.id == id,
            r.repository_id == repository_id,
            r.license is None,
    {
        let hash = sha256_digest(payload);
        Context { purl, url, hash, id, repository_id, license: None }
    }

    pub fn url(&self) -> (r: &str)
        ensures
            r@ == self.url@,
    {
        self.url.as_str()
    }

    pub fn purl(&self) -> (r: &str)
        ensures
            r@ == self.purl@,
    {
        self.purl.as_str()
    }

    pub fn hash(&self) -> (r: &str)
        ensures
            r@ == self.hash@,
    {
        self.hash.as_str()
    }

    pub fn id(&self) -> (r: &Option<PackageId>)
        ensures
            *r == self.id,
    {
        &self.id
    }

    pub fn repository_id(&self) -> (r: &str)
        ensures
            r@ == self.repository_id@,
    {
        self.repository_id.as_str()
    }

    pub fn license(&self) -> (r: &Option<String>)
        ensures
            *r == self.license,
    {
        &self.license
    }
}

} // verus!
