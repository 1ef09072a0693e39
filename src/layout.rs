//! Where a scope's cache lives and which URLs the proxy advertises for it.
use vstd::prelude::*;

use crate::text::{concat, decimal, decimal_spec, str_eq};

verus! {

/// Path of the API routes below a scope.
pub const API_PATH: &'static str = "/api/v1";

/// Path of the sparse index below a scope.
pub const INDEX_PATH: &'static str = "/index";

/// `{base}/{name}_{addr}_{port}`: the cache directory of one scope.
pub open spec fn cache_root_spec(base: Seq<char>, name: Seq<char>, addr: Seq<char>, port: u16) -> Seq<char> {
    base + "/"@ + name + "_"@ + addr + "_"@ + decimal_spec(port as nat)
}

/// The host clients are told to use: a wildcard bind is advertised as loopback.
pub open spec fn advertised_host_spec(addr: Seq<char>) -> Seq<char> {
    if addr == "0.0.0.0"@ {
        "127.0.0.1"@
    } else {
        addr
    }
}

/// `http://{host}:{port}/{name}{path}` for the advertised host.
pub open spec fn advertised_url_spec(name: Seq<char>, addr: Seq<char>, port: u16, path: Option<Seq<char>>) -> Seq<char> {
    "http://"@ + advertised_host_spec(addr) + ":"@ + decimal_spec(port as nat) + "/"@ + name
        + match path {
        Some(p) => p,
        None => Seq::empty(),
    }
}

/// The `config.json` a Cargo registry serves, pointing downloads at `dl` and API calls at `api`.
pub open spec fn config_json_spec(dl: Seq<char>, api: Seq<char>) -> Seq<char> {
    "{\n  \"dl\": \""@ + dl + "\",\n  \"api\": \""@ + api + "\"\n}\n"@
}

/// The cache directory of scope `name` for a proxy bound to `addr:port`.
pub fn cache_root(base: &str, name: &str, addr: &str, port: u16) -> (r: String)
    ensures
        r@ == cache_root_spec(base@, name@, addr@, port),
{
    let mut r = concat(base, "/");
    r.append(name);
    r.append("_");
    r.append(addr);
    r.append("_");
    r.append(decimal(port as u64).as_str());
    r
}

/// The host clients reach a proxy bound to `addr` at.
pub fn advertised_host(addr: &str) -> (r: &str)
    ensures
        r@ == advertised_host_spec(addr@),
{
    if str_eq(addr, "0.0.0.0") {
        "127.0.0.1"
    } else {
        addr
    }
}

/// The URL clients use for `path` below scope `name` of a proxy bound to `addr:port`.
pub fn advertised_url(name: &str, addr: &str, port: u16, path: Option<&str>) -> (r: String)
    ensures
        r@ == advertised_url_spec(name@, addr@, port, match path { Some(p) => Some(p@), None => None }),
{
    let mut r = concat("http://", advertised_host(addr));
    r.append(":");
    r.append(decimal(port as u64).as_str());
    r.append("/");
    r.append(name);
    match path {
        Some(p) => {
            r.append(p);
        },
        None => {
            assert(r@ + Seq::<char>::empty() =~= r@);
        },
    }
    r
}

/// The download URL advertised for scope `name`: its crates API.
pub fn download_url(name: &str, addr: &str, port: u16) -> (r: String)
    ensures
        r@ == advertised_url_spec(name@, addr@, port, Some(API_PATH@ + "/crates"@)),
{
    let path = concat(API_PATH, "/crates");
    advertised_url(name, addr, port, Some(path.as_str()))
}

/// The API URL advertised for scope `name`: the scope itself.
pub fn api_url(name: &str, addr: &str, port: u16) -> (r: String)
    ensures
        r@ == advertised_url_spec(name@, addr@, port, None),
{
    advertised_url(name, addr, port, None)
}

/// The prefix below which scope `name` serves its sparse index.
pub fn index_prefix(name: &str) -> (r: String)
    ensures
        r@ == "/"@ + name@ + INDEX_PATH@,
{
    let mut r = concat("/", name);
    r.append(INDEX_PATH);
    r
}

/// The registry `config.json` that advertises `dl` and `api`.
pub fn config_json(dl: &str, api: &str) -> (r: String)
    ensures
        r@ == config_json_spec(dl@, api@),
{
    let mut r = concat("{\n  \"dl\": \"", dl);
    r.append("\",\n  \"api\": \"");
    r.append(api);
    r.append("\"\n}\n");
    r
}

} // verus!
