//! The sparse index gateway: a local `config.json` and the upstream path of every
//! other index file.
use vstd::prelude::*;

use crate::layout::{
    advertised_url_spec, api_url, config_json, config_json_spec, download_url, index_prefix,
    API_PATH, INDEX_PATH,
};
use crate::text::{
    concat, has_prefix, strip_prefix, strip_trailing_slashes, strip_trailing_slashes_spec,
};

verus! {

/// A sparse index served below `index_prefix`, mirrored from `repo`.
pub struct SparseRepository {
    pub repo: String,
    pub index_prefix: String,
    pub dl: String,
    pub api: String,
}

impl SparseRepository {
    pub fn new(repo: String, index_prefix: String, dl: String, api: String) -> (r: SparseRepository)
        ensures
            r.repo == repo,
            r.index_prefix == index_prefix,
            r.dl == dl,
            r.api == api,
    {
        SparseRepository { repo, index_prefix, dl, api }
    }

    /// The sparse index of scope `scope` mirroring `repo`, for a proxy bound to `bind:port`.
    pub fn for_scope(repo: String, scope: &str, bind: &str, port: u16) -> (r: SparseRepository)
        ensures
            r.repo == repo,
            r.index_prefix@ == "/"@ + scope@ + INDEX_PATH@,
            r.dl@ == advertised_url_spec(scope@, bind@, port, Some(API_PATH@ + "/crates"@)),
            r.api@ == advertised_url_spec(scope@, bind@, port, None),
    {
        SparseRepository {
            repo,
            index_prefix: index_prefix(scope),
            dl: download_url(scope, bind, port),
            api: api_url(scope, bind, port),
        }
    }

    pub fn get_repo(&self) -> (r: &str)
        ensures
            r@ == self.repo@,
    {
        self.repo.as_str()
    }

    pub fn get_index_prefix(&self) -> (r: &str)
        ensures
            r@ == self.index_prefix@,
    {
        self.index_prefix.as_str()
    }

    pub fn get_dl_url(&self) -> (r: &str)
        ensures
            r@ == self.dl@,
    {
        self.dl.as_str()
    }

    pub fn get_api_url(&self) -> (r: &str)
        ensures
            r@ == self.api@,
    {
        self.api.as_str()
    }

    /// The `config.json` served at `{index_prefix}/config.json` in place of upstream's.
    pub fn generate_config(&self) -> (r: String)
        ensures
            r@ == config_json_spec(self.dl@, self.api@),
    {
        config_json(self.dl.as_str(), self.api.as_str())
    }

    /// The upstream path of an index request: the upstream URL's path `repo_path`
    /// without its trailing slashes, then `/`, then what comes after
    /// `{index_prefix}/` in `request_path`; none for a request outside the prefix.
    pub fn upstream_path(&self, repo_path: &str, request_path: &str) -> (r: Option<String>)
        ensures
            r is Some <==> has_prefix(request_path@, self.index_prefix@ + "/"@),
            r matches Some(p) ==> p@ == strip_trailing_slashes_spec(repo_path@) + "/"@
                + request_path@.skip(self.index_prefix@.len() as int + 1),
    {
        let prefix = concat(self.index_prefix.as_str(), "/");
        proof {
            reveal_strlit("/");
        }
        match strip_prefix(request_path, prefix.as_str()) {
            Some(rest) => {
                let mut p = strip_trailing_slashes(repo_path);
                p.append("/");
                p.append(rest.as_str());
                Some(p)
            },
            None => None,
        }
    }
}

} // verus!
