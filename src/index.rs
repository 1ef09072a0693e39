//! The crates.io git index cache: its on-disk layout, its validity check, and the
//! rules by which periodic updates merge upstream while keeping the local `config.json`.
use vstd::prelude::*;

use crate::layout::{
    advertised_url_spec, api_url, cache_root, cache_root_spec, config_json, config_json_spec,
    download_url, API_PATH,
};
use crate::text::{concat, has_prefix, str_eq, strip_prefix};

verus! {

/// The BSD cache-directory marker, also the lock file of the cache.
pub const CACHEDIR_TAG_FILE: &'static str = "CACHEDIR.TAG";

/// What the cache-directory marker holds.
pub const CACHEDIR_TAG_CONTENTS: &'static str = "Signature: 8a477f597d28d172789f06886806bc55\n# This is a seedwing_proxy cache directory for a remote cargo registry.";

/// Name of the upstream remote in the local repository.
pub const REMOTE_NAME: &'static str = "repository";

/// Directory of the working tree below the cache root.
pub const GIT_DIR: &'static str = "repository";

/// File, below the working tree, that holds the upstream branch's full ref name.
pub const SEEDWING_BRANCH_FILE: &'static str = ".seedwing/branch";

pub const GITIGNORE_FILE: &'static str = ".gitignore";

pub const CONFIG_JSON_FILE: &'static str = "config.json";

/// Tag on the last upstream commit that was merged.
pub const TAG_NAME: &'static str = "seedwing";

/// Full ref name of the tag.
pub const TAG_REF: &'static str = "refs/tags/seedwing";

/// Message of the tag.
pub const TAG_MESSAGE: &'static str = "Latest merge";

/// Author and committer name of the cache's own commits.
pub const SIGNATURE_NAME: &'static str = "Seedwing";

/// Author and committer e-mail of the cache's own commits.
pub const SIGNATURE_EMAIL: &'static str = "seedwing@example.com";

/// Message of the commit that writes the local `config.json`.
pub const INITIAL_COMMIT_MESSAGE: &'static str = "Committing Initial config.json";

/// Message of the commit that merges upstream.
pub const MERGE_COMMIT_MESSAGE: &'static str = "Merge commit for remote repository";

/// The git subcommand that serves the smart HTTP protocol.
pub const GIT_HTTP_BACKEND: &'static str = "http-backend";

/// A failure of the git index cache.
pub enum GitError {
    Io { message: String },
    Git2 { message: String },
    Other { message: String },
}

impl GitError {
    /// A description of the failure.
    pub fn message(&self) -> (r: String)
        ensures
            r@ == (match self {
                GitError::Io { message } => message@,
                GitError::Git2 { message } => message@,
                GitError::Other { message } => message@,
            }),
    {
        match self {
            GitError::Io { message } => message.clone(),
            GitError::Git2 { message } => message.clone(),
            GitError::Other { message } => message.clone(),
        }
    }
}

/// The files of one cache, as paths.
pub struct CachePaths {
    pub cachedir_tag: String,
    pub repository: String,
    pub seedwing_branch: String,
    pub gitignore: String,
    pub config_json: String,
}

/// `{dir}/{name}`.
pub open spec fn join_spec(dir: Seq<char>, name: Seq<char>) -> Seq<char> {
    dir + "/"@ + name
}

fn join(dir: &str, name: &str) -> (r: String)
    ensures
        r@ == join_spec(dir@, name@),
{
    let mut r = concat(dir, "/");
    r.append(name);
    r
}

/// The paths of the cache whose root is `root`.
pub fn cache_paths(root: &str) -> (r: CachePaths)
    ensures
        r.cachedir_tag@ == join_spec(root@, CACHEDIR_TAG_FILE@),
        r.repository@ == join_spec(root@, GIT_DIR@),
        r.seedwing_branch@ == join_spec(r.repository@, SEEDWING_BRANCH_FILE@),
        r.gitignore@ == join_spec(r.repository@, GITIGNORE_FILE@),
        r.config_json@ == join_spec(r.repository@, CONFIG_JSON_FILE@),
{
    let repository = join(root, GIT_DIR);
    let seedwing_branch = join(repository.as_str(), SEEDWING_BRANCH_FILE);
    let gitignore = join(repository.as_str(), GITIGNORE_FILE);
    let config_json = join(repository.as_str(), CONFIG_JSON_FILE);
    CachePaths {
        cachedir_tag: join(root, CACHEDIR_TAG_FILE),
        repository,
        seedwing_branch,
        gitignore,
        config_json,
    }
}

/// What `.gitignore` holds: the branch file stays out of the repository.
pub fn gitignore_contents() -> (r: String)
    ensures
        r@ == "/"@ + SEEDWING_BRANCH_FILE@,
{
    concat("/", SEEDWING_BRANCH_FILE)
}

/// The prefix of a local branch's full ref name.
pub open spec fn heads_prefix() -> Seq<char> {
    seq!['r', 'e', 'f', 's', '/', 'h', 'e', 'a', 'd', 's', '/']
}

/// `branch` without any number of leading `refs/heads/`.
pub open spec fn short_name_spec(branch: Seq<char>) -> Seq<char>
    decreases branch.len(),
{
    if has_prefix(branch, heads_prefix()) {
        short_name_spec(branch.skip(11))
    } else {
        branch
    }
}

/// `refs/remotes/repository/{short name}`: where a fetch puts the upstream branch.
pub open spec fn remote_branch_spec_spec(branch: Seq<char>) -> Seq<char> {
    "refs/remotes/"@ + REMOTE_NAME@ + "/"@ + short_name_spec(branch)
}

/// Whether an existing cache can be kept: the working tree and the branch file
/// exist, and the remote points at the configured upstream.
pub open spec fn cache_valid_spec(
    repository_exists: bool,
    branch_file_exists: bool,
    remote_url: Option<Seq<char>>,
    expected_url: Seq<char>,
) -> bool {
    repository_exists && branch_file_exists && remote_url == Some(expected_url)
}

/// One cached crates.io-style index, served back to Cargo with its own `config.json`.
pub struct IndexRepository {
    pub repo: String,
    pub local_repository_cache: String,
    pub dl: String,
    pub api: String,
    pub periodic_update: u64,
}

impl IndexRepository {
    pub fn new(repo: String, local_repository_cache: String, dl: String, api: String, periodic_update: u64) -> (r: IndexRepository)
        ensures
            r.repo == repo,
            r.local_repository_cache == local_repository_cache,
            r.dl == dl,
            r.api == api,
            r.periodic_update == periodic_update,
    {
        IndexRepository { repo, local_repository_cache, dl, api, periodic_update }
    }

    /// The index repository of scope `scope` mirroring `repo`, for a proxy bound to
    /// `bind:port` whose caches live below `base_cache_dir`.
    pub fn for_scope(
        repo: String,
        base_cache_dir: &str,
        scope: &str,
        bind: &str,
        port: u16,
        periodic_update: u64,
    ) -> (r: IndexRepository)
        ensures
            r.repo == repo,
            r.local_repository_cache@ == cache_root_spec(base_cache_dir@, scope@, bind@, port),
            r.dl@ == advertised_url_spec(scope@, bind@, port, Some(API_PATH@ + "/crates"@)),
            r.api@ == advertised_url_spec(scope@, bind@, port, None),
            r.periodic_update == periodic_update,
    {
        IndexRepository {
            repo,
            local_repository_cache: cache_root(base_cache_dir, scope, bind, port),
            dl: download_url(scope, bind, port),
            api: api_url(scope, bind, port),
            periodic_update,
        }
    }

    pub fn get_repo(&self) -> (r: &str)
        ensures
            r@ == self.repo@,
    {
        self.repo.as_str()
    }

    pub fn get_local_repository_cache(&self) -> (r: &str)
        ensures
            r@ == self.local_repository_cache@,
    {
        self.local_repository_cache.as_str()
    }

    pub fn get_dl_url(&self) -> (r: &str)
        ensures
            r@ == self.dl@,
    {
        self.dl.as_str()
    }

    pub fn get_api_url(&self) -> (r: &str)
        ensures
            r@ == self.api@,
    {
        self.api.as_str()
    }

    pub fn get_periodic_update(&self) -> (r: u64)
        ensures
            r == self.periodic_update,
    {
        self.periodic_update
    }

    /// The paths of this cache.
    pub fn paths(&self) -> (r: CachePaths)
        ensures
            r.cachedir_tag@ == join_spec(self.local_repository_cache@, CACHEDIR_TAG_FILE@),
            r.repository@ == join_spec(self.local_repository_cache@, GIT_DIR@),
            r.seedwing_branch@ == join_spec(r.repository@, SEEDWING_BRANCH_FILE@),
            r.gitignore@ == join_spec(r.repository@, GITIGNORE_FILE@),
            r.config_json@ == join_spec(r.repository@, CONFIG_JSON_FILE@),
    {
        cache_paths(self.local_repository_cache.as_str())
    }

    /// The `config.json` the cache serves: downloads and API calls go to the proxy.
    pub fn config_json(&self) -> (r: String)
        ensures
            r@ == config_json_spec(self.dl@, self.api@),
    {
        config_json(self.dl.as_str(), self.api.as_str())
    }

    /// Whether an existing cache is kept at startup rather than rebuilt.
    pub fn is_cache_valid(&self, repository_exists: bool, branch_file_exists: bool, remote_url: Option<&str>) -> (r: bool)
        ensures
            r == cache_valid_spec(
                repository_exists,
                branch_file_exists,
                match remote_url { Some(u) => Some(u@), None => None },
                self.repo@,
            ),
    {
        if !repository_exists || !branch_file_exists {
            return false;
        }
        match remote_url {
            Some(u) => str_eq(u, self.repo.as_str()),
            None => false,
        }
    }

    /// The short name of a branch: its full ref name without leading `refs/heads/`.
    pub fn get_branch_short_name(remote_branch: &str) -> (r: String)
        ensures
            r@ == short_name_spec(remote_branch@),
    {
        proof {
            reveal_strlit("refs/heads/");
        }
        assert("refs/heads/"@ =~= heads_prefix());
        let mut current = remote_branch.to_owned();
        loop
            invariant
                "refs/heads/"@ == heads_prefix(),
                short_name_spec(remote_branch@) == short_name_spec(current@),
            decreases current@.len(),
        {
            match strip_prefix(current.as_str(), "refs/heads/") {
                Some(rest) => {
                    current = rest;
                },
                None => {
                    return current;
                },
            }
        }
    }

    /// Where a fetch of `remote_branch` puts the upstream commit.
    pub fn get_remote_branch_spec(remote_branch: &str) -> (r: String)
        ensures
            r@ == remote_branch_spec_spec(remote_branch@),
    {
        let mut r = concat("refs/remotes/", REMOTE_NAME);
        r.append("/");
        r.append(Self::get_branch_short_name(remote_branch).as_str());
        r
    }
}

/// What the cache records between updates.
pub struct CacheModel {
    /// Full ref name of the upstream branch, from the branch file.
    pub branch: Seq<char>,
    /// Commit that the `seedwing` tag points at.
    pub tag: Option<Seq<char>>,
    /// Contents of the committed `config.json`.
    pub config: Seq<char>,
}

/// A merge can go ahead when `config.json`, whose local side always wins, is the
/// only conflicted path.
pub open spec fn resolvable(conflicts: Seq<Seq<char>>) -> bool {
    forall|i: int| 0 <= i < conflicts.len() ==> conflicts[i] == CONFIG_JSON_FILE@
}

/// One periodic update: the upstream commit fetched, the paths its merge left
/// conflicted, and the `config.json` the merge produced when it did not conflict there.
pub struct UpdateEvent {
    pub remote: Seq<char>,
    pub conflicts: Seq<Seq<char>>,
    pub merged_config: Seq<char>,
}

/// The cache after update `e`. A merge moves the tag to the upstream commit and
/// commits the local `config.json` when that file conflicted, the merged one otherwise.
pub open spec fn update_model(m: CacheModel, e: UpdateEvent) -> CacheModel {
    if m.tag == Some(e.remote) || !resolvable(e.conflicts) {
        m
    } else {
        CacheModel {
            tag: Some(e.remote),
            config: if e.conflicts.len() > 0 {
                m.config
            } else {
                e.merged_config
            },
            ..m
        }
    }
}

/// The cache after a run of updates.
pub open spec fn updates_model(m: CacheModel, updates: Seq<UpdateEvent>) -> CacheModel
    decreases updates.len(),
{
    if updates.len() == 0 {
        m
    } else {
        update_model(updates_model(m, updates.drop_last()), updates.last())
    }
}

/// Paths as characters.
pub open spec fn path_views(paths: Seq<String>) -> Seq<Seq<char>> {
    paths.map_values(|p: String| p@)
}

/// What an update does to the local repository.
#[derive(Clone, Copy, Debug, PartialEq, Eq, Structural)]
pub enum UpdateAction {
    /// The tag already points at the upstream commit.
    UpToDate,
    /// Commit the merge, keeping the local `config.json` when it conflicted, and move the tag.
    Merge { keep_local_config: bool },
}

/// The state of one cache's repository as the periodic update sees it.
pub struct CacheState {
    pub branch: String,
    pub tag: Option<String>,
    pub config: String,
}

impl View for CacheState {
    type V = CacheModel;

    open spec fn view(&self) -> CacheModel {
        CacheModel {
            branch: self.branch@,
            tag: match self.tag {
                Some(t) => Some(t@),
                None => None,
            },
            config: self.config@,
        }
    }
}

/// Whether every path in `conflicts` is `config.json`.
pub fn only_config_conflicts(conflicts: &Vec<String>) -> (r: bool)
    ensures
        r == resolvable(path_views(conflicts@)),
{
    let mut i: usize = 0;
    while i < conflicts.len()
        invariant
            i <= conflicts@.len(),
            forall|j: int| 0 <= j < i ==> conflicts@[j]@ == CONFIG_JSON_FILE@,
        decreases conflicts@.len() - i,
    {
        if !str_eq(conflicts[i].as_str(), CONFIG_JSON_FILE) {
            assert(path_views(conflicts@)[i as int] == conflicts@[i as int]@);
            return false;
        }
        i = i + 1;
    }
    true
}

impl CacheState {
    /// The cache right after it was built: the upstream commit is tagged and the
    /// proxy's `config.json` committed.
    pub fn initial(branch: String, upstream_commit: String, config: String) -> (r: CacheState)
        ensures
            r@ == (CacheModel { branch: branch@, tag: Some(upstream_commit@), config: config@ }),
    {
        CacheState { branch, tag: Some(upstream_commit), config }
    }

    /// Whether the upstream commit `remote` still has to be merged: the tag is elsewhere.
    pub fn needs_merge(&self, remote: &str) -> (r: bool)
        ensures
            r == (self@.tag != Some(remote@)),
    {
        match &self.tag {
            Some(t) => !str_eq(t.as_str(), remote),
            None => true,
        }
    }

    /// Applies an update that fetched `remote`. `conflicts` are the paths the merge
    /// of `remote` into the local branch left conflicted, and `merged_config` the
    /// `config.json` it produced when that file did not conflict. The update fails,
    /// and changes nothing, when a path other than `config.json` conflicts.
    pub fn update(&mut self, remote: &str, conflicts: &Vec<String>, merged_config: &str) -> (r: Result<UpdateAction, GitError>)
        ensures
            final(self)@ == update_model(
                old(self)@,
                UpdateEvent { remote: remote@, conflicts: path_views(conflicts@), merged_config: merged_config@ },
            ),
            old(self)@.tag == Some(remote@) ==> r == Ok::<UpdateAction, GitError>(UpdateAction::UpToDate),
            old(self)@.tag != Some(remote@) && resolvable(path_views(conflicts@)) ==> r == Ok::<
                UpdateAction,
                GitError,
            >(UpdateAction::Merge { keep_local_config: conflicts@.len() > 0 }),
            old(self)@.tag != Some(remote@) && !resolvable(path_views(conflicts@)) ==> r is Err,
    {
        if !self.needs_merge(remote) {
            return Ok(UpdateAction::UpToDate);
        }
        if !only_config_conflicts(conflicts) {
            return Err(GitError::Other { message: "Could not resolve all conflicts".to_owned() });
        }
        self.tag = Some(remote.to_owned());
        if conflicts.len() == 0 {
            self.config = merged_config.to_owned();
        }
        Ok(UpdateAction::Merge { keep_local_config: conflicts.len() > 0 })
    }
}

/// Updates never touch the branch file: its ref name is written once, when the
/// cache is built, and stays the same across any number of updates.
pub proof fn lemma_branch_persists(m: CacheModel, updates: Seq<UpdateEvent>)
    ensures
        updates_model(m, updates).branch == m.branch,
    decreases updates.len(),
{
    if updates.len() > 0 {
        lemma_branch_persists(m, updates.drop_last());
    }
}

/// Updates keep the committed `config.json`: after any run of merges of upstream
/// revisions a cache built with the proxy's `dl` and `api` still advertises them.
/// Where upstream changed the file, the merge conflicts on it and the local side
/// wins; where the merge met no conflict, it left the local file as it was.
pub proof fn lemma_config_persists(
    dl: Seq<char>,
    api: Seq<char>,
    m: CacheModel,
    updates: Seq<UpdateEvent>,
)
    requires
        m.config == config_json_spec(dl, api),
        forall|i: int|
            0 <= i < updates.len() && (#[trigger] updates[i]).conflicts.len() == 0
                ==> updates[i].merged_config == config_json_spec(dl, api),
    ensures
        updates_model(m, updates).config == config_json_spec(dl, api),
    decreases updates.len(),
{
    if updates.len() > 0 {
        let prefix = updates.drop_last();
        assert forall|i: int|
            0 <= i < prefix.len() && (#[trigger] prefix[i]).conflicts.len() == 0 implies prefix[i].merged_config
                == config_json_spec(dl, api) by {
            assert(prefix[i] == updates[i]);
        }
        lemma_config_persists(dl, api, m, prefix);
        assert(updates[updates.len() - 1] == updates.last());
    }
}

/// The tag points at the upstream commit of the last update that merged, or stays
/// where it was when none did: it is never set to a commit that no update fetched.
pub proof fn lemma_tag_follows_merges(m: CacheModel, updates: Seq<UpdateEvent>)
    ensures
        updates_model(m, updates).tag == m.tag || exists|i: int|
            0 <= i < updates.len() && updates_model(m, updates).tag == Some(#[trigger] updates[i].remote),
        updates.len() > 0 && resolvable(updates.last().conflicts) ==> updates_model(m, updates).tag == Some(
            updates.last().remote,
        ),
    decreases updates.len(),
{
    if updates.len() > 0 {
        let prefix = updates.drop_last();
        lemma_tag_follows_merges(m, prefix);
        let before = updates_model(m, prefix);
        if before.tag != updates_model(m, updates).tag {
            assert(updates_model(m, updates).tag == Some(updates[updates.len() - 1].remote));
        } else if before.tag != m.tag {
            let i = choose|i: int| 0 <= i < prefix.len() && before.tag == Some(#[trigger] prefix[i].remote);
            assert(updates[i] == prefix[i]);
        }
    }
}

} // verus!
