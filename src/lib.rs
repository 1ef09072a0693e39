//! Verified core of a policy-enforcing package-registry proxy: configuration,
//! package URLs, hop-by-hop filtering, policy decisions, the git index cache's
//! rules, the sparse index gateway and the `git http-backend` bridge.
pub mod backend;
pub mod config;
pub mod context;
pub mod download;
pub mod forward;
pub mod index;
pub mod layout;
pub mod policy;
pub mod sparse;
pub mod text;
