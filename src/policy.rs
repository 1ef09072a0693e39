//! The policy decision: whether to ask the policy service and what its answer means.
use vstd::prelude::*;

verus! {

/// How the proxy acts on the policy service's verdict.
#[derive(Clone, Copy, Debug, PartialEq, Eq, Structural)]
pub enum Decision {
    /// Never ask the policy service.
    Disable,
    /// Ask, log a denial, and serve the artifact anyway.
    Warn,
    /// Ask, and return the policy service's denial to the client.
    Enforce,
}

impl Default for Decision {
    fn default() -> (r: Decision)
        ensures
            r == Decision::Disable,
    {
        Decision::Disable
    }
}

/// Where the policy service is and how its verdicts are applied.
pub struct PolicyConfig {
    pub decision: Decision,
    pub url: String,
}

/// An HTTP response: status, headers and the whole body.
pub struct Reply {
    pub status: u16,
    pub headers: Vec<(String, String)>,
    pub body: Vec<u8>,
}

/// What a policy evaluation leaves the download to do.
pub enum PolicyOutcome {
    /// Serve the artifact.
    Pass,
    /// Return this response instead of the artifact.
    Deny(Reply),
}

/// A 2xx status, which the policy service uses to allow.
pub open spec fn is_success(status: u16) -> bool {
    200 <= status <= 299
}

impl PolicyConfig {
    /// A decision left out of the configuration file is `disable`.
    pub fn new(decision: Option<Decision>, url: String) -> (r: PolicyConfig)
        ensures
            r.decision == (match decision { Some(d) => d, None => Decision::Disable }),
            r.url == url,
    {
        let decision = match decision {
            Some(d) => d,
            None => Decision::default(),
        };
        PolicyConfig { decision, url }
    }

    pub fn decision(&self) -> (r: Decision)
        ensures
            r == self.decision,
    {
        self.decision
    }

    pub fn url(&self) -> (r: String)
        ensures
            r == self.url,
    {
        self.url.clone()
    }

    /// Whether a Context is sent to the policy service at all: never under `disable`.
    pub fn queries_policy_server(&self) -> (r: bool)
        ensures
            r <==> self.decision != Decision::Disable,
    {
        match self.decision {
            Decision::Disable => false,
            _ => true,
        }
    }

    /// What the policy service's `reply` means: a 2xx allows; anything else denies
    /// under `enforce`, with the service's own response, and only warns otherwise.
    pub fn outcome(&self, reply: Reply) -> (r: PolicyOutcome)
        ensures
            (is_success(reply.status) || self.decision != Decision::Enforce) ==> r is Pass,
            (!is_success(reply.status) && self.decision == Decision::Enforce) ==> r
                == PolicyOutcome::Deny(reply),
    {
        if 200 <= reply.status && reply.status <= 299 {
            PolicyOutcome::Pass
        } else {
            match self.decision {
                Decision::Enforce => PolicyOutcome::Deny(reply),
                _ => PolicyOutcome::Pass,
            }
        }
    }

    /// Whether the policy service's reply is a denial that gets logged as a warning.
    pub fn warns(&self, status: u16) -> (r: bool)
        ensures
            r <==> (self.decision != Decision::Disable && !is_success(status)),
    {
        self.queries_policy_server() && !(200 <= status && status <= 299)
    }
}

/// The response a download returns: the upstream artifact when the policy passed,
/// the policy service's response when it denied.
pub fn respond(outcome: PolicyOutcome, upstream: Reply) -> (r: Reply)
    ensures
        match outcome {
            PolicyOutcome::Pass => r == upstream,
            PolicyOutcome::Deny(denial) => r == denial,
        },
{
    match outcome {
        PolicyOutcome::Pass => upstream,
        PolicyOutcome::Deny(denial) => denial,
    }
}

} // verus!
