use seedwing_proxy::download::{find_download_path, missing_version_message};
use seedwing_proxy::forward::{strip_hop_by_hop, BODY_LIMIT};
use seedwing_proxy::policy::{respond, Decision, PolicyConfig, PolicyOutcome, Reply};

fn denial() -> Reply {
    Reply {
        status: 403,
        headers: vec![("content-type".to_string(), "text/plain".to_string())],
        body: b"blocked".to_vec(),
    }
}

fn upstream() -> Reply {
    Reply { status: 200, headers: vec![("content-length".to_string(), "3".to_string())], body: b"X\0Y".to_vec() }
}

#[test]
fn enforce_deny_returns_policy_response() {
    let policy = PolicyConfig::new(Some(Decision::Enforce), "http://policy/".to_string());
    assert!(policy.queries_policy_server());
    let outcome = policy.outcome(denial());
    let reply = respond(outcome, upstream());
    assert_eq!(403, reply.status);
    assert_eq!(b"blocked".to_vec(), reply.body);
    assert_eq!(vec![("content-type".to_string(), "text/plain".to_string())], reply.headers);
}

#[test]
fn warn_deny_serves_upstream() {
    let policy = PolicyConfig::new(Some(Decision::Warn), "http://policy/".to_string());
    assert!(policy.queries_policy_server());
    assert!(policy.warns(403));
    let outcome = policy.outcome(denial());
    assert!(matches!(outcome, PolicyOutcome::Pass));
    let reply = respond(outcome, upstream());
    assert_eq!(200, reply.status);
    assert_eq!(b"X\0Y".to_vec(), reply.body);
}

#[test]
fn disable_never_queries() {
    let policy = PolicyConfig::new(None, "http://policy/".to_string());
    assert!(!policy.queries_policy_server());
    assert!(!policy.warns(500));
    assert!(matches!(policy.outcome(denial()), PolicyOutcome::Pass));
}

#[test]
fn success_passes_under_enforce() {
    let policy = PolicyConfig::new(Some(Decision::Enforce), "http://policy/".to_string());
    for status in [200u16, 204, 299] {
        let reply = Reply { status, headers: Vec::new(), body: Vec::new() };
        assert!(matches!(policy.outcome(reply), PolicyOutcome::Pass));
        assert!(!policy.warns(status));
    }
    let reply = Reply { status: 300, headers: Vec::new(), body: Vec::new() };
    assert!(matches!(policy.outcome(reply), PolicyOutcome::Deny(_)));
}

#[test]
fn hop_by_hop_headers_are_stripped() {
    let headers = vec![
        ("Connection".to_string(), "keep-alive".to_string()),
        ("host".to_string(), "localhost".to_string()),
        ("accept".to_string(), "*/*".to_string()),
        ("UPGRADE".to_string(), "h2c".to_string()),
        ("keep-alive".to_string(), "timeout=5".to_string()),
        ("x-connection".to_string(), "1".to_string()),
        ("user-agent".to_string(), "cargo".to_string()),
    ];
    let kept = strip_hop_by_hop(&headers);
    assert_eq!(
        vec![
            ("accept".to_string(), "*/*".to_string()),
            ("x-connection".to_string(), "1".to_string()),
            ("user-agent".to_string(), "cargo".to_string()),
        ],
        kept
    );
    assert!(strip_hop_by_hop(&Vec::new()).is_empty());
}

#[test]
fn body_limit_is_twenty_mebibytes() {
    assert_eq!(20 * 1024 * 1024, BODY_LIMIT);
}

#[test]
fn download_path_of_first_matching_version() {
    let versions = vec![
        ("0.9.0".to_string(), "/api/v1/crates/foo/0.9.0/download".to_string()),
        ("1.0".to_string(), "/api/v1/crates/foo/1.0/download".to_string()),
        ("1.0".to_string(), "/second".to_string()),
    ];
    assert_eq!(Some("/api/v1/crates/foo/1.0/download".to_string()), find_download_path(&versions, "1.0"));
    assert_eq!(None, find_download_path(&versions, "2.0"));
    assert_eq!(None, find_download_path(&Vec::new(), "1.0"));
}

#[test]
fn missing_version_message_names_crate_and_version() {
    assert_eq!(
        "Error encountered finding version 2.0 of crate foo in crate info",
        missing_version_message("foo", "2.0")
    );
}
