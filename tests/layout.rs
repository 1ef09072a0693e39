use seedwing_proxy::layout::{
    advertised_host, advertised_url, api_url, cache_root, config_json, download_url, index_prefix,
};
use seedwing_proxy::text::decimal;

#[test]
fn cache_root_joins_scope_bind_and_port() {
    assert_eq!(
        "/home/u/.seedwing_proxy/cache/crates-io_0.0.0.0_8675",
        cache_root("/home/u/.seedwing_proxy/cache", "crates-io", "0.0.0.0", 8675)
    );
}

#[test]
fn wildcard_bind_is_advertised_as_loopback() {
    assert_eq!("127.0.0.1", advertised_host("0.0.0.0"));
    assert_eq!("10.1.2.3", advertised_host("10.1.2.3"));
}

#[test]
fn advertised_urls_of_a_scope() {
    assert_eq!("http://127.0.0.1:8675/crates/api/v1/crates", download_url("crates", "0.0.0.0", 8675));
    assert_eq!("http://127.0.0.1:8675/crates", api_url("crates", "0.0.0.0", 8675));
    assert_eq!("http://10.0.0.5:80/x/y", advertised_url("x", "10.0.0.5", 80, Some("/y")));
    assert_eq!("/crates/index", index_prefix("crates"));
}

#[test]
fn decimal_formats_ports() {
    assert_eq!("0", decimal(0));
    assert_eq!("8675", decimal(8675));
    assert_eq!("65535", decimal(65535));
    assert_eq!("18446744073709551615", decimal(u64::MAX));
}

#[test]
fn config_json_layout() {
    assert_eq!(
        "{\n  \"dl\": \"http://a/dl\",\n  \"api\": \"http://a\"\n}\n",
        config_json("http://a/dl", "http://a")
    );
}
