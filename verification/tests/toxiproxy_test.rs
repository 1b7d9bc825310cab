use dockteur::toxiproxy::{ProxyCreationRequest, ToxiproxyClient};

#[test]
fn proxy_creation_request_renders_both_addresses() {
    let request = ProxyCreationRequest::new("redis", 8080, "172.17.0.2", 6379);

    assert_eq!(request.name, "redis");
    assert_eq!(request.listen, "0.0.0.0:8080");
    assert_eq!(request.upstream, "172.17.0.2:6379");
    assert!(request.enabled);
}

#[test]
fn toxiproxy_client_keeps_its_endpoint() {
    let client = ToxiproxyClient::new("localhost", 8474);

    assert_eq!(client.host(), "localhost");
    assert_eq!(client.port(), 8474);
}
