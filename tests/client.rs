use hapctl::client::{split_server_name, InvalidServerName, DEFAULT_ENDPOINT, DEFAULT_EU_ENDPOINT};
use hapctl::Client;

#[test]
fn endpoint_override_wins() {
    let c = Client::new("backend-eu-de/srv", Some("https://example.test"));
    assert_eq!(c.endpoint(), "https://example.test");
}

#[test]
fn eu_servers_use_eu_endpoint() {
    assert_eq!(Client::new("lb-eu-de-1/srv", None).endpoint(), DEFAULT_EU_ENDPOINT);
    assert_eq!(Client::new("eu-de", None).endpoint(), DEFAULT_EU_ENDPOINT);
    assert_eq!(Client::new("lb-us-south/srv", None).endpoint(), DEFAULT_ENDPOINT);
    assert_eq!(Client::new("eu-d/e", None).endpoint(), DEFAULT_ENDPOINT);
    assert_eq!(Client::new("", None).endpoint(), DEFAULT_ENDPOINT);
}

#[test]
fn weight_uri_of_valid_name() {
    let c = Client::new("b/s", Some("https://h"));
    assert_eq!(
        c.weight_uri("back/serv").unwrap(),
        "https://h/v1/backends/back/servers/serv/weight"
    );
    assert_eq!(c.weight_uri("/").unwrap(), "https://h/v1/backends//servers//weight");
}

#[test]
fn weight_uri_rejects_bad_names() {
    let c = Client::new("b/s", None);
    assert_eq!(c.weight_uri("noslash"), Err(InvalidServerName));
    assert_eq!(c.weight_uri("a/b/c"), Err(InvalidServerName));
    assert_eq!(c.weight_uri(""), Err(InvalidServerName));
}

#[test]
fn split_server_name_parts() {
    assert_eq!(
        split_server_name("lb1/web-é"),
        Ok(("lb1".to_string(), "web-é".to_string()))
    );
    assert_eq!(split_server_name("x//y"), Err(InvalidServerName));
}

#[test]
fn invalid_server_name_message() {
    assert_eq!(InvalidServerName.message(), "invalid server name given");
}
