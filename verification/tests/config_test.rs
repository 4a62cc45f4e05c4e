use iiko_server_api_sdk::xml::request::{DocumentsRequest, Request};
use iiko_server_api_sdk::IikoConfig;

#[test]
fn config_new_uses_the_default_timeout() {
    let config = IikoConfig::new(
        "http://h/resto/api".to_string(),
        "admin".to_string(),
        "hash".to_string(),
    );
    assert_eq!(config.base_url, "http://h/resto/api");
    assert_eq!(config.login, "admin");
    assert_eq!(config.password, "hash");
    assert_eq!(config.timeout_secs, 30);
}

#[test]
fn config_with_timeout_replaces_only_the_timeout() {
    let config = IikoConfig::new(
        "http://h/resto/api".to_string(),
        "admin".to_string(),
        "hash".to_string(),
    )
    .with_timeout(120);
    assert_eq!(config.timeout_secs, 120);
    assert_eq!(config.login, "admin");
}

#[test]
fn config_default_points_at_localhost() {
    let config = IikoConfig::default();
    assert_eq!(config.base_url, "http://localhost:8080/resto/api");
    assert_eq!(config.login, "");
    assert_eq!(config.password, "");
    assert_eq!(config.timeout_secs, 30);
}

#[test]
fn request_envelope_keeps_its_body() {
    let request = Request::new(DocumentsRequest {
        store_id: Some("s1".to_string()),
        date_from: None,
        date_to: Some("2024-02-01".to_string()),
    });
    assert_eq!(request.body.store_id.as_deref(), Some("s1"));
    assert_eq!(request.body.date_from, None);
    assert_eq!(request.body.date_to.as_deref(), Some("2024-02-01"));
}
