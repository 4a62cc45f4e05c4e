use iiko_server_api_sdk::client::{accepts_status, is_success_status, HttpMethod,
    SessionDispatcher};
use iiko_server_api_sdk::IikoError;

fn map(status: u16) -> IikoError {
    SessionDispatcher::handle_error_response(status, "detail".to_string())
}

#[test]
fn status_mapping_table_is_exact() {
    assert_eq!(map(400), IikoError::BadRequest("detail".to_string()));
    assert_eq!(map(401), IikoError::Unauthorized("detail".to_string()));
    assert_eq!(map(403), IikoError::Forbidden("detail".to_string()));
    assert_eq!(map(404), IikoError::NotFound("detail".to_string()));
    assert_eq!(map(409), IikoError::BusinessLogic("detail".to_string()));
    assert_eq!(map(500), IikoError::InternalServerError("detail".to_string()));
    // Every other non-success status maps to the generic API error.
    assert_eq!(map(402), IikoError::Api("detail".to_string()));
    assert_eq!(map(418), IikoError::Api("detail".to_string()));
    assert_eq!(map(503), IikoError::Api("detail".to_string()));
}

#[test]
fn success_statuses_are_the_2xx_range() {
    assert!(!is_success_status(199));
    assert!(is_success_status(200));
    assert!(is_success_status(201));
    assert!(is_success_status(204));
    assert!(is_success_status(299));
    assert!(!is_success_status(300));
    assert!(!is_success_status(400));
}

#[test]
fn every_verb_accepts_every_2xx_code() {
    for status in [200u16, 201, 204, 226, 299] {
        assert!(accepts_status(HttpMethod::Get, status));
        assert!(accepts_status(HttpMethod::Delete, status));
        assert!(accepts_status(HttpMethod::Post, status));
        assert!(accepts_status(HttpMethod::Put, status));
    }
}

#[test]
fn no_verb_accepts_a_failure_code() {
    for status in [199u16, 300, 400, 401, 403, 404, 409, 500, 503] {
        assert!(!accepts_status(HttpMethod::Get, status));
        assert!(!accepts_status(HttpMethod::Delete, status));
        assert!(!accepts_status(HttpMethod::Post, status));
        assert!(!accepts_status(HttpMethod::Put, status));
    }
}

#[test]
fn error_detail_returns_the_carried_text() {
    assert_eq!(
        IikoError::BusinessLogic("negative stock".to_string()).detail(),
        "negative stock"
    );
    assert_eq!(IikoError::Http("timeout".to_string()).detail(), "timeout");
}

#[test]
fn every_error_kind_carries_its_text() {
    let kinds = [
        IikoError::Http("t".to_string()),
        IikoError::XmlDeserialization("t".to_string()),
        IikoError::XmlSerialization("t".to_string()),
        IikoError::JsonSerialization("t".to_string()),
        IikoError::Authentication("t".to_string()),
        IikoError::Configuration("t".to_string()),
        IikoError::BadRequest("t".to_string()),
        IikoError::Unauthorized("t".to_string()),
        IikoError::Forbidden("t".to_string()),
        IikoError::NotFound("t".to_string()),
        IikoError::BusinessLogic("t".to_string()),
        IikoError::InternalServerError("t".to_string()),
        IikoError::Api("t".to_string()),
        IikoError::Io("t".to_string()),
    ];
    for kind in kinds {
        assert_eq!(kind.detail(), "t");
    }
}
