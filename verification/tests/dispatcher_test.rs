use iiko_server_api_sdk::client::{HttpMethod, HttpRequest, HttpResponse, Step};
use iiko_server_api_sdk::{IikoConfig, IikoError, SessionDispatcher};

fn test_config() -> IikoConfig {
    IikoConfig::new(
        "http://h/resto/api".to_string(),
        "admin".to_string(),
        "hash".to_string(),
    )
}

fn pairs(v: &[(&str, &str)]) -> Vec<(String, String)> {
    v.iter().map(|(k, val)| (k.to_string(), val.to_string())).collect()
}

/// Drive a fresh dispatcher through a successful authentication with the
/// given token body.
fn authenticate_with(d: &mut SessionDispatcher, body: &str) -> String {
    let step = d.start_authenticate();
    let req = match step {
        Step::Send(req) => req,
        Step::Done(r) => panic!("expected an auth request, got {:?}", r),
    };
    assert_eq!(req.url, "http://h/resto/api/auth");
    match d.on_event(Ok(HttpResponse { status: 200, body: body.to_string() })) {
        Step::Done(Ok(token)) => token,
        other => panic!("expected a token, got {:?}", other),
    }
}

#[test]
fn authenticate_sends_credentials_as_form() {
    let mut d = SessionDispatcher::new(test_config());
    let step = d.start_authenticate();
    match step {
        Step::Send(req) => {
            assert!(matches!(req.method, HttpMethod::Post));
            assert_eq!(req.url, "http://h/resto/api/auth");
            assert!(req.query.is_empty());
            assert_eq!(
                req.content_type.as_deref(),
                Some("application/x-www-form-urlencoded")
            );
            assert_eq!(
                req.form,
                Some(pairs(&[("login", "admin"), ("pass", "hash")]))
            );
            assert!(req.body.is_none());
        }
        Step::Done(r) => panic!("expected an auth request, got {:?}", r),
    }
}

#[test]
fn authenticate_returns_token_and_get_attaches_key() {
    let mut d = SessionDispatcher::new(test_config());
    let token = authenticate_with(&mut d, "ABC123");
    assert_eq!(token, "ABC123");
    assert!(d.has_session());

    let req: HttpRequest = d.get("foo");
    assert!(matches!(req.method, HttpMethod::Get));
    assert_eq!(req.url, "http://h/resto/api/foo");
    assert_eq!(req.query, pairs(&[("key", "ABC123")]));
    match d.on_event(Ok(HttpResponse { status: 200, body: "payload".to_string() })) {
        Step::Done(Ok(body)) => assert_eq!(body, "payload"),
        other => panic!("expected the body, got {:?}", other),
    }
}

#[test]
fn auth_token_is_trimmed() {
    let mut d = SessionDispatcher::new(test_config());
    let token = authenticate_with(&mut d, " \r\n ABC123 \t");
    assert_eq!(token, "ABC123");
}

#[test]
fn cached_token_is_returned_without_network() {
    let mut d = SessionDispatcher::new(test_config());
    authenticate_with(&mut d, "T1");
    match d.start_authenticate() {
        Step::Done(Ok(token)) => assert_eq!(token, "T1"),
        other => panic!("expected the cached token, got {:?}", other),
    }
    assert!(d.is_idle());
}

#[test]
fn auth_failure_keeps_token_empty() {
    let mut d = SessionDispatcher::new(test_config());
    match d.start_authenticate() {
        Step::Send(_) => {}
        Step::Done(r) => panic!("expected an auth request, got {:?}", r),
    }
    match d.on_event(Ok(HttpResponse { status: 401, body: "bad credentials".to_string() })) {
        Step::Done(Err(e)) => {
            assert_eq!(e, IikoError::Authentication("bad credentials".to_string()))
        }
        other => panic!("expected an authentication error, got {:?}", other),
    }
    assert!(!d.has_session());
    assert!(d.is_idle());
}

#[test]
fn empty_token_body_is_an_authentication_error() {
    let mut d = SessionDispatcher::new(test_config());
    match d.start_authenticate() {
        Step::Send(_) => {}
        Step::Done(r) => panic!("expected an auth request, got {:?}", r),
    }
    match d.on_event(Ok(HttpResponse { status: 200, body: " \r\n ".to_string() })) {
        Step::Done(Err(e)) => assert_eq!(e, IikoError::Authentication("empty token".to_string())),
        other => panic!("expected an authentication error, got {:?}", other),
    }
    assert!(!d.has_session());
}

#[test]
fn second_call_reuses_token() {
    let mut d = SessionDispatcher::new(test_config());
    let mut auth_requests = 0;

    // First call: authentication happens implicitly.
    let first = d.get("a");
    assert_eq!(first.url, "http://h/resto/api/auth");
    auth_requests += 1;
    let business = match d.on_event(Ok(HttpResponse { status: 200, body: "TOK".to_string() })) {
        Step::Send(req) => req,
        Step::Done(r) => panic!("expected the business request, got {:?}", r),
    };
    assert_eq!(business.url, "http://h/resto/api/a");
    assert_eq!(business.query, pairs(&[("key", "TOK")]));
    match d.on_event(Ok(HttpResponse { status: 200, body: "one".to_string() })) {
        Step::Done(Ok(body)) => assert_eq!(body, "one"),
        other => panic!("expected the body, got {:?}", other),
    }

    // Second call: the cached token is reused, no auth request is sent.
    let second = d.get("b");
    assert_eq!(second.url, "http://h/resto/api/b");
    assert_eq!(second.query, pairs(&[("key", "TOK")]));
    match d.on_event(Ok(HttpResponse { status: 200, body: "two".to_string() })) {
        Step::Done(Ok(body)) => assert_eq!(body, "two"),
        other => panic!("expected the body, got {:?}", other),
    }
    assert_eq!(auth_requests, 1);
}

#[test]
fn auth_failure_short_circuits_business_call() {
    let mut d = SessionDispatcher::new(test_config());
    let first = d.get("stock");
    assert_eq!(first.url, "http://h/resto/api/auth");
    // The auth exchange fails: the business request must never be handed out.
    match d.on_event(Ok(HttpResponse { status: 500, body: "down".to_string() })) {
        Step::Done(Err(e)) => assert_eq!(e, IikoError::Authentication("down".to_string())),
        Step::Done(Ok(b)) => panic!("expected an error, got {:?}", b),
        Step::Send(req) => panic!("business request sent after failed auth: {:?}", req),
    }
    assert!(!d.has_session());
    assert!(d.is_idle());
}

#[test]
fn post_conflict_maps_to_business_logic() {
    let mut d = SessionDispatcher::new(test_config());
    authenticate_with(&mut d, "TOK");
    let req = d.post_xml("documents/import/incomingInvoice", "<document/>");
    assert!(matches!(req.method, HttpMethod::Post));
    assert_eq!(req.content_type.as_deref(), Some("application/xml"));
    assert_eq!(req.body.as_deref(), Some("<document/>"));
    match d.on_event(Ok(HttpResponse { status: 409, body: "negative stock".to_string() })) {
        Step::Done(Err(e)) => {
            assert_eq!(e, IikoError::BusinessLogic("negative stock".to_string()))
        }
        other => panic!("expected a business conflict, got {:?}", other),
    }
    // A status-derived failure leaves the token untouched.
    assert!(d.has_session());
}

#[test]
fn logout_clears_token_and_next_call_reauthenticates() {
    let mut d = SessionDispatcher::new(test_config());
    authenticate_with(&mut d, "TOK");

    let req = d.start_logout();
    assert_eq!(req.url, "http://h/resto/api/logout");
    assert_eq!(req.form, Some(pairs(&[("key", "TOK")])));
    match d.on_event(Ok(HttpResponse { status: 200, body: "bye".to_string() })) {
        Step::Done(Ok(confirmation)) => assert_eq!(confirmation, "bye"),
        other => panic!("expected the confirmation, got {:?}", other),
    }
    assert!(!d.has_session());

    // The next business call triggers a new authentication exchange.
    let next = d.get("foo");
    assert_eq!(next.url, "http://h/resto/api/auth");
}

#[test]
fn failed_logout_keeps_token_cached() {
    let mut d = SessionDispatcher::new(test_config());
    authenticate_with(&mut d, "TOK");
    let _req = d.start_logout();
    match d.on_event(Ok(HttpResponse { status: 500, body: "oops".to_string() })) {
        Step::Done(Err(e)) => assert_eq!(e, IikoError::Api("oops".to_string())),
        other => panic!("expected an API error, got {:?}", other),
    }
    assert!(d.has_session());
}

#[test]
fn logout_from_fresh_dispatcher_authenticates_first() {
    let mut d = SessionDispatcher::new(test_config());
    let req = d.start_logout();
    assert_eq!(req.url, "http://h/resto/api/auth");
    let logout = match d.on_event(Ok(HttpResponse { status: 200, body: "TOK".to_string() })) {
        Step::Send(req) => req,
        Step::Done(r) => panic!("expected the logout request, got {:?}", r),
    };
    assert_eq!(logout.url, "http://h/resto/api/logout");
    assert_eq!(logout.form, Some(pairs(&[("key", "TOK")])));
}

#[test]
fn invalidate_session_clears_the_cached_token() {
    let mut d = SessionDispatcher::new(test_config());
    authenticate_with(&mut d, "TOK");
    assert!(d.has_session());
    d.invalidate_session();
    assert!(!d.has_session());
    let next = d.get("foo");
    assert_eq!(next.url, "http://h/resto/api/auth");
}

#[test]
fn transport_failure_surfaces_and_keeps_token() {
    let mut d = SessionDispatcher::new(test_config());
    authenticate_with(&mut d, "TOK");
    let _req = d.get("foo");
    match d.on_event(Err("connection refused".to_string())) {
        Step::Done(Err(e)) => assert_eq!(e, IikoError::Http("connection refused".to_string())),
        other => panic!("expected a transport error, got {:?}", other),
    }
    // A transient network failure is no evidence the session is invalid.
    assert!(d.has_session());
    assert!(d.is_idle());
}

#[test]
fn transport_failure_during_auth() {
    let mut d = SessionDispatcher::new(test_config());
    let _req = d.start_authenticate();
    match d.on_event(Err("dns".to_string())) {
        Step::Done(Err(e)) => assert_eq!(e, IikoError::Http("dns".to_string())),
        other => panic!("expected a transport error, got {:?}", other),
    }
    assert!(!d.has_session());
}

#[test]
fn get_with_params_appends_after_the_key() {
    let mut d = SessionDispatcher::new(test_config());
    authenticate_with(&mut d, "TOK");
    let req = d.get_with_params("employees", pairs(&[("includeDeleted", "true")]));
    assert_eq!(
        req.query,
        pairs(&[("key", "TOK"), ("includeDeleted", "true")])
    );
}

#[test]
fn post_json_carries_body_and_params() {
    let mut d = SessionDispatcher::new(test_config());
    authenticate_with(&mut d, "TOK");
    let req = d.post_json("v2/entities/products/save", "{}", pairs(&[("overwrite", "true")]));
    assert_eq!(req.content_type.as_deref(), Some("application/json"));
    assert_eq!(req.body.as_deref(), Some("{}"));
    assert_eq!(req.query, pairs(&[("key", "TOK"), ("overwrite", "true")]));
}

#[test]
fn post_form_carries_form_data() {
    let mut d = SessionDispatcher::new(test_config());
    authenticate_with(&mut d, "TOK");
    let req = d.post_form("x", pairs(&[("a", "1"), ("b", "2")]));
    assert_eq!(
        req.content_type.as_deref(),
        Some("application/x-www-form-urlencoded")
    );
    assert_eq!(req.form, Some(pairs(&[("a", "1"), ("b", "2")])));
    assert_eq!(req.query, pairs(&[("key", "TOK")]));
}

#[test]
fn delete_sends_the_key() {
    let mut d = SessionDispatcher::new(test_config());
    authenticate_with(&mut d, "TOK");
    let req = d.delete("employees/byId/42");
    assert!(matches!(req.method, HttpMethod::Delete));
    assert_eq!(req.url, "http://h/resto/api/employees/byId/42");
    assert_eq!(req.query, pairs(&[("key", "TOK")]));
}

#[test]
fn put_returns_body_on_201() {
    let mut d = SessionDispatcher::new(test_config());
    authenticate_with(&mut d, "TOK");
    let req = d.put_xml("employees/byId/42", "<employee/>");
    assert!(matches!(req.method, HttpMethod::Put));
    match d.on_event(Ok(HttpResponse { status: 201, body: "created".to_string() })) {
        Step::Done(Ok(body)) => assert_eq!(body, "created"),
        other => panic!("expected the body, got {:?}", other),
    }
}

#[test]
fn dispatcher_is_busy_while_a_request_is_in_flight() {
    let mut d = SessionDispatcher::new(test_config());
    assert!(d.is_idle());
    let _req = d.get("foo");
    // Between handing out a request and receiving its outcome the permit is
    // held: no second request can be started.
    assert!(!d.is_idle());
    match d.on_event(Ok(HttpResponse { status: 200, body: "TOK".to_string() })) {
        Step::Send(_) => assert!(!d.is_idle()),
        Step::Done(r) => panic!("expected the business request, got {:?}", r),
    }
    match d.on_event(Ok(HttpResponse { status: 200, body: "done".to_string() })) {
        Step::Done(Ok(_)) => assert!(d.is_idle()),
        other => panic!("expected completion, got {:?}", other),
    }
}
