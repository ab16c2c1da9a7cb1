use edge_preview::Action;
use edge_preview::DeployConfig;
use edge_preview::DeployTarget;
use edge_preview::Error;
use edge_preview::Event;
use edge_preview::SessionState;
use edge_preview::TaskSource;
use edge_preview::advance;
use edge_preview::build_upload_request;
use edge_preview::get_initialize_address;
use edge_preview::get_inspector_address;
use edge_preview::get_session_config;
use edge_preview::get_upload_address;
use edge_preview::process_exchange_response;
use edge_preview::process_registration_response;
use edge_preview::process_upload_response;

fn zoneless(account_id: &str) -> DeployConfig {
    DeployConfig::Zoneless { account_id: account_id.to_string() }
}

fn zoned(zone_id: &str, routes: &[&str]) -> DeployConfig {
    DeployConfig::Zoned {
        zone_id: zone_id.to_string(),
        routes: routes.iter().map(|r| r.to_string()).collect(),
    }
}

fn target(account_id: &str, name: &str) -> DeployTarget {
    DeployTarget {
        account_id: account_id.to_string(),
        name: name.to_string(),
        site: false,
        site_namespace: None,
    }
}

#[test]
fn session_config_zoneless_is_subdomain_marker() {
    assert_eq!(get_session_config(&zoneless("acct1")), "{\"workers_dev\":true}");
}

#[test]
fn session_config_zoned_keeps_route_order_and_count() {
    let config = zoned("z1", &["a.example/*", "b.example/x", "c.example/"]);
    assert_eq!(
        get_session_config(&config),
        "{\"routes\":[\"a.example/*\",\"b.example/x\",\"c.example/\"]}"
    );
}

#[test]
fn session_config_zoned_single_route() {
    assert_eq!(get_session_config(&zoned("z1", &["only.example/*"])), "{\"routes\":[\"only.example/*\"]}");
}

#[test]
fn session_config_zoned_empty_routes() {
    assert_eq!(get_session_config(&zoned("z1", &[])), "{\"routes\":[]}");
}

#[test]
fn session_config_escapes_route_characters() {
    let config = zoned("z1", &["a\"b\\c\n"]);
    assert_eq!(get_session_config(&config), "{\"routes\":[\"a\\\"b\\\\c\\u000a\"]}");
}

#[test]
fn initialize_address_zoned_contains_zone_id() {
    let address = get_initialize_address(&zoned("zone42", &["r"]));
    assert_eq!(
        address,
        "https://api.cloudflare.com/client/v4/zones/zone42/workers/edge-preview"
    );
    assert!(address.contains("zone42"));
}

#[test]
fn initialize_address_zoneless_contains_account_id() {
    let address = get_initialize_address(&zoneless("acct7"));
    assert_eq!(
        address,
        "https://api.cloudflare.com/client/v4/accounts/acct7/workers/subdomain/edge-preview"
    );
    assert!(address.contains("acct7"));
}

#[test]
fn upload_address_uses_account_and_name() {
    let address = get_upload_address(&target("acct7", "myworker"));
    assert_eq!(
        address,
        "https://api.cloudflare.com/client/v4/accounts/acct7/workers/scripts/myworker/edge-preview"
    );
}

#[test]
fn inspector_address_carries_ws_token() {
    assert_eq!(
        get_inspector_address("WS1"),
        "wss://rawhttp.cloudflareworkers.com/inspect/WS1"
    );
}

#[test]
fn registration_rejected_carries_body() {
    match process_registration_response(false, "403 Forbidden".to_string()) {
        Err(Error::RemoteRejected { body }) => assert_eq!(body, "403 Forbidden"),
        other => panic!("expected RemoteRejected, got {:?}", other),
    }
}

#[test]
fn registration_malformed_body() {
    match process_registration_response(true, "not json".to_string()) {
        Err(Error::MalformedResponse) => {}
        other => panic!("expected MalformedResponse, got {:?}", other),
    }
    match process_registration_response(true, "{\"result\":{\"token\":\"WS1\"}}".to_string()) {
        Err(Error::MalformedResponse) => {}
        other => panic!("expected MalformedResponse, got {:?}", other),
    }
}

#[test]
fn registration_exchange_url_without_host_is_invalid() {
    let relative = "{\"result\":{\"exchange_url\":\"no scheme at all\",\"token\":\"WS1\"}}";
    match process_registration_response(true, relative.to_string()) {
        Err(Error::InvalidExchangeUrl) => {}
        other => panic!("expected InvalidExchangeUrl, got {:?}", other),
    }
    let hostless = "{\"result\":{\"exchange_url\":\"data:text/plain,x\",\"token\":\"WS1\"}}";
    match process_registration_response(true, hostless.to_string()) {
        Err(Error::InvalidExchangeUrl) => {}
        other => panic!("expected InvalidExchangeUrl, got {:?}", other),
    }
}

#[test]
fn registration_ok_extracts_token_and_host() {
    let body = "{\"result\":{\"exchange_url\":\"https://ex.example/x\",\"token\":\"WS1\"}}";
    match process_registration_response(true, body.to_string()) {
        Ok(handle) => {
            assert_eq!(handle.ws_token, "WS1");
            assert_eq!(handle.exchange_host, "ex.example");
        }
        other => panic!("expected a handle, got {:?}", other),
    }
}

#[test]
fn exchange_missing_token_header() {
    match process_exchange_response(true, "ok".to_string(), None) {
        Err(Error::MissingToken) => {}
        other => panic!("expected MissingToken, got {:?}", other),
    }
}

#[test]
fn exchange_rejected_carries_body() {
    match process_exchange_response(false, "gone".to_string(), Some("PT1".to_string())) {
        Err(Error::RemoteRejected { body }) => assert_eq!(body, "gone"),
        other => panic!("expected RemoteRejected, got {:?}", other),
    }
}

#[test]
fn exchange_ok_returns_header_token() {
    match process_exchange_response(true, "".to_string(), Some("PT1".to_string())) {
        Ok(token) => assert_eq!(token, "PT1"),
        other => panic!("expected a token, got {:?}", other),
    }
}

#[test]
fn upload_request_attaches_current_token() {
    let request = build_upload_request(
        &target("acct1", "myworker"),
        &zoneless("acct1"),
        "PT1".to_string(),
    );
    assert_eq!(request.preview_token_header, "PT1");
    assert_eq!(
        request.address,
        "https://api.cloudflare.com/client/v4/accounts/acct1/workers/scripts/myworker/edge-preview"
    );
    assert_eq!(request.session_config, "{\"workers_dev\":true}");
}

#[test]
fn upload_response_token_comes_from_body() {
    let body = "{\"result\":{\"preview_token\":\"PT2\"}}";
    match process_upload_response(true, body.to_string()) {
        Ok(token) => assert_eq!(token, "PT2"),
        other => panic!("expected a token, got {:?}", other),
    }
}

#[test]
fn upload_token_generations_are_distinct_values() {
    // The pre-upload token goes out as the header; the returned token is
    // read from the body even when the two coincide as strings.
    let current = "PT1".to_string();
    let request = build_upload_request(&target("a", "w"), &zoneless("a"), current);
    assert_eq!(request.preview_token_header, "PT1");
    let body = "{\"result\":{\"preview_token\":\"PT1\"}}";
    match process_upload_response(true, body.to_string()) {
        Ok(token) => {
            assert_eq!(token, "PT1");
            assert_eq!(token, request.preview_token_header);
        }
        other => panic!("expected a token, got {:?}", other),
    }
}

#[test]
fn upload_response_malformed_and_rejected() {
    match process_upload_response(true, "{\"result\":{}}".to_string()) {
        Err(Error::MalformedResponse) => {}
        other => panic!("expected MalformedResponse, got {:?}", other),
    }
    match process_upload_response(false, "500".to_string()) {
        Err(Error::RemoteRejected { body }) => assert_eq!(body, "500"),
        other => panic!("expected RemoteRejected, got {:?}", other),
    }
}

#[test]
fn end_to_end_zoneless_session() {
    let state = SessionState::Idle {
        target: target("acct1", "myworker"),
        config: zoneless("acct1"),
    };

    let (state, action) = advance(state, Event::Start);
    match action {
        Action::Register { address } => assert_eq!(
            address,
            "https://api.cloudflare.com/client/v4/accounts/acct1/workers/subdomain/edge-preview"
        ),
        other => panic!("expected Register, got {:?}", other),
    }

    let registration = "{\"result\":{\"exchange_url\":\"https://ex.example/x\",\"token\":\"WS1\"}}";
    let (state, action) = advance(
        state,
        Event::RegistrationResponse { success: true, body: registration.to_string() },
    );
    match action {
        Action::Exchange { address } => assert_eq!(address, "https://ex.example"),
        other => panic!("expected Exchange, got {:?}", other),
    }

    let (state, action) = advance(
        state,
        Event::ExchangeResponse {
            success: true,
            body: "".to_string(),
            preview_token_header: Some("PT1".to_string()),
        },
    );
    match action {
        Action::Upload { request } => {
            assert_eq!(
                request.address,
                "https://api.cloudflare.com/client/v4/accounts/acct1/workers/scripts/myworker/edge-preview"
            );
            assert_eq!(request.preview_token_header, "PT1");
            assert_eq!(request.session_config, "{\"workers_dev\":true}");
        }
        other => panic!("expected Upload, got {:?}", other),
    }

    let upload = "{\"result\":{\"preview_token\":\"PT2\"}}";
    let (state, action) = advance(
        state,
        Event::UploadResponse { success: true, body: upload.to_string() },
    );
    match action {
        Action::StartTasks { inspector_address, session_token } => {
            assert_eq!(inspector_address, "wss://rawhttp.cloudflareworkers.com/inspect/WS1");
            assert_eq!(session_token, "PT2");
        }
        other => panic!("expected StartTasks, got {:?}", other),
    }
    match state {
        SessionState::Running { inspector_ended, server_ended } => {
            assert!(!inspector_ended);
            assert!(!server_ended);
        }
        other => panic!("expected Running, got {:?}", other),
    }
}

#[test]
fn rejected_registration_starts_nothing() {
    let state = SessionState::Registering {
        target: target("acct1", "myworker"),
        config: zoneless("acct1"),
    };
    let (state, action) = advance(
        state,
        Event::RegistrationResponse { success: false, body: "403 Forbidden".to_string() },
    );
    match action {
        Action::Fail { error: Error::RemoteRejected { body } } => assert_eq!(body, "403 Forbidden"),
        other => panic!("expected Fail with RemoteRejected, got {:?}", other),
    }
    match &state {
        SessionState::Failed => {}
        other => panic!("expected Failed, got {:?}", other),
    }
    // Once failed, no later event makes the orchestrator do anything more.
    let (state, action) = advance(
        state,
        Event::ExchangeResponse {
            success: true,
            body: "".to_string(),
            preview_token_header: Some("PT1".to_string()),
        },
    );
    match action {
        Action::Wait => {}
        other => panic!("expected Wait, got {:?}", other),
    }
    match state {
        SessionState::Failed => {}
        other => panic!("expected Failed, got {:?}", other),
    }
}

#[test]
fn first_task_failure_decides_session() {
    let state = SessionState::Running { inspector_ended: false, server_ended: false };
    let (state, action) = advance(
        state,
        Event::TaskEnded {
            source: TaskSource::Inspector,
            error: Some("relay connection dropped".to_string()),
        },
    );
    match action {
        Action::Fail { error: Error::TaskFailure { source, message } } => {
            assert_eq!(source, TaskSource::Inspector);
            assert_eq!(message, "relay connection dropped");
        }
        other => panic!("expected Fail with TaskFailure, got {:?}", other),
    }
    match state {
        SessionState::Failed => {}
        other => panic!("expected Failed, got {:?}", other),
    }
}

#[test]
fn clean_terminations_complete_session() {
    let state = SessionState::Running { inspector_ended: false, server_ended: false };
    let (state, action) = advance(
        state,
        Event::TaskEnded { source: TaskSource::Inspector, error: None },
    );
    match action {
        Action::Wait => {}
        other => panic!("expected Wait, got {:?}", other),
    }
    let (state, action) = advance(
        state,
        Event::TaskEnded { source: TaskSource::Server, error: None },
    );
    match action {
        Action::Finish => {}
        other => panic!("expected Finish, got {:?}", other),
    }
    match state {
        SessionState::Completed => {}
        other => panic!("expected Completed, got {:?}", other),
    }
}

#[test]
fn site_target_provisions_namespace_before_upload() {
    let site_target = DeployTarget {
        account_id: "acct1".to_string(),
        name: "myworker".to_string(),
        site: true,
        site_namespace: None,
    };
    let state = SessionState::Exchanging {
        target: site_target,
        config: zoned("z1", &["a.example/*"]),
        ws_token: "WS1".to_string(),
    };
    let (state, action) = advance(
        state,
        Event::ExchangeResponse {
            success: true,
            body: "".to_string(),
            preview_token_header: Some("PT1".to_string()),
        },
    );
    match action {
        Action::EnsureNamespace => {}
        other => panic!("expected EnsureNamespace, got {:?}", other),
    }
    let (state, action) = advance(
        state,
        Event::NamespaceResult { result: Ok("ns1".to_string()) },
    );
    match action {
        Action::Upload { request } => {
            assert_eq!(request.preview_token_header, "PT1");
            assert_eq!(
                request.address,
                "https://api.cloudflare.com/client/v4/accounts/acct1/workers/scripts/myworker/edge-preview"
            );
            assert_eq!(request.session_config, "{\"routes\":[\"a.example/*\"]}");
        }
        other => panic!("expected Upload, got {:?}", other),
    }
    match state {
        SessionState::Uploading { ws_token } => assert_eq!(ws_token, "WS1"),
        other => panic!("expected Uploading, got {:?}", other),
    }
}

#[test]
fn failed_namespace_provisioning_rejects_session() {
    let site_target = DeployTarget {
        account_id: "acct1".to_string(),
        name: "myworker".to_string(),
        site: true,
        site_namespace: None,
    };
    let state = SessionState::Provisioning {
        target: site_target,
        config: zoneless("acct1"),
        ws_token: "WS1".to_string(),
        exchange_token: "PT1".to_string(),
    };
    let (state, action) = advance(
        state,
        Event::NamespaceResult { result: Err("namespace quota exceeded".to_string()) },
    );
    match action {
        Action::Fail { error: Error::RemoteRejected { body } } => {
            assert_eq!(body, "namespace quota exceeded")
        }
        other => panic!("expected Fail with RemoteRejected, got {:?}", other),
    }
    match state {
        SessionState::Failed => {}
        other => panic!("expected Failed, got {:?}", other),
    }
}
