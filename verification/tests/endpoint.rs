use controller::controller::ControllerConfig;
use controller::controller::ControllerState;
use controller::controller::TransitionPlan;
use controller::controller::plan_transition;
use controller::http::MaintenanceStep;
use controller::http::finish_maintenance;
use controller::http::get_mode;
use controller::http::get_status;
use controller::http::handle_maintenance;
use controller::mode::Mode;
use controller::notify::build_notification;
use controller::notify::make_jwt_token;
use controller::notify::rpc_method_for;
use controller::notify::rpc_outcome;

fn config(key: Option<&str>) -> ControllerConfig {
    ControllerConfig {
        tool_node_ip: "172.20.0.10".to_string(),
        node_net_subnet: "172.20.0.0/24".to_string(),
        api_key: key.map(|k| k.to_string()),
        authrpc_url: "http://172.20.0.10:8551".to_string(),
        jwt_secret: vec![0u8; 32],
    }
}

fn respond(step: MaintenanceStep) -> controller::http::MaintenanceResponse {
    match step {
        MaintenanceStep::Respond(r) => r,
        MaintenanceStep::Apply { .. } => panic!("expected an immediate response"),
    }
}

#[test]
fn no_key_rejects_everything() {
    let cfg = config(None);
    for (header, action) in [
        ("Bearer right", "enable"),
        ("", "disable"),
        ("Bearer wrong", "bogus"),
        ("Basic abc", ""),
    ] {
        let r = respond(handle_maintenance(Mode::ToolNodeOnly, &cfg, header, action));
        assert_eq!(r.code, 401);
        assert_eq!(
            r.to_json(),
            "{\"status\":\"error\",\"message\":\"API key not configured on server\"}"
        );
    }
}

#[test]
fn wrong_key_rejected() {
    let cfg = config(Some("right"));
    let r = respond(handle_maintenance(Mode::ToolNodeOnly, &cfg, "Bearer wrong", "enable"));
    assert_eq!(r.code, 401);
    assert_eq!(
        r.to_json(),
        "{\"status\":\"error\",\"message\":\"Invalid or missing API key\"}"
    );
}

#[test]
fn missing_bearer_prefix_rejected() {
    let cfg = config(Some("right"));
    let r = respond(handle_maintenance(Mode::ToolNodeOnly, &cfg, "right", "enable"));
    assert_eq!(r.code, 401);
    let r = respond(handle_maintenance(Mode::ToolNodeOnly, &cfg, "bearer right", "enable"));
    assert_eq!(r.code, 401);
}

#[test]
fn bogus_action_rejected_posture_unchanged() {
    let cfg = config(Some("k"));
    let state = ControllerState::new();
    let r = respond(handle_maintenance(state.mode, &cfg, "Bearer k", "bogus"));
    assert_eq!(r.code, 400);
    assert_eq!(
        r.to_json(),
        "{\"status\":\"error\",\"message\":\"Invalid action 'bogus'. Use 'enable' or 'disable'.\"}"
    );
    assert_eq!(get_mode(&state), "tool-node");
}

#[test]
fn action_with_quote_is_escaped() {
    let cfg = config(Some("k"));
    let r = respond(handle_maintenance(Mode::ToolNodeOnly, &cfg, "Bearer k", "a\"b\\c"));
    assert_eq!(r.code, 400);
    assert_eq!(
        r.to_json(),
        "{\"status\":\"error\",\"message\":\"Invalid action 'a\\\"b\\\\c'. Use 'enable' or 'disable'.\"}"
    );
}

#[test]
fn control_character_is_escaped() {
    let cfg = config(Some("k"));
    let r = respond(handle_maintenance(Mode::ToolNodeOnly, &cfg, "Bearer k", "a\nb"));
    assert_eq!(
        r.to_json(),
        "{\"status\":\"error\",\"message\":\"Invalid action 'a\\u000ab'. Use 'enable' or 'disable'.\"}"
    );
}

#[test]
fn enable_from_tool_node_succeeds() {
    let cfg = config(Some("k"));
    let mut state = ControllerState::new();
    let step = handle_maintenance(state.mode, &cfg, "Bearer k", "enable");
    let (target, script) = match step {
        MaintenanceStep::Apply { target, script } => (target, script),
        MaintenanceStep::Respond(_) => panic!("expected a script to apply"),
    };
    assert_eq!(target, Mode::InternetOnly);
    assert!(script.contains("add rule ip filter output ip daddr 172.20.0.10 drop"));
    let r = finish_maintenance(&mut state, target, Ok(()));
    assert_eq!(r.code, 200);
    assert_eq!(
        r.to_json(),
        "{\"status\":\"ok\",\"mode\":\"internet\",\"previous_mode\":\"tool-node\"}"
    );
    assert_eq!(get_status(&state), "\"internet\"");
    assert_eq!(get_mode(&state), "internet");
}

#[test]
fn repeated_enable_reports_already() {
    let cfg = config(Some("k"));
    let mut state = ControllerState::new();
    let step = handle_maintenance(state.mode, &cfg, "Bearer k", "enable");
    let (target, _script) = match step {
        MaintenanceStep::Apply { target, script } => (target, script),
        MaintenanceStep::Respond(_) => panic!("expected a script to apply"),
    };
    finish_maintenance(&mut state, target, Ok(()));
    let second = respond(handle_maintenance(state.mode, &cfg, "Bearer k", "enable"));
    assert_eq!(second.code, 200);
    assert_eq!(
        second.to_json(),
        "{\"status\":\"ok\",\"mode\":\"internet\",\"previous_mode\":\"internet\",\"message\":\"Already in requested mode\"}"
    );
    assert_eq!(get_mode(&state), "internet");
}

#[test]
fn failed_application_leaves_posture_unchanged() {
    let cfg = config(Some("k"));
    let mut state = ControllerState::new();
    let step = handle_maintenance(state.mode, &cfg, "Bearer k", "enable");
    let target = match step {
        MaintenanceStep::Apply { target, .. } => target,
        MaintenanceStep::Respond(_) => panic!("expected a script to apply"),
    };
    let r = finish_maintenance(&mut state, target, Err("nft failed: bad rule".to_string()));
    assert_eq!(r.code, 500);
    assert_eq!(
        r.to_json(),
        "{\"status\":\"error\",\"message\":\"Failed to apply mode: nft failed: bad rule\"}"
    );
    assert_eq!(get_mode(&state), "tool-node");
}

#[test]
fn posture_follows_last_successful_application() {
    let mut state = ControllerState::new();
    let _ = finish_maintenance(&mut state, Mode::InternetOnly, Ok(()));
    let _ = finish_maintenance(&mut state, Mode::ToolNodeOnly, Err("boom".to_string()));
    assert_eq!(get_mode(&state), "internet");
    let _ = finish_maintenance(&mut state, Mode::ToolNodeOnly, Ok(()));
    assert_eq!(get_mode(&state), "tool-node");
}

#[test]
fn plan_when_already_at_target_skips_rules() {
    let cfg = config(None);
    let plan = plan_transition(Mode::InternetOnly, Mode::InternetOnly, &cfg);
    assert!(matches!(plan, TransitionPlan::AlreadyInMode));
    let plan = plan_transition(Mode::InternetOnly, Mode::ToolNodeOnly, &cfg);
    assert!(matches!(plan, TransitionPlan::Apply { .. }));
}

#[test]
fn rpc_method_selection() {
    assert_eq!(rpc_method_for(Mode::InternetOnly), "maintenance_stopAPIFeed");
    assert_eq!(rpc_method_for(Mode::ToolNodeOnly), "maintenance_startAPIFeed");
}

#[test]
fn rpc_outcome_statuses() {
    assert!(rpc_outcome("maintenance_stopAPIFeed", 200, "ok").is_ok());
    assert!(rpc_outcome("maintenance_stopAPIFeed", 299, "").is_ok());
    let err = rpc_outcome("maintenance_stopAPIFeed", 503, "oops").unwrap_err();
    assert_eq!(err, "RPC maintenance_stopAPIFeed returned 503: oops");
    let err = rpc_outcome("maintenance_startAPIFeed", 401, "no token").unwrap_err();
    assert_eq!(err, "RPC maintenance_startAPIFeed returned 401: no token");
}

#[test]
fn jwt_token_round_trips_through_decode() {
    let secret: Vec<u8> = (100u8..132u8).collect();
    let iat: i64 = 1_700_000_000;
    let token = make_jwt_token(&secret, iat).expect("token");
    let mut validation = jsonwebtoken::Validation::new(jsonwebtoken::Algorithm::HS256);
    validation.validate_exp = false;
    validation.required_spec_claims.clear();
    let decoded = jsonwebtoken::decode::<serde_json::Value>(
        &token,
        &jsonwebtoken::DecodingKey::from_secret(&secret),
        &validation,
    )
    .expect("decode");
    assert_eq!(decoded.claims.get("iat").and_then(|v| v.as_i64()), Some(iat));
}

#[test]
fn notification_request_shape() {
    let secret = vec![9u8; 32];
    let iat: i64 = 1_700_000_123;
    let req = build_notification(Mode::InternetOnly, &secret, iat).expect("request");
    assert_eq!(
        req.body,
        "{\"jsonrpc\":\"2.0\",\"method\":\"maintenance_stopAPIFeed\",\"params\":[],\"id\":1}"
    );
    let token = make_jwt_token(&secret, iat).expect("token");
    assert_eq!(req.bearer, format!("Bearer {}", token));

    let req = build_notification(Mode::ToolNodeOnly, &secret, iat).expect("request");
    assert_eq!(
        req.body,
        "{\"jsonrpc\":\"2.0\",\"method\":\"maintenance_startAPIFeed\",\"params\":[],\"id\":1}"
    );
}
