use greentic_demo::component_betterstack_incident::{
    build_incident_body, describe_payload as incident_describe_payload,
    handle_message as incident_handle_message, incident_call, incident_output, IncidentRequest,
};
use greentic_demo::component_http::{
    describe_payload as http_describe_payload, finalize_response, prepare_request, HttpRequestInput,
};
use greentic_demo::component_random::{
    default_weight, select_route, select_route_with_ticket, RandomRequest, RouteOption,
};
use greentic_demo::http2play::{plan_playback, player_hint_for_platform, validate_audio_url, PlaybackRequest};
use greentic_demo::json::JsonValue;

fn text(s: &str) -> JsonValue {
    JsonValue::Str(s.to_string())
}

fn object(pairs: Vec<(&str, JsonValue)>) -> JsonValue {
    JsonValue::Object(pairs.into_iter().map(|(k, v)| (k.to_string(), v)).collect())
}

fn route(name: &str) -> RouteOption {
    RouteOption {
        route: name.to_string(),
        audio_url: Some(format!("https://example.com/{name}.mp3")),
        incident_name: None,
        incident_summary: None,
        http_endpoint: None,
        weight: 1,
    }
}

fn empty_http_input() -> HttpRequestInput {
    HttpRequestInput {
        url: String::new(),
        method: None,
        headers: Vec::new(),
        body: JsonValue::Null,
        timeout_ms: None,
        ignore_missing_url: false,
    }
}

fn empty_incident_request() -> IncidentRequest {
    IncidentRequest {
        team_name: None,
        requester_email: None,
        name: None,
        summary: None,
        description: None,
        call: None,
        sms: None,
        email: None,
        critical_alert: None,
        team_wait: None,
        policy_id: None,
        metadata: None,
        event: None,
    }
}

// ---------------------------------------------------------------------------
// Better Stack incidents
// ---------------------------------------------------------------------------

#[test]
fn describe_payload_is_json() {
    let payload = incident_describe_payload();
    let json: serde_json::Value = serde_json::from_str(&payload).expect("valid json");
    assert_eq!(json["component"]["name"], "component-betterstack-incident");
}

#[test]
fn handle_message_round_trips() {
    let body = incident_handle_message("handle", "demo");
    assert!(body.contains("demo"));
}

#[test]
fn request_body_has_defaults() {
    let request = empty_incident_request();
    let value = build_incident_body(&request);
    assert_eq!(value.get_str("name").map(|s| s.as_str()), Some("redbutton-demo webhook incident"));
    assert_eq!(
        value.get_str("summary").map(|s| s.as_str()),
        Some("A webhook event triggered redbutton-demo.")
    );
}

#[test]
fn handle_message_trims_the_input() {
    assert_eq!(
        incident_handle_message("raise", "  page the team \n"),
        "component-betterstack-incident::raise => page the team"
    );
}

#[test]
fn incident_body_renders_as_serde_would() {
    let mut request = empty_incident_request();
    request.team_wait = Some(-30);
    request.call = Some(true);
    let body = build_incident_body(&request).render();
    let parsed: serde_json::Value = serde_json::from_str(&body).expect("valid json");
    assert_eq!(parsed["team_wait"], -30);
    assert_eq!(parsed["call"], true);
    assert_eq!(serde_json::to_string(&parsed).unwrap(), body);
}

#[test]
fn incident_call_carries_the_bearer_token() {
    let call = incident_call("secret-token", &empty_incident_request());
    assert_eq!(call.method, "POST");
    assert_eq!(call.url, "https://uptime.betterstack.com/api/v3/incidents");
    assert!(call.headers.iter().any(|(k, v)| k == "authorization" && v == "Bearer secret-token"));
}

#[test]
fn incident_output_reads_the_incident_id() {
    let response = object(vec![("data", object(vec![("id", text("42"))]))]);
    let output = incident_output(201, response);
    assert!(output.ok);
    assert_eq!(output.incident_id.as_deref(), Some("42"));
    let failed = incident_output(500, JsonValue::Null);
    assert!(!failed.ok);
    assert_eq!(failed.incident_id, None);
}

// ---------------------------------------------------------------------------
// Random routes
// ---------------------------------------------------------------------------

#[test]
fn no_routes_errors() {
    let request = RandomRequest { routes: Vec::new(), seed: None };
    assert_eq!(select_route(&request), Err("routes must not be empty".to_string()));
}

#[test]
fn one_route_is_always_selected() {
    let request = RandomRequest { routes: vec![route("only")], seed: None };
    assert_eq!(select_route(&request).expect("selected").route, "only");
}

#[test]
fn multiple_routes_can_be_selected_deterministically() {
    let request = RandomRequest { routes: vec![route("a"), route("b"), route("c")], seed: Some(7) };
    let first = select_route(&request).expect("selected");
    let second = select_route(&request).expect("selected");
    assert_eq!(first, second);
}

#[test]
fn weighted_routes_bias_selection() {
    let request = RandomRequest {
        routes: vec![RouteOption { weight: 1, ..route("low") }, RouteOption { weight: 100, ..route("high") }],
        seed: Some(2),
    };
    assert_eq!(select_route(&request).expect("selected").route, "high");
}

#[test]
fn default_weight_is_one() {
    assert_eq!(default_weight(), 1);
}

#[test]
fn tickets_fall_to_routes_by_cumulative_weight() {
    let request = RandomRequest {
        routes: vec![RouteOption { weight: 2, ..route("a") }, RouteOption { weight: 0, ..route("b") }, route("c")],
        seed: None,
    };
    let pick = |t: u64| select_route_with_ticket(&request, t).expect("selected");
    assert_eq!(pick(0).route, "a");
    assert_eq!(pick(1).route, "a");
    assert_eq!(pick(2).route, "b");
    assert_eq!(pick(2).index, 1);
    assert_eq!(pick(3).route, "c");
    assert_eq!(pick(3).audio_url.as_deref(), Some("https://example.com/c.mp3"));
    assert!(select_route_with_ticket(&request, 4).is_err());
}

// ---------------------------------------------------------------------------
// HTTP calls
// ---------------------------------------------------------------------------

#[test]
fn invalid_url_is_rejected() {
    let input = HttpRequestInput { url: "nope".to_string(), ..empty_http_input() };
    assert!(prepare_request(&input).expect_err("invalid").contains("invalid url"));
}

#[test]
fn zero_timeout_is_rejected() {
    let input = HttpRequestInput { url: "https://example.com".to_string(), timeout_ms: Some(0), ..empty_http_input() };
    assert_eq!(prepare_request(&input).expect_err("timeout"), "timeout_ms must be greater than zero");
}

#[test]
fn success_response_is_marked_ok() {
    let output = finalize_response("https://example.com", 201, object(vec![("ok", JsonValue::Bool(true))]));
    assert!(output.ok);
    assert_eq!(output.status, 201);
}

#[test]
fn non_2xx_response_is_reported() {
    let output = finalize_response("https://example.com", 503, object(vec![("error", text("down"))]));
    assert!(!output.ok);
    assert_eq!(output.error.as_deref(), Some("request failed with status 503"));
}

#[test]
fn missing_url_can_be_ignored() {
    let input = HttpRequestInput { ignore_missing_url: true, ..empty_http_input() };
    assert_eq!(prepare_request(&input).expect("prepared").0, "");
}

#[test]
fn missing_url_is_refused_unless_ignored() {
    let input = empty_http_input();
    assert_eq!(prepare_request(&input).expect_err("missing"), "url must not be empty");
}

#[test]
fn prepared_request_has_method_url_headers_and_body() {
    let input = HttpRequestInput {
        url: "https://example.com/hook".to_string(),
        method: Some("post".to_string()),
        headers: vec![("x-demo".to_string(), text("1"))],
        body: object(vec![("a", JsonValue::Number("1".to_string()))]),
        timeout_ms: Some(500),
        ignore_missing_url: false,
    };
    let (line, headers, body) = prepare_request(&input).expect("prepared");
    assert_eq!(line, "POST https://example.com/hook");
    assert!(headers.iter().any(|(k, v)| k == "x-demo" && v == "1"));
    assert!(headers.iter().any(|(k, v)| k == "content-type" && v == "application/json"));
    assert_eq!(body, b"{\"a\":1}".to_vec());
}

#[test]
fn http_describe_payload_names_the_component() {
    let json: serde_json::Value = serde_json::from_str(&http_describe_payload()).expect("valid json");
    assert_eq!(json["component"]["name"], "component-http");
    assert_eq!(json["component"]["self_describing"], true);
}

// ---------------------------------------------------------------------------
// Playback
// ---------------------------------------------------------------------------

#[test]
fn missing_audio_url_is_rejected() {
    assert_eq!(validate_audio_url("").expect_err("invalid"), "audio_url must not be empty");
}

#[test]
fn invalid_audio_url_is_rejected() {
    assert!(validate_audio_url("not-a-url").expect_err("invalid").contains("invalid audio_url"));
}

#[test]
fn player_hint_varies_by_platform() {
    assert_eq!(player_hint_for_platform("macos"), "afplay");
    assert_eq!(player_hint_for_platform("linux"), "ffplay -autoexit");
}

#[test]
fn valid_audio_url_is_normalised() {
    assert_eq!(validate_audio_url("  HTTPS://Example.com/a.mp3 ").expect("valid"), "https://example.com/a.mp3");
}

#[test]
fn playback_is_planned_with_the_platform_player() {
    let request = PlaybackRequest { audio_url: "https://example.com/a.mp3".to_string(), route: None };
    let plan = plan_playback(&request, "windows").expect("planned");
    assert!(plan.ok);
    assert!(!plan.played);
    assert_eq!(plan.downloaded_bytes, 0);
    assert_eq!(plan.player_hint, player_hint_for_platform("windows"));
}
