use greentic_demo::cli::{apply_cli_overrides, no_tenants_error, CliArgs};
use greentic_demo::component::{describe_payload_for, handle_message_for};
use greentic_demo::i18n::{all_keys, t};
use greentic_demo::json::{entries_insert, JsonValue};
use greentic_demo::qa::{apply_answers, i18n_keys, normalize_mode, qa_spec, NormalizedMode};
use greentic_demo::telemetry::{export_kind, gzip_compression, service_name_or_default, ExportKind, OtlpProtocol};
use greentic_demo::text::{to_ascii_lowercase, trim, u64_to_decimal};

fn text(s: &str) -> JsonValue {
    JsonValue::Str(s.to_string())
}

fn object(pairs: Vec<(&str, JsonValue)>) -> JsonValue {
    JsonValue::Object(pairs.into_iter().map(|(k, v)| (k.to_string(), v)).collect())
}

// ---------------------------------------------------------------------------
// QA and i18n
// ---------------------------------------------------------------------------

#[test]
fn modes_normalise_their_aliases() {
    assert_eq!(normalize_mode("default"), Some(NormalizedMode::Setup));
    assert_eq!(normalize_mode("install"), Some(NormalizedMode::Setup));
    assert_eq!(normalize_mode("upgrade"), Some(NormalizedMode::Update));
    assert_eq!(normalize_mode("remove"), Some(NormalizedMode::Remove));
    assert_eq!(normalize_mode("Remove"), None);
    for mode in [NormalizedMode::Setup, NormalizedMode::Update, NormalizedMode::Remove] {
        assert_eq!(normalize_mode(mode.as_str()), Some(mode));
    }
}

#[test]
fn qa_spec_asks_for_confirmation_on_remove() {
    let spec = qa_spec(NormalizedMode::Remove);
    assert_eq!(spec.title_key, "qa.remove.title");
    assert_eq!(spec.description_key.as_deref(), Some("qa.remove.description"));
    assert_eq!(spec.questions.len(), 1);
    assert_eq!(spec.questions[0].id, "confirm_remove");
    assert!(spec.questions[0].required);
    let setup = qa_spec(NormalizedMode::Setup);
    assert_eq!(setup.questions[0].id, "query_hint");
    assert!(!setup.questions[0].required);
}

#[test]
fn every_qa_key_is_listed() {
    let keys = i18n_keys();
    assert_eq!(keys, all_keys());
    assert_eq!(keys.len(), 11);
    for mode in [NormalizedMode::Setup, NormalizedMode::Update, NormalizedMode::Remove] {
        let spec = qa_spec(mode);
        assert!(keys.contains(&spec.title_key));
        for q in &spec.questions {
            assert!(keys.contains(&q.label_key));
            assert!(keys.contains(&q.help_key));
        }
    }
    assert_eq!(t("fr", "qa.remove.title"), "qa.remove.title");
}

#[test]
fn removal_without_confirmation_is_refused() {
    let payload = object(vec![("answers", object(vec![("confirm_remove", text("no"))]))]);
    let result = apply_answers(NormalizedMode::Remove, &payload);
    assert_eq!(
        result.render(),
        "{\"errors\":[{\"fields\":[\"confirm_remove\"],\"key\":\"qa.error.remove_confirmation\",\"msg_key\":\"qa.error.remove_confirmation\"}],\"meta\":{\"mode\":\"remove\",\"version\":\"v1\"},\"ok\":false,\"warnings\":[]}"
    );
}

#[test]
fn answers_are_merged_over_the_current_config() {
    let payload = object(vec![
        ("answers", object(vec![("query_hint", text("ports")), ("confirm_remove", text("true"))])),
        ("current_config", object(vec![("query_hint", text("old")), ("keep", JsonValue::Bool(true))])),
    ]);
    let result = apply_answers(NormalizedMode::Remove, &payload);
    let parsed: serde_json::Value = serde_json::from_str(&result.render()).expect("valid json");
    assert_eq!(parsed["ok"], true);
    assert_eq!(parsed["config"]["query_hint"], "ports");
    assert_eq!(parsed["config"]["keep"], true);
    assert_eq!(parsed["config"]["confirm_remove"], "true");
    assert_eq!(parsed["meta"]["mode"], "remove");
}

#[test]
fn reapplying_answers_changes_nothing() {
    let answers = object(vec![("b_key", text("2")), ("query_hint", text("ports")), ("b_key", text("3"))]);
    let first = apply_answers(
        NormalizedMode::Update,
        &object(vec![
            ("answers", greentic_demo::json::deep_clone(&answers)),
            ("current_config", object(vec![("a", JsonValue::Bool(true)), ("query_hint", text("old")), ("z", text("last"))])),
        ]),
    );
    assert_eq!(
        first.render(),
        "{\"config\":{\"a\":true,\"b_key\":\"3\",\"query_hint\":\"ports\",\"z\":\"last\"},\"errors\":[],\"meta\":{\"mode\":\"update\",\"version\":\"v1\"},\"ok\":true,\"warnings\":[]}"
    );
    let config = match &first {
        JsonValue::Object(members) => greentic_demo::json::deep_clone(&members[0].1),
        _ => panic!("an object"),
    };
    let again = apply_answers(NormalizedMode::Update, &object(vec![("answers", answers), ("current_config", config)]));
    assert_eq!(again.render(), first.render());
}

// ---------------------------------------------------------------------------
// Command line
// ---------------------------------------------------------------------------

#[test]
fn cli_flags_become_environment_overrides() {
    let args = CliArgs {
        packs_dir: Some("./packs".to_string()),
        port: Some(8080),
        pack_refresh_interval_secs: Some(30),
        tenant_resolver: Some("header".to_string()),
        ..CliArgs::default()
    };
    assert_eq!(
        apply_cli_overrides(&args),
        vec![
            ("PACKS_DIR".to_string(), "./packs".to_string()),
            ("PORT".to_string(), "8080".to_string()),
            ("PACK_REFRESH_INTERVAL_SECS".to_string(), "30".to_string()),
            ("TENANT_RESOLVER".to_string(), "header".to_string()),
        ]
    );
    assert!(apply_cli_overrides(&CliArgs::default()).is_empty());
    assert_eq!(no_tenants_error("/p"), "no tenant bindings found in /p; add at least one pack");
}

// ---------------------------------------------------------------------------
// Shared pieces
// ---------------------------------------------------------------------------

#[test]
fn component_echo_and_descriptor() {
    assert_eq!(handle_message_for("c", "op", " x "), "c::op => x");
    let parsed: serde_json::Value = serde_json::from_str(&describe_payload_for("c")).expect("valid json");
    assert_eq!(parsed["component"]["org"], "ai.greentic");
    assert_eq!(parsed["component"]["world"], "greentic:component/component@0.6.0");
}

#[test]
fn json_text_matches_serde() {
    let value = object(vec![
        ("b", JsonValue::Array(vec![JsonValue::Null, JsonValue::Bool(false), JsonValue::Number("-1.5".to_string())])),
        ("a", text("quote \" slash \\ newline \n tab \t bell \u{7} é")),
    ]);
    let rendered = value.render();
    let parsed: serde_json::Value = serde_json::from_str(&rendered).expect("valid json");
    assert_eq!(parsed["a"], "quote \" slash \\ newline \n tab \t bell \u{7} é");
    assert_eq!(rendered, "{\"b\":[null,false,-1.5],\"a\":\"quote \\\" slash \\\\ newline \\n tab \\t bell \\u0007 é\"}");
    let pretty = object(vec![("a", JsonValue::Array(vec![text("x")])), ("e", object(vec![]))]).render_pretty();
    assert_eq!(pretty, "{\n  \"a\": [\n    \"x\"\n  ],\n  \"e\": {}\n}");
}

#[test]
fn inserting_keeps_keys_sorted_and_replaces() {
    let mut entries: Vec<(String, JsonValue)> = Vec::new();
    entries_insert(&mut entries, "m".to_string(), text("1"));
    entries_insert(&mut entries, "a".to_string(), text("2"));
    entries_insert(&mut entries, "z".to_string(), text("3"));
    entries_insert(&mut entries, "m".to_string(), text("4"));
    let keys: Vec<&str> = entries.iter().map(|(k, _)| k.as_str()).collect();
    assert_eq!(keys, vec!["a", "m", "z"]);
    assert_eq!(entries[1].1, text("4"));
}

#[test]
fn text_helpers() {
    assert_eq!(trim(" \t hi \n"), "hi");
    assert_eq!(to_ascii_lowercase("ÀBC"), "Àbc");
    assert_eq!(u64_to_decimal(0), "0");
    assert_eq!(u64_to_decimal(u64::MAX), "18446744073709551615");
}

// ---------------------------------------------------------------------------
// Telemetry
// ---------------------------------------------------------------------------

#[test]
fn telemetry_export_follows_the_settings() {
    assert_eq!(export_kind(false, Some(OtlpProtocol::Http)), ExportKind::JsonDefault);
    assert_eq!(export_kind(true, None), ExportKind::OtlpGrpc);
    assert_eq!(export_kind(true, Some(OtlpProtocol::Http)), ExportKind::OtlpHttp);
    assert!(gzip_compression(Some("GZip")));
    assert!(!gzip_compression(Some("zstd")));
    assert!(!gzip_compression(None));
    assert_eq!(service_name_or_default(&None), "greentic-demo");
    assert_eq!(service_name_or_default(&Some("svc".to_string())), "svc");
}
