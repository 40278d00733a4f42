use greentic_demo::json::JsonValue;
use greentic_demo::telco_messages::{
    attach_main_menu_to_section, fallback_card, main_menu_action_set, response_messages_from_card,
};
use greentic_demo::telco_present::{
    classify_route, cluster_filter, form_values, is_service_degradation_query, merged_metadata_object,
    metadata_lookup_value, metadata_text_value, port_run_params, prefix_traffic_peak_time_label,
    prefix_traffic_resolution_label, present_plan, present_route, provider_hint, select_run,
    severity_rank, split_colon_exec, vm_cluster_label, vm_run_params, vm_service_label, MenuScreen,
    Playbook, PresentInput, PresentPlan, FormValues,
};
use greentic_demo::telco_cards::{menu_card, parameters_card, present_screen, welcome_card, PresentOutput};
use greentic_demo::telco_screens::{fixed_screen, scenario_of};
use greentic_demo::telco_triage::{composed_triage_presentation, PresentationModel, PresentationSection};
use greentic_demo::telco_prefix_report::{prefix_traffic_analysis_card, ranking_rows_of, PrefixRowFigures};
use greentic_demo::telco_form_reports::{form_report, form_run_card, form_run_output, run_output};
use greentic_demo::telco_port_report::{busiest_port_text_exec, hot_ports_text_exec, is_u64_text_exec};

fn text(s: &str) -> JsonValue {
    JsonValue::Str(s.to_string())
}

fn object(pairs: Vec<(&str, JsonValue)>) -> JsonValue {
    JsonValue::Object(pairs.into_iter().map(|(k, v)| (k.to_string(), v)).collect())
}

fn query_input(query: &str) -> PresentInput {
    PresentInput {
        query: Some(query.to_string()),
        step: None,
        metadata: None,
        message: None,
        source_provider: None,
    }
}

fn step_input(step: &str) -> PresentInput {
    PresentInput {
        query: Some(String::new()),
        step: Some(step.to_string()),
        metadata: None,
        message: None,
        source_provider: Some("webchat".to_string()),
    }
}

fn as_serde(value: &JsonValue) -> serde_json::Value {
    serde_json::from_str(&value.render()).expect("valid json")
}

fn execute_screen(input: &PresentInput) -> PresentOutput {
    present_screen(input).expect("a screen that runs no playbook")
}

fn parameter_screen(input: &PresentInput) -> (String, String) {
    let output = execute_screen(input);
    (output.scenario, output.playbook_id)
}

#[test]
fn change_query_selects_change_correlation() {
    let (scenario, playbook_id) = parameter_screen(&query_input("show recent change correlation"));
    assert_eq!(scenario, "menu-change-correlation-parameters");
    assert_eq!(playbook_id, "tx.menu.change_correlation_parameters");
}

#[test]
fn degradation_query_runs_multi_playbook_triage() {
    let mut input = query_input("investigate service degradation");
    input.source_provider = Some("webchat".to_string());
    let (scenario, playbook_id) = parameter_screen(&input);
    assert_eq!(scenario, "menu-service-degradation-parameters");
    assert_eq!(playbook_id, "tx.menu.service_degradation_parameters");
}

#[test]
fn service_assurance_query_selects_slo_status() {
    let (scenario, playbook_id) = parameter_screen(&query_input("show slo status"));
    assert_eq!(scenario, "menu-slo-status-parameters");
    assert_eq!(playbook_id, "tx.menu.slo_status_parameters");
}

#[test]
fn free_ports_query_selects_free_ports() {
    let (scenario, playbook_id) = parameter_screen(&query_input("show free aci ports"));
    assert_eq!(scenario, "menu-free-ports-parameters");
    assert_eq!(playbook_id, "tx.menu.free_ports_parameters");
}

#[test]
fn empty_query_returns_welcome_card() {
    let input = PresentInput {
        query: Some(String::new()),
        step: None,
        metadata: None,
        message: None,
        source_provider: Some("webchat".to_string()),
    };
    let output = execute_screen(&input);
    let card = as_serde(output.rendered_card.as_ref().expect("welcome card"));
    assert_eq!(output.scenario, "welcome");
    assert_eq!(output.playbook_id, "tx.playbook.welcome");
    assert_eq!(output.text.as_deref(), Some("Welcome to the Telco-X demo."));
    assert_eq!(card["body"][0]["items"][0]["columns"][1]["items"][0]["text"], "Telco-X Demo");
    assert_eq!(card["body"][2]["actions"][0]["data"]["step"], "menu:network-traffic-routing");
    assert_eq!(card["body"][3]["actions"][0]["data"]["step"], "menu:capacity-port-management");
    assert_eq!(card["body"][4]["actions"][0]["data"]["step"], "menu:service-assurance");
    assert_eq!(card["body"][5]["actions"][0]["data"]["step"], "menu:performance-root-cause");
}

#[test]
fn category_query_returns_capacity_menu() {
    let input = step_input("menu:capacity-port-management");
    let output = execute_screen(&input);
    let card = as_serde(output.rendered_card.as_ref().expect("capacity menu card"));
    assert_eq!(output.scenario, "menu-capacity-port-management");
    assert_eq!(card["body"][0]["text"], "Capacity & Port Management");
    assert_eq!(card["body"][3]["actions"][0]["data"]["step"], "menu:free-ports-parameters");
}

#[test]
fn slo_status_button_opens_parameter_menu() {
    let output = execute_screen(&step_input("menu:slo-status-parameters"));
    let card = as_serde(output.rendered_card.as_ref().expect("slo parameters card"));
    assert_eq!(output.scenario, "menu-slo-status-parameters");
    assert_eq!(card["body"][0]["text"], "SLO status");
    assert_eq!(card["body"][2]["id"], "service");
}

#[test]
fn bgp_button_opens_parameter_menu() {
    let output = execute_screen(&step_input("menu:bgp-advertisers-parameters"));
    let card = as_serde(output.rendered_card.as_ref().expect("bgp parameters card"));
    assert_eq!(output.scenario, "menu-bgp-advertisers-parameters");
    assert_eq!(card["body"][0]["text"], "BGP advertisers");
    assert_eq!(card["body"][2]["id"], "prefix");
}

#[test]
fn free_ports_button_opens_parameter_menu() {
    let output = execute_screen(&step_input("menu:free-ports-parameters"));
    let card = as_serde(output.rendered_card.as_ref().expect("free ports parameters card"));
    assert_eq!(output.scenario, "menu-free-ports-parameters");
    assert_eq!(card["body"][0]["text"], "Free ACI ports");
    assert_eq!(card["body"][2]["id"], "device");
}

#[test]
fn overutilised_ports_button_opens_parameter_menu() {
    let output = execute_screen(&step_input("menu:port-utilisation-parameters"));
    let card = as_serde(output.rendered_card.as_ref().expect("port parameters card"));
    assert_eq!(output.scenario, "menu-port-utilisation-parameters");
    assert_eq!(card["body"][0]["text"], "Overutilised ACI ports");
    assert_eq!(card["body"][3]["id"], "device");
}

#[test]
fn vm_rca_button_opens_parameter_menu() {
    let output = execute_screen(&step_input("menu:vm-rca-parameters"));
    let card = as_serde(output.rendered_card.as_ref().expect("vm rca parameters card"));
    assert_eq!(output.scenario, "menu-vm-rca-parameters");
    assert_eq!(card["body"][0]["text"], "Run VM RCA");
    assert_eq!(card["body"][3]["id"], "service");
}

#[test]
fn prefix_traffic_button_opens_parameter_menu() {
    let output = execute_screen(&step_input("menu:prefix-traffic-parameters"));
    let card = as_serde(output.rendered_card.as_ref().expect("prefix parameters card"));
    assert_eq!(output.scenario, "menu-prefix-traffic-parameters");
    assert_eq!(card["body"][0]["text"], "Prefix traffic distribution");
    assert_eq!(card["body"][3]["id"], "prefix");
}

#[test]
fn screen_answers_carry_one_message_with_the_card() {
    let output = execute_screen(&query_input("show bgp advertisers"));
    let messages = as_serde(&output.messages);
    assert_eq!(messages.as_array().map(|m| m.len()), Some(1));
    assert_eq!(messages[0]["type"], "adaptive_card");
    assert_eq!(messages[0]["card"], as_serde(output.adaptive_card.as_ref().unwrap()));
    assert_eq!(output.provider_hint, "webchat");
    assert!(present_screen(&query_input("run vm rca")).is_none());
}

#[test]
fn cards_render_as_their_json_literals() {
    let welcome = as_serde(&welcome_card());
    assert_eq!(welcome["body"][0]["bleed"], true);
    assert_eq!(welcome["body"][0]["items"][0]["columns"][0]["items"][0]["text"], "📡");
    assert_eq!(welcome["body"][1]["text"], "What would you like to explore?");
    assert_eq!(welcome["body"][2]["spacing"], "Medium");
    assert_eq!(welcome["body"][3]["spacing"], "Small");
    let network = as_serde(&menu_card(MenuScreen::NetworkTrafficRouting));
    assert_eq!(network["body"][2]["actions"][0]["title"], "📶 Prefix traffic");
    assert_eq!(network["body"][5]["actions"][0]["title"], "← Back to categories");
    assert_eq!(network["body"][5]["actions"][0]["data"]["step"], "");
    let change = as_serde(&parameters_card(Playbook::ChangeCorrelation));
    assert_eq!(change["actions"][0]["data"]["step"], "run:change-correlation-form");
    assert_eq!(change["actions"][1]["title"], "← Back to Performance & Root Cause");
    assert_eq!(change["body"][3]["choices"][2]["value"], "GitOps deploy history");
    assert_eq!(change["body"][3]["label"], "Source system");
    let port = as_serde(&parameters_card(Playbook::PortUtilisation));
    assert_eq!(port["body"][5]["value"], "85");
    assert!(port["body"][3].get("label").is_none());
}

#[test]
fn empty_query_is_the_welcome_screen() {
    let mut input = query_input("");
    input.source_provider = Some("webchat".to_string());
    let plan = present_plan(&input);
    assert_eq!(plan, PresentPlan::Welcome);
    let screen = fixed_screen(&plan).expect("welcome");
    assert_eq!(screen.scenario, "welcome");
    assert_eq!(screen.playbook_id, "tx.playbook.welcome");
    assert_eq!(screen.summary, "Welcome to the Telco-X demo.");
    assert_eq!(
        screen.presentation.render(),
        "{\"kind\":\"welcome\",\"prompts\":[\"menu:network-traffic-routing\",\"menu:capacity-port-management\",\"menu:performance-root-cause\",\"menu:service-assurance\"]}"
    );
    assert_eq!(classify_route("oauth_login_success"), PresentPlan::Welcome);
}

#[test]
fn category_step_opens_its_menu() {
    let plan = present_plan(&step_input("menu:capacity-port-management"));
    assert_eq!(plan, PresentPlan::Menu(MenuScreen::CapacityPortManagement));
    let screen = fixed_screen(&plan).expect("menu");
    assert_eq!(screen.scenario, "menu-capacity-port-management");
    assert_eq!(screen.summary, "Capacity & Port Management");
    assert_eq!(screen.playbook_id, "tx.menu.capacity_port_management");
}

#[test]
fn parameter_buttons_open_their_screens() {
    let cases = [
        ("menu:slo-status-parameters", Playbook::SloStatus, "menu-slo-status-parameters", "SLO status"),
        ("menu:bgp-advertisers-parameters", Playbook::BgpAdvertisers, "menu-bgp-advertisers-parameters", "BGP advertisers"),
        ("menu:free-ports-parameters", Playbook::FreePorts, "menu-free-ports-parameters", "Free ACI ports"),
        ("menu:port-utilisation-parameters", Playbook::PortUtilisation, "menu-port-utilisation-parameters", "Overutilised ACI ports"),
        ("menu:vm-rca-parameters", Playbook::VmRca, "menu-vm-rca-parameters", "Run VM RCA"),
        ("menu:prefix-traffic-parameters", Playbook::PrefixTraffic, "menu-prefix-traffic-parameters", "Prefix traffic distribution"),
    ];
    for (step, playbook, scenario, summary) in cases {
        let plan = present_plan(&step_input(step));
        assert_eq!(plan, PresentPlan::Parameters(playbook));
        let screen = fixed_screen(&plan).expect("parameter screen");
        assert_eq!(screen.scenario, scenario);
        assert_eq!(screen.summary, summary);
    }
    let screen = fixed_screen(&PresentPlan::Parameters(Playbook::PortUtilisation)).unwrap();
    assert_eq!(
        screen.presentation.render(),
        "{\"category\":\"capacity-port-management\",\"kind\":\"parameter-menu\",\"playbook\":\"port-utilisation\"}"
    );
}

#[test]
fn keyword_queries_pick_playbooks() {
    assert_eq!(present_plan(&query_input("show overutilised aci ports")), PresentPlan::Keyword(Playbook::PortUtilisation));
    assert_eq!(scenario_of(&present_plan(&query_input("show overutilised aci ports"))), "port-utilisation");
    assert_eq!(scenario_of(&present_plan(&query_input("run vm rca"))), "vm-rca");
    assert_eq!(scenario_of(&present_plan(&query_input("show prefix traffic"))), "prefix-traffic");
    assert_eq!(select_run("Who are the BGP advertisers?"), Playbook::BgpAdvertisers);
    assert_eq!(select_run("top ASN sources"), Playbook::TopSourceAsns);
    assert_eq!(select_run("anything else"), Playbook::PortUtilisation);
    assert_eq!(select_run("prefix change"), Playbook::PrefixTraffic);
}

#[test]
fn degradation_words_start_a_triage() {
    assert!(is_service_degradation_query("Why is the service SLOW today?"));
    assert!(is_service_degradation_query("please triage"));
    assert!(!is_service_degradation_query("show prefix traffic"));
    assert_eq!(classify_route("the portal is degraded"), PresentPlan::DegradationTriage);
    assert_eq!(scenario_of(&PresentPlan::DegradationTriage), "service-degradation-triage");
}

#[test]
fn form_steps_run_their_forms() {
    let plan = present_plan(&step_input("run:slo-status-form"));
    assert_eq!(plan, PresentPlan::FormRun(Playbook::SloStatus));
    assert_eq!(scenario_of(&plan), "slo-status-form");
    assert!(fixed_screen(&plan).is_none());
    assert_eq!(scenario_of(&classify_route("run:change-correlation-form")), "change-correlation-form");
}

#[test]
fn the_step_wins_over_the_query() {
    let input = PresentInput {
        query: Some("show slo status".to_string()),
        step: Some("  menu:service-assurance ".to_string()),
        metadata: None,
        message: None,
        source_provider: None,
    };
    assert_eq!(present_route(&input), "menu:service-assurance");
    assert_eq!(provider_hint(&input), "webchat");
    let blank_step = PresentInput { step: Some("   ".to_string()), ..query_input(" show slo status ") };
    assert_eq!(present_route(&blank_step), "show slo status");
}

#[test]
fn parameterized_port_run_carries_its_values() {
    let plan = classify_route("run:port-utilisation:device=2201:threshold=90");
    assert_eq!(plan, PresentPlan::PortRun("device=2201:threshold=90".to_string()));
    assert_eq!(scenario_of(&plan), "port-utilisation");
    let params = port_run_params("device=2201:threshold=90");
    assert_eq!(params.device, "2201");
    assert_eq!(params.thresholds, vec!["90".to_string()]);
    let later = port_run_params("threshold=x:device=a:device=b:threshold=75");
    assert_eq!(later.device, "b");
    assert_eq!(later.thresholds, vec!["x".to_string(), "75".to_string()]);
    assert_eq!(port_run_params("").device, "2201");
}

#[test]
fn parameterized_vm_run_carries_its_values() {
    let plan = classify_route("run:vm-rca:service=internet");
    assert_eq!(plan, PresentPlan::VmRun("service=internet".to_string()));
    assert_eq!(scenario_of(&plan), "vm-rca");
    let params = vm_run_params("service=internet");
    assert_eq!(params.service, "internet");
    assert_eq!(params.cluster, None);
    let both = vm_run_params("cluster=dubai-core:service=x");
    assert_eq!(both.service, "x");
    assert_eq!(both.cluster.as_deref(), Some("dubai-core"));
    assert_eq!(vm_run_params("").service, "mobile-data");
}

#[test]
fn split_keeps_empty_pieces() {
    assert_eq!(split_colon_exec(""), vec![String::new()]);
    assert_eq!(split_colon_exec("a::b:"), vec!["a".to_string(), String::new(), "b".to_string(), String::new()]);
}

#[test]
fn form_values_come_from_metadata_with_defaults() {
    let slo = object(vec![
        ("service", text("internet")),
        ("environment", text("Staging")),
        ("time_window", text("Last 7 days")),
    ]);
    let values = form_values(Playbook::SloStatus, &slo);
    assert_eq!(values.subject, "internet");
    assert_eq!(values.environment.as_deref(), Some("Staging"));
    assert_eq!(values.time_window, "Last 7 days");

    let change = object(vec![
        ("service", text("internet")),
        ("source_system", text("GitOps deploy history")),
        ("time_window", text("Last 7 days")),
    ]);
    let values = form_values(Playbook::ChangeCorrelation, &change);
    assert_eq!(values.source_system.as_deref(), Some("GitOps deploy history"));

    let vm = object(vec![
        ("service", text("internet")),
        ("cluster", text("riyadh-core")),
        ("symptom", text("Packet loss")),
        ("time_window", text("Last 7 days")),
    ]);
    let values = form_values(Playbook::VmRca, &vm);
    assert_eq!(vm_service_label(&values.subject), "Internet Gateway");
    assert_eq!(vm_cluster_label(values.cluster.as_deref().unwrap()), "Core Riyadh");
    assert_eq!(values.symptom.as_deref(), Some("Packet loss"));

    let defaults = form_values(Playbook::PrefixTraffic, &object(vec![("prefix", text("   "))]));
    assert_eq!(defaults.subject, "10.24.0.0/16");
    assert_eq!(defaults.direction.as_deref(), Some("Inbound"));
    assert_eq!(defaults.time_window, "Last 24 hours");
    assert_eq!(form_values(Playbook::PortUtilisation, &object(vec![("device", text(" 3101 "))])).subject, "3101");
    assert_eq!(form_values(Playbook::NoisyNeighbour, &JsonValue::Null).subject, "riyadh-core");
}

#[test]
fn live_submit_envelope_is_read_through_nested_metadata() {
    let envelope = object(vec![
        ("channel", text("813f3e1f-a723-4b99-b766-0d0d89203bb6")),
        ("metadata", object(vec![
            ("direction", text("Outbound")),
            ("prefix", text("10.24.0.0/16")),
            ("time_window", text("Last 7 days")),
        ])),
        ("text", text("run:prefix-traffic-form")),
    ]);
    let merged = merged_metadata_object(Some(&envelope), None, None, None, None);
    assert_eq!(metadata_text_value(&merged, "direction").map(|s| s.as_str()), Some("Outbound"));
    let values = form_values(Playbook::PrefixTraffic, &merged);
    assert_eq!(values.direction.as_deref(), Some("Outbound"));
    assert_eq!(values.time_window, "Last 7 days");
    assert_eq!(prefix_traffic_resolution_label(&values.time_window), "1-hour intervals");
    assert_eq!(prefix_traffic_peak_time_label(&values.time_window), "Tuesday 14:35 UTC");
}

#[test]
fn metadata_falls_back_to_the_message() {
    let message = object(vec![("metadata", object(vec![("scope", text("dubai-core"))]))]);
    let merged = merged_metadata_object(Some(&JsonValue::Null), Some(&message), None, None, None);
    assert_eq!(metadata_text_value(&merged, "scope").map(|s| s.as_str()), Some("dubai-core"));
    let parsed = object(vec![("device", text("4101"))]);
    let from_text = merged_metadata_object(Some(&text("{\"device\":\"4101\"}")), None, Some(parsed), None, None);
    assert_eq!(metadata_text_value(&from_text, "device").map(|s| s.as_str()), Some("4101"));
    let event = object(vec![("event", object(vec![("value", object(vec![("k", text("v"))]))]))]);
    assert_eq!(metadata_lookup_value(&event, "k"), Some(&text("v")));
    assert_eq!(metadata_lookup_value(&event, "missing"), None);
}

#[test]
fn default_cluster_is_no_filter() {
    assert_eq!(cluster_filter("Default"), None);
    assert_eq!(cluster_filter("riyadh-core").as_deref(), Some("riyadh-core"));
    assert_eq!(vm_cluster_label("elsewhere"), "Default cluster");
    assert_eq!(vm_service_label("mobile-data"), "Mobile Data Core");
}

#[test]
fn labels_follow_the_time_window() {
    assert_eq!(prefix_traffic_resolution_label("Last hour"), "1-minute intervals");
    assert_eq!(prefix_traffic_resolution_label("Last 24 hours"), "5-minute intervals");
    assert_eq!(prefix_traffic_peak_time_label("Last hour"), "14:55 UTC");
    assert_eq!(prefix_traffic_peak_time_label("Last 24 hours"), "14:35 UTC");
}

#[test]
fn severities_rank_critical_first() {
    assert_eq!(severity_rank("critical"), 3);
    assert_eq!(severity_rank("warning"), 2);
    assert_eq!(severity_rank("info"), 1);
}

#[test]
fn whole_card_is_one_message() {
    let card = fallback_card("Error", "Failed.");
    let messages = response_messages_from_card(&card, false, false);
    let parsed: serde_json::Value = serde_json::from_str(&messages.render()).expect("valid json");
    assert_eq!(parsed[0]["type"], "adaptive_card");
    assert_eq!(parsed[0]["card"]["version"], "1.5");
    assert_eq!(parsed[0]["card"]["body"][0]["text"], "Error");
    assert_eq!(parsed[0]["card"]["body"][1]["wrap"], true);
}

#[test]
fn sections_become_messages_with_the_main_menu() {
    let card = object(vec![(
        "body",
        JsonValue::Array(vec![
            object(vec![("text", text("one")), ("type", text("TextBlock"))]),
            text("not a section"),
            object(vec![("items", JsonValue::Array(vec![text("x")])), ("type", text("Container"))]),
        ]),
    )]);
    let messages = response_messages_from_card(&card, true, true);
    let parsed: serde_json::Value = serde_json::from_str(&messages.render()).expect("valid json");
    let list = parsed.as_array().expect("messages");
    assert_eq!(list.len(), 2);
    assert_eq!(list[0]["card"]["version"], "1.6");
    assert_eq!(list[0]["card"]["$schema"], "http://adaptivecards.io/schemas/adaptive-card.json");
    assert_eq!(list[0]["card"]["body"][0]["type"], "Container");
    assert_eq!(list[0]["card"]["body"][0]["items"][0]["text"], "one");
    assert_eq!(list[0]["card"]["body"][0]["items"][1]["actions"][0]["title"], "← Menu");
    assert_eq!(list[1]["card"]["body"][0]["items"][1]["type"], "ActionSet");

    let plain = response_messages_from_card(&card, true, false);
    let parsed: serde_json::Value = serde_json::from_str(&plain.render()).expect("valid json");
    assert_eq!(parsed[0]["card"]["body"][0]["text"], "one");

    let empty = object(vec![("body", JsonValue::Array(vec![]))]);
    let whole = response_messages_from_card(&empty, true, true);
    let parsed: serde_json::Value = serde_json::from_str(&whole.render()).expect("valid json");
    assert_eq!(parsed.as_array().map(|a| a.len()), Some(1));
}

#[test]
fn main_menu_is_attached_once() {
    let with_menu = attach_main_menu_to_section(&object(vec![("items", JsonValue::Array(vec![]))]));
    let again = attach_main_menu_to_section(&with_menu);
    assert_eq!(again, with_menu);
    assert_eq!(
        main_menu_action_set().render(),
        "{\"actions\":[{\"data\":{\"step\":\"\",\"text\":\"\"},\"style\":\"destructive\",\"title\":\"← Menu\",\"type\":\"Action.Submit\"}],\"spacing\":\"Medium\",\"type\":\"ActionSet\"}"
    );
    assert_eq!(attach_main_menu_to_section(&text("plain")), text("plain"));
}

// ---------------------------------------------------------------------------
// Run reports
// ---------------------------------------------------------------------------

fn report_messages(card: &JsonValue) -> serde_json::Value {
    as_serde(&response_messages_from_card(card, true, false))
}

#[test]
fn vm_rca_report_shows_the_selected_values() {
    let presentation = object(vec![(
        "sections",
        JsonValue::Array(vec![
            object(vec![
                ("items", JsonValue::Array(vec![
                    object(vec![("label", text("host")), ("value", text("h1"))]),
                    object(vec![("value", text("bare"))]),
                    object(vec![("label", text("skipped")), ("value", JsonValue::Number("3".to_string()))]),
                ])),
                ("title", text("Evidence")),
            ]),
            object(vec![("title", text("Empty"))]),
            object(vec![]),
            object(vec![("title", text("Fourth"))]),
        ]),
    )]);
    let card = greentic_demo::telco_analysis::vm_rca_analysis_card(
        "internet",
        "riyadh-core",
        "Packet loss",
        "Last 7 days",
        &presentation,
        "Likely root cause chain found.",
    );
    let messages = report_messages(&card);
    assert_eq!(messages[0]["card"]["body"][0]["items"][2]["facts"][0]["value"], "Internet Gateway");
    assert_eq!(messages[0]["card"]["body"][0]["items"][2]["facts"][1]["value"], "Core Riyadh");
    assert_eq!(messages[0]["card"]["body"][0]["items"][2]["facts"][3]["value"], "Last 7 days");
    assert_eq!(messages[4]["card"]["body"][0]["items"][2]["facts"][2]["value"], "Packet loss");
    assert_eq!(messages[1]["card"]["body"][0]["items"][1]["facts"][3]["value"], "30-minute VM and platform aggregates");
    assert_eq!(
        messages[3]["card"]["body"][0]["items"][2]["text"],
        "Evidence: host: h1 | bare\n\nEmpty: summary collected for the selected scope.\n\nAnalysis section: summary collected for the selected scope."
    );
    let parsed = as_serde(&card);
    assert_eq!(parsed["actions"][0]["data"]["step"], "menu:vm-rca-parameters");
    assert_eq!(parsed["actions"][0]["data"]["symptom"], "Packet loss");
    let fallback = greentic_demo::telco_analysis::vm_rca_analysis_card(
        "mobile-data", "DEFAULT", "x", "Last hour", &JsonValue::Null, "no sections",
    );
    let parsed = as_serde(&fallback);
    assert_eq!(parsed["body"][0]["items"][2]["facts"][1]["value"], "Default cluster");
    assert_eq!(parsed["body"][3]["items"][2]["text"], "no sections");
}

#[test]
fn slo_report_shows_the_selected_values() {
    let card = greentic_demo::telco_analysis::slo_status_analysis_card(
        "internet",
        "Staging",
        "Last 7 days",
        &object(vec![("severity", text("critical"))]),
        "SLO at risk.",
    );
    let messages = report_messages(&card);
    assert_eq!(messages[0]["card"]["body"][0]["items"][2]["facts"][0]["value"], "svc-internet-edge");
    assert_eq!(messages[0]["card"]["body"][0]["items"][2]["facts"][1]["value"], "Staging");
    assert_eq!(messages[3]["card"]["body"][0]["items"][2]["facts"][1]["value"], "99.50%");
    assert_eq!(messages[3]["card"]["body"][0]["items"][2]["facts"][2]["value"], "critical");
    assert_eq!(messages[3]["card"]["body"][0]["items"][2]["facts"][0]["value"], "99.41%");
    let other = greentic_demo::telco_analysis::slo_status_analysis_card("payments", "Production", "Last hour", &JsonValue::Null, "s");
    let parsed = as_serde(&other);
    assert_eq!(parsed["body"][0]["items"][2]["facts"][0]["value"], "payments");
    assert_eq!(parsed["body"][3]["items"][2]["facts"][2]["value"], "warning");
}

#[test]
fn generic_report_keeps_the_form_values_for_the_way_back() {
    let facts = vec![
        ("Service".to_string(), "internet".to_string()),
        ("Source system".to_string(), "GitOps deploy history".to_string()),
        ("Time window".to_string(), "Last 7 days".to_string()),
    ];
    let sources = vec![("Primary".to_string(), "GitOps deploy history".to_string())];
    let steps = vec!["✓ one".to_string(), "✓ two".to_string()];
    let card = greentic_demo::telco_analysis::generic_analysis_card(
        "intro",
        &facts,
        &sources,
        &steps,
        &JsonValue::Null,
        &vec![],
        "summary",
        "← Back to change parameters",
        "menu:change-correlation-parameters",
        &object(vec![("service", text("internet")), ("step", text("override"))]),
    );
    let messages = report_messages(&card);
    assert_eq!(messages[0]["card"]["body"][0]["items"][2]["facts"][1]["value"], "GitOps deploy history");
    assert_eq!(messages[2]["card"]["body"][0]["items"][1]["text"], "✓ two");
    assert_eq!(messages[2]["card"]["body"][0]["items"][2]["type"], "ActionSet");
    assert_eq!(messages[3]["card"]["body"][0]["items"][0]["text"], "Findings");
    assert_eq!(messages[3]["card"]["body"][0]["items"][1]["text"], "summary");
    assert_eq!(messages[4]["card"]["body"][0]["items"][2]["facts"][0]["title"], "Status");
    assert_eq!(messages[4]["card"]["body"][0]["items"][2]["facts"][0]["value"], "Review prepared");
    let parsed = as_serde(&card);
    assert_eq!(parsed["actions"][0]["data"]["service"], "internet");
    assert_eq!(parsed["actions"][0]["data"]["step"], "override");
    assert_eq!(parsed["actions"][0]["data"]["text"], "menu:change-correlation-parameters");
}

#[test]
fn generic_report_reads_sections_items_and_rows() {
    let number = |t: &str| JsonValue::Number(t.to_string());
    let presentation = object(vec![(
        "sections",
        JsonValue::Array(vec![
            object(vec![
                ("items", JsonValue::Array(vec![
                    object(vec![("label", text("changes")), ("value", number("3"))]),
                    object(vec![("label", text("risk")), ("value", text("low"))]),
                    object(vec![("value", text("unlabelled"))]),
                    object(vec![("label", text("flag")), ("value", JsonValue::Bool(true))]),
                    object(vec![("label", text("fifth")), ("value", text("hidden"))]),
                ])),
                ("rows", JsonValue::Array(vec![
                    object(vec![
                        ("a", text("x")),
                        ("b", number("1.5")),
                        ("c", JsonValue::Bool(false)),
                        ("d", JsonValue::Null),
                        ("e", text("cut")),
                    ]),
                    text("not a row"),
                    object(vec![]),
                    object(vec![("z", text("fourth row"))]),
                ])),
                ("title", text("Changes")),
            ]),
            object(vec![("title", text("Quiet"))]),
            object(vec![]),
            object(vec![("title", text("Fourth"))]),
        ]),
    )]);
    let decimals = vec![("3".to_string(), "3.00".to_string()), ("1.5".to_string(), "1.50".to_string())];
    let card = greentic_demo::telco_analysis::generic_analysis_card(
        "intro", &vec![], &vec![], &vec![], &presentation, &decimals, "summary", "back", "menu:x", &JsonValue::Null,
    );
    let parsed = as_serde(&card);
    let findings = &parsed["body"][3]["items"];
    assert_eq!(findings[0]["text"], "Findings");
    assert_eq!(
        findings[1]["text"],
        "Changes\nchanges: 3.00\nrisk: low\nunlabelled\na: x | b: 1.50 | c: false | d: null"
    );
    assert_eq!(findings[2]["text"], "Quiet");
    assert_eq!(findings[3]["text"], "Analysis section");
    assert_eq!(findings[4]["type"], "ActionSet");
    assert_eq!(findings.as_array().unwrap().len(), 5);
    let facts = &parsed["body"][4]["items"][2]["facts"];
    assert_eq!(facts.as_array().unwrap().len(), 2);
    assert_eq!(facts[0]["title"], "changes");
    assert_eq!(facts[0]["value"], "3.00");
    assert_eq!(facts[1]["title"], "risk");
    assert_eq!(parsed["actions"][0]["data"]["step"], "menu:x");
}

fn port_presentation(items: Vec<JsonValue>) -> JsonValue {
    object(vec![(
        "sections",
        JsonValue::Array(vec![object(vec![("items", JsonValue::Array(items))]), object(vec![])]),
    )])
}

#[test]
fn port_report_reads_the_summary_section() {
    let presentation = port_presentation(vec![
        object(vec![("label", text("hot_ports")), ("value", JsonValue::Number("4".to_string()))]),
        object(vec![("label", text("busiest_port")), ("value", text("eth1/7"))]),
        object(vec![("label", text("hot_ports")), ("value", JsonValue::Number("9".to_string()))]),
    ]);
    let card = greentic_demo::telco_port_report::port_utilisation_analysis_card(
        "101",
        JsonValue::Number("80.0".to_string()),
        "80%",
        "89%",
        "79%",
        "Last 7 days",
        &presentation,
    );
    let parsed = as_serde(&card);
    assert_eq!(parsed["body"][0]["items"][2]["facts"][0]["value"], "ACI POD / NODE 101");
    assert_eq!(parsed["body"][0]["items"][2]["facts"][1]["value"], "80%");
    assert_eq!(parsed["body"][1]["items"][1]["facts"][3]["value"], "30-minute utilisation aggregates");
    assert_eq!(parsed["body"][3]["items"][1]["text"], "Port utilisation for ACI POD / NODE 101 — threshold 80% — Last 7 days");
    assert_eq!(parsed["body"][3]["items"][2]["facts"][0]["value"], "4");
    assert_eq!(parsed["body"][3]["items"][2]["facts"][1]["value"], "eth1/7");
    assert_eq!(parsed["body"][3]["items"][2]["facts"][2]["value"], "89%");
    assert_eq!(parsed["body"][3]["items"][2]["facts"][3]["value"], "79%");
    assert_eq!(
        parsed["body"][4]["items"][1]["text"],
        "ACI POD / NODE 101 shows 4 overutilised interfaces above 80%. The busiest interface is eth1/7 with observed peak utilisation of 89% during the selected Last 7 days window."
    );
    assert_eq!(parsed["actions"][0]["title"], "← Back to port parameters");
    assert_eq!(parsed["actions"][0]["data"]["step"], "menu:port-utilisation-parameters");
    assert_eq!(parsed["actions"][0]["data"]["device"], "101");
    assert_eq!(parsed["actions"][0]["data"]["threshold"], 80.0);
    assert_eq!(parsed["actions"][0]["data"]["time_window"], "Last 7 days");
}

#[test]
fn port_report_defaults_without_a_summary() {
    let card = greentic_demo::telco_port_report::port_utilisation_analysis_card(
        "201", JsonValue::Number("75".to_string()), "75%", "84%", "75%", "Last 24 hours", &JsonValue::Null,
    );
    let parsed = as_serde(&card);
    assert_eq!(parsed["body"][1]["items"][1]["facts"][3]["value"], "5-minute interface counters");
    assert_eq!(parsed["body"][3]["items"][2]["facts"][0]["value"], "0");
    assert_eq!(parsed["body"][3]["items"][2]["facts"][1]["value"], "eth1/1");
    let hourly = greentic_demo::telco_port_report::port_utilisation_analysis_card(
        "201", JsonValue::Number("75".to_string()), "75%", "85%", "76%", "Last hour", &JsonValue::Null,
    );
    assert_eq!(as_serde(&hourly)["body"][1]["items"][1]["facts"][3]["value"], "1-minute interface counters");
}

#[test]
fn hot_port_count_must_be_an_unsigned_integer() {
    assert!(is_u64_text_exec("0"));
    for n in [0u64, 7, 10, 9007, u64::MAX] {
        assert!(is_u64_text_exec(&greentic_demo::text::u64_to_decimal(n)));
    }
    assert!(is_u64_text_exec("18446744073709551615"));
    assert!(!is_u64_text_exec("18446744073709551616"));
    assert!(!is_u64_text_exec("007"));
    assert!(!is_u64_text_exec("-3"));
    assert!(!is_u64_text_exec("3.0"));
    assert!(!is_u64_text_exec(""));
    let float_count = port_presentation(vec![
        object(vec![("label", text("hot_ports")), ("value", JsonValue::Number("3.5".to_string()))]),
        object(vec![("label", text("busiest_port")), ("value", JsonValue::Number("7".to_string()))]),
    ]);
    assert_eq!(hot_ports_text_exec(&float_count), "0");
    assert_eq!(busiest_port_text_exec(&float_count), "eth1/1");
    let text_count = port_presentation(vec![object(vec![("label", text("hot_ports")), ("value", text("5"))])]);
    assert_eq!(hot_ports_text_exec(&text_count), "0");
    let late = port_presentation(vec![
        object(vec![("label", text("other")), ("value", JsonValue::Number("1".to_string()))]),
        object(vec![("label", text("hot_ports")), ("value", JsonValue::Number("12".to_string()))]),
    ]);
    assert_eq!(hot_ports_text_exec(&late), "12");
}

fn run_presentation(summary: &str, severity: &str, actions: &[&str], evidence: &[&str], section: &str) -> PresentationModel {
    PresentationModel {
        playbook_id: format!("tx.playbook.{section}"),
        summary: summary.to_string(),
        severity: severity.to_string(),
        entities: vec![text("entity")],
        evidence_refs: evidence.iter().map(|s| s.to_string()).collect(),
        sections: vec![PresentationSection {
            section_id: section.to_string(),
            section_type: "table".to_string(),
            title: format!("{section} title"),
            items: vec![object(vec![("label", text("k")), ("value", text("v"))])],
            columns: vec![text("col")],
            rows: vec![],
        }],
        recommended_actions: actions.iter().map(|s| s.to_string()).collect(),
    }
}

#[test]
fn triage_combines_the_three_runs() {
    let change = run_presentation("Two changes.", "warning", &["rollback", "notify"], &["e1"], "changes");
    let vm = run_presentation("Host contention.", "critical", &["migrate", "notify"], &["e2"], "rca");
    let port = run_presentation("Ports hot.", "info", &["rebalance", "migrate"], &["e3", "e4"], "ports");
    let triage = composed_triage_presentation(&change, &vm, &port);
    assert_eq!(triage.playbook_id, "tx.playbook.service_degradation_triage");
    assert_eq!(triage.summary, "Host contention. Two changes. Ports hot.");
    assert_eq!(triage.severity, "critical");
    assert!(triage.entities.is_empty());
    assert_eq!(triage.evidence_refs, vec!["e1", "e2", "e3", "e4"]);
    assert_eq!(triage.recommended_actions, vec!["rollback", "notify", "migrate", "rebalance"]);
    let ids: Vec<&str> = triage.sections.iter().map(|s| s.section_id.as_str()).collect();
    assert_eq!(ids, vec!["triage_summary", "change_changes", "rca_rca", "network_ports"]);
    let titles: Vec<&str> = triage.sections.iter().map(|s| s.title.as_str()).collect();
    assert_eq!(titles, vec!["Triage summary", "Recent changes: changes title", "RCA: rca title", "Network: ports title"]);
    assert_eq!(triage.sections[0].section_type, "facts");
    let opening = as_serde(&JsonValue::Array(
        triage.sections[0].items.iter().map(greentic_demo::json::deep_clone).collect(),
    ));
    assert_eq!(opening[0]["label"], "change_analysis");
    assert_eq!(opening[0]["value"], "Two changes.");
    assert_eq!(opening[1]["label"], "vm_rca");
    assert_eq!(opening[1]["value"], "Host contention.");
    assert_eq!(opening[2]["label"], "network_signal");
    assert_eq!(opening[2]["value"], "Ports hot.");
    assert_eq!(opening.as_array().unwrap().len(), 3);
    assert_eq!(triage.sections[1].section_type, "table");
    assert_eq!(triage.sections[1].columns.len(), 1);
}

#[test]
fn triage_takes_the_later_of_equal_severities() {
    let a = run_presentation("a", "warning", &[], &[], "a");
    let b = run_presentation("b", "Warning", &[], &[], "b");
    let c = run_presentation("c", "minor", &[], &[], "c");
    // "Warning" ranks with anything unknown, below "warning".
    assert_eq!(composed_triage_presentation(&a, &b, &c).severity, "warning");
    let x = run_presentation("x", "low", &[], &[], "x");
    let y = run_presentation("y", "unknown", &[], &[], "y");
    let z = run_presentation("z", "minor", &[], &[], "z");
    assert_eq!(composed_triage_presentation(&x, &y, &z).severity, "minor");
    let w1 = run_presentation("w1", "warning", &[], &[], "w1");
    let w2 = run_presentation("w2", "warning", &[], &[], "w2");
    let low = run_presentation("l", "info", &[], &[], "l");
    assert_eq!(composed_triage_presentation(&w1, &w2, &low).severity, "warning");
}

fn figures(avg: &str, share: &str, peak_mbps: &str) -> PrefixRowFigures {
    PrefixRowFigures {
        avg: avg.to_string(),
        p95: "1.00".to_string(),
        peak: "2.00".to_string(),
        share: share.to_string(),
        peak_mbps: peak_mbps.to_string(),
    }
}

#[test]
fn prefix_report_ranks_the_peers_of_the_ranking_section() {
    let number = |t: &str| JsonValue::Number(t.to_string());
    let presentation = object(vec![(
        "sections",
        JsonValue::Array(vec![
            object(vec![("rows", JsonValue::Array(vec![object(vec![("peer", text("ignored"))])])), ("section_id", text("summary"))]),
            object(vec![
                ("rows", JsonValue::Array(vec![
                    object(vec![("bytes", number("1000")), ("device", text("edge-r1")), ("peak_mbps", number("950.5")), ("peer", text("AS64500"))]),
                    object(vec![("bytes", text("many"))]),
                ])),
                ("section_id", text("ranking")),
            ]),
            object(vec![("rows", JsonValue::Array(vec![])), ("section_id", text("ranking"))]),
        ]),
    )]);
    let rows = ranking_rows_of(&presentation);
    assert_eq!(rows.len(), 2);
    let card = prefix_traffic_analysis_card(
        "10.24.0.0/16",
        "Inbound",
        "Last hour",
        &presentation,
        &vec![figures("0.61", "80.0%", "950.5"), figures("0.05", "20.0%", "0")],
        "0.66 Gbps avg",
        "100.0%",
        "2.00 Gbps",
    );
    let parsed = as_serde(&card);
    let findings = &parsed["body"][3]["items"];
    assert_eq!(findings[1]["text"], "Traffic distribution for 10.24.0.0/16 — Inbound — Last 1h");
    assert_eq!(findings[2]["facts"][0]["value"], "AS64500");
    assert_eq!(findings[2]["facts"][1]["value"], "EDGE-R1");
    assert_eq!(findings[2]["facts"][2]["value"], "Te0/0/0/1");
    assert_eq!(findings[2]["facts"][3]["value"], "0.61");
    assert_eq!(findings[2]["facts"][6]["value"], "80.0%");
    assert_eq!(findings[3]["facts"][0]["value"], "-");
    assert_eq!(findings[3]["facts"][2]["value"], "Te0/0/0/2");
    assert_eq!(findings[4]["text"], "AS64500 | edge-r1 | bytes 1000 | peak_mbps 950.5");
    assert_eq!(findings[5]["text"], "- | - | bytes 0 | peak_mbps 0");
    assert_eq!(findings[6]["type"], "ActionSet");
    assert_eq!(parsed["body"][1]["items"][1]["facts"][3]["value"], "1-minute intervals");
    assert_eq!(
        parsed["body"][4]["items"][1]["text"],
        "10.24.0.0/16 inbound traffic is dominated by AS64500 (80.0%), with the top 3 contributors accounting for 100.0% of observed throughput. Peak utilisation occurred at 14:55 UTC."
    );
    assert_eq!(parsed["body"][4]["items"][2]["facts"][0]["value"], "0.66 Gbps avg");
    assert_eq!(parsed["body"][4]["items"][2]["facts"][1]["value"], "AS64500 (80.0%)");
    assert_eq!(parsed["body"][4]["items"][2]["facts"][4]["value"], "100.0%");
    assert_eq!(parsed["actions"][0]["data"]["prefix"], "10.24.0.0/16");
    assert_eq!(parsed["actions"][0]["data"]["direction"], "Inbound");
    assert_eq!(parsed["actions"][0]["data"]["step"], "menu:prefix-traffic-parameters");
}

#[test]
fn prefix_report_without_ranking_says_so() {
    let card = prefix_traffic_analysis_card(
        "p", "Bidirectional", "Last 30 days", &JsonValue::Null, &vec![], "0.00 Gbps avg", "0.0%", "0.00 Gbps",
    );
    let parsed = as_serde(&card);
    let findings = &parsed["body"][3]["items"];
    assert_eq!(findings[1]["text"], "Traffic distribution for p — Bidirectional — Last 30 days");
    assert_eq!(findings[2]["text"], "No ranked peer data was returned for the selected prefix.");
    assert_eq!(findings.as_array().unwrap().len(), 4);
    assert_eq!(parsed["body"][4]["items"][2]["facts"][1]["value"], "No dominant peer");
    assert_eq!(parsed["body"][4]["items"][2]["facts"][2]["value"], "14:35 UTC");
    assert_eq!(
        parsed["body"][4]["items"][1]["text"],
        "p bidirectional traffic is dominated by No dominant peer, with the top 3 contributors accounting for 0.0% of observed throughput. Peak utilisation occurred at 14:35 UTC."
    );
}

#[test]
fn prefix_report_lists_at_most_five_peers() {
    let rows: Vec<JsonValue> = (0..7).map(|i| object(vec![("peer", text(&format!("AS{i}")))])).collect();
    let presentation = object(vec![(
        "sections",
        JsonValue::Array(vec![object(vec![("rows", JsonValue::Array(rows)), ("section_id", text("ranking"))])]),
    )]);
    let figs: Vec<PrefixRowFigures> = (0..7).map(|_| figures("0.00", "0.0%", "0")).collect();
    let card = prefix_traffic_analysis_card("p", "Outbound", "Last 7 days", &presentation, &figs, "t", "s", "o");
    let parsed = as_serde(&card);
    let findings = parsed["body"][3]["items"].as_array().unwrap().clone();
    assert_eq!(findings.len(), 2 + 7 + 5 + 1);
    assert_eq!(findings[9]["text"], "AS0 | - | bytes 0 | peak_mbps 0");
    assert_eq!(findings[13]["text"], "AS4 | - | bytes 0 | peak_mbps 0");
    assert_eq!(findings[8]["facts"][2]["value"], "Te0/0/0/7");
    assert_eq!(findings[1]["text"], "Traffic distribution for p — Outbound — Last 7d");
}

fn form(subject: &str) -> FormValues {
    FormValues {
        subject: subject.to_string(),
        direction: None,
        cluster: None,
        symptom: None,
        environment: None,
        source_system: None,
        time_window: "Last 7 days".to_string(),
    }
}

fn generic_form_card(p: Playbook, values: &FormValues, presentation: &JsonValue) -> serde_json::Value {
    as_serde(&form_report(p, values, presentation, &vec![], "Run summary.").expect("a generic report"))
}

#[test]
fn form_reports_set_up_each_generic_playbook() {
    let bgp = generic_form_card(Playbook::BgpAdvertisers, &form("10.9.0.0/16"), &JsonValue::Null);
    assert_eq!(bgp["body"][0]["items"][1]["text"], "The assistant prepared a BGP advertiser review for the selected prefix scope.");
    assert_eq!(bgp["body"][0]["items"][2]["facts"][0]["value"], "10.9.0.0/16");
    assert_eq!(bgp["body"][1]["items"][1]["facts"][3]["value"], "1-hour intervals");
    assert_eq!(bgp["body"][2]["items"][2]["text"], "✓ Ranking dominant advertised paths");
    assert_eq!(bgp["body"][4]["items"][1]["text"], "Run summary.");
    assert_eq!(bgp["actions"][0]["title"], "← Back to BGP parameters");
    assert_eq!(bgp["actions"][0]["data"]["prefix"], "10.9.0.0/16");
    assert_eq!(bgp["actions"][0]["data"]["step"], "menu:bgp-advertisers-parameters");

    let mut asn_values = form("10.9.0.0/16");
    asn_values.direction = Some("Outbound".to_string());
    let asns = generic_form_card(Playbook::TopSourceAsns, &asn_values, &JsonValue::Null);
    assert_eq!(asns["body"][0]["items"][2]["facts"][1]["value"], "Outbound");
    assert_eq!(asns["actions"][0]["data"]["direction"], "Outbound");
    let asns_default = generic_form_card(Playbook::TopSourceAsns, &form("p"), &JsonValue::Null);
    assert_eq!(asns_default["actions"][0]["data"]["direction"], "Inbound");
    assert_eq!(asns_default["actions"][0]["title"], "← Back to ASN parameters");

    let free = generic_form_card(Playbook::FreePorts, &form("2201"), &JsonValue::Null);
    assert_eq!(free["body"][0]["items"][2]["facts"][0]["title"], "Node / device");
    assert_eq!(free["body"][0]["items"][2]["facts"][0]["value"], "ACI POD / NODE 2201");
    assert_eq!(free["actions"][0]["data"]["device"], "2201");
    assert_eq!(free["actions"][0]["data"]["step"], "menu:free-ports-parameters");

    let noisy = generic_form_card(Playbook::NoisyNeighbour, &form("jeddah-edge"), &JsonValue::Null);
    assert_eq!(noisy["body"][1]["items"][1]["facts"][0]["value"], "Virtualisation telemetry and contention signals");
    assert_eq!(noisy["actions"][0]["data"]["scope"], "jeddah-edge");

    let sweep = generic_form_card(Playbook::ScopeHealthSweep, &form("riyadh-core"), &JsonValue::Null);
    assert_eq!(sweep["body"][2]["items"][0]["text"], "✓ Gathering service, infra, and network signals");
    assert_eq!(sweep["actions"][0]["title"], "← Back to scope health parameters");

    let mut change_values = form("internet");
    change_values.source_system = Some("GitOps deploy history".to_string());
    let change = generic_form_card(Playbook::ChangeCorrelation, &change_values, &JsonValue::Null);
    assert_eq!(change["body"][1]["items"][1]["facts"][0]["value"], "GitOps deploy history");
    assert_eq!(change["body"][1]["items"][1]["facts"][3]["value"], "Event-level timestamps");
    assert_eq!(change["actions"][0]["data"]["source_system"], "GitOps deploy history");
    let change_default = generic_form_card(Playbook::ChangeCorrelation, &form("internet"), &JsonValue::Null);
    assert_eq!(change_default["body"][0]["items"][2]["facts"][1]["value"], "Change registry");

    let triage = generic_form_card(
        Playbook::ServiceDegradation,
        &form("mobile-data"),
        &object(vec![("summary", text("Combined view."))]),
    );
    assert_eq!(triage["body"][0]["items"][2]["facts"][1]["value"], "default");
    assert_eq!(triage["body"][4]["items"][1]["text"], "Combined view.");
    assert_eq!(triage["body"][3]["items"][1]["text"], "Combined view.");
    assert_eq!(triage["actions"][0]["data"]["cluster"], "default");
    let bare = generic_form_card(Playbook::ServiceDegradation, &form("mobile-data"), &JsonValue::Null);
    assert_eq!(bare["body"][4]["items"][1]["text"], "Combined triage summary prepared.");
}

#[test]
fn playbooks_with_their_own_report_get_no_generic_one() {
    for p in [Playbook::PortUtilisation, Playbook::VmRca, Playbook::PrefixTraffic, Playbook::SloStatus] {
        assert!(form_report(p, &form("x"), &JsonValue::Null, &vec![], "s").is_none());
    }
}

#[test]
fn form_run_answers_carry_the_split_report() {
    let card = greentic_demo::telco_analysis::slo_status_analysis_card("internet", "Staging", "Last hour", &JsonValue::Null, "s");
    let out = form_run_output(
        Playbook::SloStatus,
        &card,
        "tx.playbook.slo_status",
        "SLO fine.",
        object(vec![("summary", text("ignored"))]),
        &PresentInput { source_provider: Some("teams".to_string()), ..step_input("run:slo-status-form") },
    );
    assert_eq!(out.scenario, "slo-status-form");
    assert_eq!(out.playbook_id, "tx.playbook.slo_status");
    assert_eq!(out.summary, "SLO fine.");
    assert!(out.text.is_none() && out.rendered_card.is_none() && out.adaptive_card.is_none());
    assert_eq!(out.provider_hint, "teams");
    assert_eq!(as_serde(&out.messages).as_array().unwrap().len(), 5);
    let triage = form_run_output(
        Playbook::ServiceDegradation,
        &card,
        "tx.playbook.other",
        "other",
        object(vec![("summary", text("Combined view."))]),
        &step_input("run:service-degradation-form"),
    );
    assert_eq!(triage.scenario, "service-degradation-form");
    assert_eq!(triage.playbook_id, "tx.playbook.service_degradation_triage");
    assert_eq!(triage.summary, "Combined view.");
}

#[test]
fn unknown_operations_are_answered_with_an_error() {
    let out = greentic_demo::telco_form_reports::unsupported_operation("explode");
    assert_eq!(out.scenario, "error");
    assert_eq!(out.playbook_id, "tx.playbook.error");
    assert_eq!(out.summary, "unsupported operation: explode");
    assert_eq!(out.text.as_deref(), Some("unsupported operation: explode"));
    assert_eq!(out.provider_hint, "webchat");
    let card = as_serde(out.adaptive_card.as_ref().unwrap());
    assert_eq!(card, as_serde(&fallback_card("Unsupported operation", "Only the present operation is supported.")));
    assert_eq!(as_serde(&out.messages)[0]["type"], "adaptive_card");
    assert_eq!(as_serde(&out.messages)[0]["card"], card);
    assert_eq!(as_serde(&out.presentation), as_serde(&JsonValue::Object(vec![])));
}

#[test]
fn keyword_and_parameterized_runs_are_answered_per_panel() {
    let card = greentic_demo::telco_analysis::slo_status_analysis_card("internet", "Staging", "Last hour", &JsonValue::Null, "s");
    let mut ports = query_input("show overutilised aci ports");
    ports.source_provider = Some("teams".to_string());
    let out = run_output(&ports, &card, "tx.playbook.port_utilisation", "Ports hot.", object(vec![])).expect("a run");
    assert_eq!(out.scenario, "port-utilisation");
    assert_eq!(out.playbook_id, "tx.playbook.port_utilisation");
    assert_eq!(out.summary, "Ports hot.");
    assert_eq!(out.provider_hint, "teams");
    assert!(out.text.is_none() && out.rendered_card.is_none() && out.adaptive_card.is_none());
    let messages = as_serde(&out.messages);
    assert_eq!(messages.as_array().unwrap().len(), 5);
    assert_eq!(messages[0]["card"]["body"][0]["items"].as_array().unwrap().last().unwrap()["type"], "ActionSet");
    let vm = run_output(&query_input("run vm rca"), &card, "tx.playbook.vm_rca", "s", JsonValue::Null).expect("a run");
    assert_eq!(vm.scenario, "vm-rca");
    assert_eq!(vm.provider_hint, "webchat");
    let prefix = run_output(&query_input("show prefix traffic"), &card, "tx.playbook.prefix_traffic", "s", JsonValue::Null).expect("a run");
    assert_eq!(prefix.scenario, "prefix-traffic");
    let port_run = run_output(&step_input("run:port-utilisation:device=2201:threshold=90"), &card, "p", "s", JsonValue::Null)
        .expect("a run");
    assert_eq!(port_run.scenario, "port-utilisation");
    let vm_run = run_output(&step_input("run:vm-rca:service=internet"), &card, "v", "s", JsonValue::Null).expect("a run");
    assert_eq!(vm_run.scenario, "vm-rca");
    let triage = run_output(&query_input("investigate degraded service"), &card, "t", "s", JsonValue::Null).expect("a run");
    assert_eq!(triage.scenario, "service-degradation-triage");
    assert!(run_output(&query_input(""), &card, "x", "s", JsonValue::Null).is_none());
    assert!(run_output(&step_input("run:vm-rca-form"), &card, "x", "s", JsonValue::Null).is_none());
}

#[test]
fn form_run_cards_fill_in_the_form_defaults() {
    let vm = form_run_card(Playbook::VmRca, &form("internet"), &JsonValue::Null, &vec![], "Chain found.").expect("a card");
    let expected = greentic_demo::telco_analysis::vm_rca_analysis_card(
        "internet", "default", "Latency spike", "Last 7 days", &JsonValue::Null, "Chain found.",
    );
    assert_eq!(as_serde(&vm), as_serde(&expected));
    let slo = form_run_card(Playbook::SloStatus, &form("internet"), &JsonValue::Null, &vec![], "s").expect("a card");
    let expected = greentic_demo::telco_analysis::slo_status_analysis_card("internet", "Production", "Last 7 days", &JsonValue::Null, "s");
    assert_eq!(as_serde(&slo), as_serde(&expected));
    let bgp = form_run_card(Playbook::BgpAdvertisers, &form("p"), &JsonValue::Null, &vec![], "s").expect("a card");
    assert_eq!(as_serde(&bgp), as_serde(&form_report(Playbook::BgpAdvertisers, &form("p"), &JsonValue::Null, &vec![], "s").unwrap()));
    assert!(form_run_card(Playbook::PortUtilisation, &form("p"), &JsonValue::Null, &vec![], "s").is_none());
    assert!(form_run_card(Playbook::PrefixTraffic, &form("p"), &JsonValue::Null, &vec![], "s").is_none());
}

#[test]
fn adding_the_main_menu_twice_is_adding_it_once() {
    let sections = vec![
        object(vec![("items", JsonValue::Array(vec![text("a")])), ("type", text("Container"))]),
        object(vec![("text", text("plain")), ("type", text("TextBlock"))]),
        text("not an object"),
        object(vec![("items", JsonValue::Array(vec![main_menu_action_set()]))]),
    ];
    for section in sections {
        let once = attach_main_menu_to_section(&section);
        let twice = attach_main_menu_to_section(&once);
        assert_eq!(as_serde(&once), as_serde(&twice));
    }
}
