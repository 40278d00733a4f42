//! The adaptive cards of the Telco-X screens that run no playbook: the welcome
//! screen, the category menus and the parameter forms, and where their
//! buttons lead.
use vstd::prelude::*;

use crate::json::{deep_clone, json_get, json_get_str, jv_items, Json, JsonValue};
use crate::json_build::{array, items0, items1, items2, items3, obj2, obj3, obj4, obj5, obj6, push_item, text};
use crate::telco_messages::{response_messages, response_messages_from_card};
use crate::telco_present::{form_step, menu_step, parameters_step, plan_of, present_plan, provider_hint,
    provider_of, route_of, MenuScreen, PlanModel, Playbook, PresentInput, PresentPlan,
    lemma_form_step_runs_form, lemma_menu_step_opens_menu, lemma_parameters_step_opens_parameters};
use crate::telco_screens::{fixed_screen, is_fixed_screen, menu_title, playbook_category, playbook_title,
    scenario_name, screen_playbook_id, screen_presentation, screen_summary};
use crate::text::push_str;

verus! {

broadcast use vstd::string::group_string_axioms;

pub open spec fn card_schema() -> Seq<char> {
    "http://adaptivecards.io/schemas/adaptive-card.json"@
}

// ---------------------------------------------------------------------------
// Card elements
// ---------------------------------------------------------------------------

/// A button that submits `step` (as both the text and the step of the reply).
pub open spec fn submit_json(title: Seq<char>, step: Seq<char>) -> Json {
    Json::Object(
        seq![
            ("data"@, Json::Object(seq![("step"@, Json::Str(step)), ("text"@, Json::Str(step))])),
            ("title"@, Json::Str(title)),
            ("type"@, Json::Str("Action.Submit"@)),
        ],
    )
}

/// An action set with one submit button.
pub open spec fn button_set_json(spacing: Seq<char>, title: Seq<char>, step: Seq<char>) -> Json {
    Json::Object(
        seq![
            ("actions"@, Json::Array(seq![submit_json(title, step)])),
            ("spacing"@, Json::Str(spacing)),
            ("type"@, Json::Str("ActionSet"@)),
        ],
    )
}

/// The title line of a card.
pub open spec fn heading_json(t: Seq<char>) -> Json {
    Json::Object(
        seq![
            ("size"@, Json::Str("Large"@)),
            ("text"@, Json::Str(t)),
            ("type"@, Json::Str("TextBlock"@)),
            ("weight"@, Json::Str("Bolder"@)),
        ],
    )
}

/// The introduction under a card's title.
pub open spec fn intro_json(t: Seq<char>) -> Json {
    Json::Object(
        seq![
            ("spacing"@, Json::Str("Small"@)),
            ("text"@, Json::Str(t)),
            ("type"@, Json::Str("TextBlock"@)),
            ("wrap"@, Json::Bool(true)),
        ],
    )
}

/// The caption above an unlabelled input.
pub open spec fn caption_json(t: Seq<char>) -> Json {
    Json::Object(
        seq![
            ("spacing"@, Json::Str("Medium"@)),
            ("text"@, Json::Str(t)),
            ("type"@, Json::Str("TextBlock"@)),
            ("weight"@, Json::Str("Bolder"@)),
        ],
    )
}

/// One choice of a choice set.
pub open spec fn choice_json(title: Seq<char>, value: Seq<char>) -> Json {
    Json::Object(seq![("title"@, Json::Str(title)), ("value"@, Json::Str(value))])
}

/// A compact choice set, with a label where one is given.
pub open spec fn choice_set_json(id: Seq<char>, label: Option<Seq<char>>, value: Seq<char>, choices: Seq<Json>) -> Json {
    match label {
        Some(l) => Json::Object(
            seq![
                ("choices"@, Json::Array(choices)),
                ("id"@, Json::Str(id)),
                ("label"@, Json::Str(l)),
                ("style"@, Json::Str("compact"@)),
                ("type"@, Json::Str("Input.ChoiceSet"@)),
                ("value"@, Json::Str(value)),
            ],
        ),
        None => Json::Object(
            seq![
                ("choices"@, Json::Array(choices)),
                ("id"@, Json::Str(id)),
                ("style"@, Json::Str("compact"@)),
                ("type"@, Json::Str("Input.ChoiceSet"@)),
                ("value"@, Json::Str(value)),
            ],
        ),
    }
}

/// A text input, with a label where one is given.
pub open spec fn text_input_json(id: Seq<char>, label: Option<Seq<char>>, value: Seq<char>, placeholder: Seq<char>) -> Json {
    match label {
        Some(l) => Json::Object(
            seq![
                ("id"@, Json::Str(id)),
                ("label"@, Json::Str(l)),
                ("placeholder"@, Json::Str(placeholder)),
                ("type"@, Json::Str("Input.Text"@)),
                ("value"@, Json::Str(value)),
            ],
        ),
        None => Json::Object(
            seq![
                ("id"@, Json::Str(id)),
                ("placeholder"@, Json::Str(placeholder)),
                ("type"@, Json::Str("Input.Text"@)),
                ("value"@, Json::Str(value)),
            ],
        ),
    }
}

/// A card with the given body.
pub open spec fn card_json(body: Seq<Json>) -> Json {
    Json::Object(
        seq![
            ("$schema"@, Json::Str(card_schema())),
            ("body"@, Json::Array(body)),
            ("type"@, Json::Str("AdaptiveCard"@)),
            ("version"@, Json::Str("1.6"@)),
        ],
    )
}

/// A card with the given body and buttons under it.
pub open spec fn form_card_json(body: Seq<Json>, actions: Seq<Json>) -> Json {
    Json::Object(
        seq![
            ("$schema"@, Json::Str(card_schema())),
            ("actions"@, Json::Array(actions)),
            ("body"@, Json::Array(body)),
            ("type"@, Json::Str("AdaptiveCard"@)),
            ("version"@, Json::Str("1.6"@)),
        ],
    )
}

fn submit(title: &str, step: &str) -> (r: JsonValue)
    ensures
        r@ == submit_json(title@, step@),
{
    obj3("data", obj2("step", text(step), "text", text(step)), "title", text(title), "type", text("Action.Submit"))
}

fn button_set(spacing: &str, title: &str, step: &str) -> (r: JsonValue)
    ensures
        r@ == button_set_json(spacing@, title@, step@),
{
    obj3("actions", array(items1(submit(title, step))), "spacing", text(spacing), "type", text("ActionSet"))
}

fn heading(t: &str) -> (r: JsonValue)
    ensures
        r@ == heading_json(t@),
{
    obj4("size", text("Large"), "text", text(t), "type", text("TextBlock"), "weight", text("Bolder"))
}

fn intro(t: &str) -> (r: JsonValue)
    ensures
        r@ == intro_json(t@),
{
    obj4("spacing", text("Small"), "text", text(t), "type", text("TextBlock"), "wrap", JsonValue::Bool(true))
}

fn caption(t: &str) -> (r: JsonValue)
    ensures
        r@ == caption_json(t@),
{
    obj4("spacing", text("Medium"), "text", text(t), "type", text("TextBlock"), "weight", text("Bolder"))
}

fn choice(title: &str, value: &str) -> (r: JsonValue)
    ensures
        r@ == choice_json(title@, value@),
{
    obj2("title", text(title), "value", text(value))
}

fn choice_set(id: &str, label: Option<&str>, value: &str, choices: Vec<JsonValue>) -> (r: JsonValue)
    ensures
        r@ == choice_set_json(
            id@,
            match label {
                Some(l) => Some(l@),
                None => None,
            },
            value@,
            jv_items(choices@),
        ),
{
    match label {
        Some(l) => obj6(
            "choices",
            array(choices),
            "id",
            text(id),
            "label",
            text(l),
            "style",
            text("compact"),
            "type",
            text("Input.ChoiceSet"),
            "value",
            text(value),
        ),
        None => obj5(
            "choices",
            array(choices),
            "id",
            text(id),
            "style",
            text("compact"),
            "type",
            text("Input.ChoiceSet"),
            "value",
            text(value),
        ),
    }
}

fn text_input(id: &str, label: Option<&str>, value: &str, placeholder: &str) -> (r: JsonValue)
    ensures
        r@ == text_input_json(
            id@,
            match label {
                Some(l) => Some(l@),
                None => None,
            },
            value@,
            placeholder@,
        ),
{
    match label {
        Some(l) => obj5(
            "id",
            text(id),
            "label",
            text(l),
            "placeholder",
            text(placeholder),
            "type",
            text("Input.Text"),
            "value",
            text(value),
        ),
        None => obj4("id", text(id), "placeholder", text(placeholder), "type", text("Input.Text"), "value", text(value)),
    }
}

fn card(body: Vec<JsonValue>) -> (r: JsonValue)
    ensures
        r@ == card_json(jv_items(body@)),
{
    obj4(
        "$schema",
        text("http://adaptivecards.io/schemas/adaptive-card.json"),
        "body",
        array(body),
        "type",
        text("AdaptiveCard"),
        "version",
        text("1.6"),
    )
}

fn form_card(body: Vec<JsonValue>, actions: Vec<JsonValue>) -> (r: JsonValue)
    ensures
        r@ == form_card_json(jv_items(body@), jv_items(actions@)),
{
    obj5(
        "$schema",
        text("http://adaptivecards.io/schemas/adaptive-card.json"),
        "actions",
        array(actions),
        "body",
        array(body),
        "type",
        text("AdaptiveCard"),
        "version",
        text("1.6"),
    )
}

// ---------------------------------------------------------------------------
// Choices
// ---------------------------------------------------------------------------

/// The time windows that a form offers.
pub open spec fn time_window_choices_json() -> Seq<Json> {
    seq![choice_json("Last hour"@, "Last hour"@), choice_json("Last 24 hours"@, "Last 24 hours"@), choice_json("Last 7 days"@, "Last 7 days"@)]
}

fn time_window_choices() -> (r: Vec<JsonValue>)
    ensures
        jv_items(r@) == time_window_choices_json(),
{
    items3(choice("Last hour", "Last hour"), choice("Last 24 hours", "Last 24 hours"), choice("Last 7 days", "Last 7 days"))
}

/// The ACI nodes that a form offers.
pub open spec fn node_choices_json() -> Seq<Json> {
    seq![choice_json("ACI POD1 NODE2201"@, "2201"@), choice_json("ACI POD1 NODE2202"@, "2202"@), choice_json("ACI POD2 NODE3101"@, "3101"@)]
}

fn node_choices() -> (r: Vec<JsonValue>)
    ensures
        jv_items(r@) == node_choices_json(),
{
    items3(choice("ACI POD1 NODE2201", "2201"), choice("ACI POD1 NODE2202", "2202"), choice("ACI POD2 NODE3101", "3101"))
}

/// The traffic directions that a form offers.
pub open spec fn direction_choices_json() -> Seq<Json> {
    seq![choice_json("Inbound"@, "Inbound"@), choice_json("Outbound"@, "Outbound"@), choice_json("Bidirectional"@, "Bidirectional"@)]
}

fn direction_choices() -> (r: Vec<JsonValue>)
    ensures
        jv_items(r@) == direction_choices_json(),
{
    items3(choice("Inbound", "Inbound"), choice("Outbound", "Outbound"), choice("Bidirectional", "Bidirectional"))
}

/// The utilisation thresholds that a form offers.
pub open spec fn threshold_choices_json() -> Seq<Json> {
    seq![choice_json("80%"@, "80"@), choice_json("85%"@, "85"@), choice_json("90%"@, "90"@)]
}

fn threshold_choices() -> (r: Vec<JsonValue>)
    ensures
        jv_items(r@) == threshold_choices_json(),
{
    items3(choice("80%", "80"), choice("85%", "85"), choice("90%", "90"))
}

/// The services that the VM RCA form offers.
pub open spec fn vm_service_choices_json() -> Seq<Json> {
    seq![choice_json("Mobile Data Core"@, "mobile-data"@), choice_json("Internet Gateway"@, "internet"@)]
}

fn vm_service_choices() -> (r: Vec<JsonValue>)
    ensures
        jv_items(r@) == vm_service_choices_json(),
{
    items2(choice("Mobile Data Core", "mobile-data"), choice("Internet Gateway", "internet"))
}

/// The clusters that the VM RCA form offers.
pub open spec fn cluster_choices_json() -> Seq<Json> {
    seq![choice_json("Default cluster"@, "default"@), choice_json("Core Riyadh"@, "riyadh-core"@), choice_json("Core Dubai"@, "dubai-core"@)]
}

fn cluster_choices() -> (r: Vec<JsonValue>)
    ensures
        jv_items(r@) == cluster_choices_json(),
{
    items3(choice("Default cluster", "default"), choice("Core Riyadh", "riyadh-core"), choice("Core Dubai", "dubai-core"))
}

/// The symptoms that the VM RCA form offers.
pub open spec fn symptom_choices_json() -> Seq<Json> {
    seq![choice_json("Latency spike"@, "Latency spike"@), choice_json("Packet loss"@, "Packet loss"@), choice_json("CPU saturation"@, "CPU saturation"@)]
}

fn symptom_choices() -> (r: Vec<JsonValue>)
    ensures
        jv_items(r@) == symptom_choices_json(),
{
    items3(choice("Latency spike", "Latency spike"), choice("Packet loss", "Packet loss"), choice("CPU saturation", "CPU saturation"))
}

/// The environments that the SLO form offers.
pub open spec fn environment_choices_json() -> Seq<Json> {
    seq![choice_json("Production"@, "Production"@), choice_json("Staging"@, "Staging"@), choice_json("Pre-production"@, "Pre-production"@)]
}

fn environment_choices() -> (r: Vec<JsonValue>)
    ensures
        jv_items(r@) == environment_choices_json(),
{
    items3(choice("Production", "Production"), choice("Staging", "Staging"), choice("Pre-production", "Pre-production"))
}

/// The scopes that the contention forms offer.
pub open spec fn scope_choices_json() -> Seq<Json> {
    seq![choice_json("Riyadh core"@, "riyadh-core"@), choice_json("Dubai core"@, "dubai-core"@), choice_json("Default cluster"@, "default"@)]
}

fn scope_choices() -> (r: Vec<JsonValue>)
    ensures
        jv_items(r@) == scope_choices_json(),
{
    items3(choice("Riyadh core", "riyadh-core"), choice("Dubai core", "dubai-core"), choice("Default cluster", "default"))
}

/// The change sources that the change form offers.
pub open spec fn source_system_choices_json() -> Seq<Json> {
    seq![choice_json("Change registry"@, "Change registry"@), choice_json("Jira change tickets"@, "Jira change tickets"@), choice_json("GitOps deploy history"@, "GitOps deploy history"@)]
}

fn source_system_choices() -> (r: Vec<JsonValue>)
    ensures
        jv_items(r@) == source_system_choices_json(),
{
    items3(choice("Change registry", "Change registry"), choice("Jira change tickets", "Jira change tickets"), choice("GitOps deploy history", "GitOps deploy history"))
}

// ---------------------------------------------------------------------------
// Parameter forms
// ---------------------------------------------------------------------------

/// The sentence under the title of a playbook's parameter form.
pub open spec fn parameters_intro(p: Playbook) -> Seq<char> {
    match p {
        Playbook::PortUtilisation => "Define the scope before starting the capacity analysis."@,
        Playbook::VmRca => "Define the RCA scope before starting the investigation."@,
        Playbook::PrefixTraffic => "Define the analysis parameters before starting the traffic investigation."@,
        Playbook::SloStatus => "Choose the service scope before evaluating current SLO compliance."@,
        Playbook::BgpAdvertisers => "Choose the prefix scope before reviewing active BGP advertisers."@,
        Playbook::TopSourceAsns => "Define the traffic scope before ranking the top contributing source ASNs."@,
        Playbook::FreePorts => "Choose the ACI node before reviewing currently available interfaces."@,
        Playbook::NoisyNeighbour => "Define the scope before checking for localised contention and neighbour impact."@,
        Playbook::ScopeHealthSweep => "Choose the operational scope before running a broad health sweep."@,
        Playbook::ChangeCorrelation => "Define the change review scope before correlating recent modifications with symptoms."@,
        Playbook::ServiceDegradation => "Choose the service scope before launching a combined degradation triage."@,
    }
}

/// The inputs of a playbook's parameter form, each unlabelled input after its caption.
pub open spec fn parameters_fields(p: Playbook) -> Seq<Json> {
    match p {
        Playbook::PortUtilisation => seq![
            caption_json("Node / device"@),
            choice_set_json("device"@, None, "2201"@, node_choices_json()),
            caption_json("Threshold"@),
            choice_set_json("threshold"@, None, "85"@, threshold_choices_json()),
            caption_json("Time window"@),
            choice_set_json("time_window"@, None, "Last 24 hours"@, time_window_choices_json()),
        ],
        Playbook::VmRca => seq![
            caption_json("Service"@),
            choice_set_json("service"@, None, "mobile-data"@, vm_service_choices_json()),
            caption_json("Cluster"@),
            choice_set_json("cluster"@, None, "default"@, cluster_choices_json()),
            caption_json("Symptom"@),
            choice_set_json("symptom"@, None, "Latency spike"@, symptom_choices_json()),
            caption_json("Time window"@),
            choice_set_json("time_window"@, None, "Last 24 hours"@, time_window_choices_json()),
        ],
        Playbook::PrefixTraffic => seq![
            caption_json("Prefix"@),
            text_input_json("prefix"@, None, "10.24.0.0/16"@, "10.24.0.0/16"@),
            caption_json("Direction"@),
            choice_set_json("direction"@, None, "Inbound"@, direction_choices_json()),
            caption_json("Time window"@),
            choice_set_json("time_window"@, None, "Last 24 hours"@, time_window_choices_json()),
        ],
        Playbook::SloStatus => seq![
            text_input_json("service"@, Some("Service"@), "mobile-data"@, "mobile-data"@),
            choice_set_json("environment"@, Some("Environment"@), "Production"@, environment_choices_json()),
            choice_set_json("time_window"@, Some("Time window"@), "Last 24 hours"@, time_window_choices_json()),
        ],
        Playbook::BgpAdvertisers => seq![
            text_input_json("prefix"@, Some("Prefix"@), "10.24.0.0/16"@, "10.24.0.0/16"@),
            choice_set_json("time_window"@, Some("Time window"@), "Last 24 hours"@, time_window_choices_json()),
        ],
        Playbook::TopSourceAsns => seq![
            text_input_json("prefix"@, Some("Prefix"@), "10.24.0.0/16"@, "10.24.0.0/16"@),
            choice_set_json("direction"@, Some("Direction"@), "Inbound"@, direction_choices_json()),
            choice_set_json("time_window"@, Some("Time window"@), "Last 24 hours"@, time_window_choices_json()),
        ],
        Playbook::FreePorts => seq![
            choice_set_json("device"@, Some("Node / device"@), "2201"@, node_choices_json()),
            choice_set_json("time_window"@, Some("Time window"@), "Last 24 hours"@, time_window_choices_json()),
        ],
        Playbook::NoisyNeighbour => seq![
            choice_set_json("scope"@, Some("Scope"@), "riyadh-core"@, scope_choices_json()),
            choice_set_json("time_window"@, Some("Time window"@), "Last 24 hours"@, time_window_choices_json()),
        ],
        Playbook::ScopeHealthSweep => seq![
            choice_set_json("scope"@, Some("Scope"@), "riyadh-core"@, scope_choices_json()),
            choice_set_json("time_window"@, Some("Time window"@), "Last 24 hours"@, time_window_choices_json()),
        ],
        Playbook::ChangeCorrelation => seq![
            text_input_json("service"@, Some("Service"@), "mobile-data"@, "mobile-data"@),
            choice_set_json("source_system"@, Some("Source system"@), "Change registry"@, source_system_choices_json()),
            choice_set_json("time_window"@, Some("Time window"@), "Last 24 hours"@, time_window_choices_json()),
        ],
        Playbook::ServiceDegradation => seq![
            text_input_json("service"@, Some("Service"@), "mobile-data"@, "mobile-data"@),
            choice_set_json("cluster"@, Some("Cluster"@), "default"@, cluster_choices_json()),
            choice_set_json("time_window"@, Some("Time window"@), "Last 24 hours"@, time_window_choices_json()),
        ],
    }
}

/// The parameter form of a playbook: its title, introduction and inputs, then a
/// button that runs its form and one back to the menu that lists it.
pub open spec fn parameters_card_json(p: Playbook) -> Json {
    form_card_json(
        seq![heading_json(playbook_title(p)), intro_json(parameters_intro(p))] + parameters_fields(p),
        seq![
            submit_json("Start analysis"@, form_step(p)),
            submit_json("← Back to "@ + menu_title(playbook_category(p)), menu_step(playbook_category(p))),
        ],
    )
}

fn parameters_text(p: Playbook) -> (r: (&'static str, &'static str, &'static str, &'static str, &'static str))
    ensures
        r.0@ == playbook_title(p),
        r.1@ == parameters_intro(p),
        r.2@ == form_step(p),
        r.3@ == menu_title(playbook_category(p)),
        r.4@ == menu_step(playbook_category(p)),
{
    match p {
        Playbook::PortUtilisation => ("Overutilised ACI ports", "Define the scope before starting the capacity analysis.", "run:port-utilisation-form", "Capacity & Port Management", "menu:capacity-port-management"),
        Playbook::VmRca => ("Run VM RCA", "Define the RCA scope before starting the investigation.", "run:vm-rca-form", "Performance & Root Cause", "menu:performance-root-cause"),
        Playbook::PrefixTraffic => ("Prefix traffic distribution", "Define the analysis parameters before starting the traffic investigation.", "run:prefix-traffic-form", "Network Traffic & Routing", "menu:network-traffic-routing"),
        Playbook::SloStatus => ("SLO status", "Choose the service scope before evaluating current SLO compliance.", "run:slo-status-form", "Service Assurance", "menu:service-assurance"),
        Playbook::BgpAdvertisers => ("BGP advertisers", "Choose the prefix scope before reviewing active BGP advertisers.", "run:bgp-advertisers-form", "Network Traffic & Routing", "menu:network-traffic-routing"),
        Playbook::TopSourceAsns => ("Top source ASNs", "Define the traffic scope before ranking the top contributing source ASNs.", "run:top-source-asns-form", "Network Traffic & Routing", "menu:network-traffic-routing"),
        Playbook::FreePorts => ("Free ACI ports", "Choose the ACI node before reviewing currently available interfaces.", "run:free-ports-form", "Capacity & Port Management", "menu:capacity-port-management"),
        Playbook::NoisyNeighbour => ("Noisy neighbour", "Define the scope before checking for localised contention and neighbour impact.", "run:noisy-neighbour-form", "Capacity & Port Management", "menu:capacity-port-management"),
        Playbook::ScopeHealthSweep => ("Scope health sweep", "Choose the operational scope before running a broad health sweep.", "run:scope-health-sweep-form", "Capacity & Port Management", "menu:capacity-port-management"),
        Playbook::ChangeCorrelation => ("Recent change correlation", "Define the change review scope before correlating recent modifications with symptoms.", "run:change-correlation-form", "Performance & Root Cause", "menu:performance-root-cause"),
        Playbook::ServiceDegradation => ("Investigate service degradation", "Choose the service scope before launching a combined degradation triage.", "run:service-degradation-form", "Performance & Root Cause", "menu:performance-root-cause"),
    }
}

fn parameters_fields_of(p: Playbook) -> (r: Vec<JsonValue>)
    ensures
        jv_items(r@) == parameters_fields(p),
{
    let mut v = items0();
    match p {
        Playbook::PortUtilisation => {
            push_item(&mut v, caption("Node / device"));
            push_item(&mut v, choice_set("device", None, "2201", node_choices()));
            push_item(&mut v, caption("Threshold"));
            push_item(&mut v, choice_set("threshold", None, "85", threshold_choices()));
            push_item(&mut v, caption("Time window"));
            push_item(&mut v, choice_set("time_window", None, "Last 24 hours", time_window_choices()));
            proof {
                assert(jv_items(v@) =~= parameters_fields(p));
            }
        },
        Playbook::VmRca => {
            push_item(&mut v, caption("Service"));
            push_item(&mut v, choice_set("service", None, "mobile-data", vm_service_choices()));
            push_item(&mut v, caption("Cluster"));
            push_item(&mut v, choice_set("cluster", None, "default", cluster_choices()));
            push_item(&mut v, caption("Symptom"));
            push_item(&mut v, choice_set("symptom", None, "Latency spike", symptom_choices()));
            push_item(&mut v, caption("Time window"));
            push_item(&mut v, choice_set("time_window", None, "Last 24 hours", time_window_choices()));
            proof {
                assert(jv_items(v@) =~= parameters_fields(p));
            }
        },
        Playbook::PrefixTraffic => {
            push_item(&mut v, caption("Prefix"));
            push_item(&mut v, text_input("prefix", None, "10.24.0.0/16", "10.24.0.0/16"));
            push_item(&mut v, caption("Direction"));
            push_item(&mut v, choice_set("direction", None, "Inbound", direction_choices()));
            push_item(&mut v, caption("Time window"));
            push_item(&mut v, choice_set("time_window", None, "Last 24 hours", time_window_choices()));
            proof {
                assert(jv_items(v@) =~= parameters_fields(p));
            }
        },
        Playbook::SloStatus => {
            push_item(&mut v, text_input("service", Some("Service"), "mobile-data", "mobile-data"));
            push_item(&mut v, choice_set("environment", Some("Environment"), "Production", environment_choices()));
            push_item(&mut v, choice_set("time_window", Some("Time window"), "Last 24 hours", time_window_choices()));
            proof {
                assert(jv_items(v@) =~= parameters_fields(p));
            }
        },
        Playbook::BgpAdvertisers => {
            push_item(&mut v, text_input("prefix", Some("Prefix"), "10.24.0.0/16", "10.24.0.0/16"));
            push_item(&mut v, choice_set("time_window", Some("Time window"), "Last 24 hours", time_window_choices()));
            proof {
                assert(jv_items(v@) =~= parameters_fields(p));
            }
        },
        Playbook::TopSourceAsns => {
            push_item(&mut v, text_input("prefix", Some("Prefix"), "10.24.0.0/16", "10.24.0.0/16"));
            push_item(&mut v, choice_set("direction", Some("Direction"), "Inbound", direction_choices()));
            push_item(&mut v, choice_set("time_window", Some("Time window"), "Last 24 hours", time_window_choices()));
            proof {
                assert(jv_items(v@) =~= parameters_fields(p));
            }
        },
        Playbook::FreePorts => {
            push_item(&mut v, choice_set("device", Some("Node / device"), "2201", node_choices()));
            push_item(&mut v, choice_set("time_window", Some("Time window"), "Last 24 hours", time_window_choices()));
            proof {
                assert(jv_items(v@) =~= parameters_fields(p));
            }
        },
        Playbook::NoisyNeighbour => {
            push_item(&mut v, choice_set("scope", Some("Scope"), "riyadh-core", scope_choices()));
            push_item(&mut v, choice_set("time_window", Some("Time window"), "Last 24 hours", time_window_choices()));
            proof {
                assert(jv_items(v@) =~= parameters_fields(p));
            }
        },
        Playbook::ScopeHealthSweep => {
            push_item(&mut v, choice_set("scope", Some("Scope"), "riyadh-core", scope_choices()));
            push_item(&mut v, choice_set("time_window", Some("Time window"), "Last 24 hours", time_window_choices()));
            proof {
                assert(jv_items(v@) =~= parameters_fields(p));
            }
        },
        Playbook::ChangeCorrelation => {
            push_item(&mut v, text_input("service", Some("Service"), "mobile-data", "mobile-data"));
            push_item(&mut v, choice_set("source_system", Some("Source system"), "Change registry", source_system_choices()));
            push_item(&mut v, choice_set("time_window", Some("Time window"), "Last 24 hours", time_window_choices()));
            proof {
                assert(jv_items(v@) =~= parameters_fields(p));
            }
        },
        Playbook::ServiceDegradation => {
            push_item(&mut v, text_input("service", Some("Service"), "mobile-data", "mobile-data"));
            push_item(&mut v, choice_set("cluster", Some("Cluster"), "default", cluster_choices()));
            push_item(&mut v, choice_set("time_window", Some("Time window"), "Last 24 hours", time_window_choices()));
            proof {
                assert(jv_items(v@) =~= parameters_fields(p));
            }
        },
    }
    v
}

/// The parameter form of a playbook.
pub fn parameters_card(p: Playbook) -> (r: JsonValue)
    ensures
        r@ == parameters_card_json(p),
{
    let (title, intro_text, run_step, back_menu, back_step) = parameters_text(p);
    let mut body = items2(heading(title), intro(intro_text));
    let fields = parameters_fields_of(p);
    let ghost head = jv_items(body@);
    let mut i: usize = 0;
    proof {
        crate::json::lemma_jv_items(fields@);
        assert(head + parameters_fields(p).subrange(0, 0) =~= head);
    }
    while i < fields.len()
        invariant
            i <= fields@.len(),
            jv_items(fields@) == parameters_fields(p),
            jv_items(fields@).len() == fields@.len(),
            forall|j: int| 0 <= j < fields@.len() ==> #[trigger] jv_items(fields@)[j] == fields@[j]@,
            jv_items(body@) == head + parameters_fields(p).subrange(0, i as int),
        decreases fields@.len() - i,
    {
        let ghost before = jv_items(body@);
        push_item(&mut body, crate::json::deep_clone(&fields[i]));
        proof {
            assert(head + parameters_fields(p).subrange(0, i + 1) =~= before.push(fields@[i as int]@));
        }
        i = i + 1;
    }
    proof {
        assert(parameters_fields(p).subrange(0, fields@.len() as int) =~= parameters_fields(p));
    }
    let mut back_title = "← Back to ".to_string();
    push_str(&mut back_title, back_menu);
    let actions = items2(submit("Start analysis", run_step), submit(back_title.as_str(), back_step));
    proof {
        assert(jv_items(body@) =~= seq![heading_json(playbook_title(p)), intro_json(parameters_intro(p))] + parameters_fields(p));
    }
    form_card(body, actions)
}

// ---------------------------------------------------------------------------
// Category menus
// ---------------------------------------------------------------------------

/// The sentence under the title of a category menu.
pub open spec fn menu_intro(m: MenuScreen) -> Seq<char> {
    match m {
        MenuScreen::NetworkTrafficRouting => "Analyse prefix traffic, BGP health, and top source ASNs."@,
        MenuScreen::CapacityPortManagement => "Check free and overutilised ACI ports."@,
        MenuScreen::ServiceAssurance => "Evaluate service health and SLO compliance."@,
        MenuScreen::PerformanceRootCause => "Investigate VM issues, change correlation, and combined degradation triage."@,
    }
}

/// The buttons of a category menu: their titles and the playbooks whose
/// parameter forms they open, in order.
pub open spec fn menu_buttons(m: MenuScreen) -> Seq<(Seq<char>, Playbook)> {
    match m {
        MenuScreen::NetworkTrafficRouting => seq![("📶 Prefix traffic"@, Playbook::PrefixTraffic), ("🛰️ BGP advertisers"@, Playbook::BgpAdvertisers), ("🌐 Top source ASNs"@, Playbook::TopSourceAsns)],
        MenuScreen::CapacityPortManagement => seq![("📈 Overutilised ACI ports"@, Playbook::PortUtilisation), ("🟢 Free ACI ports"@, Playbook::FreePorts), ("🫧 Noisy neighbour"@, Playbook::NoisyNeighbour), ("🩺 Scope health sweep"@, Playbook::ScopeHealthSweep)],
        MenuScreen::ServiceAssurance => seq![("📏 SLO status"@, Playbook::SloStatus)],
        MenuScreen::PerformanceRootCause => seq![("🧩 Investigate service degradation"@, Playbook::ServiceDegradation), ("🔄 Recent change correlation"@, Playbook::ChangeCorrelation), ("🧠 Run VM RCA"@, Playbook::VmRca)],
    }
}

/// The button sets of a menu's buttons: the first set apart by a medium space, the others by a small one.
pub open spec fn menu_button_sets(buttons: Seq<(Seq<char>, Playbook)>) -> Seq<Json> {
    Seq::new(
        buttons.len(),
        |i: int|
            button_set_json(
                if i == 0 {
                    "Medium"@
                } else {
                    "Small"@
                },
                buttons[i].0,
                parameters_step(buttons[i].1),
            ),
    )
}

/// The button back to the welcome screen.
pub open spec fn back_to_categories_json() -> Json {
    button_set_json("Small"@, "← Back to categories"@, ""@)
}

/// A category menu: its title and introduction, a button per playbook it lists,
/// and a button back to the categories.
pub open spec fn menu_card_json(m: MenuScreen) -> Json {
    card_json(
        seq![heading_json(menu_title(m)), intro_json(menu_intro(m))] + menu_button_sets(menu_buttons(m))
            + seq![back_to_categories_json()],
    )
}

fn menu_text(m: MenuScreen) -> (r: (&'static str, &'static str))
    ensures
        r.0@ == menu_title(m),
        r.1@ == menu_intro(m),
{
    match m {
        MenuScreen::NetworkTrafficRouting => ("Network Traffic & Routing", "Analyse prefix traffic, BGP health, and top source ASNs."),
        MenuScreen::CapacityPortManagement => ("Capacity & Port Management", "Check free and overutilised ACI ports."),
        MenuScreen::ServiceAssurance => ("Service Assurance", "Evaluate service health and SLO compliance."),
        MenuScreen::PerformanceRootCause => ("Performance & Root Cause", "Investigate VM issues, change correlation, and combined degradation triage."),
    }
}

/// A category menu.
pub fn menu_card(m: MenuScreen) -> (r: JsonValue)
    ensures
        r@ == menu_card_json(m),
{
    let (title, intro_text) = menu_text(m);
    let mut body = items2(heading(title), intro(intro_text));
    match m {
        MenuScreen::NetworkTrafficRouting => {
            push_item(&mut body, button_set("Medium", "📶 Prefix traffic", "menu:prefix-traffic-parameters"));
            push_item(&mut body, button_set("Small", "🛰️ BGP advertisers", "menu:bgp-advertisers-parameters"));
            push_item(&mut body, button_set("Small", "🌐 Top source ASNs", "menu:top-source-asns-parameters"));
            proof {
                assert(menu_button_sets(menu_buttons(m)) =~= seq![button_set_json("Medium"@, "📶 Prefix traffic"@, parameters_step(Playbook::PrefixTraffic)), button_set_json("Small"@, "🛰️ BGP advertisers"@, parameters_step(Playbook::BgpAdvertisers)), button_set_json("Small"@, "🌐 Top source ASNs"@, parameters_step(Playbook::TopSourceAsns))]);
            }
        },
        MenuScreen::CapacityPortManagement => {
            push_item(&mut body, button_set("Medium", "📈 Overutilised ACI ports", "menu:port-utilisation-parameters"));
            push_item(&mut body, button_set("Small", "🟢 Free ACI ports", "menu:free-ports-parameters"));
            push_item(&mut body, button_set("Small", "🫧 Noisy neighbour", "menu:noisy-neighbour-parameters"));
            push_item(&mut body, button_set("Small", "🩺 Scope health sweep", "menu:scope-health-sweep-parameters"));
            proof {
                assert(menu_button_sets(menu_buttons(m)) =~= seq![button_set_json("Medium"@, "📈 Overutilised ACI ports"@, parameters_step(Playbook::PortUtilisation)), button_set_json("Small"@, "🟢 Free ACI ports"@, parameters_step(Playbook::FreePorts)), button_set_json("Small"@, "🫧 Noisy neighbour"@, parameters_step(Playbook::NoisyNeighbour)), button_set_json("Small"@, "🩺 Scope health sweep"@, parameters_step(Playbook::ScopeHealthSweep))]);
            }
        },
        MenuScreen::ServiceAssurance => {
            push_item(&mut body, button_set("Medium", "📏 SLO status", "menu:slo-status-parameters"));
            proof {
                assert(menu_button_sets(menu_buttons(m)) =~= seq![button_set_json("Medium"@, "📏 SLO status"@, parameters_step(Playbook::SloStatus))]);
            }
        },
        MenuScreen::PerformanceRootCause => {
            push_item(&mut body, button_set("Medium", "🧩 Investigate service degradation", "menu:service-degradation-parameters"));
            push_item(&mut body, button_set("Small", "🔄 Recent change correlation", "menu:change-correlation-parameters"));
            push_item(&mut body, button_set("Small", "🧠 Run VM RCA", "menu:vm-rca-parameters"));
            proof {
                assert(menu_button_sets(menu_buttons(m)) =~= seq![button_set_json("Medium"@, "🧩 Investigate service degradation"@, parameters_step(Playbook::ServiceDegradation)), button_set_json("Small"@, "🔄 Recent change correlation"@, parameters_step(Playbook::ChangeCorrelation)), button_set_json("Small"@, "🧠 Run VM RCA"@, parameters_step(Playbook::VmRca))]);
            }
        },
    }
    push_item(&mut body, button_set("Small", "← Back to categories", ""));
    proof {
        assert(jv_items(body@) =~= seq![heading_json(menu_title(m)), intro_json(menu_intro(m))]
            + menu_button_sets(menu_buttons(m)) + seq![back_to_categories_json()]);
    }
    card(body)
}

// ---------------------------------------------------------------------------
// Welcome screen
// ---------------------------------------------------------------------------

/// The banner at the top of the welcome screen, members in ascending key order.
pub open spec fn welcome_banner_json() -> Json {
    Json::Object(
        seq![
            ("bleed"@, Json::Bool(true)),
            (
                "items"@,
                Json::Array(
                    seq![
                        Json::Object(
                            seq![
                                (
                                    "columns"@,
                                    Json::Array(
                                        seq![
                                            Json::Object(
                                                seq![
                                                    (
                                                        "items"@,
                                                        Json::Array(
                                                            seq![
                                                                Json::Object(
                                                                    seq![
                                                                        ("size"@, Json::Str("ExtraLarge"@)),
                                                                        ("text"@, Json::Str("📡"@)),
                                                                        ("type"@, Json::Str("TextBlock"@)),
                                                                    ],
                                                                ),
                                                            ],
                                                        ),
                                                    ),
                                                    ("type"@, Json::Str("Column"@)),
                                                    ("verticalContentAlignment"@, Json::Str("Center"@)),
                                                    ("width"@, Json::Str("auto"@)),
                                                ],
                                            ),
                                            Json::Object(
                                                seq![
                                                    (
                                                        "items"@,
                                                        Json::Array(
                                                            seq![
                                                                Json::Object(
                                                                    seq![
                                                                        ("size"@, Json::Str("Large"@)),
                                                                        ("text"@, Json::Str("Telco-X Demo"@)),
                                                                        ("type"@, Json::Str("TextBlock"@)),
                                                                        ("weight"@, Json::Str("Bolder"@)),
                                                                        ("wrap"@, Json::Bool(true)),
                                                                    ],
                                                                ),
                                                                Json::Object(
                                                                    seq![
                                                                        ("isSubtle"@, Json::Bool(true)),
                                                                        ("size"@, Json::Str("Small"@)),
                                                                        ("spacing"@, Json::Str("Small"@)),
                                                                        (
                                                                            "text"@,
                                                                            Json::Str(
                                                                                "Explore the Telco-X workflows through realistic operator questions."@,
                                                                            ),
                                                                        ),
                                                                        ("type"@, Json::Str("TextBlock"@)),
                                                                        ("wrap"@, Json::Bool(true)),
                                                                    ],
                                                                ),
                                                            ],
                                                        ),
                                                    ),
                                                    ("type"@, Json::Str("Column"@)),
                                                    ("width"@, Json::Str("stretch"@)),
                                                ],
                                            ),
                                        ],
                                    ),
                                ),
                                ("type"@, Json::Str("ColumnSet"@)),
                            ],
                        ),
                    ],
                ),
            ),
            ("style"@, Json::Str("emphasis"@)),
            ("type"@, Json::Str("Container"@)),
        ],
    )
}

/// The question under the banner of the welcome screen.
pub open spec fn welcome_question_json() -> Json {
    Json::Object(
        seq![
            ("spacing"@, Json::Str("Large"@)),
            ("text"@, Json::Str("What would you like to explore?"@)),
            ("type"@, Json::Str("TextBlock"@)),
            ("weight"@, Json::Str("Bolder"@)),
        ],
    )
}

/// The category menus that the welcome screen offers, in order.
pub open spec fn welcome_menus() -> Seq<MenuScreen> {
    seq![
        MenuScreen::NetworkTrafficRouting,
        MenuScreen::CapacityPortManagement,
        MenuScreen::ServiceAssurance,
        MenuScreen::PerformanceRootCause,
    ]
}

/// The welcome screen: a banner, a question, and a button per category menu.
pub open spec fn welcome_card_json() -> Json {
    card_json(
        seq![welcome_banner_json(), welcome_question_json()] + Seq::new(
            4,
            |i: int|
                button_set_json(
                    if i == 0 {
                        "Medium"@
                    } else {
                        "Small"@
                    },
                    menu_title(welcome_menus()[i]),
                    menu_step(welcome_menus()[i]),
                ),
        ),
    )
}

fn welcome_banner() -> (r: JsonValue)
    ensures
        r@ == welcome_banner_json(),
{
    let icon_column = obj4(
        "items",
        array(items1(obj3("size", text("ExtraLarge"), "text", text("📡"), "type", text("TextBlock")))),
        "type",
        text("Column"),
        "verticalContentAlignment",
        text("Center"),
        "width",
        text("auto"),
    );
    let title = obj5(
        "size",
        text("Large"),
        "text",
        text("Telco-X Demo"),
        "type",
        text("TextBlock"),
        "weight",
        text("Bolder"),
        "wrap",
        JsonValue::Bool(true),
    );
    let subtitle = obj6(
        "isSubtle",
        JsonValue::Bool(true),
        "size",
        text("Small"),
        "spacing",
        text("Small"),
        "text",
        text("Explore the Telco-X workflows through realistic operator questions."),
        "type",
        text("TextBlock"),
        "wrap",
        JsonValue::Bool(true),
    );
    let text_column = obj3("items", array(items2(title, subtitle)), "type", text("Column"), "width", text("stretch"));
    let column_set = obj2("columns", array(items2(icon_column, text_column)), "type", text("ColumnSet"));
    obj4(
        "bleed",
        JsonValue::Bool(true),
        "items",
        array(items1(column_set)),
        "style",
        text("emphasis"),
        "type",
        text("Container"),
    )
}

/// The welcome screen.
pub fn welcome_card() -> (r: JsonValue)
    ensures
        r@ == welcome_card_json(),
{
    let mut body = items2(
        welcome_banner(),
        obj4(
            "spacing",
            text("Large"),
            "text",
            text("What would you like to explore?"),
            "type",
            text("TextBlock"),
            "weight",
            text("Bolder"),
        ),
    );
    push_item(&mut body, button_set("Medium", "Network Traffic & Routing", "menu:network-traffic-routing"));
    push_item(&mut body, button_set("Small", "Capacity & Port Management", "menu:capacity-port-management"));
    push_item(&mut body, button_set("Small", "Service Assurance", "menu:service-assurance"));
    push_item(&mut body, button_set("Small", "Performance & Root Cause", "menu:performance-root-cause"));
    proof {
        assert(jv_items(body@) =~= seq![welcome_banner_json(), welcome_question_json()] + Seq::new(
            4,
            |i: int|
                button_set_json(
                    if i == 0 {
                        "Medium"@
                    } else {
                        "Small"@
                    },
                    menu_title(welcome_menus()[i]),
                    menu_step(welcome_menus()[i]),
                ),
        ));
    }
    card(body)
}

// ---------------------------------------------------------------------------
// Where the buttons lead
// ---------------------------------------------------------------------------

/// The step that a submit button sends.
pub open spec fn submit_step(action: Json) -> Option<Seq<char>> {
    match json_get(action, "data"@) {
        Some(d) => json_get_str(d, "step"@),
        None => None,
    }
}

/// The step that the first button of an action set sends.
pub open spec fn set_step(set: Json) -> Option<Seq<char>> {
    match json_get(set, "actions"@) {
        Some(Json::Array(a)) => if a.len() > 0 {
            submit_step(a[0])
        } else {
            None
        },
        _ => None,
    }
}

/// The body of a card.
pub open spec fn card_body(card: Json) -> Seq<Json> {
    match json_get(card, "body"@) {
        Some(Json::Array(b)) => b,
        _ => Seq::empty(),
    }
}

/// The buttons under the body of a card.
pub open spec fn card_actions(card: Json) -> Seq<Json> {
    match json_get(card, "actions"@) {
        Some(Json::Array(a)) => a,
        _ => Seq::empty(),
    }
}

proof fn lemma_card_members(body: Seq<Json>, actions: Seq<Json>)
    ensures
        card_body(card_json(body)) == body,
        card_body(form_card_json(body, actions)) == body,
        card_actions(form_card_json(body, actions)) == actions,
{
    reveal_strlit("$schema");
    reveal_strlit("body");
    reveal_strlit("actions");
    reveal_with_fuel(crate::json::entries_get, 3);
    assert("$schema"@ != "body"@) by {
        assert("$schema"@.len() != "body"@.len());
    }
    assert("$schema"@ != "actions"@) by {
        assert("$schema"@[0] != "actions"@[0]);
    }
    assert("actions"@ != "body"@) by {
        assert("actions"@.len() != "body"@.len());
    }
}

proof fn lemma_button_set_step(spacing: Seq<char>, title: Seq<char>, step: Seq<char>)
    ensures
        set_step(button_set_json(spacing, title, step)) == Some(step),
        submit_step(submit_json(title, step)) == Some(step),
{
}

/// Each button of the welcome screen opens the category menu it names.
pub proof fn lemma_welcome_buttons_open_menus(i: int)
    requires
        0 <= i < 4,
    ensures
        set_step(card_body(welcome_card_json())[2 + i]) == Some(menu_step(welcome_menus()[i])),
        plan_of(menu_step(welcome_menus()[i])) == PlanModel::Menu(welcome_menus()[i]),
{
    let body = card_body(welcome_card_json());
    lemma_card_members(
        seq![welcome_banner_json(), welcome_question_json()] + Seq::new(
            4,
            |k: int|
                button_set_json(
                    if k == 0 {
                        "Medium"@
                    } else {
                        "Small"@
                    },
                    menu_title(welcome_menus()[k]),
                    menu_step(welcome_menus()[k]),
                ),
        ),
        Seq::empty(),
    );
    let m = welcome_menus()[i];
    lemma_button_set_step(if i == 0 { "Medium"@ } else { "Small"@ }, menu_title(m), menu_step(m));
    lemma_menu_step_opens_menu(m);
}

/// Every category menu has its button on the welcome screen.
pub proof fn lemma_welcome_offers_every_menu(m: MenuScreen)
    ensures
        exists|j: int| 0 <= j < 4 && #[trigger] welcome_menus()[j] == m,
{
    match m {
        MenuScreen::NetworkTrafficRouting => assert(welcome_menus()[0] == m),
        MenuScreen::CapacityPortManagement => assert(welcome_menus()[1] == m),
        MenuScreen::ServiceAssurance => assert(welcome_menus()[2] == m),
        MenuScreen::PerformanceRootCause => assert(welcome_menus()[3] == m),
    }
}

/// Each button of a category menu opens the parameter form of a playbook of that
/// category, and its last button leads back to the welcome screen.
pub proof fn lemma_menu_buttons_open_forms(m: MenuScreen, i: int)
    requires
        0 <= i < menu_buttons(m).len(),
    ensures
        set_step(card_body(menu_card_json(m))[2 + i]) == Some(parameters_step(menu_buttons(m)[i].1)),
        plan_of(parameters_step(menu_buttons(m)[i].1)) == PlanModel::Parameters(menu_buttons(m)[i].1),
        playbook_category(menu_buttons(m)[i].1) == m,
        set_step(card_body(menu_card_json(m)).last()) == Some(""@),
        plan_of(""@) == PlanModel::Welcome,
{
    reveal_strlit("");
    let buttons = menu_buttons(m);
    lemma_card_members(
        seq![heading_json(menu_title(m)), intro_json(menu_intro(m))] + menu_button_sets(buttons)
            + seq![back_to_categories_json()],
        Seq::empty(),
    );
    let p = buttons[i].1;
    lemma_button_set_step(if i == 0 { "Medium"@ } else { "Small"@ }, buttons[i].0, parameters_step(p));
    lemma_button_set_step("Small"@, "← Back to categories"@, ""@);
    lemma_parameters_step_opens_parameters(p);
}

/// Every playbook has a button in the menu of its category.
pub proof fn lemma_every_playbook_is_listed(p: Playbook)
    ensures
        exists|i: int| 0 <= i < menu_buttons(playbook_category(p)).len() && (#[trigger] menu_buttons(playbook_category(p))[i]).1 == p,
{
    let buttons = menu_buttons(playbook_category(p));
    match p {
        Playbook::PrefixTraffic => assert(buttons[0].1 == p),
        Playbook::BgpAdvertisers => assert(buttons[1].1 == p),
        Playbook::TopSourceAsns => assert(buttons[2].1 == p),
        Playbook::PortUtilisation => assert(buttons[0].1 == p),
        Playbook::FreePorts => assert(buttons[1].1 == p),
        Playbook::NoisyNeighbour => assert(buttons[2].1 == p),
        Playbook::ScopeHealthSweep => assert(buttons[3].1 == p),
        Playbook::SloStatus => assert(buttons[0].1 == p),
        Playbook::ServiceDegradation => assert(buttons[0].1 == p),
        Playbook::ChangeCorrelation => assert(buttons[1].1 == p),
        Playbook::VmRca => assert(buttons[2].1 == p),
    }
}

/// The first button of a parameter form runs that playbook's form, and the
/// second leads back to the menu that lists the playbook.
pub proof fn lemma_parameters_card_buttons(p: Playbook)
    ensures
        submit_step(card_actions(parameters_card_json(p))[0]) == Some(form_step(p)),
        plan_of(form_step(p)) == PlanModel::FormRun(p),
        submit_step(card_actions(parameters_card_json(p))[1]) == Some(menu_step(playbook_category(p))),
        plan_of(menu_step(playbook_category(p))) == PlanModel::Menu(playbook_category(p)),
{
    let actions = seq![
        submit_json("Start analysis"@, form_step(p)),
        submit_json("← Back to "@ + menu_title(playbook_category(p)), menu_step(playbook_category(p))),
    ];
    lemma_card_members(
        seq![heading_json(playbook_title(p)), intro_json(parameters_intro(p))] + parameters_fields(p),
        actions,
    );
    lemma_button_set_step(""@, "Start analysis"@, form_step(p));
    lemma_button_set_step(""@, "← Back to "@ + menu_title(playbook_category(p)), menu_step(playbook_category(p)));
    lemma_form_step_runs_form(p);
    lemma_menu_step_opens_menu(playbook_category(p));
}

// ---------------------------------------------------------------------------
// Answers of the screens that run no playbook
// ---------------------------------------------------------------------------

/// The card of a screen that runs no playbook.
pub open spec fn screen_card_json(plan: PlanModel) -> Json {
    match plan {
        PlanModel::Menu(m) => menu_card_json(m),
        PlanModel::Parameters(p) => parameters_card_json(p),
        _ => welcome_card_json(),
    }
}

/// What the presentation component answers.
#[derive(Debug, PartialEq)]
pub struct PresentOutput {
    pub scenario: String,
    pub playbook_id: String,
    pub summary: String,
    pub text: Option<String>,
    pub provider_hint: String,
    pub messages: JsonValue,
    pub rendered_card: Option<JsonValue>,
    pub adaptive_card: Option<JsonValue>,
    pub presentation: JsonValue,
}

/// The answer to a request for a screen that runs no playbook: its fixed
/// identity, its card (rendered, as the adaptive card and as the one message),
/// and the request's provider; `None` for a request that runs a playbook.
pub fn present_screen(input: &PresentInput) -> (r: Option<PresentOutput>)
    ensures
        r is Some <==> is_fixed_screen(plan_of(route_of(*input))),
        r matches Some(out) ==> {
            let plan = plan_of(route_of(*input));
            &&& out.scenario@ == scenario_name(plan)
            &&& out.playbook_id@ == screen_playbook_id(plan)
            &&& out.summary@ == screen_summary(plan)
            &&& out.text matches Some(t) && t@ == screen_summary(plan)
            &&& out.provider_hint@ == provider_of(*input)
            &&& out.messages@ == response_messages(screen_card_json(plan), false, false)
            &&& out.rendered_card matches Some(c) && c@ == screen_card_json(plan)
            &&& out.adaptive_card matches Some(c) && c@ == screen_card_json(plan)
            &&& out.presentation@ == screen_presentation(plan)
        },
{
    let plan = present_plan(input);
    let info = match fixed_screen(&plan) {
        Some(info) => info,
        None => {
            return None;
        },
    };
    let card = match &plan {
        PresentPlan::Menu(m) => menu_card(*m),
        PresentPlan::Parameters(p) => parameters_card(*p),
        _ => welcome_card(),
    };
    let messages = response_messages_from_card(&card, false, false);
    let rendered = deep_clone(&card);
    let text_copy = info.summary.clone();
    Some(
        PresentOutput {
            scenario: info.scenario,
            playbook_id: info.playbook_id,
            summary: info.summary,
            text: Some(text_copy),
            provider_hint: provider_hint(input),
            messages,
            rendered_card: Some(rendered),
            adaptive_card: Some(card),
            presentation: info.presentation,
        },
    )
}

/// A request whose route (its non-blank step, else its query, trimmed) is
/// blank or the login callback shows the welcome screen.
pub proof fn lemma_blank_route_is_welcome(input: PresentInput)
    requires
        route_of(input).len() == 0 || route_of(input) == "oauth_login_success"@,
    ensures
        plan_of(route_of(input)) == PlanModel::Welcome,
        is_fixed_screen(plan_of(route_of(input))),
        crate::telco_screens::scenario_name(plan_of(route_of(input))) == "welcome"@,
        crate::telco_screens::screen_playbook_id(plan_of(route_of(input))) == "tx.playbook.welcome"@,
{
}

} // verus!
