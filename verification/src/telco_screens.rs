//! The names and fixed answers of the Telco-X screens: the scenario that each
//! plan is reported as, and the identifier, summary and presentation of the
//! welcome screen, the category menus and the parameter screens.
use vstd::prelude::*;

use crate::json::{jv_entries, jv_items, lemma_jv_entries, lemma_jv_items, Json, JsonValue};
use crate::telco_present::{MenuScreen, PlanModel, Playbook, PresentPlan};
use crate::text::push_str;

verus! {

broadcast use vstd::string::group_string_axioms;

/// The name of a playbook in scenarios and presentations.
pub open spec fn playbook_slug(p: Playbook) -> Seq<char> {
    match p {
        Playbook::PortUtilisation => "port-utilisation"@,
        Playbook::VmRca => "vm-rca"@,
        Playbook::PrefixTraffic => "prefix-traffic"@,
        Playbook::SloStatus => "slo-status"@,
        Playbook::BgpAdvertisers => "bgp-advertisers"@,
        Playbook::TopSourceAsns => "top-source-asns"@,
        Playbook::FreePorts => "free-ports"@,
        Playbook::NoisyNeighbour => "noisy-neighbour"@,
        Playbook::ScopeHealthSweep => "scope-health-sweep"@,
        Playbook::ChangeCorrelation => "change-correlation"@,
        Playbook::ServiceDegradation => "service-degradation"@,
    }
}

/// The name of a playbook in identifiers.
pub open spec fn playbook_ident(p: Playbook) -> Seq<char> {
    match p {
        Playbook::PortUtilisation => "port_utilisation"@,
        Playbook::VmRca => "vm_rca"@,
        Playbook::PrefixTraffic => "prefix_traffic"@,
        Playbook::SloStatus => "slo_status"@,
        Playbook::BgpAdvertisers => "bgp_advertisers"@,
        Playbook::TopSourceAsns => "top_source_asns"@,
        Playbook::FreePorts => "free_ports"@,
        Playbook::NoisyNeighbour => "noisy_neighbour"@,
        Playbook::ScopeHealthSweep => "scope_health_sweep"@,
        Playbook::ChangeCorrelation => "change_correlation"@,
        Playbook::ServiceDegradation => "service_degradation"@,
    }
}

/// The title of a playbook's parameter screen.
pub open spec fn playbook_title(p: Playbook) -> Seq<char> {
    match p {
        Playbook::PortUtilisation => "Overutilised ACI ports"@,
        Playbook::VmRca => "Run VM RCA"@,
        Playbook::PrefixTraffic => "Prefix traffic distribution"@,
        Playbook::SloStatus => "SLO status"@,
        Playbook::BgpAdvertisers => "BGP advertisers"@,
        Playbook::TopSourceAsns => "Top source ASNs"@,
        Playbook::FreePorts => "Free ACI ports"@,
        Playbook::NoisyNeighbour => "Noisy neighbour"@,
        Playbook::ScopeHealthSweep => "Scope health sweep"@,
        Playbook::ChangeCorrelation => "Recent change correlation"@,
        Playbook::ServiceDegradation => "Investigate service degradation"@,
    }
}

/// The category menu that lists a playbook.
pub open spec fn playbook_category(p: Playbook) -> MenuScreen {
    match p {
        Playbook::PortUtilisation | Playbook::FreePorts | Playbook::NoisyNeighbour
        | Playbook::ScopeHealthSweep => MenuScreen::CapacityPortManagement,
        Playbook::PrefixTraffic | Playbook::BgpAdvertisers | Playbook::TopSourceAsns =>
            MenuScreen::NetworkTrafficRouting,
        Playbook::SloStatus => MenuScreen::ServiceAssurance,
        _ => MenuScreen::PerformanceRootCause,
    }
}

/// The name of a category menu in scenarios and presentations.
pub open spec fn menu_slug(m: MenuScreen) -> Seq<char> {
    match m {
        MenuScreen::NetworkTrafficRouting => "network-traffic-routing"@,
        MenuScreen::CapacityPortManagement => "capacity-port-management"@,
        MenuScreen::ServiceAssurance => "service-assurance"@,
        MenuScreen::PerformanceRootCause => "performance-root-cause"@,
    }
}

/// The name of a category menu in identifiers.
pub open spec fn menu_ident(m: MenuScreen) -> Seq<char> {
    match m {
        MenuScreen::NetworkTrafficRouting => "network_traffic_routing"@,
        MenuScreen::CapacityPortManagement => "capacity_port_management"@,
        MenuScreen::ServiceAssurance => "service_assurance"@,
        MenuScreen::PerformanceRootCause => "performance_root_cause"@,
    }
}

/// The title of a category menu.
pub open spec fn menu_title(m: MenuScreen) -> Seq<char> {
    match m {
        MenuScreen::NetworkTrafficRouting => "Network Traffic & Routing"@,
        MenuScreen::CapacityPortManagement => "Capacity & Port Management"@,
        MenuScreen::ServiceAssurance => "Service Assurance"@,
        MenuScreen::PerformanceRootCause => "Performance & Root Cause"@,
    }
}

fn playbook_names(p: Playbook) -> (r: (&'static str, &'static str, &'static str))
    ensures
        r.0@ == playbook_slug(p),
        r.1@ == playbook_ident(p),
        r.2@ == playbook_title(p),
{
    match p {
        Playbook::PortUtilisation => ("port-utilisation", "port_utilisation", "Overutilised ACI ports"),
        Playbook::VmRca => ("vm-rca", "vm_rca", "Run VM RCA"),
        Playbook::PrefixTraffic => ("prefix-traffic", "prefix_traffic", "Prefix traffic distribution"),
        Playbook::SloStatus => ("slo-status", "slo_status", "SLO status"),
        Playbook::BgpAdvertisers => ("bgp-advertisers", "bgp_advertisers", "BGP advertisers"),
        Playbook::TopSourceAsns => ("top-source-asns", "top_source_asns", "Top source ASNs"),
        Playbook::FreePorts => ("free-ports", "free_ports", "Free ACI ports"),
        Playbook::NoisyNeighbour => ("noisy-neighbour", "noisy_neighbour", "Noisy neighbour"),
        Playbook::ScopeHealthSweep => ("scope-health-sweep", "scope_health_sweep", "Scope health sweep"),
        Playbook::ChangeCorrelation => (
            "change-correlation",
            "change_correlation",
            "Recent change correlation",
        ),
        Playbook::ServiceDegradation => (
            "service-degradation",
            "service_degradation",
            "Investigate service degradation",
        ),
    }
}

fn playbook_category_of(p: Playbook) -> (r: MenuScreen)
    ensures
        r == playbook_category(p),
{
    match p {
        Playbook::PortUtilisation | Playbook::FreePorts | Playbook::NoisyNeighbour
        | Playbook::ScopeHealthSweep => MenuScreen::CapacityPortManagement,
        Playbook::PrefixTraffic | Playbook::BgpAdvertisers | Playbook::TopSourceAsns =>
            MenuScreen::NetworkTrafficRouting,
        Playbook::SloStatus => MenuScreen::ServiceAssurance,
        _ => MenuScreen::PerformanceRootCause,
    }
}

fn menu_names(m: MenuScreen) -> (r: (&'static str, &'static str, &'static str))
    ensures
        r.0@ == menu_slug(m),
        r.1@ == menu_ident(m),
        r.2@ == menu_title(m),
{
    match m {
        MenuScreen::NetworkTrafficRouting => (
            "network-traffic-routing",
            "network_traffic_routing",
            "Network Traffic & Routing",
        ),
        MenuScreen::CapacityPortManagement => (
            "capacity-port-management",
            "capacity_port_management",
            "Capacity & Port Management",
        ),
        MenuScreen::ServiceAssurance => ("service-assurance", "service_assurance", "Service Assurance"),
        MenuScreen::PerformanceRootCause => (
            "performance-root-cause",
            "performance_root_cause",
            "Performance & Root Cause",
        ),
    }
}

/// The scenario that a plan is reported as.
pub open spec fn scenario_name(plan: PlanModel) -> Seq<char> {
    match plan {
        PlanModel::Welcome => "welcome"@,
        PlanModel::Menu(m) => "menu-"@ + menu_slug(m),
        PlanModel::Parameters(p) => "menu-"@ + playbook_slug(p) + "-parameters"@,
        PlanModel::FormRun(p) => playbook_slug(p) + "-form"@,
        PlanModel::PortRun(_) => "port-utilisation"@,
        PlanModel::VmRun(_) => "vm-rca"@,
        PlanModel::DegradationTriage => "service-degradation-triage"@,
        PlanModel::Keyword(p) => playbook_slug(p),
    }
}

/// The scenario that a plan is reported as.
pub fn scenario_of(plan: &PresentPlan) -> (r: String)
    ensures
        r@ == scenario_name(plan@),
{
    match plan {
        PresentPlan::Welcome => "welcome".to_string(),
        PresentPlan::Menu(m) => {
            let (slug, _, _) = menu_names(*m);
            let mut r = "menu-".to_string();
            push_str(&mut r, slug);
            r
        },
        PresentPlan::Parameters(p) => {
            let (slug, _, _) = playbook_names(*p);
            let mut r = "menu-".to_string();
            push_str(&mut r, slug);
            push_str(&mut r, "-parameters");
            r
        },
        PresentPlan::FormRun(p) => {
            let (slug, _, _) = playbook_names(*p);
            let mut r = slug.to_string();
            push_str(&mut r, "-form");
            r
        },
        PresentPlan::PortRun(_) => "port-utilisation".to_string(),
        PresentPlan::VmRun(_) => "vm-rca".to_string(),
        PresentPlan::DegradationTriage => "service-degradation-triage".to_string(),
        PresentPlan::Keyword(p) => {
            let (slug, _, _) = playbook_names(*p);
            slug.to_string()
        },
    }
}

/// The fixed answer of a screen that runs no playbook.
#[derive(Debug, PartialEq)]
pub struct ScreenInfo {
    pub scenario: String,
    pub playbook_id: String,
    /// The summary, which is also the answer's text.
    pub summary: String,
    pub presentation: JsonValue,
}

/// Whether a plan shows a screen that runs no playbook.
pub open spec fn is_fixed_screen(plan: PlanModel) -> bool {
    plan is Welcome || plan is Menu || plan is Parameters
}

pub open spec fn screen_playbook_id(plan: PlanModel) -> Seq<char> {
    match plan {
        PlanModel::Menu(m) => "tx.menu."@ + menu_ident(m),
        PlanModel::Parameters(p) => "tx.menu."@ + playbook_ident(p) + "_parameters"@,
        _ => "tx.playbook.welcome"@,
    }
}

pub open spec fn screen_summary(plan: PlanModel) -> Seq<char> {
    match plan {
        PlanModel::Menu(m) => menu_title(m),
        PlanModel::Parameters(p) => playbook_title(p),
        _ => "Welcome to the Telco-X demo."@,
    }
}

/// The prompts of the welcome screen, in the order it lists them.
pub open spec fn welcome_prompts() -> Seq<Json> {
    seq![
        Json::Str("menu:network-traffic-routing"@),
        Json::Str("menu:capacity-port-management"@),
        Json::Str("menu:performance-root-cause"@),
        Json::Str("menu:service-assurance"@),
    ]
}

/// The presentation of a fixed screen, members in ascending key order.
pub open spec fn screen_presentation(plan: PlanModel) -> Json {
    match plan {
        PlanModel::Menu(m) => Json::Object(
            seq![("category"@, Json::Str(menu_slug(m))), ("kind"@, Json::Str("menu"@))],
        ),
        PlanModel::Parameters(p) => Json::Object(
            seq![
                ("category"@, Json::Str(menu_slug(playbook_category(p)))),
                ("kind"@, Json::Str("parameter-menu"@)),
                ("playbook"@, Json::Str(playbook_slug(p))),
            ],
        ),
        _ => Json::Object(
            seq![("kind"@, Json::Str("welcome"@)), ("prompts"@, Json::Array(welcome_prompts()))],
        ),
    }
}

fn welcome_presentation() -> (r: JsonValue)
    ensures
        r@ == screen_presentation(PlanModel::Welcome),
{
    let prompts: Vec<JsonValue> = vec![
        JsonValue::from_str("menu:network-traffic-routing"),
        JsonValue::from_str("menu:capacity-port-management"),
        JsonValue::from_str("menu:performance-root-cause"),
        JsonValue::from_str("menu:service-assurance"),
    ];
    proof {
        lemma_jv_items(prompts@);
        assert(jv_items(prompts@) =~= welcome_prompts());
    }
    let entries: Vec<(String, JsonValue)> = vec![
        ("kind".to_string(), JsonValue::from_str("welcome")),
        ("prompts".to_string(), JsonValue::Array(prompts)),
    ];
    proof {
        lemma_jv_entries(entries@);
        assert(jv_entries(entries@) =~= screen_presentation(PlanModel::Welcome)->Object_0);
    }
    JsonValue::Object(entries)
}

fn menu_presentation(m: MenuScreen) -> (r: JsonValue)
    ensures
        r@ == screen_presentation(PlanModel::Menu(m)),
{
    let (slug, _, _) = menu_names(m);
    let entries: Vec<(String, JsonValue)> = vec![
        ("category".to_string(), JsonValue::from_str(slug)),
        ("kind".to_string(), JsonValue::from_str("menu")),
    ];
    proof {
        lemma_jv_entries(entries@);
        assert(jv_entries(entries@) =~= screen_presentation(PlanModel::Menu(m))->Object_0);
    }
    JsonValue::Object(entries)
}

fn parameters_presentation(p: Playbook) -> (r: JsonValue)
    ensures
        r@ == screen_presentation(PlanModel::Parameters(p)),
{
    let (slug, _, _) = playbook_names(p);
    let (category, _, _) = menu_names(playbook_category_of(p));
    let entries: Vec<(String, JsonValue)> = vec![
        ("category".to_string(), JsonValue::from_str(category)),
        ("kind".to_string(), JsonValue::from_str("parameter-menu")),
        ("playbook".to_string(), JsonValue::from_str(slug)),
    ];
    proof {
        lemma_jv_entries(entries@);
        assert(jv_entries(entries@) =~= screen_presentation(PlanModel::Parameters(p))->Object_0);
    }
    JsonValue::Object(entries)
}

/// The fixed answer of the welcome screen, a category menu or a parameter
/// screen; `None` for a plan that runs a playbook.
pub fn fixed_screen(plan: &PresentPlan) -> (r: Option<ScreenInfo>)
    ensures
        r is Some <==> is_fixed_screen(plan@),
        r matches Some(info) ==> {
            &&& info.scenario@ == scenario_name(plan@)
            &&& info.playbook_id@ == screen_playbook_id(plan@)
            &&& info.summary@ == screen_summary(plan@)
            &&& info.presentation@ == screen_presentation(plan@)
        },
{
    match plan {
        PresentPlan::Welcome => Some(
            ScreenInfo {
                scenario: scenario_of(plan),
                playbook_id: "tx.playbook.welcome".to_string(),
                summary: "Welcome to the Telco-X demo.".to_string(),
                presentation: welcome_presentation(),
            },
        ),
        PresentPlan::Menu(m) => {
            let (_, ident, title) = menu_names(*m);
            let mut id = "tx.menu.".to_string();
            push_str(&mut id, ident);
            Some(
                ScreenInfo {
                    scenario: scenario_of(plan),
                    playbook_id: id,
                    summary: title.to_string(),
                    presentation: menu_presentation(*m),
                },
            )
        },
        PresentPlan::Parameters(p) => {
            let (_, ident, title) = playbook_names(*p);
            let mut id = "tx.menu.".to_string();
            push_str(&mut id, ident);
            push_str(&mut id, "_parameters");
            Some(
                ScreenInfo {
                    scenario: scenario_of(plan),
                    playbook_id: id,
                    summary: title.to_string(),
                    presentation: parameters_presentation(*p),
                },
            )
        },
        _ => None,
    }
}

} // verus!
