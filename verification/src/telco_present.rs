//! How the Telco-X presentation component reads a request: which screen or
//! playbook a query or button step asks for, with which parameters, and how a
//! rendered card is split into chat messages.
use vstd::prelude::*;

use crate::json::{deep_clone, is_nonempty_object, json_get, json_str,
    str_eq, Json, JsonValue};
use crate::i18n::string_views;
use crate::runner_bridge::{opt_json, opt_view};
use crate::text::{push_char, contains, contains_seq, lower_seq, starts_with, strip_prefix, to_ascii_lowercase,
    trim, trimmed};

verus! {

broadcast use vstd::string::group_string_axioms;

/// A presentation request: a free-text query or a button step, with its form metadata.
#[derive(Debug, PartialEq)]
pub struct PresentInput {
    pub query: Option<String>,
    pub step: Option<String>,
    pub metadata: Option<JsonValue>,
    pub message: Option<JsonValue>,
    pub source_provider: Option<String>,
}

pub open spec fn text_or_empty(o: Option<String>) -> Seq<char> {
    match o {
        Some(s) => s@,
        None => Seq::empty(),
    }
}

/// What a request asks for: its trimmed step, or its trimmed query when the step is empty.
pub open spec fn route_of(input: PresentInput) -> Seq<char> {
    if trimmed(text_or_empty(input.step)).len() > 0 {
        trimmed(text_or_empty(input.step))
    } else {
        trimmed(text_or_empty(input.query))
    }
}

/// The channel that the answer is rendered for.
pub open spec fn provider_of(input: PresentInput) -> Seq<char> {
    match input.source_provider {
        Some(p) => p@,
        None => "webchat"@,
    }
}

/// What a request asks for.
pub fn present_route(input: &PresentInput) -> (r: String)
    ensures
        r@ == route_of(*input),
{
    let step: &str = match &input.step {
        Some(s) => trim(s.as_str()),
        None => trim(""),
    };
    let query: &str = match &input.query {
        Some(q) => trim(q.as_str()),
        None => trim(""),
    };
    proof {
        reveal_strlit("");
    }
    if step.unicode_len() > 0 {
        step.to_string()
    } else {
        query.to_string()
    }
}

/// The channel that the answer is rendered for; webchat by default.
pub fn provider_hint(input: &PresentInput) -> (r: String)
    ensures
        r@ == provider_of(*input),
{
    match &input.source_provider {
        Some(p) => p.clone(),
        None => "webchat".to_string(),
    }
}

// ---------------------------------------------------------------------------
// Screens and playbooks
// ---------------------------------------------------------------------------

/// The four category menus.
#[derive(Debug, Clone, Copy, PartialEq, Eq, Structural)]
pub enum MenuScreen {
    NetworkTrafficRouting,
    CapacityPortManagement,
    ServiceAssurance,
    PerformanceRootCause,
}

/// The playbooks of the demo; each has a parameter screen and a form run.
#[derive(Debug, Clone, Copy, PartialEq, Eq, Structural)]
pub enum Playbook {
    PortUtilisation,
    VmRca,
    PrefixTraffic,
    SloStatus,
    BgpAdvertisers,
    TopSourceAsns,
    FreePorts,
    NoisyNeighbour,
    ScopeHealthSweep,
    ChangeCorrelation,
    ServiceDegradation,
}

/// The step of a menu button.
pub open spec fn menu_step(m: MenuScreen) -> Seq<char> {
    match m {
        MenuScreen::NetworkTrafficRouting => "menu:network-traffic-routing"@,
        MenuScreen::CapacityPortManagement => "menu:capacity-port-management"@,
        MenuScreen::ServiceAssurance => "menu:service-assurance"@,
        MenuScreen::PerformanceRootCause => "menu:performance-root-cause"@,
    }
}

/// The step that opens a playbook's parameter screen.
pub open spec fn parameters_step(p: Playbook) -> Seq<char> {
    match p {
        Playbook::PortUtilisation => "menu:port-utilisation-parameters"@,
        Playbook::VmRca => "menu:vm-rca-parameters"@,
        Playbook::PrefixTraffic => "menu:prefix-traffic-parameters"@,
        Playbook::SloStatus => "menu:slo-status-parameters"@,
        Playbook::BgpAdvertisers => "menu:bgp-advertisers-parameters"@,
        Playbook::TopSourceAsns => "menu:top-source-asns-parameters"@,
        Playbook::FreePorts => "menu:free-ports-parameters"@,
        Playbook::NoisyNeighbour => "menu:noisy-neighbour-parameters"@,
        Playbook::ScopeHealthSweep => "menu:scope-health-sweep-parameters"@,
        Playbook::ChangeCorrelation => "menu:change-correlation-parameters"@,
        Playbook::ServiceDegradation => "menu:service-degradation-parameters"@,
    }
}

/// The free-text query that also opens a playbook's parameter screen, where there is one.
pub open spec fn parameters_alias(p: Playbook) -> Option<Seq<char>> {
    match p {
        Playbook::SloStatus => Some("show slo status"@),
        Playbook::BgpAdvertisers => Some("show bgp advertisers"@),
        Playbook::TopSourceAsns => Some("show top source asns"@),
        Playbook::FreePorts => Some("show free aci ports"@),
        Playbook::NoisyNeighbour => Some("show noisy neighbour"@),
        Playbook::ScopeHealthSweep => Some("run scope health sweep"@),
        Playbook::ChangeCorrelation => Some("show recent change correlation"@),
        Playbook::ServiceDegradation => Some("investigate service degradation"@),
        _ => None,
    }
}

/// The step that runs a playbook with its form's values.
pub open spec fn form_step(p: Playbook) -> Seq<char> {
    match p {
        Playbook::PortUtilisation => "run:port-utilisation-form"@,
        Playbook::VmRca => "run:vm-rca-form"@,
        Playbook::PrefixTraffic => "run:prefix-traffic-form"@,
        Playbook::SloStatus => "run:slo-status-form"@,
        Playbook::BgpAdvertisers => "run:bgp-advertisers-form"@,
        Playbook::TopSourceAsns => "run:top-source-asns-form"@,
        Playbook::FreePorts => "run:free-ports-form"@,
        Playbook::NoisyNeighbour => "run:noisy-neighbour-form"@,
        Playbook::ScopeHealthSweep => "run:scope-health-sweep-form"@,
        Playbook::ChangeCorrelation => "run:change-correlation-form"@,
        Playbook::ServiceDegradation => "run:service-degradation-form"@,
    }
}

pub open spec fn port_run_prefix() -> Seq<char> {
    "run:port-utilisation:"@
}

pub open spec fn vm_run_prefix() -> Seq<char> {
    "run:vm-rca:"@
}

/// Whether a query reads as a service-degradation investigation.
pub open spec fn degradation_query(route: Seq<char>) -> bool {
    let q = lower_seq(route);
    ||| contains_seq(q, "degradation"@)
    ||| contains_seq(q, "degraded"@)
    ||| contains_seq(q, "slow"@)
    ||| contains_seq(q, "service issue"@)
    ||| contains_seq(q, "investigate"@)
    ||| contains_seq(q, "triage"@)
}

/// The playbook that the words of a query pick, port utilisation when none matches.
pub open spec fn keyword_playbook(route: Seq<char>) -> Playbook {
    let q = lower_seq(route);
    if contains_seq(q, "prefix"@) || contains_seq(q, "traffic"@) {
        Playbook::PrefixTraffic
    } else if contains_seq(q, "bgp"@) || contains_seq(q, "advertiser"@) {
        Playbook::BgpAdvertisers
    } else if contains_seq(q, "asn"@) {
        Playbook::TopSourceAsns
    } else if contains_seq(q, "free"@) {
        Playbook::FreePorts
    } else if contains_seq(q, "slo"@) || contains_seq(q, "sla"@) {
        Playbook::SloStatus
    } else if contains_seq(q, "scope"@) || contains_seq(q, "health sweep"@) {
        Playbook::ScopeHealthSweep
    } else if contains_seq(q, "noisy"@) {
        Playbook::NoisyNeighbour
    } else if contains_seq(q, "change"@) {
        Playbook::ChangeCorrelation
    } else if contains_seq(q, "vm"@) || contains_seq(q, "rca"@) {
        Playbook::VmRca
    } else {
        Playbook::PortUtilisation
    }
}

/// Whether a query reads as a service-degradation investigation.
pub fn is_service_degradation_query(query: &str) -> (r: bool)
    ensures
        r == degradation_query(query@),
{
    let normalized = to_ascii_lowercase(query);
    let q = normalized.as_str();
    contains(q, "degradation") || contains(q, "degraded") || contains(q, "slow") || contains(
        q,
        "service issue",
    ) || contains(q, "investigate") || contains(q, "triage")
}

/// The playbook that the words of a query pick.
pub fn select_run(query: &str) -> (r: Playbook)
    ensures
        r == keyword_playbook(query@),
{
    let normalized = to_ascii_lowercase(query);
    let q = normalized.as_str();
    if contains(q, "prefix") || contains(q, "traffic") {
        Playbook::PrefixTraffic
    } else if contains(q, "bgp") || contains(q, "advertiser") {
        Playbook::BgpAdvertisers
    } else if contains(q, "asn") {
        Playbook::TopSourceAsns
    } else if contains(q, "free") {
        Playbook::FreePorts
    } else if contains(q, "slo") || contains(q, "sla") {
        Playbook::SloStatus
    } else if contains(q, "scope") || contains(q, "health sweep") {
        Playbook::ScopeHealthSweep
    } else if contains(q, "noisy") {
        Playbook::NoisyNeighbour
    } else if contains(q, "change") {
        Playbook::ChangeCorrelation
    } else if contains(q, "vm") || contains(q, "rca") {
        Playbook::VmRca
    } else {
        Playbook::PortUtilisation
    }
}

// ---------------------------------------------------------------------------
// Routing a request
// ---------------------------------------------------------------------------

/// What a request is answered with, as a mathematical value.
pub enum PlanModel {
    Welcome,
    Menu(MenuScreen),
    Parameters(Playbook),
    FormRun(Playbook),
    /// A port-utilisation run with the parameter text after `run:port-utilisation:`.
    PortRun(Seq<char>),
    /// A VM RCA run with the parameter text after `run:vm-rca:`.
    VmRun(Seq<char>),
    DegradationTriage,
    Keyword(Playbook),
}

/// What a request is answered with.
#[derive(Debug, Clone, PartialEq, Eq)]
pub enum PresentPlan {
    Welcome,
    Menu(MenuScreen),
    Parameters(Playbook),
    FormRun(Playbook),
    PortRun(String),
    VmRun(String),
    DegradationTriage,
    Keyword(Playbook),
}

impl View for PresentPlan {
    type V = PlanModel;

    open spec fn view(&self) -> PlanModel {
        match self {
            PresentPlan::Welcome => PlanModel::Welcome,
            PresentPlan::Menu(m) => PlanModel::Menu(*m),
            PresentPlan::Parameters(p) => PlanModel::Parameters(*p),
            PresentPlan::FormRun(p) => PlanModel::FormRun(*p),
            PresentPlan::PortRun(t) => PlanModel::PortRun(t@),
            PresentPlan::VmRun(t) => PlanModel::VmRun(t@),
            PresentPlan::DegradationTriage => PlanModel::DegradationTriage,
            PresentPlan::Keyword(p) => PlanModel::Keyword(*p),
        }
    }
}

/// The menu that a route opens.
pub open spec fn menu_for(route: Seq<char>) -> Option<MenuScreen> {
    if route == menu_step(MenuScreen::NetworkTrafficRouting) {
        Some(MenuScreen::NetworkTrafficRouting)
    } else if route == menu_step(MenuScreen::CapacityPortManagement) {
        Some(MenuScreen::CapacityPortManagement)
    } else if route == menu_step(MenuScreen::ServiceAssurance) {
        Some(MenuScreen::ServiceAssurance)
    } else if route == menu_step(MenuScreen::PerformanceRootCause) {
        Some(MenuScreen::PerformanceRootCause)
    } else {
        None
    }
}

/// Whether a route names the parameter screen of a playbook, by its step or its alias.
pub open spec fn opens_parameters(route: Seq<char>, p: Playbook) -> bool {
    route == parameters_step(p) || parameters_alias(p) == Some(route)
}

/// The playbook whose parameter screen a route opens.
pub open spec fn parameters_for(route: Seq<char>) -> Option<Playbook> {
    if opens_parameters(route, Playbook::PortUtilisation) {
        Some(Playbook::PortUtilisation)
    } else if opens_parameters(route, Playbook::VmRca) {
        Some(Playbook::VmRca)
    } else if opens_parameters(route, Playbook::PrefixTraffic) {
        Some(Playbook::PrefixTraffic)
    } else if opens_parameters(route, Playbook::SloStatus) {
        Some(Playbook::SloStatus)
    } else if opens_parameters(route, Playbook::BgpAdvertisers) {
        Some(Playbook::BgpAdvertisers)
    } else if opens_parameters(route, Playbook::TopSourceAsns) {
        Some(Playbook::TopSourceAsns)
    } else if opens_parameters(route, Playbook::FreePorts) {
        Some(Playbook::FreePorts)
    } else if opens_parameters(route, Playbook::NoisyNeighbour) {
        Some(Playbook::NoisyNeighbour)
    } else if opens_parameters(route, Playbook::ScopeHealthSweep) {
        Some(Playbook::ScopeHealthSweep)
    } else if opens_parameters(route, Playbook::ChangeCorrelation) {
        Some(Playbook::ChangeCorrelation)
    } else if opens_parameters(route, Playbook::ServiceDegradation) {
        Some(Playbook::ServiceDegradation)
    } else {
        None
    }
}

/// The playbook whose form a route runs.
pub open spec fn form_for(route: Seq<char>) -> Option<Playbook> {
    if route == form_step(Playbook::PrefixTraffic) {
        Some(Playbook::PrefixTraffic)
    } else if route == form_step(Playbook::PortUtilisation) {
        Some(Playbook::PortUtilisation)
    } else if route == form_step(Playbook::VmRca) {
        Some(Playbook::VmRca)
    } else if route == form_step(Playbook::SloStatus) {
        Some(Playbook::SloStatus)
    } else if route == form_step(Playbook::BgpAdvertisers) {
        Some(Playbook::BgpAdvertisers)
    } else if route == form_step(Playbook::TopSourceAsns) {
        Some(Playbook::TopSourceAsns)
    } else if route == form_step(Playbook::FreePorts) {
        Some(Playbook::FreePorts)
    } else if route == form_step(Playbook::NoisyNeighbour) {
        Some(Playbook::NoisyNeighbour)
    } else if route == form_step(Playbook::ScopeHealthSweep) {
        Some(Playbook::ScopeHealthSweep)
    } else if route == form_step(Playbook::ChangeCorrelation) {
        Some(Playbook::ChangeCorrelation)
    } else if route == form_step(Playbook::ServiceDegradation) {
        Some(Playbook::ServiceDegradation)
    } else {
        None
    }
}

/// What a route is answered with: the welcome screen for an empty route or a
/// finished login, then menus, parameter screens, form runs, parameterised
/// runs, a degradation triage, and otherwise the playbook its words pick.
pub open spec fn plan_of(route: Seq<char>) -> PlanModel {
    if route.len() == 0 || route == "oauth_login_success"@ {
        PlanModel::Welcome
    } else if menu_for(route) is Some {
        PlanModel::Menu(menu_for(route)->0)
    } else if parameters_for(route) is Some {
        PlanModel::Parameters(parameters_for(route)->0)
    } else if form_for(route) is Some {
        PlanModel::FormRun(form_for(route)->0)
    } else if starts_with(route, port_run_prefix()) {
        PlanModel::PortRun(route.subrange(port_run_prefix().len() as int, route.len() as int))
    } else if starts_with(route, vm_run_prefix()) {
        PlanModel::VmRun(route.subrange(vm_run_prefix().len() as int, route.len() as int))
    } else if degradation_query(route) {
        PlanModel::DegradationTriage
    } else {
        PlanModel::Keyword(keyword_playbook(route))
    }
}

fn menu_route(route: &str) -> (r: Option<MenuScreen>)
    ensures
        r == menu_for(route@),
{
    if str_eq(route, "menu:network-traffic-routing") {
        Some(MenuScreen::NetworkTrafficRouting)
    } else if str_eq(route, "menu:capacity-port-management") {
        Some(MenuScreen::CapacityPortManagement)
    } else if str_eq(route, "menu:service-assurance") {
        Some(MenuScreen::ServiceAssurance)
    } else if str_eq(route, "menu:performance-root-cause") {
        Some(MenuScreen::PerformanceRootCause)
    } else {
        None
    }
}

fn parameters_route(route: &str) -> (r: Option<Playbook>)
    ensures
        r == parameters_for(route@),
{
    if str_eq(route, "menu:port-utilisation-parameters") {
        Some(Playbook::PortUtilisation)
    } else if str_eq(route, "menu:vm-rca-parameters") {
        Some(Playbook::VmRca)
    } else if str_eq(route, "menu:prefix-traffic-parameters") {
        Some(Playbook::PrefixTraffic)
    } else if str_eq(route, "menu:slo-status-parameters") || str_eq(route, "show slo status") {
        Some(Playbook::SloStatus)
    } else if str_eq(route, "menu:bgp-advertisers-parameters") || str_eq(route, "show bgp advertisers") {
        Some(Playbook::BgpAdvertisers)
    } else if str_eq(route, "menu:top-source-asns-parameters") || str_eq(route, "show top source asns") {
        Some(Playbook::TopSourceAsns)
    } else if str_eq(route, "menu:free-ports-parameters") || str_eq(route, "show free aci ports") {
        Some(Playbook::FreePorts)
    } else if str_eq(route, "menu:noisy-neighbour-parameters") || str_eq(route, "show noisy neighbour") {
        Some(Playbook::NoisyNeighbour)
    } else if str_eq(route, "menu:scope-health-sweep-parameters") || str_eq(route, "run scope health sweep") {
        Some(Playbook::ScopeHealthSweep)
    } else if str_eq(route, "menu:change-correlation-parameters") || str_eq(
        route,
        "show recent change correlation",
    ) {
        Some(Playbook::ChangeCorrelation)
    } else if str_eq(route, "menu:service-degradation-parameters") || str_eq(
        route,
        "investigate service degradation",
    ) {
        Some(Playbook::ServiceDegradation)
    } else {
        None
    }
}

fn form_route(route: &str) -> (r: Option<Playbook>)
    ensures
        r == form_for(route@),
{
    if str_eq(route, "run:prefix-traffic-form") {
        Some(Playbook::PrefixTraffic)
    } else if str_eq(route, "run:port-utilisation-form") {
        Some(Playbook::PortUtilisation)
    } else if str_eq(route, "run:vm-rca-form") {
        Some(Playbook::VmRca)
    } else if str_eq(route, "run:slo-status-form") {
        Some(Playbook::SloStatus)
    } else if str_eq(route, "run:bgp-advertisers-form") {
        Some(Playbook::BgpAdvertisers)
    } else if str_eq(route, "run:top-source-asns-form") {
        Some(Playbook::TopSourceAsns)
    } else if str_eq(route, "run:free-ports-form") {
        Some(Playbook::FreePorts)
    } else if str_eq(route, "run:noisy-neighbour-form") {
        Some(Playbook::NoisyNeighbour)
    } else if str_eq(route, "run:scope-health-sweep-form") {
        Some(Playbook::ScopeHealthSweep)
    } else if str_eq(route, "run:change-correlation-form") {
        Some(Playbook::ChangeCorrelation)
    } else if str_eq(route, "run:service-degradation-form") {
        Some(Playbook::ServiceDegradation)
    } else {
        None
    }
}

/// What a route is answered with.
pub fn classify_route(route: &str) -> (r: PresentPlan)
    ensures
        r@ == plan_of(route@),
{
    if route.unicode_len() == 0 || str_eq(route, "oauth_login_success") {
        return PresentPlan::Welcome;
    }
    if let Some(m) = menu_route(route) {
        return PresentPlan::Menu(m);
    }
    if let Some(p) = parameters_route(route) {
        return PresentPlan::Parameters(p);
    }
    if let Some(p) = form_route(route) {
        return PresentPlan::FormRun(p);
    }
    if let Some(rest) = strip_prefix(route, "run:port-utilisation:") {
        return PresentPlan::PortRun(rest.to_string());
    }
    if let Some(rest) = strip_prefix(route, "run:vm-rca:") {
        return PresentPlan::VmRun(rest.to_string());
    }
    if is_service_degradation_query(route) {
        return PresentPlan::DegradationTriage;
    }
    PresentPlan::Keyword(select_run(route))
}

/// What a presentation request is answered with.
pub fn present_plan(input: &PresentInput) -> (r: PresentPlan)
    ensures
        r@ == plan_of(route_of(*input)),
{
    let route = present_route(input);
    classify_route(route.as_str())
}

// ---------------------------------------------------------------------------
// Every button leads to its own screen
// ---------------------------------------------------------------------------

/// The steps and queries that the router recognises are all different.
proof fn lemma_route_literals_distinct()
    ensures
        "oauth_login_success"@ != "menu:network-traffic-routing"@,
        "oauth_login_success"@ != "menu:capacity-port-management"@,
        "oauth_login_success"@ != "menu:service-assurance"@,
        "oauth_login_success"@ != "menu:performance-root-cause"@,
        "oauth_login_success"@ != "menu:port-utilisation-parameters"@,
        "oauth_login_success"@ != "menu:vm-rca-parameters"@,
        "oauth_login_success"@ != "menu:prefix-traffic-parameters"@,
        "oauth_login_success"@ != "menu:slo-status-parameters"@,
        "oauth_login_success"@ != "menu:bgp-advertisers-parameters"@,
        "oauth_login_success"@ != "menu:top-source-asns-parameters"@,
        "oauth_login_success"@ != "menu:free-ports-parameters"@,
        "oauth_login_success"@ != "menu:noisy-neighbour-parameters"@,
        "oauth_login_success"@ != "menu:scope-health-sweep-parameters"@,
        "oauth_login_success"@ != "menu:change-correlation-parameters"@,
        "oauth_login_success"@ != "menu:service-degradation-parameters"@,
        "oauth_login_success"@ != "show slo status"@,
        "oauth_login_success"@ != "show bgp advertisers"@,
        "oauth_login_success"@ != "show top source asns"@,
        "oauth_login_success"@ != "show free aci ports"@,
        "oauth_login_success"@ != "show noisy neighbour"@,
        "oauth_login_success"@ != "run scope health sweep"@,
        "oauth_login_success"@ != "show recent change correlation"@,
        "oauth_login_success"@ != "investigate service degradation"@,
        "oauth_login_success"@ != "run:prefix-traffic-form"@,
        "oauth_login_success"@ != "run:port-utilisation-form"@,
        "oauth_login_success"@ != "run:vm-rca-form"@,
        "oauth_login_success"@ != "run:slo-status-form"@,
        "oauth_login_success"@ != "run:bgp-advertisers-form"@,
        "oauth_login_success"@ != "run:top-source-asns-form"@,
        "oauth_login_success"@ != "run:free-ports-form"@,
        "oauth_login_success"@ != "run:noisy-neighbour-form"@,
        "oauth_login_success"@ != "run:scope-health-sweep-form"@,
        "oauth_login_success"@ != "run:change-correlation-form"@,
        "oauth_login_success"@ != "run:service-degradation-form"@,
        "menu:network-traffic-routing"@ != "menu:capacity-port-management"@,
        "menu:network-traffic-routing"@ != "menu:service-assurance"@,
        "menu:network-traffic-routing"@ != "menu:performance-root-cause"@,
        "menu:network-traffic-routing"@ != "menu:port-utilisation-parameters"@,
        "menu:network-traffic-routing"@ != "menu:vm-rca-parameters"@,
        "menu:network-traffic-routing"@ != "menu:prefix-traffic-parameters"@,
        "menu:network-traffic-routing"@ != "menu:slo-status-parameters"@,
        "menu:network-traffic-routing"@ != "menu:bgp-advertisers-parameters"@,
        "menu:network-traffic-routing"@ != "menu:top-source-asns-parameters"@,
        "menu:network-traffic-routing"@ != "menu:free-ports-parameters"@,
        "menu:network-traffic-routing"@ != "menu:noisy-neighbour-parameters"@,
        "menu:network-traffic-routing"@ != "menu:scope-health-sweep-parameters"@,
        "menu:network-traffic-routing"@ != "menu:change-correlation-parameters"@,
        "menu:network-traffic-routing"@ != "menu:service-degradation-parameters"@,
        "menu:network-traffic-routing"@ != "show slo status"@,
        "menu:network-traffic-routing"@ != "show bgp advertisers"@,
        "menu:network-traffic-routing"@ != "show top source asns"@,
        "menu:network-traffic-routing"@ != "show free aci ports"@,
        "menu:network-traffic-routing"@ != "show noisy neighbour"@,
        "menu:network-traffic-routing"@ != "run scope health sweep"@,
        "menu:network-traffic-routing"@ != "show recent change correlation"@,
        "menu:network-traffic-routing"@ != "investigate service degradation"@,
        "menu:network-traffic-routing"@ != "run:prefix-traffic-form"@,
        "menu:network-traffic-routing"@ != "run:port-utilisation-form"@,
        "menu:network-traffic-routing"@ != "run:vm-rca-form"@,
        "menu:network-traffic-routing"@ != "run:slo-status-form"@,
        "menu:network-traffic-routing"@ != "run:bgp-advertisers-form"@,
        "menu:network-traffic-routing"@ != "run:top-source-asns-form"@,
        "menu:network-traffic-routing"@ != "run:free-ports-form"@,
        "menu:network-traffic-routing"@ != "run:noisy-neighbour-form"@,
        "menu:network-traffic-routing"@ != "run:scope-health-sweep-form"@,
        "menu:network-traffic-routing"@ != "run:change-correlation-form"@,
        "menu:network-traffic-routing"@ != "run:service-degradation-form"@,
        "menu:capacity-port-management"@ != "menu:service-assurance"@,
        "menu:capacity-port-management"@ != "menu:performance-root-cause"@,
        "menu:capacity-port-management"@ != "menu:port-utilisation-parameters"@,
        "menu:capacity-port-management"@ != "menu:vm-rca-parameters"@,
        "menu:capacity-port-management"@ != "menu:prefix-traffic-parameters"@,
        "menu:capacity-port-management"@ != "menu:slo-status-parameters"@,
        "menu:capacity-port-management"@ != "menu:bgp-advertisers-parameters"@,
        "menu:capacity-port-management"@ != "menu:top-source-asns-parameters"@,
        "menu:capacity-port-management"@ != "menu:free-ports-parameters"@,
        "menu:capacity-port-management"@ != "menu:noisy-neighbour-parameters"@,
        "menu:capacity-port-management"@ != "menu:scope-health-sweep-parameters"@,
        "menu:capacity-port-management"@ != "menu:change-correlation-parameters"@,
        "menu:capacity-port-management"@ != "menu:service-degradation-parameters"@,
        "menu:capacity-port-management"@ != "show slo status"@,
        "menu:capacity-port-management"@ != "show bgp advertisers"@,
        "menu:capacity-port-management"@ != "show top source asns"@,
        "menu:capacity-port-management"@ != "show free aci ports"@,
        "menu:capacity-port-management"@ != "show noisy neighbour"@,
        "menu:capacity-port-management"@ != "run scope health sweep"@,
        "menu:capacity-port-management"@ != "show recent change correlation"@,
        "menu:capacity-port-management"@ != "investigate service degradation"@,
        "menu:capacity-port-management"@ != "run:prefix-traffic-form"@,
        "menu:capacity-port-management"@ != "run:port-utilisation-form"@,
        "menu:capacity-port-management"@ != "run:vm-rca-form"@,
        "menu:capacity-port-management"@ != "run:slo-status-form"@,
        "menu:capacity-port-management"@ != "run:bgp-advertisers-form"@,
        "menu:capacity-port-management"@ != "run:top-source-asns-form"@,
        "menu:capacity-port-management"@ != "run:free-ports-form"@,
        "menu:capacity-port-management"@ != "run:noisy-neighbour-form"@,
        "menu:capacity-port-management"@ != "run:scope-health-sweep-form"@,
        "menu:capacity-port-management"@ != "run:change-correlation-form"@,
        "menu:capacity-port-management"@ != "run:service-degradation-form"@,
        "menu:service-assurance"@ != "menu:performance-root-cause"@,
        "menu:service-assurance"@ != "menu:port-utilisation-parameters"@,
        "menu:service-assurance"@ != "menu:vm-rca-parameters"@,
        "menu:service-assurance"@ != "menu:prefix-traffic-parameters"@,
        "menu:service-assurance"@ != "menu:slo-status-parameters"@,
        "menu:service-assurance"@ != "menu:bgp-advertisers-parameters"@,
        "menu:service-assurance"@ != "menu:top-source-asns-parameters"@,
        "menu:service-assurance"@ != "menu:free-ports-parameters"@,
        "menu:service-assurance"@ != "menu:noisy-neighbour-parameters"@,
        "menu:service-assurance"@ != "menu:scope-health-sweep-parameters"@,
        "menu:service-assurance"@ != "menu:change-correlation-parameters"@,
        "menu:service-assurance"@ != "menu:service-degradation-parameters"@,
        "menu:service-assurance"@ != "show slo status"@,
        "menu:service-assurance"@ != "show bgp advertisers"@,
        "menu:service-assurance"@ != "show top source asns"@,
        "menu:service-assurance"@ != "show free aci ports"@,
        "menu:service-assurance"@ != "show noisy neighbour"@,
        "menu:service-assurance"@ != "run scope health sweep"@,
        "menu:service-assurance"@ != "show recent change correlation"@,
        "menu:service-assurance"@ != "investigate service degradation"@,
        "menu:service-assurance"@ != "run:prefix-traffic-form"@,
        "menu:service-assurance"@ != "run:port-utilisation-form"@,
        "menu:service-assurance"@ != "run:vm-rca-form"@,
        "menu:service-assurance"@ != "run:slo-status-form"@,
        "menu:service-assurance"@ != "run:bgp-advertisers-form"@,
        "menu:service-assurance"@ != "run:top-source-asns-form"@,
        "menu:service-assurance"@ != "run:free-ports-form"@,
        "menu:service-assurance"@ != "run:noisy-neighbour-form"@,
        "menu:service-assurance"@ != "run:scope-health-sweep-form"@,
        "menu:service-assurance"@ != "run:change-correlation-form"@,
        "menu:service-assurance"@ != "run:service-degradation-form"@,
        "menu:performance-root-cause"@ != "menu:port-utilisation-parameters"@,
        "menu:performance-root-cause"@ != "menu:vm-rca-parameters"@,
        "menu:performance-root-cause"@ != "menu:prefix-traffic-parameters"@,
        "menu:performance-root-cause"@ != "menu:slo-status-parameters"@,
        "menu:performance-root-cause"@ != "menu:bgp-advertisers-parameters"@,
        "menu:performance-root-cause"@ != "menu:top-source-asns-parameters"@,
        "menu:performance-root-cause"@ != "menu:free-ports-parameters"@,
        "menu:performance-root-cause"@ != "menu:noisy-neighbour-parameters"@,
        "menu:performance-root-cause"@ != "menu:scope-health-sweep-parameters"@,
        "menu:performance-root-cause"@ != "menu:change-correlation-parameters"@,
        "menu:performance-root-cause"@ != "menu:service-degradation-parameters"@,
        "menu:performance-root-cause"@ != "show slo status"@,
        "menu:performance-root-cause"@ != "show bgp advertisers"@,
        "menu:performance-root-cause"@ != "show top source asns"@,
        "menu:performance-root-cause"@ != "show free aci ports"@,
        "menu:performance-root-cause"@ != "show noisy neighbour"@,
        "menu:performance-root-cause"@ != "run scope health sweep"@,
        "menu:performance-root-cause"@ != "show recent change correlation"@,
        "menu:performance-root-cause"@ != "investigate service degradation"@,
        "menu:performance-root-cause"@ != "run:prefix-traffic-form"@,
        "menu:performance-root-cause"@ != "run:port-utilisation-form"@,
        "menu:performance-root-cause"@ != "run:vm-rca-form"@,
        "menu:performance-root-cause"@ != "run:slo-status-form"@,
        "menu:performance-root-cause"@ != "run:bgp-advertisers-form"@,
        "menu:performance-root-cause"@ != "run:top-source-asns-form"@,
        "menu:performance-root-cause"@ != "run:free-ports-form"@,
        "menu:performance-root-cause"@ != "run:noisy-neighbour-form"@,
        "menu:performance-root-cause"@ != "run:scope-health-sweep-form"@,
        "menu:performance-root-cause"@ != "run:change-correlation-form"@,
        "menu:performance-root-cause"@ != "run:service-degradation-form"@,
        "menu:port-utilisation-parameters"@ != "menu:vm-rca-parameters"@,
        "menu:port-utilisation-parameters"@ != "menu:prefix-traffic-parameters"@,
        "menu:port-utilisation-parameters"@ != "menu:slo-status-parameters"@,
        "menu:port-utilisation-parameters"@ != "menu:bgp-advertisers-parameters"@,
        "menu:port-utilisation-parameters"@ != "menu:top-source-asns-parameters"@,
        "menu:port-utilisation-parameters"@ != "menu:free-ports-parameters"@,
        "menu:port-utilisation-parameters"@ != "menu:noisy-neighbour-parameters"@,
        "menu:port-utilisation-parameters"@ != "menu:scope-health-sweep-parameters"@,
        "menu:port-utilisation-parameters"@ != "menu:change-correlation-parameters"@,
        "menu:port-utilisation-parameters"@ != "menu:service-degradation-parameters"@,
        "menu:port-utilisation-parameters"@ != "show slo status"@,
        "menu:port-utilisation-parameters"@ != "show bgp advertisers"@,
        "menu:port-utilisation-parameters"@ != "show top source asns"@,
        "menu:port-utilisation-parameters"@ != "show free aci ports"@,
        "menu:port-utilisation-parameters"@ != "show noisy neighbour"@,
        "menu:port-utilisation-parameters"@ != "run scope health sweep"@,
        "menu:port-utilisation-parameters"@ != "show recent change correlation"@,
        "menu:port-utilisation-parameters"@ != "investigate service degradation"@,
        "menu:port-utilisation-parameters"@ != "run:prefix-traffic-form"@,
        "menu:port-utilisation-parameters"@ != "run:port-utilisation-form"@,
        "menu:port-utilisation-parameters"@ != "run:vm-rca-form"@,
        "menu:port-utilisation-parameters"@ != "run:slo-status-form"@,
        "menu:port-utilisation-parameters"@ != "run:bgp-advertisers-form"@,
        "menu:port-utilisation-parameters"@ != "run:top-source-asns-form"@,
        "menu:port-utilisation-parameters"@ != "run:free-ports-form"@,
        "menu:port-utilisation-parameters"@ != "run:noisy-neighbour-form"@,
        "menu:port-utilisation-parameters"@ != "run:scope-health-sweep-form"@,
        "menu:port-utilisation-parameters"@ != "run:change-correlation-form"@,
        "menu:port-utilisation-parameters"@ != "run:service-degradation-form"@,
        "menu:vm-rca-parameters"@ != "menu:prefix-traffic-parameters"@,
        "menu:vm-rca-parameters"@ != "menu:slo-status-parameters"@,
        "menu:vm-rca-parameters"@ != "menu:bgp-advertisers-parameters"@,
        "menu:vm-rca-parameters"@ != "menu:top-source-asns-parameters"@,
        "menu:vm-rca-parameters"@ != "menu:free-ports-parameters"@,
        "menu:vm-rca-parameters"@ != "menu:noisy-neighbour-parameters"@,
        "menu:vm-rca-parameters"@ != "menu:scope-health-sweep-parameters"@,
        "menu:vm-rca-parameters"@ != "menu:change-correlation-parameters"@,
        "menu:vm-rca-parameters"@ != "menu:service-degradation-parameters"@,
        "menu:vm-rca-parameters"@ != "show slo status"@,
        "menu:vm-rca-parameters"@ != "show bgp advertisers"@,
        "menu:vm-rca-parameters"@ != "show top source asns"@,
        "menu:vm-rca-parameters"@ != "show free aci ports"@,
        "menu:vm-rca-parameters"@ != "show noisy neighbour"@,
        "menu:vm-rca-parameters"@ != "run scope health sweep"@,
        "menu:vm-rca-parameters"@ != "show recent change correlation"@,
        "menu:vm-rca-parameters"@ != "investigate service degradation"@,
        "menu:vm-rca-parameters"@ != "run:prefix-traffic-form"@,
        "menu:vm-rca-parameters"@ != "run:port-utilisation-form"@,
        "menu:vm-rca-parameters"@ != "run:vm-rca-form"@,
        "menu:vm-rca-parameters"@ != "run:slo-status-form"@,
        "menu:vm-rca-parameters"@ != "run:bgp-advertisers-form"@,
        "menu:vm-rca-parameters"@ != "run:top-source-asns-form"@,
        "menu:vm-rca-parameters"@ != "run:free-ports-form"@,
        "menu:vm-rca-parameters"@ != "run:noisy-neighbour-form"@,
        "menu:vm-rca-parameters"@ != "run:scope-health-sweep-form"@,
        "menu:vm-rca-parameters"@ != "run:change-correlation-form"@,
        "menu:vm-rca-parameters"@ != "run:service-degradation-form"@,
        "menu:prefix-traffic-parameters"@ != "menu:slo-status-parameters"@,
        "menu:prefix-traffic-parameters"@ != "menu:bgp-advertisers-parameters"@,
        "menu:prefix-traffic-parameters"@ != "menu:top-source-asns-parameters"@,
        "menu:prefix-traffic-parameters"@ != "menu:free-ports-parameters"@,
        "menu:prefix-traffic-parameters"@ != "menu:noisy-neighbour-parameters"@,
        "menu:prefix-traffic-parameters"@ != "menu:scope-health-sweep-parameters"@,
        "menu:prefix-traffic-parameters"@ != "menu:change-correlation-parameters"@,
        "menu:prefix-traffic-parameters"@ != "menu:service-degradation-parameters"@,
        "menu:prefix-traffic-parameters"@ != "show slo status"@,
        "menu:prefix-traffic-parameters"@ != "show bgp advertisers"@,
        "menu:prefix-traffic-parameters"@ != "show top source asns"@,
        "menu:prefix-traffic-parameters"@ != "show free aci ports"@,
        "menu:prefix-traffic-parameters"@ != "show noisy neighbour"@,
        "menu:prefix-traffic-parameters"@ != "run scope health sweep"@,
        "menu:prefix-traffic-parameters"@ != "show recent change correlation"@,
        "menu:prefix-traffic-parameters"@ != "investigate service degradation"@,
        "menu:prefix-traffic-parameters"@ != "run:prefix-traffic-form"@,
        "menu:prefix-traffic-parameters"@ != "run:port-utilisation-form"@,
        "menu:prefix-traffic-parameters"@ != "run:vm-rca-form"@,
        "menu:prefix-traffic-parameters"@ != "run:slo-status-form"@,
        "menu:prefix-traffic-parameters"@ != "run:bgp-advertisers-form"@,
        "menu:prefix-traffic-parameters"@ != "run:top-source-asns-form"@,
        "menu:prefix-traffic-parameters"@ != "run:free-ports-form"@,
        "menu:prefix-traffic-parameters"@ != "run:noisy-neighbour-form"@,
        "menu:prefix-traffic-parameters"@ != "run:scope-health-sweep-form"@,
        "menu:prefix-traffic-parameters"@ != "run:change-correlation-form"@,
        "menu:prefix-traffic-parameters"@ != "run:service-degradation-form"@,
        "menu:slo-status-parameters"@ != "menu:bgp-advertisers-parameters"@,
        "menu:slo-status-parameters"@ != "menu:top-source-asns-parameters"@,
        "menu:slo-status-parameters"@ != "menu:free-ports-parameters"@,
        "menu:slo-status-parameters"@ != "menu:noisy-neighbour-parameters"@,
        "menu:slo-status-parameters"@ != "menu:scope-health-sweep-parameters"@,
        "menu:slo-status-parameters"@ != "menu:change-correlation-parameters"@,
        "menu:slo-status-parameters"@ != "menu:service-degradation-parameters"@,
        "menu:slo-status-parameters"@ != "show slo status"@,
        "menu:slo-status-parameters"@ != "show bgp advertisers"@,
        "menu:slo-status-parameters"@ != "show top source asns"@,
        "menu:slo-status-parameters"@ != "show free aci ports"@,
        "menu:slo-status-parameters"@ != "show noisy neighbour"@,
        "menu:slo-status-parameters"@ != "run scope health sweep"@,
        "menu:slo-status-parameters"@ != "show recent change correlation"@,
        "menu:slo-status-parameters"@ != "investigate service degradation"@,
        "menu:slo-status-parameters"@ != "run:prefix-traffic-form"@,
        "menu:slo-status-parameters"@ != "run:port-utilisation-form"@,
        "menu:slo-status-parameters"@ != "run:vm-rca-form"@,
        "menu:slo-status-parameters"@ != "run:slo-status-form"@,
        "menu:slo-status-parameters"@ != "run:bgp-advertisers-form"@,
        "menu:slo-status-parameters"@ != "run:top-source-asns-form"@,
        "menu:slo-status-parameters"@ != "run:free-ports-form"@,
        "menu:slo-status-parameters"@ != "run:noisy-neighbour-form"@,
        "menu:slo-status-parameters"@ != "run:scope-health-sweep-form"@,
        "menu:slo-status-parameters"@ != "run:change-correlation-form"@,
        "menu:slo-status-parameters"@ != "run:service-degradation-form"@,
        "menu:bgp-advertisers-parameters"@ != "menu:top-source-asns-parameters"@,
        "menu:bgp-advertisers-parameters"@ != "menu:free-ports-parameters"@,
        "menu:bgp-advertisers-parameters"@ != "menu:noisy-neighbour-parameters"@,
        "menu:bgp-advertisers-parameters"@ != "menu:scope-health-sweep-parameters"@,
        "menu:bgp-advertisers-parameters"@ != "menu:change-correlation-parameters"@,
        "menu:bgp-advertisers-parameters"@ != "menu:service-degradation-parameters"@,
        "menu:bgp-advertisers-parameters"@ != "show slo status"@,
        "menu:bgp-advertisers-parameters"@ != "show bgp advertisers"@,
        "menu:bgp-advertisers-parameters"@ != "show top source asns"@,
        "menu:bgp-advertisers-parameters"@ != "show free aci ports"@,
        "menu:bgp-advertisers-parameters"@ != "show noisy neighbour"@,
        "menu:bgp-advertisers-parameters"@ != "run scope health sweep"@,
        "menu:bgp-advertisers-parameters"@ != "show recent change correlation"@,
        "menu:bgp-advertisers-parameters"@ != "investigate service degradation"@,
        "menu:bgp-advertisers-parameters"@ != "run:prefix-traffic-form"@,
        "menu:bgp-advertisers-parameters"@ != "run:port-utilisation-form"@,
        "menu:bgp-advertisers-parameters"@ != "run:vm-rca-form"@,
        "menu:bgp-advertisers-parameters"@ != "run:slo-status-form"@,
        "menu:bgp-advertisers-parameters"@ != "run:bgp-advertisers-form"@,
        "menu:bgp-advertisers-parameters"@ != "run:top-source-asns-form"@,
        "menu:bgp-advertisers-parameters"@ != "run:free-ports-form"@,
        "menu:bgp-advertisers-parameters"@ != "run:noisy-neighbour-form"@,
        "menu:bgp-advertisers-parameters"@ != "run:scope-health-sweep-form"@,
        "menu:bgp-advertisers-parameters"@ != "run:change-correlation-form"@,
        "menu:bgp-advertisers-parameters"@ != "run:service-degradation-form"@,
        "menu:top-source-asns-parameters"@ != "menu:free-ports-parameters"@,
        "menu:top-source-asns-parameters"@ != "menu:noisy-neighbour-parameters"@,
        "menu:top-source-asns-parameters"@ != "menu:scope-health-sweep-parameters"@,
        "menu:top-source-asns-parameters"@ != "menu:change-correlation-parameters"@,
        "menu:top-source-asns-parameters"@ != "menu:service-degradation-parameters"@,
        "menu:top-source-asns-parameters"@ != "show slo status"@,
        "menu:top-source-asns-parameters"@ != "show bgp advertisers"@,
        "menu:top-source-asns-parameters"@ != "show top source asns"@,
        "menu:top-source-asns-parameters"@ != "show free aci ports"@,
        "menu:top-source-asns-parameters"@ != "show noisy neighbour"@,
        "menu:top-source-asns-parameters"@ != "run scope health sweep"@,
        "menu:top-source-asns-parameters"@ != "show recent change correlation"@,
        "menu:top-source-asns-parameters"@ != "investigate service degradation"@,
        "menu:top-source-asns-parameters"@ != "run:prefix-traffic-form"@,
        "menu:top-source-asns-parameters"@ != "run:port-utilisation-form"@,
        "menu:top-source-asns-parameters"@ != "run:vm-rca-form"@,
        "menu:top-source-asns-parameters"@ != "run:slo-status-form"@,
        "menu:top-source-asns-parameters"@ != "run:bgp-advertisers-form"@,
        "menu:top-source-asns-parameters"@ != "run:top-source-asns-form"@,
        "menu:top-source-asns-parameters"@ != "run:free-ports-form"@,
        "menu:top-source-asns-parameters"@ != "run:noisy-neighbour-form"@,
        "menu:top-source-asns-parameters"@ != "run:scope-health-sweep-form"@,
        "menu:top-source-asns-parameters"@ != "run:change-correlation-form"@,
        "menu:top-source-asns-parameters"@ != "run:service-degradation-form"@,
        "menu:free-ports-parameters"@ != "menu:noisy-neighbour-parameters"@,
        "menu:free-ports-parameters"@ != "menu:scope-health-sweep-parameters"@,
        "menu:free-ports-parameters"@ != "menu:change-correlation-parameters"@,
        "menu:free-ports-parameters"@ != "menu:service-degradation-parameters"@,
        "menu:free-ports-parameters"@ != "show slo status"@,
        "menu:free-ports-parameters"@ != "show bgp advertisers"@,
        "menu:free-ports-parameters"@ != "show top source asns"@,
        "menu:free-ports-parameters"@ != "show free aci ports"@,
        "menu:free-ports-parameters"@ != "show noisy neighbour"@,
        "menu:free-ports-parameters"@ != "run scope health sweep"@,
        "menu:free-ports-parameters"@ != "show recent change correlation"@,
        "menu:free-ports-parameters"@ != "investigate service degradation"@,
        "menu:free-ports-parameters"@ != "run:prefix-traffic-form"@,
        "menu:free-ports-parameters"@ != "run:port-utilisation-form"@,
        "menu:free-ports-parameters"@ != "run:vm-rca-form"@,
        "menu:free-ports-parameters"@ != "run:slo-status-form"@,
        "menu:free-ports-parameters"@ != "run:bgp-advertisers-form"@,
        "menu:free-ports-parameters"@ != "run:top-source-asns-form"@,
        "menu:free-ports-parameters"@ != "run:free-ports-form"@,
        "menu:free-ports-parameters"@ != "run:noisy-neighbour-form"@,
        "menu:free-ports-parameters"@ != "run:scope-health-sweep-form"@,
        "menu:free-ports-parameters"@ != "run:change-correlation-form"@,
        "menu:free-ports-parameters"@ != "run:service-degradation-form"@,
        "menu:noisy-neighbour-parameters"@ != "menu:scope-health-sweep-parameters"@,
        "menu:noisy-neighbour-parameters"@ != "menu:change-correlation-parameters"@,
        "menu:noisy-neighbour-parameters"@ != "menu:service-degradation-parameters"@,
        "menu:noisy-neighbour-parameters"@ != "show slo status"@,
        "menu:noisy-neighbour-parameters"@ != "show bgp advertisers"@,
        "menu:noisy-neighbour-parameters"@ != "show top source asns"@,
        "menu:noisy-neighbour-parameters"@ != "show free aci ports"@,
        "menu:noisy-neighbour-parameters"@ != "show noisy neighbour"@,
        "menu:noisy-neighbour-parameters"@ != "run scope health sweep"@,
        "menu:noisy-neighbour-parameters"@ != "show recent change correlation"@,
        "menu:noisy-neighbour-parameters"@ != "investigate service degradation"@,
        "menu:noisy-neighbour-parameters"@ != "run:prefix-traffic-form"@,
        "menu:noisy-neighbour-parameters"@ != "run:port-utilisation-form"@,
        "menu:noisy-neighbour-parameters"@ != "run:vm-rca-form"@,
        "menu:noisy-neighbour-parameters"@ != "run:slo-status-form"@,
        "menu:noisy-neighbour-parameters"@ != "run:bgp-advertisers-form"@,
        "menu:noisy-neighbour-parameters"@ != "run:top-source-asns-form"@,
        "menu:noisy-neighbour-parameters"@ != "run:free-ports-form"@,
        "menu:noisy-neighbour-parameters"@ != "run:noisy-neighbour-form"@,
        "menu:noisy-neighbour-parameters"@ != "run:scope-health-sweep-form"@,
        "menu:noisy-neighbour-parameters"@ != "run:change-correlation-form"@,
        "menu:noisy-neighbour-parameters"@ != "run:service-degradation-form"@,
        "menu:scope-health-sweep-parameters"@ != "menu:change-correlation-parameters"@,
        "menu:scope-health-sweep-parameters"@ != "menu:service-degradation-parameters"@,
        "menu:scope-health-sweep-parameters"@ != "show slo status"@,
        "menu:scope-health-sweep-parameters"@ != "show bgp advertisers"@,
        "menu:scope-health-sweep-parameters"@ != "show top source asns"@,
        "menu:scope-health-sweep-parameters"@ != "show free aci ports"@,
        "menu:scope-health-sweep-parameters"@ != "show noisy neighbour"@,
        "menu:scope-health-sweep-parameters"@ != "run scope health sweep"@,
        "menu:scope-health-sweep-parameters"@ != "show recent change correlation"@,
        "menu:scope-health-sweep-parameters"@ != "investigate service degradation"@,
        "menu:scope-health-sweep-parameters"@ != "run:prefix-traffic-form"@,
        "menu:scope-health-sweep-parameters"@ != "run:port-utilisation-form"@,
        "menu:scope-health-sweep-parameters"@ != "run:vm-rca-form"@,
        "menu:scope-health-sweep-parameters"@ != "run:slo-status-form"@,
        "menu:scope-health-sweep-parameters"@ != "run:bgp-advertisers-form"@,
        "menu:scope-health-sweep-parameters"@ != "run:top-source-asns-form"@,
        "menu:scope-health-sweep-parameters"@ != "run:free-ports-form"@,
        "menu:scope-health-sweep-parameters"@ != "run:noisy-neighbour-form"@,
        "menu:scope-health-sweep-parameters"@ != "run:scope-health-sweep-form"@,
        "menu:scope-health-sweep-parameters"@ != "run:change-correlation-form"@,
        "menu:scope-health-sweep-parameters"@ != "run:service-degradation-form"@,
        "menu:change-correlation-parameters"@ != "menu:service-degradation-parameters"@,
        "menu:change-correlation-parameters"@ != "show slo status"@,
        "menu:change-correlation-parameters"@ != "show bgp advertisers"@,
        "menu:change-correlation-parameters"@ != "show top source asns"@,
        "menu:change-correlation-parameters"@ != "show free aci ports"@,
        "menu:change-correlation-parameters"@ != "show noisy neighbour"@,
        "menu:change-correlation-parameters"@ != "run scope health sweep"@,
        "menu:change-correlation-parameters"@ != "show recent change correlation"@,
        "menu:change-correlation-parameters"@ != "investigate service degradation"@,
        "menu:change-correlation-parameters"@ != "run:prefix-traffic-form"@,
        "menu:change-correlation-parameters"@ != "run:port-utilisation-form"@,
        "menu:change-correlation-parameters"@ != "run:vm-rca-form"@,
        "menu:change-correlation-parameters"@ != "run:slo-status-form"@,
        "menu:change-correlation-parameters"@ != "run:bgp-advertisers-form"@,
        "menu:change-correlation-parameters"@ != "run:top-source-asns-form"@,
        "menu:change-correlation-parameters"@ != "run:free-ports-form"@,
        "menu:change-correlation-parameters"@ != "run:noisy-neighbour-form"@,
        "menu:change-correlation-parameters"@ != "run:scope-health-sweep-form"@,
        "menu:change-correlation-parameters"@ != "run:change-correlation-form"@,
        "menu:change-correlation-parameters"@ != "run:service-degradation-form"@,
        "menu:service-degradation-parameters"@ != "show slo status"@,
        "menu:service-degradation-parameters"@ != "show bgp advertisers"@,
        "menu:service-degradation-parameters"@ != "show top source asns"@,
        "menu:service-degradation-parameters"@ != "show free aci ports"@,
        "menu:service-degradation-parameters"@ != "show noisy neighbour"@,
        "menu:service-degradation-parameters"@ != "run scope health sweep"@,
        "menu:service-degradation-parameters"@ != "show recent change correlation"@,
        "menu:service-degradation-parameters"@ != "investigate service degradation"@,
        "menu:service-degradation-parameters"@ != "run:prefix-traffic-form"@,
        "menu:service-degradation-parameters"@ != "run:port-utilisation-form"@,
        "menu:service-degradation-parameters"@ != "run:vm-rca-form"@,
        "menu:service-degradation-parameters"@ != "run:slo-status-form"@,
        "menu:service-degradation-parameters"@ != "run:bgp-advertisers-form"@,
        "menu:service-degradation-parameters"@ != "run:top-source-asns-form"@,
        "menu:service-degradation-parameters"@ != "run:free-ports-form"@,
        "menu:service-degradation-parameters"@ != "run:noisy-neighbour-form"@,
        "menu:service-degradation-parameters"@ != "run:scope-health-sweep-form"@,
        "menu:service-degradation-parameters"@ != "run:change-correlation-form"@,
        "menu:service-degradation-parameters"@ != "run:service-degradation-form"@,
        "show slo status"@ != "show bgp advertisers"@,
        "show slo status"@ != "show top source asns"@,
        "show slo status"@ != "show free aci ports"@,
        "show slo status"@ != "show noisy neighbour"@,
        "show slo status"@ != "run scope health sweep"@,
        "show slo status"@ != "show recent change correlation"@,
        "show slo status"@ != "investigate service degradation"@,
        "show slo status"@ != "run:prefix-traffic-form"@,
        "show slo status"@ != "run:port-utilisation-form"@,
        "show slo status"@ != "run:vm-rca-form"@,
        "show slo status"@ != "run:slo-status-form"@,
        "show slo status"@ != "run:bgp-advertisers-form"@,
        "show slo status"@ != "run:top-source-asns-form"@,
        "show slo status"@ != "run:free-ports-form"@,
        "show slo status"@ != "run:noisy-neighbour-form"@,
        "show slo status"@ != "run:scope-health-sweep-form"@,
        "show slo status"@ != "run:change-correlation-form"@,
        "show slo status"@ != "run:service-degradation-form"@,
        "show bgp advertisers"@ != "show top source asns"@,
        "show bgp advertisers"@ != "show free aci ports"@,
        "show bgp advertisers"@ != "show noisy neighbour"@,
        "show bgp advertisers"@ != "run scope health sweep"@,
        "show bgp advertisers"@ != "show recent change correlation"@,
        "show bgp advertisers"@ != "investigate service degradation"@,
        "show bgp advertisers"@ != "run:prefix-traffic-form"@,
        "show bgp advertisers"@ != "run:port-utilisation-form"@,
        "show bgp advertisers"@ != "run:vm-rca-form"@,
        "show bgp advertisers"@ != "run:slo-status-form"@,
        "show bgp advertisers"@ != "run:bgp-advertisers-form"@,
        "show bgp advertisers"@ != "run:top-source-asns-form"@,
        "show bgp advertisers"@ != "run:free-ports-form"@,
        "show bgp advertisers"@ != "run:noisy-neighbour-form"@,
        "show bgp advertisers"@ != "run:scope-health-sweep-form"@,
        "show bgp advertisers"@ != "run:change-correlation-form"@,
        "show bgp advertisers"@ != "run:service-degradation-form"@,
        "show top source asns"@ != "show free aci ports"@,
        "show top source asns"@ != "show noisy neighbour"@,
        "show top source asns"@ != "run scope health sweep"@,
        "show top source asns"@ != "show recent change correlation"@,
        "show top source asns"@ != "investigate service degradation"@,
        "show top source asns"@ != "run:prefix-traffic-form"@,
        "show top source asns"@ != "run:port-utilisation-form"@,
        "show top source asns"@ != "run:vm-rca-form"@,
        "show top source asns"@ != "run:slo-status-form"@,
        "show top source asns"@ != "run:bgp-advertisers-form"@,
        "show top source asns"@ != "run:top-source-asns-form"@,
        "show top source asns"@ != "run:free-ports-form"@,
        "show top source asns"@ != "run:noisy-neighbour-form"@,
        "show top source asns"@ != "run:scope-health-sweep-form"@,
        "show top source asns"@ != "run:change-correlation-form"@,
        "show top source asns"@ != "run:service-degradation-form"@,
        "show free aci ports"@ != "show noisy neighbour"@,
        "show free aci ports"@ != "run scope health sweep"@,
        "show free aci ports"@ != "show recent change correlation"@,
        "show free aci ports"@ != "investigate service degradation"@,
        "show free aci ports"@ != "run:prefix-traffic-form"@,
        "show free aci ports"@ != "run:port-utilisation-form"@,
        "show free aci ports"@ != "run:vm-rca-form"@,
        "show free aci ports"@ != "run:slo-status-form"@,
        "show free aci ports"@ != "run:bgp-advertisers-form"@,
        "show free aci ports"@ != "run:top-source-asns-form"@,
        "show free aci ports"@ != "run:free-ports-form"@,
        "show free aci ports"@ != "run:noisy-neighbour-form"@,
        "show free aci ports"@ != "run:scope-health-sweep-form"@,
        "show free aci ports"@ != "run:change-correlation-form"@,
        "show free aci ports"@ != "run:service-degradation-form"@,
        "show noisy neighbour"@ != "run scope health sweep"@,
        "show noisy neighbour"@ != "show recent change correlation"@,
        "show noisy neighbour"@ != "investigate service degradation"@,
        "show noisy neighbour"@ != "run:prefix-traffic-form"@,
        "show noisy neighbour"@ != "run:port-utilisation-form"@,
        "show noisy neighbour"@ != "run:vm-rca-form"@,
        "show noisy neighbour"@ != "run:slo-status-form"@,
        "show noisy neighbour"@ != "run:bgp-advertisers-form"@,
        "show noisy neighbour"@ != "run:top-source-asns-form"@,
        "show noisy neighbour"@ != "run:free-ports-form"@,
        "show noisy neighbour"@ != "run:noisy-neighbour-form"@,
        "show noisy neighbour"@ != "run:scope-health-sweep-form"@,
        "show noisy neighbour"@ != "run:change-correlation-form"@,
        "show noisy neighbour"@ != "run:service-degradation-form"@,
        "run scope health sweep"@ != "show recent change correlation"@,
        "run scope health sweep"@ != "investigate service degradation"@,
        "run scope health sweep"@ != "run:prefix-traffic-form"@,
        "run scope health sweep"@ != "run:port-utilisation-form"@,
        "run scope health sweep"@ != "run:vm-rca-form"@,
        "run scope health sweep"@ != "run:slo-status-form"@,
        "run scope health sweep"@ != "run:bgp-advertisers-form"@,
        "run scope health sweep"@ != "run:top-source-asns-form"@,
        "run scope health sweep"@ != "run:free-ports-form"@,
        "run scope health sweep"@ != "run:noisy-neighbour-form"@,
        "run scope health sweep"@ != "run:scope-health-sweep-form"@,
        "run scope health sweep"@ != "run:change-correlation-form"@,
        "run scope health sweep"@ != "run:service-degradation-form"@,
        "show recent change correlation"@ != "investigate service degradation"@,
        "show recent change correlation"@ != "run:prefix-traffic-form"@,
        "show recent change correlation"@ != "run:port-utilisation-form"@,
        "show recent change correlation"@ != "run:vm-rca-form"@,
        "show recent change correlation"@ != "run:slo-status-form"@,
        "show recent change correlation"@ != "run:bgp-advertisers-form"@,
        "show recent change correlation"@ != "run:top-source-asns-form"@,
        "show recent change correlation"@ != "run:free-ports-form"@,
        "show recent change correlation"@ != "run:noisy-neighbour-form"@,
        "show recent change correlation"@ != "run:scope-health-sweep-form"@,
        "show recent change correlation"@ != "run:change-correlation-form"@,
        "show recent change correlation"@ != "run:service-degradation-form"@,
        "investigate service degradation"@ != "run:prefix-traffic-form"@,
        "investigate service degradation"@ != "run:port-utilisation-form"@,
        "investigate service degradation"@ != "run:vm-rca-form"@,
        "investigate service degradation"@ != "run:slo-status-form"@,
        "investigate service degradation"@ != "run:bgp-advertisers-form"@,
        "investigate service degradation"@ != "run:top-source-asns-form"@,
        "investigate service degradation"@ != "run:free-ports-form"@,
        "investigate service degradation"@ != "run:noisy-neighbour-form"@,
        "investigate service degradation"@ != "run:scope-health-sweep-form"@,
        "investigate service degradation"@ != "run:change-correlation-form"@,
        "investigate service degradation"@ != "run:service-degradation-form"@,
        "run:prefix-traffic-form"@ != "run:port-utilisation-form"@,
        "run:prefix-traffic-form"@ != "run:vm-rca-form"@,
        "run:prefix-traffic-form"@ != "run:slo-status-form"@,
        "run:prefix-traffic-form"@ != "run:bgp-advertisers-form"@,
        "run:prefix-traffic-form"@ != "run:top-source-asns-form"@,
        "run:prefix-traffic-form"@ != "run:free-ports-form"@,
        "run:prefix-traffic-form"@ != "run:noisy-neighbour-form"@,
        "run:prefix-traffic-form"@ != "run:scope-health-sweep-form"@,
        "run:prefix-traffic-form"@ != "run:change-correlation-form"@,
        "run:prefix-traffic-form"@ != "run:service-degradation-form"@,
        "run:port-utilisation-form"@ != "run:vm-rca-form"@,
        "run:port-utilisation-form"@ != "run:slo-status-form"@,
        "run:port-utilisation-form"@ != "run:bgp-advertisers-form"@,
        "run:port-utilisation-form"@ != "run:top-source-asns-form"@,
        "run:port-utilisation-form"@ != "run:free-ports-form"@,
        "run:port-utilisation-form"@ != "run:noisy-neighbour-form"@,
        "run:port-utilisation-form"@ != "run:scope-health-sweep-form"@,
        "run:port-utilisation-form"@ != "run:change-correlation-form"@,
        "run:port-utilisation-form"@ != "run:service-degradation-form"@,
        "run:vm-rca-form"@ != "run:slo-status-form"@,
        "run:vm-rca-form"@ != "run:bgp-advertisers-form"@,
        "run:vm-rca-form"@ != "run:top-source-asns-form"@,
        "run:vm-rca-form"@ != "run:free-ports-form"@,
        "run:vm-rca-form"@ != "run:noisy-neighbour-form"@,
        "run:vm-rca-form"@ != "run:scope-health-sweep-form"@,
        "run:vm-rca-form"@ != "run:change-correlation-form"@,
        "run:vm-rca-form"@ != "run:service-degradation-form"@,
        "run:slo-status-form"@ != "run:bgp-advertisers-form"@,
        "run:slo-status-form"@ != "run:top-source-asns-form"@,
        "run:slo-status-form"@ != "run:free-ports-form"@,
        "run:slo-status-form"@ != "run:noisy-neighbour-form"@,
        "run:slo-status-form"@ != "run:scope-health-sweep-form"@,
        "run:slo-status-form"@ != "run:change-correlation-form"@,
        "run:slo-status-form"@ != "run:service-degradation-form"@,
        "run:bgp-advertisers-form"@ != "run:top-source-asns-form"@,
        "run:bgp-advertisers-form"@ != "run:free-ports-form"@,
        "run:bgp-advertisers-form"@ != "run:noisy-neighbour-form"@,
        "run:bgp-advertisers-form"@ != "run:scope-health-sweep-form"@,
        "run:bgp-advertisers-form"@ != "run:change-correlation-form"@,
        "run:bgp-advertisers-form"@ != "run:service-degradation-form"@,
        "run:top-source-asns-form"@ != "run:free-ports-form"@,
        "run:top-source-asns-form"@ != "run:noisy-neighbour-form"@,
        "run:top-source-asns-form"@ != "run:scope-health-sweep-form"@,
        "run:top-source-asns-form"@ != "run:change-correlation-form"@,
        "run:top-source-asns-form"@ != "run:service-degradation-form"@,
        "run:free-ports-form"@ != "run:noisy-neighbour-form"@,
        "run:free-ports-form"@ != "run:scope-health-sweep-form"@,
        "run:free-ports-form"@ != "run:change-correlation-form"@,
        "run:free-ports-form"@ != "run:service-degradation-form"@,
        "run:noisy-neighbour-form"@ != "run:scope-health-sweep-form"@,
        "run:noisy-neighbour-form"@ != "run:change-correlation-form"@,
        "run:noisy-neighbour-form"@ != "run:service-degradation-form"@,
        "run:scope-health-sweep-form"@ != "run:change-correlation-form"@,
        "run:scope-health-sweep-form"@ != "run:service-degradation-form"@,
        "run:change-correlation-form"@ != "run:service-degradation-form"@,
        "oauth_login_success"@.len() > 0,
        "menu:network-traffic-routing"@.len() > 0,
        "menu:capacity-port-management"@.len() > 0,
        "menu:service-assurance"@.len() > 0,
        "menu:performance-root-cause"@.len() > 0,
        "menu:port-utilisation-parameters"@.len() > 0,
        "menu:vm-rca-parameters"@.len() > 0,
        "menu:prefix-traffic-parameters"@.len() > 0,
        "menu:slo-status-parameters"@.len() > 0,
        "menu:bgp-advertisers-parameters"@.len() > 0,
        "menu:top-source-asns-parameters"@.len() > 0,
        "menu:free-ports-parameters"@.len() > 0,
        "menu:noisy-neighbour-parameters"@.len() > 0,
        "menu:scope-health-sweep-parameters"@.len() > 0,
        "menu:change-correlation-parameters"@.len() > 0,
        "menu:service-degradation-parameters"@.len() > 0,
        "show slo status"@.len() > 0,
        "show bgp advertisers"@.len() > 0,
        "show top source asns"@.len() > 0,
        "show free aci ports"@.len() > 0,
        "show noisy neighbour"@.len() > 0,
        "run scope health sweep"@.len() > 0,
        "show recent change correlation"@.len() > 0,
        "investigate service degradation"@.len() > 0,
        "run:prefix-traffic-form"@.len() > 0,
        "run:port-utilisation-form"@.len() > 0,
        "run:vm-rca-form"@.len() > 0,
        "run:slo-status-form"@.len() > 0,
        "run:bgp-advertisers-form"@.len() > 0,
        "run:top-source-asns-form"@.len() > 0,
        "run:free-ports-form"@.len() > 0,
        "run:noisy-neighbour-form"@.len() > 0,
        "run:scope-health-sweep-form"@.len() > 0,
        "run:change-correlation-form"@.len() > 0,
        "run:service-degradation-form"@.len() > 0,
{
    reveal_strlit("oauth_login_success");
    reveal_strlit("menu:network-traffic-routing");
    reveal_strlit("menu:capacity-port-management");
    reveal_strlit("menu:service-assurance");
    reveal_strlit("menu:performance-root-cause");
    reveal_strlit("menu:port-utilisation-parameters");
    reveal_strlit("menu:vm-rca-parameters");
    reveal_strlit("menu:prefix-traffic-parameters");
    reveal_strlit("menu:slo-status-parameters");
    reveal_strlit("menu:bgp-advertisers-parameters");
    reveal_strlit("menu:top-source-asns-parameters");
    reveal_strlit("menu:free-ports-parameters");
    reveal_strlit("menu:noisy-neighbour-parameters");
    reveal_strlit("menu:scope-health-sweep-parameters");
    reveal_strlit("menu:change-correlation-parameters");
    reveal_strlit("menu:service-degradation-parameters");
    reveal_strlit("show slo status");
    reveal_strlit("show bgp advertisers");
    reveal_strlit("show top source asns");
    reveal_strlit("show free aci ports");
    reveal_strlit("show noisy neighbour");
    reveal_strlit("run scope health sweep");
    reveal_strlit("show recent change correlation");
    reveal_strlit("investigate service degradation");
    reveal_strlit("run:prefix-traffic-form");
    reveal_strlit("run:port-utilisation-form");
    reveal_strlit("run:vm-rca-form");
    reveal_strlit("run:slo-status-form");
    reveal_strlit("run:bgp-advertisers-form");
    reveal_strlit("run:top-source-asns-form");
    reveal_strlit("run:free-ports-form");
    reveal_strlit("run:noisy-neighbour-form");
    reveal_strlit("run:scope-health-sweep-form");
    reveal_strlit("run:change-correlation-form");
    reveal_strlit("run:service-degradation-form");
    assert("oauth_login_success"@.len() != "menu:network-traffic-routing"@.len());
    assert("oauth_login_success"@.len() != "menu:capacity-port-management"@.len());
    assert("oauth_login_success"@.len() != "menu:service-assurance"@.len());
    assert("oauth_login_success"@.len() != "menu:performance-root-cause"@.len());
    assert("oauth_login_success"@.len() != "menu:port-utilisation-parameters"@.len());
    assert("oauth_login_success"@.len() != "menu:vm-rca-parameters"@.len());
    assert("oauth_login_success"@.len() != "menu:prefix-traffic-parameters"@.len());
    assert("oauth_login_success"@.len() != "menu:slo-status-parameters"@.len());
    assert("oauth_login_success"@.len() != "menu:bgp-advertisers-parameters"@.len());
    assert("oauth_login_success"@.len() != "menu:top-source-asns-parameters"@.len());
    assert("oauth_login_success"@.len() != "menu:free-ports-parameters"@.len());
    assert("oauth_login_success"@.len() != "menu:noisy-neighbour-parameters"@.len());
    assert("oauth_login_success"@.len() != "menu:scope-health-sweep-parameters"@.len());
    assert("oauth_login_success"@.len() != "menu:change-correlation-parameters"@.len());
    assert("oauth_login_success"@.len() != "menu:service-degradation-parameters"@.len());
    assert("oauth_login_success"@.len() != "show slo status"@.len());
    assert("oauth_login_success"@.len() != "show bgp advertisers"@.len());
    assert("oauth_login_success"@.len() != "show top source asns"@.len());
    assert("oauth_login_success"@[0] != "show free aci ports"@[0]);
    assert("oauth_login_success"@.len() != "show noisy neighbour"@.len());
    assert("oauth_login_success"@.len() != "run scope health sweep"@.len());
    assert("oauth_login_success"@.len() != "show recent change correlation"@.len());
    assert("oauth_login_success"@.len() != "investigate service degradation"@.len());
    assert("oauth_login_success"@.len() != "run:prefix-traffic-form"@.len());
    assert("oauth_login_success"@.len() != "run:port-utilisation-form"@.len());
    assert("oauth_login_success"@.len() != "run:vm-rca-form"@.len());
    assert("oauth_login_success"@[0] != "run:slo-status-form"@[0]);
    assert("oauth_login_success"@.len() != "run:bgp-advertisers-form"@.len());
    assert("oauth_login_success"@.len() != "run:top-source-asns-form"@.len());
    assert("oauth_login_success"@[0] != "run:free-ports-form"@[0]);
    assert("oauth_login_success"@.len() != "run:noisy-neighbour-form"@.len());
    assert("oauth_login_success"@.len() != "run:scope-health-sweep-form"@.len());
    assert("oauth_login_success"@.len() != "run:change-correlation-form"@.len());
    assert("oauth_login_success"@.len() != "run:service-degradation-form"@.len());
    assert("menu:network-traffic-routing"@.len() != "menu:capacity-port-management"@.len());
    assert("menu:network-traffic-routing"@.len() != "menu:service-assurance"@.len());
    assert("menu:network-traffic-routing"@.len() != "menu:performance-root-cause"@.len());
    assert("menu:network-traffic-routing"@.len() != "menu:port-utilisation-parameters"@.len());
    assert("menu:network-traffic-routing"@.len() != "menu:vm-rca-parameters"@.len());
    assert("menu:network-traffic-routing"@.len() != "menu:prefix-traffic-parameters"@.len());
    assert("menu:network-traffic-routing"@.len() != "menu:slo-status-parameters"@.len());
    assert("menu:network-traffic-routing"@.len() != "menu:bgp-advertisers-parameters"@.len());
    assert("menu:network-traffic-routing"@.len() != "menu:top-source-asns-parameters"@.len());
    assert("menu:network-traffic-routing"@.len() != "menu:free-ports-parameters"@.len());
    assert("menu:network-traffic-routing"@.len() != "menu:noisy-neighbour-parameters"@.len());
    assert("menu:network-traffic-routing"@.len() != "menu:scope-health-sweep-parameters"@.len());
    assert("menu:network-traffic-routing"@.len() != "menu:change-correlation-parameters"@.len());
    assert("menu:network-traffic-routing"@.len() != "menu:service-degradation-parameters"@.len());
    assert("menu:network-traffic-routing"@.len() != "show slo status"@.len());
    assert("menu:network-traffic-routing"@.len() != "show bgp advertisers"@.len());
    assert("menu:network-traffic-routing"@.len() != "show top source asns"@.len());
    assert("menu:network-traffic-routing"@.len() != "show free aci ports"@.len());
    assert("menu:network-traffic-routing"@.len() != "show noisy neighbour"@.len());
    assert("menu:network-traffic-routing"@.len() != "run scope health sweep"@.len());
    assert("menu:network-traffic-routing"@.len() != "show recent change correlation"@.len());
    assert("menu:network-traffic-routing"@.len() != "investigate service degradation"@.len());
    assert("menu:network-traffic-routing"@.len() != "run:prefix-traffic-form"@.len());
    assert("menu:network-traffic-routing"@.len() != "run:port-utilisation-form"@.len());
    assert("menu:network-traffic-routing"@.len() != "run:vm-rca-form"@.len());
    assert("menu:network-traffic-routing"@.len() != "run:slo-status-form"@.len());
    assert("menu:network-traffic-routing"@.len() != "run:bgp-advertisers-form"@.len());
    assert("menu:network-traffic-routing"@.len() != "run:top-source-asns-form"@.len());
    assert("menu:network-traffic-routing"@.len() != "run:free-ports-form"@.len());
    assert("menu:network-traffic-routing"@.len() != "run:noisy-neighbour-form"@.len());
    assert("menu:network-traffic-routing"@.len() != "run:scope-health-sweep-form"@.len());
    assert("menu:network-traffic-routing"@.len() != "run:change-correlation-form"@.len());
    assert("menu:network-traffic-routing"@[0] != "run:service-degradation-form"@[0]);
    assert("menu:capacity-port-management"@.len() != "menu:service-assurance"@.len());
    assert("menu:capacity-port-management"@.len() != "menu:performance-root-cause"@.len());
    assert("menu:capacity-port-management"@.len() != "menu:port-utilisation-parameters"@.len());
    assert("menu:capacity-port-management"@.len() != "menu:vm-rca-parameters"@.len());
    assert("menu:capacity-port-management"@.len() != "menu:prefix-traffic-parameters"@.len());
    assert("menu:capacity-port-management"@.len() != "menu:slo-status-parameters"@.len());
    assert("menu:capacity-port-management"@.len() != "menu:bgp-advertisers-parameters"@.len());
    assert("menu:capacity-port-management"@.len() != "menu:top-source-asns-parameters"@.len());
    assert("menu:capacity-port-management"@.len() != "menu:free-ports-parameters"@.len());
    assert("menu:capacity-port-management"@.len() != "menu:noisy-neighbour-parameters"@.len());
    assert("menu:capacity-port-management"@.len() != "menu:scope-health-sweep-parameters"@.len());
    assert("menu:capacity-port-management"@.len() != "menu:change-correlation-parameters"@.len());
    assert("menu:capacity-port-management"@.len() != "menu:service-degradation-parameters"@.len());
    assert("menu:capacity-port-management"@.len() != "show slo status"@.len());
    assert("menu:capacity-port-management"@.len() != "show bgp advertisers"@.len());
    assert("menu:capacity-port-management"@.len() != "show top source asns"@.len());
    assert("menu:capacity-port-management"@.len() != "show free aci ports"@.len());
    assert("menu:capacity-port-management"@.len() != "show noisy neighbour"@.len());
    assert("menu:capacity-port-management"@.len() != "run scope health sweep"@.len());
    assert("menu:capacity-port-management"@.len() != "show recent change correlation"@.len());
    assert("menu:capacity-port-management"@.len() != "investigate service degradation"@.len());
    assert("menu:capacity-port-management"@.len() != "run:prefix-traffic-form"@.len());
    assert("menu:capacity-port-management"@.len() != "run:port-utilisation-form"@.len());
    assert("menu:capacity-port-management"@.len() != "run:vm-rca-form"@.len());
    assert("menu:capacity-port-management"@.len() != "run:slo-status-form"@.len());
    assert("menu:capacity-port-management"@.len() != "run:bgp-advertisers-form"@.len());
    assert("menu:capacity-port-management"@.len() != "run:top-source-asns-form"@.len());
    assert("menu:capacity-port-management"@.len() != "run:free-ports-form"@.len());
    assert("menu:capacity-port-management"@.len() != "run:noisy-neighbour-form"@.len());
    assert("menu:capacity-port-management"@.len() != "run:scope-health-sweep-form"@.len());
    assert("menu:capacity-port-management"@.len() != "run:change-correlation-form"@.len());
    assert("menu:capacity-port-management"@.len() != "run:service-degradation-form"@.len());
    assert("menu:service-assurance"@.len() != "menu:performance-root-cause"@.len());
    assert("menu:service-assurance"@.len() != "menu:port-utilisation-parameters"@.len());
    assert("menu:service-assurance"@[5] != "menu:vm-rca-parameters"@[5]);
    assert("menu:service-assurance"@.len() != "menu:prefix-traffic-parameters"@.len());
    assert("menu:service-assurance"@.len() != "menu:slo-status-parameters"@.len());
    assert("menu:service-assurance"@.len() != "menu:bgp-advertisers-parameters"@.len());
    assert("menu:service-assurance"@.len() != "menu:top-source-asns-parameters"@.len());
    assert("menu:service-assurance"@.len() != "menu:free-ports-parameters"@.len());
    assert("menu:service-assurance"@.len() != "menu:noisy-neighbour-parameters"@.len());
    assert("menu:service-assurance"@.len() != "menu:scope-health-sweep-parameters"@.len());
    assert("menu:service-assurance"@.len() != "menu:change-correlation-parameters"@.len());
    assert("menu:service-assurance"@.len() != "menu:service-degradation-parameters"@.len());
    assert("menu:service-assurance"@.len() != "show slo status"@.len());
    assert("menu:service-assurance"@.len() != "show bgp advertisers"@.len());
    assert("menu:service-assurance"@.len() != "show top source asns"@.len());
    assert("menu:service-assurance"@.len() != "show free aci ports"@.len());
    assert("menu:service-assurance"@.len() != "show noisy neighbour"@.len());
    assert("menu:service-assurance"@[0] != "run scope health sweep"@[0]);
    assert("menu:service-assurance"@.len() != "show recent change correlation"@.len());
    assert("menu:service-assurance"@.len() != "investigate service degradation"@.len());
    assert("menu:service-assurance"@.len() != "run:prefix-traffic-form"@.len());
    assert("menu:service-assurance"@.len() != "run:port-utilisation-form"@.len());
    assert("menu:service-assurance"@.len() != "run:vm-rca-form"@.len());
    assert("menu:service-assurance"@.len() != "run:slo-status-form"@.len());
    assert("menu:service-assurance"@.len() != "run:bgp-advertisers-form"@.len());
    assert("menu:service-assurance"@.len() != "run:top-source-asns-form"@.len());
    assert("menu:service-assurance"@.len() != "run:free-ports-form"@.len());
    assert("menu:service-assurance"@.len() != "run:noisy-neighbour-form"@.len());
    assert("menu:service-assurance"@.len() != "run:scope-health-sweep-form"@.len());
    assert("menu:service-assurance"@.len() != "run:change-correlation-form"@.len());
    assert("menu:service-assurance"@.len() != "run:service-degradation-form"@.len());
    assert("menu:performance-root-cause"@.len() != "menu:port-utilisation-parameters"@.len());
    assert("menu:performance-root-cause"@.len() != "menu:vm-rca-parameters"@.len());
    assert("menu:performance-root-cause"@.len() != "menu:prefix-traffic-parameters"@.len());
    assert("menu:performance-root-cause"@.len() != "menu:slo-status-parameters"@.len());
    assert("menu:performance-root-cause"@.len() != "menu:bgp-advertisers-parameters"@.len());
    assert("menu:performance-root-cause"@.len() != "menu:top-source-asns-parameters"@.len());
    assert("menu:performance-root-cause"@.len() != "menu:free-ports-parameters"@.len());
    assert("menu:performance-root-cause"@.len() != "menu:noisy-neighbour-parameters"@.len());
    assert("menu:performance-root-cause"@.len() != "menu:scope-health-sweep-parameters"@.len());
    assert("menu:performance-root-cause"@.len() != "menu:change-correlation-parameters"@.len());
    assert("menu:performance-root-cause"@.len() != "menu:service-degradation-parameters"@.len());
    assert("menu:performance-root-cause"@.len() != "show slo status"@.len());
    assert("menu:performance-root-cause"@.len() != "show bgp advertisers"@.len());
    assert("menu:performance-root-cause"@.len() != "show top source asns"@.len());
    assert("menu:performance-root-cause"@.len() != "show free aci ports"@.len());
    assert("menu:performance-root-cause"@.len() != "show noisy neighbour"@.len());
    assert("menu:performance-root-cause"@.len() != "run scope health sweep"@.len());
    assert("menu:performance-root-cause"@.len() != "show recent change correlation"@.len());
    assert("menu:performance-root-cause"@.len() != "investigate service degradation"@.len());
    assert("menu:performance-root-cause"@.len() != "run:prefix-traffic-form"@.len());
    assert("menu:performance-root-cause"@.len() != "run:port-utilisation-form"@.len());
    assert("menu:performance-root-cause"@.len() != "run:vm-rca-form"@.len());
    assert("menu:performance-root-cause"@.len() != "run:slo-status-form"@.len());
    assert("menu:performance-root-cause"@.len() != "run:bgp-advertisers-form"@.len());
    assert("menu:performance-root-cause"@.len() != "run:top-source-asns-form"@.len());
    assert("menu:performance-root-cause"@.len() != "run:free-ports-form"@.len());
    assert("menu:performance-root-cause"@.len() != "run:noisy-neighbour-form"@.len());
    assert("menu:performance-root-cause"@[0] != "run:scope-health-sweep-form"@[0]);
    assert("menu:performance-root-cause"@[0] != "run:change-correlation-form"@[0]);
    assert("menu:performance-root-cause"@.len() != "run:service-degradation-form"@.len());
    assert("menu:port-utilisation-parameters"@.len() != "menu:vm-rca-parameters"@.len());
    assert("menu:port-utilisation-parameters"@.len() != "menu:prefix-traffic-parameters"@.len());
    assert("menu:port-utilisation-parameters"@.len() != "menu:slo-status-parameters"@.len());
    assert("menu:port-utilisation-parameters"@.len() != "menu:bgp-advertisers-parameters"@.len());
    assert("menu:port-utilisation-parameters"@.len() != "menu:top-source-asns-parameters"@.len());
    assert("menu:port-utilisation-parameters"@.len() != "menu:free-ports-parameters"@.len());
    assert("menu:port-utilisation-parameters"@.len() != "menu:noisy-neighbour-parameters"@.len());
    assert("menu:port-utilisation-parameters"@.len() != "menu:scope-health-sweep-parameters"@.len());
    assert("menu:port-utilisation-parameters"@.len() != "menu:change-correlation-parameters"@.len());
    assert("menu:port-utilisation-parameters"@.len() != "menu:service-degradation-parameters"@.len());
    assert("menu:port-utilisation-parameters"@.len() != "show slo status"@.len());
    assert("menu:port-utilisation-parameters"@.len() != "show bgp advertisers"@.len());
    assert("menu:port-utilisation-parameters"@.len() != "show top source asns"@.len());
    assert("menu:port-utilisation-parameters"@.len() != "show free aci ports"@.len());
    assert("menu:port-utilisation-parameters"@.len() != "show noisy neighbour"@.len());
    assert("menu:port-utilisation-parameters"@.len() != "run scope health sweep"@.len());
    assert("menu:port-utilisation-parameters"@.len() != "show recent change correlation"@.len());
    assert("menu:port-utilisation-parameters"@.len() != "investigate service degradation"@.len());
    assert("menu:port-utilisation-parameters"@.len() != "run:prefix-traffic-form"@.len());
    assert("menu:port-utilisation-parameters"@.len() != "run:port-utilisation-form"@.len());
    assert("menu:port-utilisation-parameters"@.len() != "run:vm-rca-form"@.len());
    assert("menu:port-utilisation-parameters"@.len() != "run:slo-status-form"@.len());
    assert("menu:port-utilisation-parameters"@.len() != "run:bgp-advertisers-form"@.len());
    assert("menu:port-utilisation-parameters"@.len() != "run:top-source-asns-form"@.len());
    assert("menu:port-utilisation-parameters"@.len() != "run:free-ports-form"@.len());
    assert("menu:port-utilisation-parameters"@.len() != "run:noisy-neighbour-form"@.len());
    assert("menu:port-utilisation-parameters"@.len() != "run:scope-health-sweep-form"@.len());
    assert("menu:port-utilisation-parameters"@.len() != "run:change-correlation-form"@.len());
    assert("menu:port-utilisation-parameters"@.len() != "run:service-degradation-form"@.len());
    assert("menu:vm-rca-parameters"@.len() != "menu:prefix-traffic-parameters"@.len());
    assert("menu:vm-rca-parameters"@.len() != "menu:slo-status-parameters"@.len());
    assert("menu:vm-rca-parameters"@.len() != "menu:bgp-advertisers-parameters"@.len());
    assert("menu:vm-rca-parameters"@.len() != "menu:top-source-asns-parameters"@.len());
    assert("menu:vm-rca-parameters"@.len() != "menu:free-ports-parameters"@.len());
    assert("menu:vm-rca-parameters"@.len() != "menu:noisy-neighbour-parameters"@.len());
    assert("menu:vm-rca-parameters"@.len() != "menu:scope-health-sweep-parameters"@.len());
    assert("menu:vm-rca-parameters"@.len() != "menu:change-correlation-parameters"@.len());
    assert("menu:vm-rca-parameters"@.len() != "menu:service-degradation-parameters"@.len());
    assert("menu:vm-rca-parameters"@.len() != "show slo status"@.len());
    assert("menu:vm-rca-parameters"@.len() != "show bgp advertisers"@.len());
    assert("menu:vm-rca-parameters"@.len() != "show top source asns"@.len());
    assert("menu:vm-rca-parameters"@.len() != "show free aci ports"@.len());
    assert("menu:vm-rca-parameters"@.len() != "show noisy neighbour"@.len());
    assert("menu:vm-rca-parameters"@[0] != "run scope health sweep"@[0]);
    assert("menu:vm-rca-parameters"@.len() != "show recent change correlation"@.len());
    assert("menu:vm-rca-parameters"@.len() != "investigate service degradation"@.len());
    assert("menu:vm-rca-parameters"@.len() != "run:prefix-traffic-form"@.len());
    assert("menu:vm-rca-parameters"@.len() != "run:port-utilisation-form"@.len());
    assert("menu:vm-rca-parameters"@.len() != "run:vm-rca-form"@.len());
    assert("menu:vm-rca-parameters"@.len() != "run:slo-status-form"@.len());
    assert("menu:vm-rca-parameters"@.len() != "run:bgp-advertisers-form"@.len());
    assert("menu:vm-rca-parameters"@.len() != "run:top-source-asns-form"@.len());
    assert("menu:vm-rca-parameters"@.len() != "run:free-ports-form"@.len());
    assert("menu:vm-rca-parameters"@.len() != "run:noisy-neighbour-form"@.len());
    assert("menu:vm-rca-parameters"@.len() != "run:scope-health-sweep-form"@.len());
    assert("menu:vm-rca-parameters"@.len() != "run:change-correlation-form"@.len());
    assert("menu:vm-rca-parameters"@.len() != "run:service-degradation-form"@.len());
    assert("menu:prefix-traffic-parameters"@.len() != "menu:slo-status-parameters"@.len());
    assert("menu:prefix-traffic-parameters"@.len() != "menu:bgp-advertisers-parameters"@.len());
    assert("menu:prefix-traffic-parameters"@.len() != "menu:top-source-asns-parameters"@.len());
    assert("menu:prefix-traffic-parameters"@.len() != "menu:free-ports-parameters"@.len());
    assert("menu:prefix-traffic-parameters"@.len() != "menu:noisy-neighbour-parameters"@.len());
    assert("menu:prefix-traffic-parameters"@.len() != "menu:scope-health-sweep-parameters"@.len());
    assert("menu:prefix-traffic-parameters"@.len() != "menu:change-correlation-parameters"@.len());
    assert("menu:prefix-traffic-parameters"@.len() != "menu:service-degradation-parameters"@.len());
    assert("menu:prefix-traffic-parameters"@.len() != "show slo status"@.len());
    assert("menu:prefix-traffic-parameters"@.len() != "show bgp advertisers"@.len());
    assert("menu:prefix-traffic-parameters"@.len() != "show top source asns"@.len());
    assert("menu:prefix-traffic-parameters"@.len() != "show free aci ports"@.len());
    assert("menu:prefix-traffic-parameters"@.len() != "show noisy neighbour"@.len());
    assert("menu:prefix-traffic-parameters"@.len() != "run scope health sweep"@.len());
    assert("menu:prefix-traffic-parameters"@[0] != "show recent change correlation"@[0]);
    assert("menu:prefix-traffic-parameters"@.len() != "investigate service degradation"@.len());
    assert("menu:prefix-traffic-parameters"@.len() != "run:prefix-traffic-form"@.len());
    assert("menu:prefix-traffic-parameters"@.len() != "run:port-utilisation-form"@.len());
    assert("menu:prefix-traffic-parameters"@.len() != "run:vm-rca-form"@.len());
    assert("menu:prefix-traffic-parameters"@.len() != "run:slo-status-form"@.len());
    assert("menu:prefix-traffic-parameters"@.len() != "run:bgp-advertisers-form"@.len());
    assert("menu:prefix-traffic-parameters"@.len() != "run:top-source-asns-form"@.len());
    assert("menu:prefix-traffic-parameters"@.len() != "run:free-ports-form"@.len());
    assert("menu:prefix-traffic-parameters"@.len() != "run:noisy-neighbour-form"@.len());
    assert("menu:prefix-traffic-parameters"@.len() != "run:scope-health-sweep-form"@.len());
    assert("menu:prefix-traffic-parameters"@.len() != "run:change-correlation-form"@.len());
    assert("menu:prefix-traffic-parameters"@.len() != "run:service-degradation-form"@.len());
    assert("menu:slo-status-parameters"@.len() != "menu:bgp-advertisers-parameters"@.len());
    assert("menu:slo-status-parameters"@.len() != "menu:top-source-asns-parameters"@.len());
    assert("menu:slo-status-parameters"@[5] != "menu:free-ports-parameters"@[5]);
    assert("menu:slo-status-parameters"@.len() != "menu:noisy-neighbour-parameters"@.len());
    assert("menu:slo-status-parameters"@.len() != "menu:scope-health-sweep-parameters"@.len());
    assert("menu:slo-status-parameters"@.len() != "menu:change-correlation-parameters"@.len());
    assert("menu:slo-status-parameters"@.len() != "menu:service-degradation-parameters"@.len());
    assert("menu:slo-status-parameters"@.len() != "show slo status"@.len());
    assert("menu:slo-status-parameters"@.len() != "show bgp advertisers"@.len());
    assert("menu:slo-status-parameters"@.len() != "show top source asns"@.len());
    assert("menu:slo-status-parameters"@.len() != "show free aci ports"@.len());
    assert("menu:slo-status-parameters"@.len() != "show noisy neighbour"@.len());
    assert("menu:slo-status-parameters"@.len() != "run scope health sweep"@.len());
    assert("menu:slo-status-parameters"@.len() != "show recent change correlation"@.len());
    assert("menu:slo-status-parameters"@.len() != "investigate service degradation"@.len());
    assert("menu:slo-status-parameters"@.len() != "run:prefix-traffic-form"@.len());
    assert("menu:slo-status-parameters"@.len() != "run:port-utilisation-form"@.len());
    assert("menu:slo-status-parameters"@.len() != "run:vm-rca-form"@.len());
    assert("menu:slo-status-parameters"@.len() != "run:slo-status-form"@.len());
    assert("menu:slo-status-parameters"@.len() != "run:bgp-advertisers-form"@.len());
    assert("menu:slo-status-parameters"@.len() != "run:top-source-asns-form"@.len());
    assert("menu:slo-status-parameters"@.len() != "run:free-ports-form"@.len());
    assert("menu:slo-status-parameters"@.len() != "run:noisy-neighbour-form"@.len());
    assert("menu:slo-status-parameters"@.len() != "run:scope-health-sweep-form"@.len());
    assert("menu:slo-status-parameters"@.len() != "run:change-correlation-form"@.len());
    assert("menu:slo-status-parameters"@.len() != "run:service-degradation-form"@.len());
    assert("menu:bgp-advertisers-parameters"@[5] != "menu:top-source-asns-parameters"@[5]);
    assert("menu:bgp-advertisers-parameters"@.len() != "menu:free-ports-parameters"@.len());
    assert("menu:bgp-advertisers-parameters"@[5] != "menu:noisy-neighbour-parameters"@[5]);
    assert("menu:bgp-advertisers-parameters"@.len() != "menu:scope-health-sweep-parameters"@.len());
    assert("menu:bgp-advertisers-parameters"@.len() != "menu:change-correlation-parameters"@.len());
    assert("menu:bgp-advertisers-parameters"@.len() != "menu:service-degradation-parameters"@.len());
    assert("menu:bgp-advertisers-parameters"@.len() != "show slo status"@.len());
    assert("menu:bgp-advertisers-parameters"@.len() != "show bgp advertisers"@.len());
    assert("menu:bgp-advertisers-parameters"@.len() != "show top source asns"@.len());
    assert("menu:bgp-advertisers-parameters"@.len() != "show free aci ports"@.len());
    assert("menu:bgp-advertisers-parameters"@.len() != "show noisy neighbour"@.len());
    assert("menu:bgp-advertisers-parameters"@.len() != "run scope health sweep"@.len());
    assert("menu:bgp-advertisers-parameters"@.len() != "show recent change correlation"@.len());
    assert("menu:bgp-advertisers-parameters"@[0] != "investigate service degradation"@[0]);
    assert("menu:bgp-advertisers-parameters"@.len() != "run:prefix-traffic-form"@.len());
    assert("menu:bgp-advertisers-parameters"@.len() != "run:port-utilisation-form"@.len());
    assert("menu:bgp-advertisers-parameters"@.len() != "run:vm-rca-form"@.len());
    assert("menu:bgp-advertisers-parameters"@.len() != "run:slo-status-form"@.len());
    assert("menu:bgp-advertisers-parameters"@.len() != "run:bgp-advertisers-form"@.len());
    assert("menu:bgp-advertisers-parameters"@.len() != "run:top-source-asns-form"@.len());
    assert("menu:bgp-advertisers-parameters"@.len() != "run:free-ports-form"@.len());
    assert("menu:bgp-advertisers-parameters"@.len() != "run:noisy-neighbour-form"@.len());
    assert("menu:bgp-advertisers-parameters"@.len() != "run:scope-health-sweep-form"@.len());
    assert("menu:bgp-advertisers-parameters"@.len() != "run:change-correlation-form"@.len());
    assert("menu:bgp-advertisers-parameters"@.len() != "run:service-degradation-form"@.len());
    assert("menu:top-source-asns-parameters"@.len() != "menu:free-ports-parameters"@.len());
    assert("menu:top-source-asns-parameters"@[5] != "menu:noisy-neighbour-parameters"@[5]);
    assert("menu:top-source-asns-parameters"@.len() != "menu:scope-health-sweep-parameters"@.len());
    assert("menu:top-source-asns-parameters"@.len() != "menu:change-correlation-parameters"@.len());
    assert("menu:top-source-asns-parameters"@.len() != "menu:service-degradation-parameters"@.len());
    assert("menu:top-source-asns-parameters"@.len() != "show slo status"@.len());
    assert("menu:top-source-asns-parameters"@.len() != "show bgp advertisers"@.len());
    assert("menu:top-source-asns-parameters"@.len() != "show top source asns"@.len());
    assert("menu:top-source-asns-parameters"@.len() != "show free aci ports"@.len());
    assert("menu:top-source-asns-parameters"@.len() != "show noisy neighbour"@.len());
    assert("menu:top-source-asns-parameters"@.len() != "run scope health sweep"@.len());
    assert("menu:top-source-asns-parameters"@.len() != "show recent change correlation"@.len());
    assert("menu:top-source-asns-parameters"@[0] != "investigate service degradation"@[0]);
    assert("menu:top-source-asns-parameters"@.len() != "run:prefix-traffic-form"@.len());
    assert("menu:top-source-asns-parameters"@.len() != "run:port-utilisation-form"@.len());
    assert("menu:top-source-asns-parameters"@.len() != "run:vm-rca-form"@.len());
    assert("menu:top-source-asns-parameters"@.len() != "run:slo-status-form"@.len());
    assert("menu:top-source-asns-parameters"@.len() != "run:bgp-advertisers-form"@.len());
    assert("menu:top-source-asns-parameters"@.len() != "run:top-source-asns-form"@.len());
    assert("menu:top-source-asns-parameters"@.len() != "run:free-ports-form"@.len());
    assert("menu:top-source-asns-parameters"@.len() != "run:noisy-neighbour-form"@.len());
    assert("menu:top-source-asns-parameters"@.len() != "run:scope-health-sweep-form"@.len());
    assert("menu:top-source-asns-parameters"@.len() != "run:change-correlation-form"@.len());
    assert("menu:top-source-asns-parameters"@.len() != "run:service-degradation-form"@.len());
    assert("menu:free-ports-parameters"@.len() != "menu:noisy-neighbour-parameters"@.len());
    assert("menu:free-ports-parameters"@.len() != "menu:scope-health-sweep-parameters"@.len());
    assert("menu:free-ports-parameters"@.len() != "menu:change-correlation-parameters"@.len());
    assert("menu:free-ports-parameters"@.len() != "menu:service-degradation-parameters"@.len());
    assert("menu:free-ports-parameters"@.len() != "show slo status"@.len());
    assert("menu:free-ports-parameters"@.len() != "show bgp advertisers"@.len());
    assert("menu:free-ports-parameters"@.len() != "show top source asns"@.len());
    assert("menu:free-ports-parameters"@.len() != "show free aci ports"@.len());
    assert("menu:free-ports-parameters"@.len() != "show noisy neighbour"@.len());
    assert("menu:free-ports-parameters"@.len() != "run scope health sweep"@.len());
    assert("menu:free-ports-parameters"@.len() != "show recent change correlation"@.len());
    assert("menu:free-ports-parameters"@.len() != "investigate service degradation"@.len());
    assert("menu:free-ports-parameters"@.len() != "run:prefix-traffic-form"@.len());
    assert("menu:free-ports-parameters"@.len() != "run:port-utilisation-form"@.len());
    assert("menu:free-ports-parameters"@.len() != "run:vm-rca-form"@.len());
    assert("menu:free-ports-parameters"@.len() != "run:slo-status-form"@.len());
    assert("menu:free-ports-parameters"@.len() != "run:bgp-advertisers-form"@.len());
    assert("menu:free-ports-parameters"@.len() != "run:top-source-asns-form"@.len());
    assert("menu:free-ports-parameters"@.len() != "run:free-ports-form"@.len());
    assert("menu:free-ports-parameters"@.len() != "run:noisy-neighbour-form"@.len());
    assert("menu:free-ports-parameters"@.len() != "run:scope-health-sweep-form"@.len());
    assert("menu:free-ports-parameters"@.len() != "run:change-correlation-form"@.len());
    assert("menu:free-ports-parameters"@.len() != "run:service-degradation-form"@.len());
    assert("menu:noisy-neighbour-parameters"@.len() != "menu:scope-health-sweep-parameters"@.len());
    assert("menu:noisy-neighbour-parameters"@.len() != "menu:change-correlation-parameters"@.len());
    assert("menu:noisy-neighbour-parameters"@.len() != "menu:service-degradation-parameters"@.len());
    assert("menu:noisy-neighbour-parameters"@.len() != "show slo status"@.len());
    assert("menu:noisy-neighbour-parameters"@.len() != "show bgp advertisers"@.len());
    assert("menu:noisy-neighbour-parameters"@.len() != "show top source asns"@.len());
    assert("menu:noisy-neighbour-parameters"@.len() != "show free aci ports"@.len());
    assert("menu:noisy-neighbour-parameters"@.len() != "show noisy neighbour"@.len());
    assert("menu:noisy-neighbour-parameters"@.len() != "run scope health sweep"@.len());
    assert("menu:noisy-neighbour-parameters"@.len() != "show recent change correlation"@.len());
    assert("menu:noisy-neighbour-parameters"@[0] != "investigate service degradation"@[0]);
    assert("menu:noisy-neighbour-parameters"@.len() != "run:prefix-traffic-form"@.len());
    assert("menu:noisy-neighbour-parameters"@.len() != "run:port-utilisation-form"@.len());
    assert("menu:noisy-neighbour-parameters"@.len() != "run:vm-rca-form"@.len());
    assert("menu:noisy-neighbour-parameters"@.len() != "run:slo-status-form"@.len());
    assert("menu:noisy-neighbour-parameters"@.len() != "run:bgp-advertisers-form"@.len());
    assert("menu:noisy-neighbour-parameters"@.len() != "run:top-source-asns-form"@.len());
    assert("menu:noisy-neighbour-parameters"@.len() != "run:free-ports-form"@.len());
    assert("menu:noisy-neighbour-parameters"@.len() != "run:noisy-neighbour-form"@.len());
    assert("menu:noisy-neighbour-parameters"@.len() != "run:scope-health-sweep-form"@.len());
    assert("menu:noisy-neighbour-parameters"@.len() != "run:change-correlation-form"@.len());
    assert("menu:noisy-neighbour-parameters"@.len() != "run:service-degradation-form"@.len());
    assert("menu:scope-health-sweep-parameters"@[5] != "menu:change-correlation-parameters"@[5]);
    assert("menu:scope-health-sweep-parameters"@.len() != "menu:service-degradation-parameters"@.len());
    assert("menu:scope-health-sweep-parameters"@.len() != "show slo status"@.len());
    assert("menu:scope-health-sweep-parameters"@.len() != "show bgp advertisers"@.len());
    assert("menu:scope-health-sweep-parameters"@.len() != "show top source asns"@.len());
    assert("menu:scope-health-sweep-parameters"@.len() != "show free aci ports"@.len());
    assert("menu:scope-health-sweep-parameters"@.len() != "show noisy neighbour"@.len());
    assert("menu:scope-health-sweep-parameters"@.len() != "run scope health sweep"@.len());
    assert("menu:scope-health-sweep-parameters"@.len() != "show recent change correlation"@.len());
    assert("menu:scope-health-sweep-parameters"@.len() != "investigate service degradation"@.len());
    assert("menu:scope-health-sweep-parameters"@.len() != "run:prefix-traffic-form"@.len());
    assert("menu:scope-health-sweep-parameters"@.len() != "run:port-utilisation-form"@.len());
    assert("menu:scope-health-sweep-parameters"@.len() != "run:vm-rca-form"@.len());
    assert("menu:scope-health-sweep-parameters"@.len() != "run:slo-status-form"@.len());
    assert("menu:scope-health-sweep-parameters"@.len() != "run:bgp-advertisers-form"@.len());
    assert("menu:scope-health-sweep-parameters"@.len() != "run:top-source-asns-form"@.len());
    assert("menu:scope-health-sweep-parameters"@.len() != "run:free-ports-form"@.len());
    assert("menu:scope-health-sweep-parameters"@.len() != "run:noisy-neighbour-form"@.len());
    assert("menu:scope-health-sweep-parameters"@.len() != "run:scope-health-sweep-form"@.len());
    assert("menu:scope-health-sweep-parameters"@.len() != "run:change-correlation-form"@.len());
    assert("menu:scope-health-sweep-parameters"@.len() != "run:service-degradation-form"@.len());
    assert("menu:change-correlation-parameters"@.len() != "menu:service-degradation-parameters"@.len());
    assert("menu:change-correlation-parameters"@.len() != "show slo status"@.len());
    assert("menu:change-correlation-parameters"@.len() != "show bgp advertisers"@.len());
    assert("menu:change-correlation-parameters"@.len() != "show top source asns"@.len());
    assert("menu:change-correlation-parameters"@.len() != "show free aci ports"@.len());
    assert("menu:change-correlation-parameters"@.len() != "show noisy neighbour"@.len());
    assert("menu:change-correlation-parameters"@.len() != "run scope health sweep"@.len());
    assert("menu:change-correlation-parameters"@.len() != "show recent change correlation"@.len());
    assert("menu:change-correlation-parameters"@.len() != "investigate service degradation"@.len());
    assert("menu:change-correlation-parameters"@.len() != "run:prefix-traffic-form"@.len());
    assert("menu:change-correlation-parameters"@.len() != "run:port-utilisation-form"@.len());
    assert("menu:change-correlation-parameters"@.len() != "run:vm-rca-form"@.len());
    assert("menu:change-correlation-parameters"@.len() != "run:slo-status-form"@.len());
    assert("menu:change-correlation-parameters"@.len() != "run:bgp-advertisers-form"@.len());
    assert("menu:change-correlation-parameters"@.len() != "run:top-source-asns-form"@.len());
    assert("menu:change-correlation-parameters"@.len() != "run:free-ports-form"@.len());
    assert("menu:change-correlation-parameters"@.len() != "run:noisy-neighbour-form"@.len());
    assert("menu:change-correlation-parameters"@.len() != "run:scope-health-sweep-form"@.len());
    assert("menu:change-correlation-parameters"@.len() != "run:change-correlation-form"@.len());
    assert("menu:change-correlation-parameters"@.len() != "run:service-degradation-form"@.len());
    assert("menu:service-degradation-parameters"@.len() != "show slo status"@.len());
    assert("menu:service-degradation-parameters"@.len() != "show bgp advertisers"@.len());
    assert("menu:service-degradation-parameters"@.len() != "show top source asns"@.len());
    assert("menu:service-degradation-parameters"@.len() != "show free aci ports"@.len());
    assert("menu:service-degradation-parameters"@.len() != "show noisy neighbour"@.len());
    assert("menu:service-degradation-parameters"@.len() != "run scope health sweep"@.len());
    assert("menu:service-degradation-parameters"@.len() != "show recent change correlation"@.len());
    assert("menu:service-degradation-parameters"@.len() != "investigate service degradation"@.len());
    assert("menu:service-degradation-parameters"@.len() != "run:prefix-traffic-form"@.len());
    assert("menu:service-degradation-parameters"@.len() != "run:port-utilisation-form"@.len());
    assert("menu:service-degradation-parameters"@.len() != "run:vm-rca-form"@.len());
    assert("menu:service-degradation-parameters"@.len() != "run:slo-status-form"@.len());
    assert("menu:service-degradation-parameters"@.len() != "run:bgp-advertisers-form"@.len());
    assert("menu:service-degradation-parameters"@.len() != "run:top-source-asns-form"@.len());
    assert("menu:service-degradation-parameters"@.len() != "run:free-ports-form"@.len());
    assert("menu:service-degradation-parameters"@.len() != "run:noisy-neighbour-form"@.len());
    assert("menu:service-degradation-parameters"@.len() != "run:scope-health-sweep-form"@.len());
    assert("menu:service-degradation-parameters"@.len() != "run:change-correlation-form"@.len());
    assert("menu:service-degradation-parameters"@.len() != "run:service-degradation-form"@.len());
    assert("show slo status"@.len() != "show bgp advertisers"@.len());
    assert("show slo status"@.len() != "show top source asns"@.len());
    assert("show slo status"@.len() != "show free aci ports"@.len());
    assert("show slo status"@.len() != "show noisy neighbour"@.len());
    assert("show slo status"@.len() != "run scope health sweep"@.len());
    assert("show slo status"@.len() != "show recent change correlation"@.len());
    assert("show slo status"@.len() != "investigate service degradation"@.len());
    assert("show slo status"@.len() != "run:prefix-traffic-form"@.len());
    assert("show slo status"@.len() != "run:port-utilisation-form"@.len());
    assert("show slo status"@[0] != "run:vm-rca-form"@[0]);
    assert("show slo status"@.len() != "run:slo-status-form"@.len());
    assert("show slo status"@.len() != "run:bgp-advertisers-form"@.len());
    assert("show slo status"@.len() != "run:top-source-asns-form"@.len());
    assert("show slo status"@.len() != "run:free-ports-form"@.len());
    assert("show slo status"@.len() != "run:noisy-neighbour-form"@.len());
    assert("show slo status"@.len() != "run:scope-health-sweep-form"@.len());
    assert("show slo status"@.len() != "run:change-correlation-form"@.len());
    assert("show slo status"@.len() != "run:service-degradation-form"@.len());
    assert("show bgp advertisers"@[5] != "show top source asns"@[5]);
    assert("show bgp advertisers"@.len() != "show free aci ports"@.len());
    assert("show bgp advertisers"@[5] != "show noisy neighbour"@[5]);
    assert("show bgp advertisers"@.len() != "run scope health sweep"@.len());
    assert("show bgp advertisers"@.len() != "show recent change correlation"@.len());
    assert("show bgp advertisers"@.len() != "investigate service degradation"@.len());
    assert("show bgp advertisers"@.len() != "run:prefix-traffic-form"@.len());
    assert("show bgp advertisers"@.len() != "run:port-utilisation-form"@.len());
    assert("show bgp advertisers"@.len() != "run:vm-rca-form"@.len());
    assert("show bgp advertisers"@.len() != "run:slo-status-form"@.len());
    assert("show bgp advertisers"@.len() != "run:bgp-advertisers-form"@.len());
    assert("show bgp advertisers"@.len() != "run:top-source-asns-form"@.len());
    assert("show bgp advertisers"@.len() != "run:free-ports-form"@.len());
    assert("show bgp advertisers"@.len() != "run:noisy-neighbour-form"@.len());
    assert("show bgp advertisers"@.len() != "run:scope-health-sweep-form"@.len());
    assert("show bgp advertisers"@.len() != "run:change-correlation-form"@.len());
    assert("show bgp advertisers"@.len() != "run:service-degradation-form"@.len());
    assert("show top source asns"@.len() != "show free aci ports"@.len());
    assert("show top source asns"@[5] != "show noisy neighbour"@[5]);
    assert("show top source asns"@.len() != "run scope health sweep"@.len());
    assert("show top source asns"@.len() != "show recent change correlation"@.len());
    assert("show top source asns"@.len() != "investigate service degradation"@.len());
    assert("show top source asns"@.len() != "run:prefix-traffic-form"@.len());
    assert("show top source asns"@.len() != "run:port-utilisation-form"@.len());
    assert("show top source asns"@.len() != "run:vm-rca-form"@.len());
    assert("show top source asns"@.len() != "run:slo-status-form"@.len());
    assert("show top source asns"@.len() != "run:bgp-advertisers-form"@.len());
    assert("show top source asns"@.len() != "run:top-source-asns-form"@.len());
    assert("show top source asns"@.len() != "run:free-ports-form"@.len());
    assert("show top source asns"@.len() != "run:noisy-neighbour-form"@.len());
    assert("show top source asns"@.len() != "run:scope-health-sweep-form"@.len());
    assert("show top source asns"@.len() != "run:change-correlation-form"@.len());
    assert("show top source asns"@.len() != "run:service-degradation-form"@.len());
    assert("show free aci ports"@.len() != "show noisy neighbour"@.len());
    assert("show free aci ports"@.len() != "run scope health sweep"@.len());
    assert("show free aci ports"@.len() != "show recent change correlation"@.len());
    assert("show free aci ports"@.len() != "investigate service degradation"@.len());
    assert("show free aci ports"@.len() != "run:prefix-traffic-form"@.len());
    assert("show free aci ports"@.len() != "run:port-utilisation-form"@.len());
    assert("show free aci ports"@.len() != "run:vm-rca-form"@.len());
    assert("show free aci ports"@[0] != "run:slo-status-form"@[0]);
    assert("show free aci ports"@.len() != "run:bgp-advertisers-form"@.len());
    assert("show free aci ports"@.len() != "run:top-source-asns-form"@.len());
    assert("show free aci ports"@[0] != "run:free-ports-form"@[0]);
    assert("show free aci ports"@.len() != "run:noisy-neighbour-form"@.len());
    assert("show free aci ports"@.len() != "run:scope-health-sweep-form"@.len());
    assert("show free aci ports"@.len() != "run:change-correlation-form"@.len());
    assert("show free aci ports"@.len() != "run:service-degradation-form"@.len());
    assert("show noisy neighbour"@.len() != "run scope health sweep"@.len());
    assert("show noisy neighbour"@.len() != "show recent change correlation"@.len());
    assert("show noisy neighbour"@.len() != "investigate service degradation"@.len());
    assert("show noisy neighbour"@.len() != "run:prefix-traffic-form"@.len());
    assert("show noisy neighbour"@.len() != "run:port-utilisation-form"@.len());
    assert("show noisy neighbour"@.len() != "run:vm-rca-form"@.len());
    assert("show noisy neighbour"@.len() != "run:slo-status-form"@.len());
    assert("show noisy neighbour"@.len() != "run:bgp-advertisers-form"@.len());
    assert("show noisy neighbour"@.len() != "run:top-source-asns-form"@.len());
    assert("show noisy neighbour"@.len() != "run:free-ports-form"@.len());
    assert("show noisy neighbour"@.len() != "run:noisy-neighbour-form"@.len());
    assert("show noisy neighbour"@.len() != "run:scope-health-sweep-form"@.len());
    assert("show noisy neighbour"@.len() != "run:change-correlation-form"@.len());
    assert("show noisy neighbour"@.len() != "run:service-degradation-form"@.len());
    assert("run scope health sweep"@.len() != "show recent change correlation"@.len());
    assert("run scope health sweep"@.len() != "investigate service degradation"@.len());
    assert("run scope health sweep"@.len() != "run:prefix-traffic-form"@.len());
    assert("run scope health sweep"@.len() != "run:port-utilisation-form"@.len());
    assert("run scope health sweep"@.len() != "run:vm-rca-form"@.len());
    assert("run scope health sweep"@.len() != "run:slo-status-form"@.len());
    assert("run scope health sweep"@.len() != "run:bgp-advertisers-form"@.len());
    assert("run scope health sweep"@.len() != "run:top-source-asns-form"@.len());
    assert("run scope health sweep"@.len() != "run:free-ports-form"@.len());
    assert("run scope health sweep"@.len() != "run:noisy-neighbour-form"@.len());
    assert("run scope health sweep"@.len() != "run:scope-health-sweep-form"@.len());
    assert("run scope health sweep"@.len() != "run:change-correlation-form"@.len());
    assert("run scope health sweep"@.len() != "run:service-degradation-form"@.len());
    assert("show recent change correlation"@.len() != "investigate service degradation"@.len());
    assert("show recent change correlation"@.len() != "run:prefix-traffic-form"@.len());
    assert("show recent change correlation"@.len() != "run:port-utilisation-form"@.len());
    assert("show recent change correlation"@.len() != "run:vm-rca-form"@.len());
    assert("show recent change correlation"@.len() != "run:slo-status-form"@.len());
    assert("show recent change correlation"@.len() != "run:bgp-advertisers-form"@.len());
    assert("show recent change correlation"@.len() != "run:top-source-asns-form"@.len());
    assert("show recent change correlation"@.len() != "run:free-ports-form"@.len());
    assert("show recent change correlation"@.len() != "run:noisy-neighbour-form"@.len());
    assert("show recent change correlation"@.len() != "run:scope-health-sweep-form"@.len());
    assert("show recent change correlation"@.len() != "run:change-correlation-form"@.len());
    assert("show recent change correlation"@.len() != "run:service-degradation-form"@.len());
    assert("investigate service degradation"@.len() != "run:prefix-traffic-form"@.len());
    assert("investigate service degradation"@.len() != "run:port-utilisation-form"@.len());
    assert("investigate service degradation"@.len() != "run:vm-rca-form"@.len());
    assert("investigate service degradation"@.len() != "run:slo-status-form"@.len());
    assert("investigate service degradation"@.len() != "run:bgp-advertisers-form"@.len());
    assert("investigate service degradation"@.len() != "run:top-source-asns-form"@.len());
    assert("investigate service degradation"@.len() != "run:free-ports-form"@.len());
    assert("investigate service degradation"@.len() != "run:noisy-neighbour-form"@.len());
    assert("investigate service degradation"@.len() != "run:scope-health-sweep-form"@.len());
    assert("investigate service degradation"@.len() != "run:change-correlation-form"@.len());
    assert("investigate service degradation"@.len() != "run:service-degradation-form"@.len());
    assert("run:prefix-traffic-form"@.len() != "run:port-utilisation-form"@.len());
    assert("run:prefix-traffic-form"@.len() != "run:vm-rca-form"@.len());
    assert("run:prefix-traffic-form"@.len() != "run:slo-status-form"@.len());
    assert("run:prefix-traffic-form"@.len() != "run:bgp-advertisers-form"@.len());
    assert("run:prefix-traffic-form"@.len() != "run:top-source-asns-form"@.len());
    assert("run:prefix-traffic-form"@.len() != "run:free-ports-form"@.len());
    assert("run:prefix-traffic-form"@.len() != "run:noisy-neighbour-form"@.len());
    assert("run:prefix-traffic-form"@.len() != "run:scope-health-sweep-form"@.len());
    assert("run:prefix-traffic-form"@.len() != "run:change-correlation-form"@.len());
    assert("run:prefix-traffic-form"@.len() != "run:service-degradation-form"@.len());
    assert("run:port-utilisation-form"@.len() != "run:vm-rca-form"@.len());
    assert("run:port-utilisation-form"@.len() != "run:slo-status-form"@.len());
    assert("run:port-utilisation-form"@.len() != "run:bgp-advertisers-form"@.len());
    assert("run:port-utilisation-form"@.len() != "run:top-source-asns-form"@.len());
    assert("run:port-utilisation-form"@.len() != "run:free-ports-form"@.len());
    assert("run:port-utilisation-form"@.len() != "run:noisy-neighbour-form"@.len());
    assert("run:port-utilisation-form"@.len() != "run:scope-health-sweep-form"@.len());
    assert("run:port-utilisation-form"@.len() != "run:change-correlation-form"@.len());
    assert("run:port-utilisation-form"@.len() != "run:service-degradation-form"@.len());
    assert("run:vm-rca-form"@.len() != "run:slo-status-form"@.len());
    assert("run:vm-rca-form"@.len() != "run:bgp-advertisers-form"@.len());
    assert("run:vm-rca-form"@.len() != "run:top-source-asns-form"@.len());
    assert("run:vm-rca-form"@.len() != "run:free-ports-form"@.len());
    assert("run:vm-rca-form"@.len() != "run:noisy-neighbour-form"@.len());
    assert("run:vm-rca-form"@.len() != "run:scope-health-sweep-form"@.len());
    assert("run:vm-rca-form"@.len() != "run:change-correlation-form"@.len());
    assert("run:vm-rca-form"@.len() != "run:service-degradation-form"@.len());
    assert("run:slo-status-form"@.len() != "run:bgp-advertisers-form"@.len());
    assert("run:slo-status-form"@.len() != "run:top-source-asns-form"@.len());
    assert("run:slo-status-form"@[4] != "run:free-ports-form"@[4]);
    assert("run:slo-status-form"@.len() != "run:noisy-neighbour-form"@.len());
    assert("run:slo-status-form"@.len() != "run:scope-health-sweep-form"@.len());
    assert("run:slo-status-form"@.len() != "run:change-correlation-form"@.len());
    assert("run:slo-status-form"@.len() != "run:service-degradation-form"@.len());
    assert("run:bgp-advertisers-form"@[4] != "run:top-source-asns-form"@[4]);
    assert("run:bgp-advertisers-form"@.len() != "run:free-ports-form"@.len());
    assert("run:bgp-advertisers-form"@[4] != "run:noisy-neighbour-form"@[4]);
    assert("run:bgp-advertisers-form"@.len() != "run:scope-health-sweep-form"@.len());
    assert("run:bgp-advertisers-form"@.len() != "run:change-correlation-form"@.len());
    assert("run:bgp-advertisers-form"@.len() != "run:service-degradation-form"@.len());
    assert("run:top-source-asns-form"@.len() != "run:free-ports-form"@.len());
    assert("run:top-source-asns-form"@[4] != "run:noisy-neighbour-form"@[4]);
    assert("run:top-source-asns-form"@.len() != "run:scope-health-sweep-form"@.len());
    assert("run:top-source-asns-form"@.len() != "run:change-correlation-form"@.len());
    assert("run:top-source-asns-form"@.len() != "run:service-degradation-form"@.len());
    assert("run:free-ports-form"@.len() != "run:noisy-neighbour-form"@.len());
    assert("run:free-ports-form"@.len() != "run:scope-health-sweep-form"@.len());
    assert("run:free-ports-form"@.len() != "run:change-correlation-form"@.len());
    assert("run:free-ports-form"@.len() != "run:service-degradation-form"@.len());
    assert("run:noisy-neighbour-form"@.len() != "run:scope-health-sweep-form"@.len());
    assert("run:noisy-neighbour-form"@.len() != "run:change-correlation-form"@.len());
    assert("run:noisy-neighbour-form"@.len() != "run:service-degradation-form"@.len());
    assert("run:scope-health-sweep-form"@[4] != "run:change-correlation-form"@[4]);
    assert("run:scope-health-sweep-form"@.len() != "run:service-degradation-form"@.len());
    assert("run:change-correlation-form"@.len() != "run:service-degradation-form"@.len());
}

/// The button of each category menu opens that menu.
pub proof fn lemma_menu_step_opens_menu(m: MenuScreen)
    ensures
        plan_of(menu_step(m)) == PlanModel::Menu(m),
{
    lemma_route_literals_distinct();
}

/// The button of each parameter screen opens that screen.
pub proof fn lemma_parameters_step_opens_parameters(p: Playbook)
    ensures
        plan_of(parameters_step(p)) == PlanModel::Parameters(p),
{
    lemma_route_literals_distinct();
}

/// The query that names a parameter screen opens that screen too.
pub proof fn lemma_parameters_alias_opens_parameters(p: Playbook)
    requires
        parameters_alias(p) is Some,
    ensures
        plan_of(parameters_alias(p)->0) == PlanModel::Parameters(p),
{
    lemma_route_literals_distinct();
}

/// The submit button of each form runs that form.
pub proof fn lemma_form_step_runs_form(p: Playbook)
    ensures
        plan_of(form_step(p)) == PlanModel::FormRun(p),
{
    lemma_route_literals_distinct();
}

// ---------------------------------------------------------------------------
// Parameters given in the step
// ---------------------------------------------------------------------------

/// The pieces of `s` between its `:` separators, as `str::split(':')` yields them.
pub open spec fn split_colon(s: Seq<char>) -> Seq<Seq<char>>
    decreases s.len(),
{
    if s.len() == 0 {
        seq![Seq::<char>::empty()]
    } else {
        let head = split_colon(s.drop_last());
        if s.last() == ':' {
            head.push(Seq::<char>::empty())
        } else {
            head.update(head.len() - 1, head.last().push(s.last()))
        }
    }
}

/// The text after `key` in a piece that starts with it.
pub open spec fn value_after(token: Seq<char>, key: Seq<char>) -> Seq<char> {
    token.subrange(key.len() as int, token.len() as int)
}

/// The value of the last piece that starts with `key`.
pub open spec fn last_value(tokens: Seq<Seq<char>>, key: Seq<char>) -> Option<Seq<char>>
    decreases tokens.len(),
{
    if tokens.len() == 0 {
        None
    } else if starts_with(tokens.last(), key) {
        Some(value_after(tokens.last(), key))
    } else {
        last_value(tokens.drop_last(), key)
    }
}

/// The value of the last piece that starts with `key` and not with `first`.
pub open spec fn last_value_unless(tokens: Seq<Seq<char>>, key: Seq<char>, first: Seq<char>) -> Option<
    Seq<char>,
>
    decreases tokens.len(),
{
    if tokens.len() == 0 {
        None
    } else if !starts_with(tokens.last(), first) && starts_with(tokens.last(), key) {
        Some(value_after(tokens.last(), key))
    } else {
        last_value_unless(tokens.drop_last(), key, first)
    }
}

/// The values of the pieces that start with `key` and not with `first`, in order.
pub open spec fn values_unless(tokens: Seq<Seq<char>>, key: Seq<char>, first: Seq<char>) -> Seq<
    Seq<char>,
>
    decreases tokens.len(),
{
    if tokens.len() == 0 {
        Seq::empty()
    } else if !starts_with(tokens.last(), first) && starts_with(tokens.last(), key) {
        values_unless(tokens.drop_last(), key, first).push(value_after(tokens.last(), key))
    } else {
        values_unless(tokens.drop_last(), key, first)
    }
}

/// The pieces of `s` between its `:` separators.
pub fn split_colon_exec(s: &str) -> (r: Vec<String>)
    ensures
        string_views(r@) == split_colon(s@),
{
    let n = s.unicode_len();
    let mut tokens: Vec<String> = Vec::new();
    let mut cur = String::new();
    let mut i: usize = 0;
    proof {
        assert(s@.subrange(0, 0) =~= Seq::<char>::empty());
        assert(string_views(tokens@).push(cur@) =~= split_colon(s@.subrange(0, 0)));
    }
    while i < n
        invariant
            n == s@.len(),
            i <= n,
            split_colon(s@.subrange(0, i as int)) == string_views(tokens@).push(cur@),
        decreases n - i,
    {
        let c = s.get_char(i);
        let ghost t1 = s@.subrange(0, i + 1);
        let ghost before = string_views(tokens@);
        let ghost cur_before = cur@;
        proof {
            assert(t1.drop_last() =~= s@.subrange(0, i as int));
            assert(t1.last() == c);
        }
        if c == ':' {
            tokens.push(cur);
            cur = String::new();
            proof {
                assert(string_views(tokens@) =~= before.push(cur_before));
                assert(string_views(tokens@).push(cur@) =~= split_colon(t1));
            }
        } else {
            push_char(&mut cur, c);
            proof {
                assert(string_views(tokens@).push(cur@) =~= split_colon(t1));
            }
        }
        i = i + 1;
    }
    let ghost before = string_views(tokens@);
    let ghost last = cur@;
    tokens.push(cur);
    proof {
        assert(s@.subrange(0, n as int) =~= s@);
        assert(string_views(tokens@) =~= before.push(last));
    }
    tokens
}

/// The parameters of a `run:port-utilisation:` step.
#[derive(Debug, Clone, PartialEq, Eq)]
pub struct PortRunParams {
    /// The last `device=` value, `2201` when none is given.
    pub device: String,
    /// Every `threshold=` value, in order; the run uses the last one that reads as a number.
    pub thresholds: Vec<String>,
}

/// The parameters of a `run:vm-rca:` step.
#[derive(Debug, Clone, PartialEq, Eq)]
pub struct VmRunParams {
    /// The last `service=` value, `mobile-data` when none is given.
    pub service: String,
    /// The last `cluster=` value.
    pub cluster: Option<String>,
}

/// The parameters of a `run:port-utilisation:` step, from the text after that prefix.
pub fn port_run_params(params: &str) -> (r: PortRunParams)
    ensures
        r.device@ == last_value(split_colon(params@), "device="@).unwrap_or("2201"@),
        string_views(r.thresholds@) == values_unless(split_colon(params@), "threshold="@, "device="@),
{
    let tokens = split_colon_exec(params);
    let ghost tv = split_colon(params@);
    let mut device = "2201".to_string();
    let mut thresholds: Vec<String> = Vec::new();
    let mut i: usize = 0;
    proof {
        assert(tv.subrange(0, 0) =~= Seq::<Seq<char>>::empty());
        assert(string_views(thresholds@) =~= Seq::<Seq<char>>::empty());
    }
    while i < tokens.len()
        invariant
            string_views(tokens@) == tv,
            i <= tokens.len(),
            device@ == last_value(tv.subrange(0, i as int), "device="@).unwrap_or("2201"@),
            string_views(thresholds@) == values_unless(tv.subrange(0, i as int), "threshold="@, "device="@),
        decreases tokens.len() - i,
    {
        let ghost t1 = tv.subrange(0, i + 1);
        let ghost before = string_views(thresholds@);
        proof {
            assert(t1.drop_last() =~= tv.subrange(0, i as int));
            assert(t1.last() == tokens@[i as int]@);
        }
        let token = tokens[i].as_str();
        match strip_prefix(token, "device=") {
            Some(value) => {
                device = value.to_string();
            },
            None => {
                match strip_prefix(token, "threshold=") {
                    Some(value) => {
                        thresholds.push(value.to_string());
                        proof {
                            assert(string_views(thresholds@) =~= before.push(value@));
                        }
                    },
                    None => {},
                }
            },
        }
        i = i + 1;
    }
    proof {
        assert(tv.subrange(0, tokens@.len() as int) =~= tv);
    }
    PortRunParams { device, thresholds }
}

/// The parameters of a `run:vm-rca:` step, from the text after that prefix.
pub fn vm_run_params(params: &str) -> (r: VmRunParams)
    ensures
        r.service@ == last_value(split_colon(params@), "service="@).unwrap_or("mobile-data"@),
        opt_view(r.cluster) == last_value_unless(split_colon(params@), "cluster="@, "service="@),
{
    let tokens = split_colon_exec(params);
    let ghost tv = split_colon(params@);
    let mut service = "mobile-data".to_string();
    let mut cluster: Option<String> = None;
    let mut i: usize = 0;
    proof {
        assert(tv.subrange(0, 0) =~= Seq::<Seq<char>>::empty());
    }
    while i < tokens.len()
        invariant
            string_views(tokens@) == tv,
            i <= tokens.len(),
            service@ == last_value(tv.subrange(0, i as int), "service="@).unwrap_or("mobile-data"@),
            opt_view(cluster) == last_value_unless(tv.subrange(0, i as int), "cluster="@, "service="@),
        decreases tokens.len() - i,
    {
        let ghost t1 = tv.subrange(0, i + 1);
        proof {
            assert(t1.drop_last() =~= tv.subrange(0, i as int));
            assert(t1.last() == tokens@[i as int]@);
        }
        let token = tokens[i].as_str();
        match strip_prefix(token, "service=") {
            Some(value) => {
                service = value.to_string();
            },
            None => {
                match strip_prefix(token, "cluster=") {
                    Some(value) => {
                        cluster = Some(value.to_string());
                    },
                    None => {},
                }
            },
        }
        i = i + 1;
    }
    proof {
        assert(tv.subrange(0, tokens@.len() as int) =~= tv);
    }
    VmRunParams { service, cluster }
}

// ---------------------------------------------------------------------------
// Form metadata
// ---------------------------------------------------------------------------

/// The object that request metadata stands for: an object as it is, the
/// object that a string holds as JSON text (`parsed`, the document that the
/// text parses to, where it does), and an empty object otherwise.
pub open spec fn normalized_metadata(metadata: Option<Json>, parsed: Option<Json>) -> Json {
    match metadata {
        Some(Json::Object(e)) => Json::Object(e),
        Some(Json::Str(_)) => match parsed {
            Some(Json::Object(e)) => Json::Object(e),
            _ => Json::Object(Seq::empty()),
        },
        _ => Json::Object(Seq::empty()),
    }
}

/// The member `metadata` of a message.
pub open spec fn message_metadata(message: Option<Json>) -> Option<Json> {
    match message {
        Some(m) => json_get(m, "metadata"@),
        None => None,
    }
}

/// The metadata of a request: its own metadata where that is a non-empty
/// object, else the metadata of its message where that is one, else the
/// message itself.
pub open spec fn merged_metadata(
    metadata: Option<Json>,
    message: Option<Json>,
    parsed_metadata: Option<Json>,
    parsed_message_metadata: Option<Json>,
    parsed_message: Option<Json>,
) -> Json {
    let direct = normalized_metadata(metadata, parsed_metadata);
    let nested = normalized_metadata(message_metadata(message), parsed_message_metadata);
    if is_nonempty_object(direct) {
        direct
    } else if is_nonempty_object(nested) {
        nested
    } else {
        normalized_metadata(message, parsed_message)
    }
}

/// The object that request metadata stands for; `parsed` is the document
/// that a string `metadata` holds as JSON text, where it parses.
pub fn normalized_metadata_object(metadata: Option<&JsonValue>, parsed: Option<JsonValue>) -> (r:
    JsonValue)
    ensures
        r@ == normalized_metadata(
            match metadata {
                Some(m) => Some(m@),
                None => None,
            },
            opt_json(parsed),
        ),
{
    match metadata {
        Some(m) => match m {
            JsonValue::Object(_) => deep_clone(m),
            JsonValue::Str(_) => match parsed {
                Some(p) => if p.is_object() {
                    p
                } else {
                    JsonValue::empty_object()
                },
                None => JsonValue::empty_object(),
            },
            _ => JsonValue::empty_object(),
        },
        None => JsonValue::empty_object(),
    }
}

/// The metadata of a request; the `parsed_` arguments are the documents that
/// the request's metadata, its message's metadata and its message hold as JSON
/// text, where they are strings that parse.
pub fn merged_metadata_object(
    metadata: Option<&JsonValue>,
    message: Option<&JsonValue>,
    parsed_metadata: Option<JsonValue>,
    parsed_message_metadata: Option<JsonValue>,
    parsed_message: Option<JsonValue>,
) -> (r: JsonValue)
    ensures
        r@ == merged_metadata(
            match metadata {
                Some(m) => Some(m@),
                None => None,
            },
            match message {
                Some(m) => Some(m@),
                None => None,
            },
            opt_json(parsed_metadata),
            opt_json(parsed_message_metadata),
            opt_json(parsed_message),
        ),
{
    let direct = normalized_metadata_object(metadata, parsed_metadata);
    if direct.is_nonempty_object() {
        return direct;
    }
    let from_message_metadata: Option<&JsonValue> = match message {
        Some(m) => m.get("metadata"),
        None => None,
    };
    let nested = normalized_metadata_object(from_message_metadata, parsed_message_metadata);
    if nested.is_nonempty_object() {
        return nested;
    }
    normalized_metadata_object(message, parsed_message)
}

/// `v.get(outer).and_then(|o| o.get(key))`.
pub open spec fn nested_get(v: Json, outer: Seq<char>, key: Seq<char>) -> Option<Json> {
    match json_get(v, outer) {
        Some(o) => json_get(o, key),
        None => None,
    }
}

/// `v.get(a).and_then(|o| o.get(b)).and_then(|o| o.get(key))`.
pub open spec fn nested2_get(v: Json, a: Seq<char>, b: Seq<char>, key: Seq<char>) -> Option<Json> {
    match json_get(v, a) {
        Some(o) => nested_get(o, b, key),
        None => None,
    }
}

/// Where a form value is found in metadata: at its top level, then under
/// `metadata`, `value`, `event`, `metadata.value` and `event.value`.
pub open spec fn metadata_lookup(m: Json, key: Seq<char>) -> Option<Json> {
    if json_get(m, key) is Some {
        json_get(m, key)
    } else if nested_get(m, "metadata"@, key) is Some {
        nested_get(m, "metadata"@, key)
    } else if nested_get(m, "value"@, key) is Some {
        nested_get(m, "value"@, key)
    } else if nested_get(m, "event"@, key) is Some {
        nested_get(m, "event"@, key)
    } else if nested2_get(m, "metadata"@, "value"@, key) is Some {
        nested2_get(m, "metadata"@, "value"@, key)
    } else {
        nested2_get(m, "event"@, "value"@, key)
    }
}

/// The text of a form value that is a string.
pub open spec fn metadata_text(m: Json, key: Seq<char>) -> Option<Seq<char>> {
    match metadata_lookup(m, key) {
        Some(v) => json_str(v),
        None => None,
    }
}

fn get_nested<'a>(v: &'a JsonValue, outer: &str, key: &str) -> (r: Option<&'a JsonValue>)
    ensures
        match r {
            Some(x) => nested_get(v@, outer@, key@) == Some(x@),
            None => nested_get(v@, outer@, key@) is None,
        },
{
    match v.get(outer) {
        Some(o) => o.get(key),
        None => None,
    }
}

fn get_nested2<'a>(v: &'a JsonValue, a: &str, b: &str, key: &str) -> (r: Option<&'a JsonValue>)
    ensures
        match r {
            Some(x) => nested2_get(v@, a@, b@, key@) == Some(x@),
            None => nested2_get(v@, a@, b@, key@) is None,
        },
{
    match v.get(a) {
        Some(o) => get_nested(o, b, key),
        None => None,
    }
}

/// Where a form value is found in metadata.
pub fn metadata_lookup_value<'a>(metadata: &'a JsonValue, key: &str) -> (r: Option<&'a JsonValue>)
    ensures
        match r {
            Some(x) => metadata_lookup(metadata@, key@) == Some(x@),
            None => metadata_lookup(metadata@, key@) is None,
        },
{
    if let Some(x) = metadata.get(key) {
        return Some(x);
    }
    if let Some(x) = get_nested(metadata, "metadata", key) {
        return Some(x);
    }
    if let Some(x) = get_nested(metadata, "value", key) {
        return Some(x);
    }
    if let Some(x) = get_nested(metadata, "event", key) {
        return Some(x);
    }
    if let Some(x) = get_nested2(metadata, "metadata", "value", key) {
        return Some(x);
    }
    get_nested2(metadata, "event", "value", key)
}

/// The text of a form value that is a string.
pub fn metadata_text_value<'a>(metadata: &'a JsonValue, key: &str) -> (r: Option<&'a String>)
    ensures
        opt_view(
            match r {
                Some(s) => Some(*s),
                None => None,
            },
        ) == metadata_text(metadata@, key@),
{
    match metadata_lookup_value(metadata, key) {
        Some(v) => v.as_str(),
        None => None,
    }
}

/// A form text that is trimmed and falls back to `default` when absent or blank.
pub open spec fn trimmed_or(t: Option<Seq<char>>, default: Seq<char>) -> Seq<char> {
    match t {
        Some(x) => if trimmed(x).len() > 0 {
            trimmed(x)
        } else {
            default
        },
        None => default,
    }
}

/// A form text as given, `default` when absent.
pub open spec fn text_or(t: Option<Seq<char>>, default: Seq<char>) -> Seq<char> {
    match t {
        Some(x) => x,
        None => default,
    }
}

/// The metadata key of the value that a form run is about.
pub open spec fn subject_key(p: Playbook) -> Seq<char> {
    match p {
        Playbook::PrefixTraffic | Playbook::BgpAdvertisers | Playbook::TopSourceAsns => "prefix"@,
        Playbook::PortUtilisation | Playbook::FreePorts => "device"@,
        Playbook::NoisyNeighbour | Playbook::ScopeHealthSweep => "scope"@,
        _ => "service"@,
    }
}

/// The value that a form run is about when the form gives none.
pub open spec fn subject_default(p: Playbook) -> Seq<char> {
    match p {
        Playbook::PrefixTraffic | Playbook::BgpAdvertisers | Playbook::TopSourceAsns => "10.24.0.0/16"@,
        Playbook::PortUtilisation | Playbook::FreePorts => "2201"@,
        Playbook::NoisyNeighbour | Playbook::ScopeHealthSweep => "riyadh-core"@,
        _ => "mobile-data"@,
    }
}

/// The values that a form run reads from the request metadata.
#[derive(Debug, Clone, PartialEq, Eq)]
pub struct FormValues {
    /// The prefix, device, service or scope that the run is about.
    pub subject: String,
    pub direction: Option<String>,
    pub cluster: Option<String>,
    pub symptom: Option<String>,
    pub environment: Option<String>,
    pub source_system: Option<String>,
    pub time_window: String,
}

pub open spec fn form_direction(p: Playbook, m: Json) -> Option<Seq<char>> {
    match p {
        Playbook::PrefixTraffic | Playbook::TopSourceAsns => Some(
            text_or(metadata_text(m, "direction"@), "Inbound"@),
        ),
        _ => None,
    }
}

pub open spec fn form_cluster(p: Playbook, m: Json) -> Option<Seq<char>> {
    match p {
        Playbook::VmRca => Some(trimmed_or(metadata_text(m, "cluster"@), "default"@)),
        Playbook::ServiceDegradation => Some(text_or(metadata_text(m, "cluster"@), "default"@)),
        _ => None,
    }
}

pub open spec fn form_symptom(p: Playbook, m: Json) -> Option<Seq<char>> {
    match p {
        Playbook::VmRca => Some(trimmed_or(metadata_text(m, "symptom"@), "Latency spike"@)),
        _ => None,
    }
}

pub open spec fn form_environment(p: Playbook, m: Json) -> Option<Seq<char>> {
    match p {
        Playbook::SloStatus => Some(trimmed_or(metadata_text(m, "environment"@), "Production"@)),
        _ => None,
    }
}

pub open spec fn form_source_system(p: Playbook, m: Json) -> Option<Seq<char>> {
    match p {
        Playbook::ChangeCorrelation => Some(
            text_or(metadata_text(m, "source_system"@), "Change registry"@),
        ),
        _ => None,
    }
}

fn trimmed_text_or(metadata: &JsonValue, key: &str, default: &str) -> (r: String)
    ensures
        r@ == trimmed_or(metadata_text(metadata@, key@), default@),
{
    match metadata_text_value(metadata, key) {
        Some(t) => {
            let x = trim(t.as_str());
            if x.unicode_len() > 0 {
                x.to_string()
            } else {
                default.to_string()
            }
        },
        None => default.to_string(),
    }
}

fn text_or_default(metadata: &JsonValue, key: &str, default: &str) -> (r: String)
    ensures
        r@ == text_or(metadata_text(metadata@, key@), default@),
{
    match metadata_text_value(metadata, key) {
        Some(t) => t.clone(),
        None => default.to_string(),
    }
}

fn subject_of(p: Playbook) -> (r: (&'static str, &'static str))
    ensures
        r.0@ == subject_key(p),
        r.1@ == subject_default(p),
{
    match p {
        Playbook::PrefixTraffic | Playbook::BgpAdvertisers | Playbook::TopSourceAsns => (
            "prefix",
            "10.24.0.0/16",
        ),
        Playbook::PortUtilisation | Playbook::FreePorts => ("device", "2201"),
        Playbook::NoisyNeighbour | Playbook::ScopeHealthSweep => ("scope", "riyadh-core"),
        _ => ("service", "mobile-data"),
    }
}

/// The values that the form run of `p` reads from the request metadata, with
/// the defaults of each form.
pub fn form_values(p: Playbook, metadata: &JsonValue) -> (r: FormValues)
    ensures
        r.subject@ == trimmed_or(metadata_text(metadata@, subject_key(p)), subject_default(p)),
        opt_view(r.direction) == form_direction(p, metadata@),
        opt_view(r.cluster) == form_cluster(p, metadata@),
        opt_view(r.symptom) == form_symptom(p, metadata@),
        opt_view(r.environment) == form_environment(p, metadata@),
        opt_view(r.source_system) == form_source_system(p, metadata@),
        r.time_window@ == text_or(metadata_text(metadata@, "time_window"@), "Last 24 hours"@),
{
    let (key, default) = subject_of(p);
    let subject = trimmed_text_or(metadata, key, default);
    let direction = match p {
        Playbook::PrefixTraffic | Playbook::TopSourceAsns => Some(
            text_or_default(metadata, "direction", "Inbound"),
        ),
        _ => None,
    };
    let cluster = match p {
        Playbook::VmRca => Some(trimmed_text_or(metadata, "cluster", "default")),
        Playbook::ServiceDegradation => Some(text_or_default(metadata, "cluster", "default")),
        _ => None,
    };
    let symptom = match p {
        Playbook::VmRca => Some(trimmed_text_or(metadata, "symptom", "Latency spike")),
        _ => None,
    };
    let environment = match p {
        Playbook::SloStatus => Some(trimmed_text_or(metadata, "environment", "Production")),
        _ => None,
    };
    let source_system = match p {
        Playbook::ChangeCorrelation => Some(
            text_or_default(metadata, "source_system", "Change registry"),
        ),
        _ => None,
    };
    let time_window = text_or_default(metadata, "time_window", "Last 24 hours");
    FormValues { subject, direction, cluster, symptom, environment, source_system, time_window }
}

/// The cluster that a VM RCA run is narrowed to: none for `default` in any ASCII case.
pub fn cluster_filter(cluster: &str) -> (r: Option<String>)
    ensures
        opt_view(r) == if lower_seq(cluster@) == "default"@ {
            None
        } else {
            Some(cluster@)
        },
{
    let lowered = to_ascii_lowercase(cluster);
    if str_eq(lowered.as_str(), "default") {
        None
    } else {
        Some(cluster.to_string())
    }
}

// ---------------------------------------------------------------------------
// Labels
// ---------------------------------------------------------------------------

/// The display name of a service in a VM RCA card.
pub open spec fn service_label_of(service: Seq<char>) -> Seq<char> {
    if service == "internet"@ {
        "Internet Gateway"@
    } else {
        "Mobile Data Core"@
    }
}

/// The display name of a cluster in a VM RCA card.
pub open spec fn cluster_label_of(cluster: Seq<char>) -> Seq<char> {
    if cluster == "riyadh-core"@ {
        "Core Riyadh"@
    } else if cluster == "dubai-core"@ {
        "Core Dubai"@
    } else {
        "Default cluster"@
    }
}

/// The display name of a service in a VM RCA card.
pub fn vm_service_label(service: &str) -> (r: &'static str)
    ensures
        r@ == service_label_of(service@),
{
    if str_eq(service, "internet") {
        "Internet Gateway"
    } else {
        "Mobile Data Core"
    }
}

/// The display name of a cluster in a VM RCA card.
pub fn vm_cluster_label(cluster: &str) -> (r: &'static str)
    ensures
        r@ == cluster_label_of(cluster@),
{
    if str_eq(cluster, "riyadh-core") {
        "Core Riyadh"
    } else if str_eq(cluster, "dubai-core") {
        "Core Dubai"
    } else {
        "Default cluster"
    }
}

/// The sampling interval that a time window is shown at.
pub open spec fn resolution_label_of(time_window: Seq<char>) -> Seq<char> {
    if time_window == "Last hour"@ {
        "1-minute intervals"@
    } else if time_window == "Last 7 days"@ {
        "1-hour intervals"@
    } else {
        "5-minute intervals"@
    }
}

/// The sampling interval that a time window is shown at.
pub fn prefix_traffic_resolution_label(time_window: &str) -> (r: &'static str)
    ensures
        r@ == resolution_label_of(time_window@),
{
    if str_eq(time_window, "Last hour") {
        "1-minute intervals"
    } else if str_eq(time_window, "Last 7 days") {
        "1-hour intervals"
    } else {
        "5-minute intervals"
    }
}

/// The time of the traffic peak shown for a time window.
pub open spec fn peak_time_label_of(time_window: Seq<char>) -> Seq<char> {
    if time_window == "Last hour"@ {
        "14:55 UTC"@
    } else if time_window == "Last 7 days"@ {
        "Tuesday 14:35 UTC"@
    } else {
        "14:35 UTC"@
    }
}

/// The time of the traffic peak shown for a time window.
pub fn prefix_traffic_peak_time_label(time_window: &str) -> (r: &'static str)
    ensures
        r@ == peak_time_label_of(time_window@),
{
    if str_eq(time_window, "Last hour") {
        "14:55 UTC"
    } else if str_eq(time_window, "Last 7 days") {
        "Tuesday 14:35 UTC"
    } else {
        "14:35 UTC"
    }
}

/// The rank of a severity: critical above warning above anything else.
pub open spec fn severity_rank_of(severity: Seq<char>) -> u8 {
    if severity == "critical"@ {
        3
    } else if severity == "warning"@ {
        2
    } else {
        1
    }
}

/// The rank of a severity, by which a combined triage takes the gravest one.
pub fn severity_rank(severity: &str) -> (r: u8)
    ensures
        r == severity_rank_of(severity@),
        1 <= r <= 3,
{
    if str_eq(severity, "critical") {
        3
    } else if str_eq(severity, "warning") {
        2
    } else {
        1
    }
}

/// Whether a route is a free-text query that runs a playbook by its words: no
/// screen, form or parameterized run step, and no degradation investigation.
pub open spec fn is_keyword_query(route: Seq<char>) -> bool {
    &&& route.len() > 0
    &&& route != "oauth_login_success"@
    &&& menu_for(route) is None
    &&& parameters_for(route) is None
    &&& form_for(route) is None
    &&& !starts_with(route, "run:port-utilisation:"@)
    &&& !starts_with(route, "run:vm-rca:"@)
    &&& !degradation_query(route)
}

/// A keyword query runs the playbook that its words name, in ASCII case: prefix
/// or traffic the prefix traffic run, else BGP or advertiser the BGP run, else
/// ASN the top source ASNs, else free the free ports, else SLO or SLA the SLO
/// status, else scope or health sweep the sweep, else noisy the noisy
/// neighbour, else change the change correlation, else VM or RCA the VM RCA,
/// and otherwise the overutilised ports.
pub proof fn lemma_keyword_queries_run_their_playbooks(route: Seq<char>)
    requires
        is_keyword_query(route),
    ensures
        ({
            let q = lower_seq(route);
            let prefix = contains_seq(q, "prefix"@) || contains_seq(q, "traffic"@);
            let bgp = contains_seq(q, "bgp"@) || contains_seq(q, "advertiser"@);
            let asn = contains_seq(q, "asn"@);
            let free = contains_seq(q, "free"@);
            let slo = contains_seq(q, "slo"@) || contains_seq(q, "sla"@);
            let sweep = contains_seq(q, "scope"@) || contains_seq(q, "health sweep"@);
            let noisy = contains_seq(q, "noisy"@);
            let change = contains_seq(q, "change"@);
            let vm = contains_seq(q, "vm"@) || contains_seq(q, "rca"@);
            &&& prefix ==> plan_of(route) == PlanModel::Keyword(Playbook::PrefixTraffic)
            &&& !prefix && bgp ==> plan_of(route) == PlanModel::Keyword(Playbook::BgpAdvertisers)
            &&& !prefix && !bgp && asn ==> plan_of(route) == PlanModel::Keyword(Playbook::TopSourceAsns)
            &&& !prefix && !bgp && !asn && free ==> plan_of(route) == PlanModel::Keyword(Playbook::FreePorts)
            &&& !prefix && !bgp && !asn && !free && slo ==> plan_of(route) == PlanModel::Keyword(
                Playbook::SloStatus,
            )
            &&& !prefix && !bgp && !asn && !free && !slo && sweep ==> plan_of(route) == PlanModel::Keyword(
                Playbook::ScopeHealthSweep,
            )
            &&& !prefix && !bgp && !asn && !free && !slo && !sweep && noisy ==> plan_of(route)
                == PlanModel::Keyword(Playbook::NoisyNeighbour)
            &&& !prefix && !bgp && !asn && !free && !slo && !sweep && !noisy && change ==> plan_of(route)
                == PlanModel::Keyword(Playbook::ChangeCorrelation)
            &&& !prefix && !bgp && !asn && !free && !slo && !sweep && !noisy && !change && vm ==> plan_of(
                route,
            ) == PlanModel::Keyword(Playbook::VmRca)
            &&& !prefix && !bgp && !asn && !free && !slo && !sweep && !noisy && !change && !vm ==> plan_of(
                route,
            ) == PlanModel::Keyword(Playbook::PortUtilisation)
        }),
{
}

/// A keyword query that names free ports, and no prefix, traffic, BGP,
/// advertiser or ASN, runs the free-ports playbook.
pub proof fn lemma_free_ports_query_runs_free_ports(route: Seq<char>)
    requires
        is_keyword_query(route),
        contains_seq(lower_seq(route), "free"@),
        !contains_seq(lower_seq(route), "prefix"@),
        !contains_seq(lower_seq(route), "traffic"@),
        !contains_seq(lower_seq(route), "bgp"@),
        !contains_seq(lower_seq(route), "advertiser"@),
        !contains_seq(lower_seq(route), "asn"@),
    ensures
        plan_of(route) == PlanModel::Keyword(Playbook::FreePorts),
{
    lemma_keyword_queries_run_their_playbooks(route);
}

} // verus!
