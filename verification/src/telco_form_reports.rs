//! The answer to a form run: the report card of each playbook whose report
//! is a generic one, set up from the form's values, and the answer that
//! carries the report of any form run.
use vstd::prelude::*;

use crate::i18n::string_views;
use crate::json::{json_get_str, Json, JsonValue};
use crate::json_build::{obj2, obj3, text};
use crate::runner_bridge::opt_view;
use crate::telco_analysis::{
    generic_analysis_card, generic_card_json, pair_views, slo_status_analysis_card, slo_status_card_json,
    vm_rca_analysis_card, vm_rca_card_json,
};
use crate::telco_cards::PresentOutput;
use crate::telco_messages::{fallback_card, fallback_card_json, response_messages, response_messages_from_card};
use crate::telco_present::{plan_of, present_plan, provider_hint, provider_of, route_of, PlanModel, PresentInput, PresentPlan, parameters_step, prefix_traffic_resolution_label, resolution_label_of, FormValues, Playbook};
use crate::telco_screens::{playbook_slug, scenario_name};
use crate::text::push_str;

verus! {

broadcast use vstd::string::group_string_axioms;

/// What a generic report shows besides the run's findings: its introduction,
/// the facts of the query and of the data sources, the retrieval steps, the
/// back button's title and the form values that the button hands back.
pub struct ReportSetup {
    pub intro: Seq<char>,
    pub query: Seq<(Seq<char>, Seq<char>)>,
    pub sources: Seq<(Seq<char>, Seq<char>)>,
    pub steps: Seq<Seq<char>>,
    pub back_title: Seq<char>,
    pub back_values: Json,
}

pub open spec fn str_json(s: Seq<char>) -> Json {
    Json::Str(s)
}

/// The setup of the generic report of a playbook for the form's subject,
/// direction, cluster, source system and time window (an absent value reads as
/// the form's default); none for a playbook with a report of its own.
pub open spec fn report_setup(
    p: Playbook,
    subject: Seq<char>,
    direction: Option<Seq<char>>,
    cluster: Option<Seq<char>>,
    source_system: Option<Seq<char>>,
    time_window: Seq<char>,
) -> Option<ReportSetup> {
    let resolution = ("Resolution"@, resolution_label_of(time_window));
    let window = ("Time window"@, time_window);
    match p {
        Playbook::BgpAdvertisers => Some(
            ReportSetup {
                intro: "The assistant prepared a BGP advertiser review for the selected prefix scope."@,
                query: seq![("Prefix"@, subject), window],
                sources: seq![
                    ("Primary"@, "Routing control-plane snapshots"@),
                    ("Signals"@, "Advertiser / next-hop / route-state"@),
                    ("Dimensions"@, "Prefix / peer / route policy"@),
                    resolution,
                ],
                steps: seq![
                    "✓ Loading current route advertisements for the selected prefix"@,
                    "✓ Grouping advertisers by peer and policy path"@,
                    "✓ Ranking dominant advertised paths"@,
                ],
                back_title: "← Back to BGP parameters"@,
                back_values: Json::Object(seq![("prefix"@, str_json(subject)), ("time_window"@, str_json(time_window))]),
            },
        ),
        Playbook::TopSourceAsns => {
            let d = direction.unwrap_or("Inbound"@);
            Some(
                ReportSetup {
                    intro: "The assistant prepared an ASN attribution review for the selected traffic scope."@,
                    query: seq![("Prefix"@, subject), ("Direction"@, d), window],
                    sources: seq![
                        ("Primary"@, "Traffic engineering subsystem"@),
                        ("Signals"@, "Source ASN / throughput / peer mix"@),
                        ("Dimensions"@, "Prefix / ASN / direction"@),
                        resolution,
                    ],
                    steps: seq![
                        "✓ Retrieving aggregated flow attribution by ASN"@,
                        "✓ Ranking source ASNs by contribution share"@,
                        "✓ Highlighting concentration and dominance patterns"@,
                    ],
                    back_title: "← Back to ASN parameters"@,
                    back_values: Json::Object(
                        seq![
                            ("direction"@, str_json(d)),
                            ("prefix"@, str_json(subject)),
                            ("time_window"@, str_json(time_window)),
                        ],
                    ),
                },
            )
        },
        Playbook::FreePorts => Some(
            ReportSetup {
                intro: "The assistant prepared an availability review for currently free ACI interfaces."@,
                query: seq![("Node / device"@, "ACI POD / NODE "@ + subject), window],
                sources: seq![
                    ("Primary"@, "ACI fabric inventory and utilisation telemetry"@),
                    ("Signals"@, "Link-state / free capacity / recent usage"@),
                    ("Dimensions"@, "Node / port / interface"@),
                    resolution,
                ],
                steps: seq![
                    "✓ Loading port inventory for the selected node"@,
                    "✓ Filtering interfaces with spare capacity"@,
                    "✓ Ranking the best candidate ports for reassignment"@,
                ],
                back_title: "← Back to free port parameters"@,
                back_values: Json::Object(seq![("device"@, str_json(subject)), ("time_window"@, str_json(time_window))]),
            },
        ),
        Playbook::NoisyNeighbour => Some(
            ReportSetup {
                intro: "The assistant prepared a noisy-neighbour review for the selected scope."@,
                query: seq![("Scope"@, subject), window],
                sources: seq![
                    ("Primary"@, "Virtualisation telemetry and contention signals"@),
                    ("Signals"@, "CPU pressure / host imbalance / tenant contention"@),
                    ("Dimensions"@, "Scope / host / VM"@),
                    resolution,
                ],
                steps: seq![
                    "✓ Loading host and guest contention indicators"@,
                    "✓ Correlating spikes with local tenant density"@,
                    "✓ Ranking likely noisy-neighbour candidates"@,
                ],
                back_title: "← Back to noisy neighbour parameters"@,
                back_values: Json::Object(seq![("scope"@, str_json(subject)), ("time_window"@, str_json(time_window))]),
            },
        ),
        Playbook::ScopeHealthSweep => Some(
            ReportSetup {
                intro: "The assistant prepared a broad health review for the selected operational scope."@,
                query: seq![("Scope"@, subject), window],
                sources: seq![
                    ("Primary"@, "Cross-domain health summary"@),
                    ("Signals"@, "Service / infra / network state"@),
                    ("Dimensions"@, "Scope / domain / severity"@),
                    resolution,
                ],
                steps: seq![
                    "✓ Gathering service, infra, and network signals"@,
                    "✓ Grouping observations by domain and severity"@,
                    "✓ Producing a consolidated sweep summary"@,
                ],
                back_title: "← Back to scope health parameters"@,
                back_values: Json::Object(seq![("scope"@, str_json(subject)), ("time_window"@, str_json(time_window))]),
            },
        ),
        Playbook::ChangeCorrelation => {
            let s = source_system.unwrap_or("Change registry"@);
            Some(
                ReportSetup {
                    intro: "The assistant prepared a change-correlation review for the selected service scope."@,
                    query: seq![("Service"@, subject), ("Source system"@, s), window],
                    sources: seq![
                        ("Primary"@, s),
                        ("Signals"@, "Change events / time anchors / affected scope"@),
                        ("Dimensions"@, "Service / change / correlation window"@),
                        ("Resolution"@, "Event-level timestamps"@),
                    ],
                    steps: seq![
                        "✓ Loading recent approved and deployed changes"@,
                        "✓ Correlating change timestamps with symptom windows"@,
                        "✓ Ranking likely contributing changes"@,
                    ],
                    back_title: "← Back to change parameters"@,
                    back_values: Json::Object(
                        seq![
                            ("service"@, str_json(subject)),
                            ("source_system"@, str_json(s)),
                            ("time_window"@, str_json(time_window)),
                        ],
                    ),
                },
            )
        },
        Playbook::ServiceDegradation => {
            let c = cluster.unwrap_or("default"@);
            Some(
                ReportSetup {
                    intro: "The assistant prepared a combined degradation triage for the selected service."@,
                    query: seq![("Service"@, subject), ("Cluster"@, c), window],
                    sources: seq![
                        ("Primary"@, "Combined RCA, change, and network evidence"@),
                        ("Signals"@, "Changes / VM RCA / network saturation"@),
                        ("Dimensions"@, "Service / cluster / symptom window"@),
                        resolution,
                    ],
                    steps: seq![
                        "✓ Gathering recent changes for the selected service"@,
                        "✓ Correlating VM and host evidence in the same window"@,
                        "✓ Combining network and infrastructure findings into a triage view"@,
                    ],
                    back_title: "← Back to degradation parameters"@,
                    back_values: Json::Object(
                        seq![
                            ("cluster"@, str_json(c)),
                            ("service"@, str_json(subject)),
                            ("time_window"@, str_json(time_window)),
                        ],
                    ),
                },
            )
        },
        _ => None,
    }
}

/// The summary of a combined triage: the one its presentation gives, or a note.
pub open spec fn triage_summary_of(presentation: Json) -> Seq<char> {
    json_get_str(presentation, "summary"@).unwrap_or("Combined triage summary prepared."@)
}

/// The summary that a form run's report shows: the run's own, or for a
/// degradation triage the one its composed presentation gives.
pub open spec fn report_summary(p: Playbook, presentation: Json, summary: Seq<char>) -> Seq<char> {
    if p is ServiceDegradation {
        triage_summary_of(presentation)
    } else {
        summary
    }
}

/// The generic report of a form run of `p`; none for a playbook with a report of its own.
pub open spec fn form_report_json(
    p: Playbook,
    subject: Seq<char>,
    direction: Option<Seq<char>>,
    cluster: Option<Seq<char>>,
    source_system: Option<Seq<char>>,
    time_window: Seq<char>,
    presentation: Json,
    decimals: Seq<(Seq<char>, Seq<char>)>,
    summary: Seq<char>,
) -> Option<Json> {
    match report_setup(p, subject, direction, cluster, source_system, time_window) {
        Some(s) => Some(
            generic_card_json(
                s.intro,
                s.query,
                s.sources,
                s.steps,
                presentation,
                decimals,
                report_summary(p, presentation, summary),
                s.back_title,
                parameters_step(p),
                s.back_values,
            ),
        ),
        None => None,
    }
}

// ---------------------------------------------------------------------------
// Computing them
// ---------------------------------------------------------------------------

fn pairs2(a: &str, b: &str, c: &str, d: &str) -> (r: Vec<(String, String)>)
    ensures
        pair_views(r@) == seq![(a@, b@), (c@, d@)],
{
    let r = vec![(a.to_string(), b.to_string()), (c.to_string(), d.to_string())];
    proof {
        assert(pair_views(r@) =~= seq![(a@, b@), (c@, d@)]);
    }
    r
}

fn pairs3(a: &str, b: &str, c: &str, d: &str, e: &str, f: &str) -> (r: Vec<(String, String)>)
    ensures
        pair_views(r@) == seq![(a@, b@), (c@, d@), (e@, f@)],
{
    let r = vec![(a.to_string(), b.to_string()), (c.to_string(), d.to_string()), (e.to_string(), f.to_string())];
    proof {
        assert(pair_views(r@) =~= seq![(a@, b@), (c@, d@), (e@, f@)]);
    }
    r
}

fn pairs4(a: &str, b: &str, c: &str, d: &str, e: &str, f: &str, g: &str, h: &str) -> (r: Vec<(String, String)>)
    ensures
        pair_views(r@) == seq![(a@, b@), (c@, d@), (e@, f@), (g@, h@)],
{
    let r = vec![
        (a.to_string(), b.to_string()),
        (c.to_string(), d.to_string()),
        (e.to_string(), f.to_string()),
        (g.to_string(), h.to_string()),
    ];
    proof {
        assert(pair_views(r@) =~= seq![(a@, b@), (c@, d@), (e@, f@), (g@, h@)]);
    }
    r
}

fn strings3(a: &str, b: &str, c: &str) -> (r: Vec<String>)
    ensures
        string_views(r@) == seq![a@, b@, c@],
{
    let r = vec![a.to_string(), b.to_string(), c.to_string()];
    proof {
        assert(string_views(r@) =~= seq![a@, b@, c@]);
    }
    r
}

fn opt_or(o: &Option<String>, default: &str) -> (r: String)
    ensures
        r@ == opt_view(*o).unwrap_or(default@),
{
    match o {
        Some(s) => s.clone(),
        None => default.to_string(),
    }
}

/// The summary of a combined triage.
pub fn triage_summary(presentation: &JsonValue) -> (r: String)
    ensures
        r@ == triage_summary_of(presentation@),
{
    match presentation.get_str("summary") {
        Some(s) => s.clone(),
        None => "Combined triage summary prepared.".to_string(),
    }
}

/// The generic report of a form run of `p` for the form's values, the run's
/// presentation and summary; `decimals` pairs the texts of the presentation's
/// numbers with their texts at two decimals. `None` for a playbook whose
/// report is its own (port utilisation, VM RCA, prefix traffic, SLO status).
pub fn form_report(
    p: Playbook,
    values: &FormValues,
    presentation: &JsonValue,
    decimals: &Vec<(String, String)>,
    summary: &str,
) -> (r: Option<JsonValue>)
    ensures
        opt_json_view(r) == form_report_json(
            p,
            values.subject@,
            opt_view(values.direction),
            opt_view(values.cluster),
            opt_view(values.source_system),
            values.time_window@,
            presentation@,
            pair_views(decimals@),
            summary@,
        ),
{
    let subject = values.subject.as_str();
    let tw = values.time_window.as_str();
    let resolution = prefix_traffic_resolution_label(tw);
    match p {
        Playbook::BgpAdvertisers => Some(
            generic_analysis_card(
                "The assistant prepared a BGP advertiser review for the selected prefix scope.",
                &pairs2("Prefix", subject, "Time window", tw),
                &pairs4(
                    "Primary",
                    "Routing control-plane snapshots",
                    "Signals",
                    "Advertiser / next-hop / route-state",
                    "Dimensions",
                    "Prefix / peer / route policy",
                    "Resolution",
                    resolution,
                ),
                &strings3(
                    "✓ Loading current route advertisements for the selected prefix",
                    "✓ Grouping advertisers by peer and policy path",
                    "✓ Ranking dominant advertised paths",
                ),
                presentation,
                decimals,
                summary,
                "← Back to BGP parameters",
                "menu:bgp-advertisers-parameters",
                &obj2("prefix", text(subject), "time_window", text(tw)),
            ),
        ),
        Playbook::TopSourceAsns => {
            let d = opt_or(&values.direction, "Inbound");
            Some(
                generic_analysis_card(
                    "The assistant prepared an ASN attribution review for the selected traffic scope.",
                    &pairs3("Prefix", subject, "Direction", d.as_str(), "Time window", tw),
                    &pairs4(
                        "Primary",
                        "Traffic engineering subsystem",
                        "Signals",
                        "Source ASN / throughput / peer mix",
                        "Dimensions",
                        "Prefix / ASN / direction",
                        "Resolution",
                        resolution,
                    ),
                    &strings3(
                        "✓ Retrieving aggregated flow attribution by ASN",
                        "✓ Ranking source ASNs by contribution share",
                        "✓ Highlighting concentration and dominance patterns",
                    ),
                    presentation,
                    decimals,
                    summary,
                    "← Back to ASN parameters",
                    "menu:top-source-asns-parameters",
                    &obj3("direction", text(d.as_str()), "prefix", text(subject), "time_window", text(tw)),
                ),
            )
        },
        Playbook::FreePorts => {
            let mut node = "ACI POD / NODE ".to_string();
            push_str(&mut node, subject);
            Some(
                generic_analysis_card(
                    "The assistant prepared an availability review for currently free ACI interfaces.",
                    &pairs2("Node / device", node.as_str(), "Time window", tw),
                    &pairs4(
                        "Primary",
                        "ACI fabric inventory and utilisation telemetry",
                        "Signals",
                        "Link-state / free capacity / recent usage",
                        "Dimensions",
                        "Node / port / interface",
                        "Resolution",
                        resolution,
                    ),
                    &strings3(
                        "✓ Loading port inventory for the selected node",
                        "✓ Filtering interfaces with spare capacity",
                        "✓ Ranking the best candidate ports for reassignment",
                    ),
                    presentation,
                    decimals,
                    summary,
                    "← Back to free port parameters",
                    "menu:free-ports-parameters",
                    &obj2("device", text(subject), "time_window", text(tw)),
                ),
            )
        },
        Playbook::NoisyNeighbour => Some(
            generic_analysis_card(
                "The assistant prepared a noisy-neighbour review for the selected scope.",
                &pairs2("Scope", subject, "Time window", tw),
                &pairs4(
                    "Primary",
                    "Virtualisation telemetry and contention signals",
                    "Signals",
                    "CPU pressure / host imbalance / tenant contention",
                    "Dimensions",
                    "Scope / host / VM",
                    "Resolution",
                    resolution,
                ),
                &strings3(
                    "✓ Loading host and guest contention indicators",
                    "✓ Correlating spikes with local tenant density",
                    "✓ Ranking likely noisy-neighbour candidates",
                ),
                presentation,
                decimals,
                summary,
                "← Back to noisy neighbour parameters",
                "menu:noisy-neighbour-parameters",
                &obj2("scope", text(subject), "time_window", text(tw)),
            ),
        ),
        Playbook::ScopeHealthSweep => Some(
            generic_analysis_card(
                "The assistant prepared a broad health review for the selected operational scope.",
                &pairs2("Scope", subject, "Time window", tw),
                &pairs4(
                    "Primary",
                    "Cross-domain health summary",
                    "Signals",
                    "Service / infra / network state",
                    "Dimensions",
                    "Scope / domain / severity",
                    "Resolution",
                    resolution,
                ),
                &strings3(
                    "✓ Gathering service, infra, and network signals",
                    "✓ Grouping observations by domain and severity",
                    "✓ Producing a consolidated sweep summary",
                ),
                presentation,
                decimals,
                summary,
                "← Back to scope health parameters",
                "menu:scope-health-sweep-parameters",
                &obj2("scope", text(subject), "time_window", text(tw)),
            ),
        ),
        Playbook::ChangeCorrelation => {
            let s = opt_or(&values.source_system, "Change registry");
            Some(
                generic_analysis_card(
                    "The assistant prepared a change-correlation review for the selected service scope.",
                    &pairs3("Service", subject, "Source system", s.as_str(), "Time window", tw),
                    &pairs4(
                        "Primary",
                        s.as_str(),
                        "Signals",
                        "Change events / time anchors / affected scope",
                        "Dimensions",
                        "Service / change / correlation window",
                        "Resolution",
                        "Event-level timestamps",
                    ),
                    &strings3(
                        "✓ Loading recent approved and deployed changes",
                        "✓ Correlating change timestamps with symptom windows",
                        "✓ Ranking likely contributing changes",
                    ),
                    presentation,
                    decimals,
                    summary,
                    "← Back to change parameters",
                    "menu:change-correlation-parameters",
                    &obj3("service", text(subject), "source_system", text(s.as_str()), "time_window", text(tw)),
                ),
            )
        },
        Playbook::ServiceDegradation => {
            let c = opt_or(&values.cluster, "default");
            let triage = triage_summary(presentation);
            Some(
                generic_analysis_card(
                    "The assistant prepared a combined degradation triage for the selected service.",
                    &pairs3("Service", subject, "Cluster", c.as_str(), "Time window", tw),
                    &pairs4(
                        "Primary",
                        "Combined RCA, change, and network evidence",
                        "Signals",
                        "Changes / VM RCA / network saturation",
                        "Dimensions",
                        "Service / cluster / symptom window",
                        "Resolution",
                        resolution,
                    ),
                    &strings3(
                        "✓ Gathering recent changes for the selected service",
                        "✓ Correlating VM and host evidence in the same window",
                        "✓ Combining network and infrastructure findings into a triage view",
                    ),
                    presentation,
                    decimals,
                    triage.as_str(),
                    "← Back to degradation parameters",
                    "menu:service-degradation-parameters",
                    &obj3("cluster", text(c.as_str()), "service", text(subject), "time_window", text(tw)),
                ),
            )
        },
        _ => None,
    }
}

pub open spec fn opt_json_view(o: Option<JsonValue>) -> Option<Json> {
    match o {
        Some(v) => Some(v@),
        None => None,
    }
}

/// The answer to a form run of `p` with its report card: the form's scenario,
/// the run's playbook and summary (for a degradation triage, the triage
/// playbook and the summary of its composed presentation), the request's
/// provider, the report split into one message per panel, and the run's presentation.
pub fn form_run_output(
    p: Playbook,
    card: &JsonValue,
    run_playbook_id: &str,
    run_summary: &str,
    presentation: JsonValue,
    input: &PresentInput,
) -> (r: PresentOutput)
    ensures
        r.scenario@ == playbook_slug(p) + "-form"@,
        r.playbook_id@ == if p is ServiceDegradation {
            "tx.playbook.service_degradation_triage"@
        } else {
            run_playbook_id@
        },
        r.summary@ == report_summary(p, presentation@, run_summary@),
        r.text is None,
        r.provider_hint@ == provider_of(*input),
        r.messages@ == response_messages(card@, true, false),
        r.rendered_card is None,
        r.adaptive_card is None,
        r.presentation@ == presentation@,
{
    let scenario = crate::telco_screens::scenario_of(&crate::telco_present::PresentPlan::FormRun(p));
    let (playbook_id, summary) = match p {
        Playbook::ServiceDegradation => (
            "tx.playbook.service_degradation_triage".to_string(),
            triage_summary(&presentation),
        ),
        _ => (run_playbook_id.to_string(), run_summary.to_string()),
    };
    PresentOutput {
        scenario,
        playbook_id,
        summary,
        text: None,
        provider_hint: provider_hint(input),
        messages: response_messages_from_card(card, true, false),
        rendered_card: None,
        adaptive_card: None,
        presentation,
    }
}

/// The report of a form run of `p` that holds no measured figures: the VM RCA
/// and SLO reports with the form's values (an absent cluster, symptom or
/// environment reads as the form's default: `default`, `Latency spike`,
/// `Production`), and the generic report of the other playbooks. `None` for
/// the port utilisation and prefix traffic reports, whose figures are measured
/// by the caller.
pub open spec fn form_run_card_json(
    p: Playbook,
    values: FormValues,
    presentation: Json,
    decimals: Seq<(Seq<char>, Seq<char>)>,
    summary: Seq<char>,
) -> Option<Json> {
    match p {
        Playbook::VmRca => Some(
            vm_rca_card_json(
                values.subject@,
                opt_view(values.cluster).unwrap_or("default"@),
                opt_view(values.symptom).unwrap_or("Latency spike"@),
                values.time_window@,
                presentation,
                summary,
            ),
        ),
        Playbook::SloStatus => Some(
            slo_status_card_json(
                values.subject@,
                opt_view(values.environment).unwrap_or("Production"@),
                values.time_window@,
                presentation,
                summary,
            ),
        ),
        Playbook::PortUtilisation | Playbook::PrefixTraffic => None,
        _ => form_report_json(
            p,
            values.subject@,
            opt_view(values.direction),
            opt_view(values.cluster),
            opt_view(values.source_system),
            values.time_window@,
            presentation,
            decimals,
            summary,
        ),
    }
}

/// The report of a form run of `p` that holds no measured figures.
pub fn form_run_card(
    p: Playbook,
    values: &FormValues,
    presentation: &JsonValue,
    decimals: &Vec<(String, String)>,
    summary: &str,
) -> (r: Option<JsonValue>)
    ensures
        opt_json_view(r) == form_run_card_json(p, *values, presentation@, pair_views(decimals@), summary@),
{
    match p {
        Playbook::VmRca => {
            let cluster = opt_or(&values.cluster, "default");
            let symptom = opt_or(&values.symptom, "Latency spike");
            Some(
                vm_rca_analysis_card(
                    values.subject.as_str(),
                    cluster.as_str(),
                    symptom.as_str(),
                    values.time_window.as_str(),
                    presentation,
                    summary,
                ),
            )
        },
        Playbook::SloStatus => {
            let environment = opt_or(&values.environment, "Production");
            Some(
                slo_status_analysis_card(
                    values.subject.as_str(),
                    environment.as_str(),
                    values.time_window.as_str(),
                    presentation,
                    summary,
                ),
            )
        },
        Playbook::PortUtilisation | Playbook::PrefixTraffic => None,
        _ => form_report(p, values, presentation, decimals, summary),
    }
}

/// Whether a plan runs a playbook without a form: a keyword query, a
/// parameterized port or VM run, or a degradation triage query.
pub open spec fn is_direct_run(plan: PlanModel) -> bool {
    plan is Keyword || plan is PortRun || plan is VmRun || plan is DegradationTriage
}

/// The answer to a request that runs a playbook without a form, given the
/// run's card, playbook id, summary and presentation: the request's scenario
/// and provider, no text, no rendered or adaptive card, and the card split
/// into one message per panel, each with the main menu. `None` for a request
/// that shows a screen or runs a form.
pub fn run_output(
    input: &PresentInput,
    card: &JsonValue,
    run_playbook_id: &str,
    run_summary: &str,
    presentation: JsonValue,
) -> (r: Option<PresentOutput>)
    ensures
        r is Some <==> is_direct_run(plan_of(route_of(*input))),
        r matches Some(out) ==> {
            &&& out.scenario@ == scenario_name(plan_of(route_of(*input)))
            &&& out.playbook_id@ == run_playbook_id@
            &&& out.summary@ == run_summary@
            &&& out.text is None
            &&& out.provider_hint@ == provider_of(*input)
            &&& out.messages@ == response_messages(card@, true, true)
            &&& out.rendered_card is None
            &&& out.adaptive_card is None
            &&& out.presentation@ == presentation@
        },
{
    let plan = present_plan(input);
    let direct = match &plan {
        PresentPlan::Keyword(_) | PresentPlan::PortRun(_) | PresentPlan::VmRun(_) | PresentPlan::DegradationTriage => true,
        _ => false,
    };
    if !direct {
        return None;
    }
    Some(
        PresentOutput {
            scenario: crate::telco_screens::scenario_of(&plan),
            playbook_id: run_playbook_id.to_string(),
            summary: run_summary.to_string(),
            text: None,
            provider_hint: provider_hint(input),
            messages: response_messages_from_card(card, true, true),
            rendered_card: None,
            adaptive_card: None,
            presentation,
        },
    )
}

/// The answer to an operation that the component does not offer: an error
/// naming the operation, with a card that says only `present` is supported.
pub fn unsupported_operation(operation: &str) -> (r: PresentOutput)
    ensures
        r.scenario@ == "error"@,
        r.playbook_id@ == "tx.playbook.error"@,
        r.summary@ == "unsupported operation: "@ + operation@,
        r.text matches Some(t) && t@ == "unsupported operation: "@ + operation@,
        r.provider_hint@ == "webchat"@,
        r.messages@ == response_messages(
            fallback_card_json("Unsupported operation"@, "Only the present operation is supported."@),
            false,
            false,
        ),
        r.rendered_card matches Some(c) && c@ == fallback_card_json(
            "Unsupported operation"@,
            "Only the present operation is supported."@,
        ),
        r.adaptive_card matches Some(c) && c@ == fallback_card_json(
            "Unsupported operation"@,
            "Only the present operation is supported."@,
        ),
        r.presentation@ == Json::Object(Seq::empty()),
{
    let mut summary = "unsupported operation: ".to_string();
    push_str(&mut summary, operation);
    let text_copy = summary.clone();
    let card = fallback_card("Unsupported operation", "Only the present operation is supported.");
    PresentOutput {
        scenario: "error".to_string(),
        playbook_id: "tx.playbook.error".to_string(),
        summary,
        text: Some(text_copy),
        provider_hint: "webchat".to_string(),
        messages: response_messages_from_card(&card, false, false),
        rendered_card: Some(fallback_card("Unsupported operation", "Only the present operation is supported.")),
        adaptive_card: Some(card),
        presentation: JsonValue::empty_object(),
    }
}

} // verus!
