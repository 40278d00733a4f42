//! The cards that report a playbook run: five panels (what was asked, where
//! the data comes from, how it was retrieved, what was found, the summary)
//! and a button back to the run's parameter form that keeps its values.
use vstd::prelude::*;

use crate::json::{
    insert_entries, json_get, json_get_str, jv, jv_items,
    lemma_jv_items, object_entries, Json, JsonValue,
};
use crate::json_build::{array, items0, items1, items2, items3, items4, obj2, obj3, obj4, push_item, text};
use crate::telco_cards::{form_card_json, intro_json};
use crate::telco_messages::{main_menu_action_set, main_menu_json};
use crate::telco_present::{cluster_label_of, service_label_of, vm_cluster_label, vm_service_label};
use crate::telco_findings::{findings_json, presentation_section_items, summary_fact_set, summary_facts_json};
use crate::text::{lower_seq, push_str, to_ascii_lowercase};

verus! {

broadcast use vstd::string::group_string_axioms;

// ---------------------------------------------------------------------------
// Panels
// ---------------------------------------------------------------------------

/// A bold line that heads a panel.
pub open spec fn bold_json(t: Seq<char>) -> Json {
    Json::Object(
        seq![("text"@, Json::Str(t)), ("type"@, Json::Str("TextBlock"@)), ("weight"@, Json::Str("Bolder"@))],
    )
}

/// One fact of a fact set.
pub open spec fn fact_json(title: Seq<char>, value: Seq<char>) -> Json {
    Json::Object(seq![("title"@, Json::Str(title)), ("value"@, Json::Str(value))])
}

/// A set of facts.
pub open spec fn fact_set_json(facts: Seq<Json>) -> Json {
    Json::Object(seq![("facts"@, Json::Array(facts)), ("type"@, Json::Str("FactSet"@))])
}

/// A panel of the card; all but the first are set apart by a medium space.
pub open spec fn panel_json(first: bool, items: Seq<Json>) -> Json {
    if first {
        Json::Object(
            seq![
                ("items"@, Json::Array(items)),
                ("style"@, Json::Str("emphasis"@)),
                ("type"@, Json::Str("Container"@)),
            ],
        )
    } else {
        Json::Object(
            seq![
                ("items"@, Json::Array(items)),
                ("spacing"@, Json::Str("Medium"@)),
                ("style"@, Json::Str("emphasis"@)),
                ("type"@, Json::Str("Container"@)),
            ],
        )
    }
}

/// A report card: its five panels and a button that submits `back_data`.
pub open spec fn report_card_json(panels: Seq<Seq<Json>>, back_title: Seq<char>, back_data: Json) -> Json {
    form_card_json(
        Seq::new(panels.len(), |i: int| panel_json(i == 0, panels[i])),
        seq![
            Json::Object(
                seq![
                    ("data"@, back_data),
                    ("title"@, Json::Str(back_title)),
                    ("type"@, Json::Str("Action.Submit"@)),
                ],
            ),
        ],
    )
}

pub(crate) fn bold(t: &str) -> (r: JsonValue)
    ensures
        r@ == bold_json(t@),
{
    obj3("text", text(t), "type", text("TextBlock"), "weight", text("Bolder"))
}

pub(crate) fn wrapped(t: &str) -> (r: JsonValue)
    ensures
        r@ == intro_json(t@),
{
    obj4("spacing", text("Small"), "text", text(t), "type", text("TextBlock"), "wrap", JsonValue::Bool(true))
}

pub(crate) fn fact(title: &str, value: &str) -> (r: JsonValue)
    ensures
        r@ == fact_json(title@, value@),
{
    obj2("title", text(title), "value", text(value))
}

pub(crate) fn fact_set(facts: Vec<JsonValue>) -> (r: JsonValue)
    ensures
        r@ == fact_set_json(jv_items(facts@)),
{
    obj2("facts", array(facts), "type", text("FactSet"))
}

fn panel(first: bool, items: Vec<JsonValue>) -> (r: JsonValue)
    ensures
        r@ == panel_json(first, jv_items(items@)),
{
    if first {
        obj3("items", array(items), "style", text("emphasis"), "type", text("Container"))
    } else {
        obj4("items", array(items), "spacing", text("Medium"), "style", text("emphasis"), "type", text("Container"))
    }
}

/// The report card of five panels with a back button.
pub(crate) fn report_card(
    p0: Vec<JsonValue>,
    p1: Vec<JsonValue>,
    p2: Vec<JsonValue>,
    p3: Vec<JsonValue>,
    p4: Vec<JsonValue>,
    back_title: &str,
    back_data: JsonValue,
) -> (r: JsonValue)
    ensures
        r@ == report_card_json(
            seq![jv_items(p0@), jv_items(p1@), jv_items(p2@), jv_items(p3@), jv_items(p4@)],
            back_title@,
            back_data@,
        ),
{
    let ghost panels = seq![jv_items(p0@), jv_items(p1@), jv_items(p2@), jv_items(p3@), jv_items(p4@)];
    let mut body = items0();
    push_item(&mut body, panel(true, p0));
    push_item(&mut body, panel(false, p1));
    push_item(&mut body, panel(false, p2));
    push_item(&mut body, panel(false, p3));
    push_item(&mut body, panel(false, p4));
    let action = obj3("data", back_data, "title", text(back_title), "type", text("Action.Submit"));
    let actions = items1(action);
    proof {
        assert(jv_items(body@) =~= Seq::new(panels.len(), |i: int| panel_json(i == 0, panels[i])));
    }
    obj5_card(body, actions)
}

fn obj5_card(body: Vec<JsonValue>, actions: Vec<JsonValue>) -> (r: JsonValue)
    ensures
        r@ == form_card_json(jv_items(body@), jv_items(actions@)),
{
    crate::json_build::obj5(
        "$schema",
        text("http://adaptivecards.io/schemas/adaptive-card.json"),
        "actions",
        array(actions),
        "body",
        array(body),
        "type",
        text("AdaptiveCard"),
        "version",
        text("1.6"),
    )
}

/// Items followed by the main menu.
pub(crate) fn with_menu(mut items: Vec<JsonValue>) -> (r: Vec<JsonValue>)
    ensures
        jv_items(r@) == jv_items(items@).push(main_menu_json()),
{
    push_item(&mut items, main_menu_action_set());
    items
}

// ---------------------------------------------------------------------------
// Text helpers
// ---------------------------------------------------------------------------

/// The pieces joined with `sep` between them.
pub open spec fn join(pieces: Seq<Seq<char>>, sep: Seq<char>) -> Seq<char>
    decreases pieces.len(),
{
    if pieces.len() == 0 {
        Seq::empty()
    } else if pieces.len() == 1 {
        pieces[0]
    } else {
        join(pieces.drop_last(), sep) + sep + pieces.last()
    }
}

pub(crate) fn join_exec(pieces: &Vec<String>, sep: &str) -> (r: String)
    ensures
        r@ == join(crate::i18n::string_views(pieces@), sep@),
{
    let ghost views = crate::i18n::string_views(pieces@);
    let mut out = String::new();
    let mut i: usize = 0;
    proof {
        assert(views.subrange(0, 0) =~= Seq::<Seq<char>>::empty());
    }
    while i < pieces.len()
        invariant
            views == crate::i18n::string_views(pieces@),
            i <= pieces@.len(),
            out@ == join(views.subrange(0, i as int), sep@),
        decreases pieces@.len() - i,
    {
        let ghost t1 = views.subrange(0, i + 1);
        proof {
            assert(t1.drop_last() =~= views.subrange(0, i as int));
            assert(t1.last() == pieces@[i as int]@);
        }
        if i > 0 {
            push_str(&mut out, sep);
        }
        push_str(&mut out, pieces[i].as_str());
        proof {
            if i == 0 {
                assert(out@ =~= t1[0]);
            }
        }
        i = i + 1;
    }
    proof {
        assert(views.subrange(0, pieces@.len() as int) =~= views);
    }
    out
}

// ---------------------------------------------------------------------------
// VM RCA report
// ---------------------------------------------------------------------------

/// The line that a presentation item adds to the findings: `label: value`, the
/// value alone without a label, nothing without a value.
pub open spec fn item_line(item: Json) -> Option<Seq<char>> {
    let label = json_get_str(item, "label"@).unwrap_or(Seq::empty());
    let value = json_get_str(item, "value"@).unwrap_or(Seq::empty());
    if value.len() == 0 {
        None
    } else if label.len() == 0 {
        Some(value)
    } else {
        Some(label + ": "@ + value)
    }
}

/// The lines of a section's items, in order.
pub open spec fn item_lines(items: Seq<Json>) -> Seq<Seq<char>>
    decreases items.len(),
{
    if items.len() == 0 {
        Seq::empty()
    } else {
        match item_line(items.last()) {
            Some(l) => item_lines(items.drop_last()).push(l),
            None => item_lines(items.drop_last()),
        }
    }
}

/// The items of a presentation section, where it has an array of them.
pub open spec fn section_items(section: Json) -> Seq<Json> {
    match json_get(section, "items"@) {
        Some(Json::Array(items)) => items,
        _ => Seq::empty(),
    }
}

/// The finding that a presentation section gives: its title, then its item
/// lines, or a note that a summary was collected when it has none.
pub open spec fn section_finding(section: Json) -> Seq<char> {
    let title = json_get_str(section, "title"@).unwrap_or("Analysis section"@);
    let lines = item_lines(section_items(section));
    if lines.len() == 0 {
        title + ": summary collected for the selected scope."@
    } else {
        title + ": "@ + join(lines, " | "@)
    }
}

/// The sections of a presentation.
pub open spec fn presentation_sections(presentation: Json) -> Seq<Json> {
    match json_get(presentation, "sections"@) {
        Some(Json::Array(sections)) => sections,
        _ => Seq::empty(),
    }
}

/// The findings of the first three sections, or the run's summary when there is no section.
pub open spec fn vm_findings(presentation: Json, summary: Seq<char>) -> Seq<Seq<char>> {
    let sections = presentation_sections(presentation);
    let n = if sections.len() < 3 {
        sections.len() as int
    } else {
        3
    };
    if n == 0 {
        seq![summary]
    } else {
        Seq::new(n as nat, |i: int| section_finding(sections[i]))
    }
}

/// The cluster's name in the report: the default cluster for `default` in any ASCII case.
pub open spec fn report_cluster_label(cluster: Seq<char>) -> Seq<char> {
    if lower_seq(cluster) == "default"@ {
        "Default cluster"@
    } else {
        cluster_label_of(cluster)
    }
}

pub open spec fn vm_resolution(time_window: Seq<char>) -> Seq<char> {
    if time_window == "Last hour"@ {
        "1-minute infrastructure counters"@
    } else if time_window == "Last 7 days"@ {
        "30-minute VM and platform aggregates"@
    } else {
        "5-minute VM and host aggregates"@
    }
}

pub open spec fn vm_root_cause(symptom: Seq<char>) -> Seq<char> {
    if symptom == "Packet loss"@ {
        "Hypervisor NIC contention after a noisy-neighbour spike"@
    } else if symptom == "CPU saturation"@ {
        "Guest CPU pressure combined with host imbalance"@
    } else {
        "Storage and host contention affecting the selected service path"@
    }
}

pub open spec fn vm_confidence(time_window: Seq<char>) -> Seq<char> {
    if time_window == "Last hour"@ {
        "Medium"@
    } else if time_window == "Last 7 days"@ {
        "Medium-high"@
    } else {
        "High"@
    }
}

/// The report of a VM RCA run for the form's values, the run's presentation and summary.
pub open spec fn vm_rca_card_json(
    service: Seq<char>,
    cluster: Seq<char>,
    symptom: Seq<char>,
    time_window: Seq<char>,
    presentation: Json,
    summary: Seq<char>,
) -> Json {
    let sl = service_label_of(service);
    let cl = report_cluster_label(cluster);
    let rc = vm_root_cause(symptom);
    let conf = vm_confidence(time_window);
    report_card_json(
        seq![
            seq![
                bold_json("Query Understanding"@),
                intro_json(
                    "The assistant has translated the selected VM symptom into an RCA scope and prepared the diagnostic run."@,
                ),
                fact_set_json(
                    seq![
                        fact_json("Service"@, sl),
                        fact_json("Cluster"@, cl),
                        fact_json("Symptom"@, symptom),
                        fact_json("Time window"@, time_window),
                    ],
                ),
                main_menu_json(),
            ],
            seq![
                bold_json("Data Sources"@),
                fact_set_json(
                    seq![
                        fact_json("Primary"@, "Virtualisation telemetry and incident context"@),
                        fact_json("Signals"@, "VM state / host placement / saturation indicators"@),
                        fact_json("Dimensions"@, "Service / Cluster / VM / Host"@),
                        fact_json("Resolution"@, vm_resolution(time_window)),
                    ],
                ),
                main_menu_json(),
            ],
            seq![
                bold_json("Data Retrieval"@),
                intro_json("✓ Collecting VM health and placement signals"@),
                intro_json("✓ Correlating symptom window with host and service context"@),
                intro_json("✓ Ranking probable root-cause contributors"@),
                main_menu_json(),
            ],
            seq![
                bold_json("Findings"@),
                intro_json("VM RCA for "@ + sl + " — "@ + cl + " — "@ + time_window),
                intro_json(join(vm_findings(presentation, summary), "\n\n"@)),
                main_menu_json(),
            ],
            seq![
                bold_json("Summary"@),
                intro_json(
                    sl + " in "@ + cl + " shows strongest RCA evidence for "@ + rc
                        + ". Assessment confidence is "@ + conf + " for the selected "@ + time_window
                        + " window."@,
                ),
                fact_set_json(
                    seq![
                        fact_json("Top hypothesis"@, rc),
                        fact_json("Confidence"@, conf),
                        fact_json("Symptom"@, symptom),
                        fact_json("Run summary"@, summary),
                    ],
                ),
                main_menu_json(),
            ],
        ],
        "← Back to VM RCA parameters"@,
        Json::Object(
            seq![
                ("cluster"@, Json::Str(cluster)),
                ("service"@, Json::Str(service)),
                ("step"@, Json::Str("menu:vm-rca-parameters"@)),
                ("symptom"@, Json::Str(symptom)),
                ("text"@, Json::Str("menu:vm-rca-parameters"@)),
                ("time_window"@, Json::Str(time_window)),
            ],
        ),
    )
}

fn item_line_exec(item: &JsonValue) -> (r: Option<String>)
    ensures
        crate::runner_bridge::opt_view(r) == item_line(item@),
{
    let label: String = match item.get_str("label") {
        Some(l) => l.clone(),
        None => String::new(),
    };
    let value: String = match item.get_str("value") {
        Some(v) => v.clone(),
        None => String::new(),
    };
    if value.unicode_len() == 0 {
        None
    } else if label.unicode_len() == 0 {
        Some(value)
    } else {
        let mut line = label;
        push_str(&mut line, ": ");
        push_str(&mut line, value.as_str());
        Some(line)
    }
}

fn section_finding_exec(section: &JsonValue) -> (r: String)
    ensures
        r@ == section_finding(section@),
{
    let title: String = match section.get_str("title") {
        Some(t) => t.clone(),
        None => "Analysis section".to_string(),
    };
    let mut lines: Vec<String> = Vec::new();
    let empty: Vec<JsonValue> = Vec::new();
    let items: &Vec<JsonValue> = match section.get("items") {
        Some(JsonValue::Array(items)) => items,
        _ => &empty,
    };
    proof {
        lemma_jv_items(items@);
        lemma_jv_items(empty@);
        assert(jv_items(items@) == section_items(section@));
    }
    let ghost its = jv_items(items@);
    let mut i: usize = 0;
    proof {
        assert(its.subrange(0, 0) =~= Seq::<Json>::empty());
        assert(crate::i18n::string_views(lines@) =~= Seq::<Seq<char>>::empty());
    }
    while i < items.len()
        invariant
            its == jv_items(items@),
            its.len() == items@.len(),
            forall|j: int| 0 <= j < items@.len() ==> #[trigger] its[j] == jv(items@[j]),
            i <= items@.len(),
            crate::i18n::string_views(lines@) == item_lines(its.subrange(0, i as int)),
        decreases items@.len() - i,
    {
        let ghost t1 = its.subrange(0, i + 1);
        let ghost before = crate::i18n::string_views(lines@);
        proof {
            assert(t1.drop_last() =~= its.subrange(0, i as int));
            assert(t1.last() == its[i as int]);
        }
        match item_line_exec(&items[i]) {
            Some(l) => {
                lines.push(l);
                proof {
                    assert(crate::i18n::string_views(lines@) =~= before.push(lines@.last()@));
                }
            },
            None => {},
        }
        i = i + 1;
    }
    proof {
        assert(its.subrange(0, items@.len() as int) =~= its);
    }
    let mut out = title;
    if lines.len() == 0 {
        push_str(&mut out, ": summary collected for the selected scope.");
    } else {
        push_str(&mut out, ": ");
        let joined = join_exec(&lines, " | ");
        push_str(&mut out, joined.as_str());
    }
    out
}

fn vm_findings_exec(presentation: &JsonValue, summary: &str) -> (r: Vec<String>)
    ensures
        crate::i18n::string_views(r@) == vm_findings(presentation@, summary@),
{
    let empty: Vec<JsonValue> = Vec::new();
    let sections: &Vec<JsonValue> = match presentation.get("sections") {
        Some(JsonValue::Array(sections)) => sections,
        _ => &empty,
    };
    proof {
        lemma_jv_items(sections@);
        lemma_jv_items(empty@);
        assert(jv_items(sections@) == presentation_sections(presentation@));
    }
    let ghost secs = jv_items(sections@);
    let n: usize = if sections.len() < 3 {
        sections.len()
    } else {
        3
    };
    let mut out: Vec<String> = Vec::new();
    let mut i: usize = 0;
    while i < n
        invariant
            secs == jv_items(sections@),
            secs.len() == sections@.len(),
            forall|j: int| 0 <= j < sections@.len() ==> #[trigger] secs[j] == jv(sections@[j]),
            n <= sections@.len(),
            i <= n,
            out@.len() == i,
            forall|j: int| 0 <= j < i ==> #[trigger] out@[j]@ == section_finding(secs[j]),
        decreases n - i,
    {
        let f = section_finding_exec(&sections[i]);
        out.push(f);
        i = i + 1;
    }
    if n == 0 {
        let one = vec![summary.to_string()];
        proof {
            assert(crate::i18n::string_views(one@) =~= seq![summary@]);
        }
        return one;
    }
    proof {
        assert(crate::i18n::string_views(out@) =~= vm_findings(presentation@, summary@));
    }
    out
}

fn vm_texts(time_window: &str, symptom: &str) -> (r: (&'static str, &'static str, &'static str))
    ensures
        r.0@ == vm_resolution(time_window@),
        r.1@ == vm_root_cause(symptom@),
        r.2@ == vm_confidence(time_window@),
{
    let resolution = if crate::json::str_eq(time_window, "Last hour") {
        "1-minute infrastructure counters"
    } else if crate::json::str_eq(time_window, "Last 7 days") {
        "30-minute VM and platform aggregates"
    } else {
        "5-minute VM and host aggregates"
    };
    let root_cause = if crate::json::str_eq(symptom, "Packet loss") {
        "Hypervisor NIC contention after a noisy-neighbour spike"
    } else if crate::json::str_eq(symptom, "CPU saturation") {
        "Guest CPU pressure combined with host imbalance"
    } else {
        "Storage and host contention affecting the selected service path"
    };
    let confidence = if crate::json::str_eq(time_window, "Last hour") {
        "Medium"
    } else if crate::json::str_eq(time_window, "Last 7 days") {
        "Medium-high"
    } else {
        "High"
    };
    (resolution, root_cause, confidence)
}

/// The report of a VM RCA run.
pub fn vm_rca_analysis_card(
    service: &str,
    cluster: &str,
    symptom: &str,
    time_window: &str,
    presentation: &JsonValue,
    summary: &str,
) -> (r: JsonValue)
    ensures
        r@ == vm_rca_card_json(service@, cluster@, symptom@, time_window@, presentation@, summary@),
{
    let sl = vm_service_label(service);
    let lowered = to_ascii_lowercase(cluster);
    let cl = if crate::json::str_eq(lowered.as_str(), "default") {
        "Default cluster"
    } else {
        vm_cluster_label(cluster)
    };
    let (resolution, rc, conf) = vm_texts(time_window, symptom);
    let findings = vm_findings_exec(presentation, summary);
    let findings_text = join_exec(&findings, "\n\n");
    let mut scope_line = "VM RCA for ".to_string();
    push_str(&mut scope_line, sl);
    push_str(&mut scope_line, " — ");
    push_str(&mut scope_line, cl);
    push_str(&mut scope_line, " — ");
    push_str(&mut scope_line, time_window);
    let mut summary_line = sl.to_string();
    push_str(&mut summary_line, " in ");
    push_str(&mut summary_line, cl);
    push_str(&mut summary_line, " shows strongest RCA evidence for ");
    push_str(&mut summary_line, rc);
    push_str(&mut summary_line, ". Assessment confidence is ");
    push_str(&mut summary_line, conf);
    push_str(&mut summary_line, " for the selected ");
    push_str(&mut summary_line, time_window);
    push_str(&mut summary_line, " window.");
    let p0 = with_menu(
        items3(
            bold("Query Understanding"),
            wrapped(
                "The assistant has translated the selected VM symptom into an RCA scope and prepared the diagnostic run.",
            ),
            fact_set(
                items4(
                    fact("Service", sl),
                    fact("Cluster", cl),
                    fact("Symptom", symptom),
                    fact("Time window", time_window),
                ),
            ),
        ),
    );
    let p1 = with_menu(
        items2(
            bold("Data Sources"),
            fact_set(
                items4(
                    fact("Primary", "Virtualisation telemetry and incident context"),
                    fact("Signals", "VM state / host placement / saturation indicators"),
                    fact("Dimensions", "Service / Cluster / VM / Host"),
                    fact("Resolution", resolution),
                ),
            ),
        ),
    );
    let p2 = with_menu(
        items4(
            bold("Data Retrieval"),
            wrapped("✓ Collecting VM health and placement signals"),
            wrapped("✓ Correlating symptom window with host and service context"),
            wrapped("✓ Ranking probable root-cause contributors"),
        ),
    );
    let p3 = with_menu(items3(bold("Findings"), wrapped(scope_line.as_str()), wrapped(findings_text.as_str())));
    let p4 = with_menu(
        items3(
            bold("Summary"),
            wrapped(summary_line.as_str()),
            fact_set(
                items4(
                    fact("Top hypothesis", rc),
                    fact("Confidence", conf),
                    fact("Symptom", symptom),
                    fact("Run summary", summary),
                ),
            ),
        ),
    );
    let ghost sl_v = service_label_of(service@);
    let ghost cl_v = report_cluster_label(cluster@);
    proof {
        assert(scope_line@ =~= "VM RCA for "@ + sl_v + " — "@ + cl_v + " — "@ + time_window@);
        assert(summary_line@ =~= sl_v + " in "@ + cl_v + " shows strongest RCA evidence for "@
            + vm_root_cause(symptom@) + ". Assessment confidence is "@ + vm_confidence(time_window@)
            + " for the selected "@ + time_window@ + " window."@);
        assert(jv_items(p0@) =~= seq![
            bold_json("Query Understanding"@),
            intro_json(
                "The assistant has translated the selected VM symptom into an RCA scope and prepared the diagnostic run."@,
            ),
            fact_set_json(
                seq![
                    fact_json("Service"@, sl_v),
                    fact_json("Cluster"@, cl_v),
                    fact_json("Symptom"@, symptom@),
                    fact_json("Time window"@, time_window@),
                ],
            ),
            main_menu_json(),
        ]);
        assert(jv_items(p1@) =~= seq![
            bold_json("Data Sources"@),
            fact_set_json(
                seq![
                    fact_json("Primary"@, "Virtualisation telemetry and incident context"@),
                    fact_json("Signals"@, "VM state / host placement / saturation indicators"@),
                    fact_json("Dimensions"@, "Service / Cluster / VM / Host"@),
                    fact_json("Resolution"@, vm_resolution(time_window@)),
                ],
            ),
            main_menu_json(),
        ]);
        assert(jv_items(p2@) =~= seq![
            bold_json("Data Retrieval"@),
            intro_json("✓ Collecting VM health and placement signals"@),
            intro_json("✓ Correlating symptom window with host and service context"@),
            intro_json("✓ Ranking probable root-cause contributors"@),
            main_menu_json(),
        ]);
        assert(jv_items(p3@) =~= seq![
            bold_json("Findings"@),
            intro_json("VM RCA for "@ + sl_v + " — "@ + cl_v + " — "@ + time_window@),
            intro_json(join(vm_findings(presentation@, summary@), "\n\n"@)),
            main_menu_json(),
        ]);
        assert(jv_items(p4@) =~= seq![
            bold_json("Summary"@),
            intro_json(
                sl_v + " in "@ + cl_v + " shows strongest RCA evidence for "@ + vm_root_cause(symptom@)
                    + ". Assessment confidence is "@ + vm_confidence(time_window@) + " for the selected "@
                    + time_window@ + " window."@,
            ),
            fact_set_json(
                seq![
                    fact_json("Top hypothesis"@, vm_root_cause(symptom@)),
                    fact_json("Confidence"@, vm_confidence(time_window@)),
                    fact_json("Symptom"@, symptom@),
                    fact_json("Run summary"@, summary@),
                ],
            ),
            main_menu_json(),
        ]);
    }
    let back_data = crate::json_build::obj6(
        "cluster",
        text(cluster),
        "service",
        text(service),
        "step",
        text("menu:vm-rca-parameters"),
        "symptom",
        text(symptom),
        "text",
        text("menu:vm-rca-parameters"),
        "time_window",
        text(time_window),
    );
    report_card(p0, p1, p2, p3, p4, "← Back to VM RCA parameters", back_data)
}

// ---------------------------------------------------------------------------
// SLO status report
// ---------------------------------------------------------------------------

/// The SLO registry name of a service.
pub open spec fn slo_service_label(service: Seq<char>) -> Seq<char> {
    if service == "mobile-data"@ {
        "svc-mobile-data-core"@
    } else if service == "internet"@ {
        "svc-internet-edge"@
    } else {
        service
    }
}

pub open spec fn slo_target(environment: Seq<char>) -> Seq<char> {
    if environment == "Staging"@ {
        "99.50%"@
    } else if environment == "Pre-production"@ {
        "99.70%"@
    } else {
        "99.95%"@
    }
}

pub open spec fn slo_current(time_window: Seq<char>) -> Seq<char> {
    if time_window == "Last hour"@ {
        "99.34%"@
    } else if time_window == "Last 7 days"@ {
        "99.41%"@
    } else {
        "99.40%"@
    }
}

pub open spec fn slo_error_budget(time_window: Seq<char>) -> Seq<char> {
    if time_window == "Last hour"@ {
        "4.2 minutes"@
    } else if time_window == "Last 7 days"@ {
        "53 minutes"@
    } else {
        "11 minutes"@
    }
}

/// The severity of a run's presentation, `warning` when it names none.
pub open spec fn slo_severity(presentation: Json) -> Seq<char> {
    json_get_str(presentation, "severity"@).unwrap_or("warning"@)
}

/// The report of an SLO status run for the form's values, the run's presentation and summary.
pub open spec fn slo_status_card_json(
    service: Seq<char>,
    environment: Seq<char>,
    time_window: Seq<char>,
    presentation: Json,
    summary: Seq<char>,
) -> Json {
    let sl = slo_service_label(service);
    report_card_json(
        seq![
            seq![
                bold_json("Query Understanding"@),
                intro_json("The assistant prepared an SLO compliance review for the selected service scope."@),
                fact_set_json(
                    seq![
                        fact_json("Service"@, sl),
                        fact_json("Environment"@, environment),
                        fact_json("Time window"@, time_window),
                    ],
                ),
                main_menu_json(),
            ],
            seq![
                bold_json("Data Sources"@),
                fact_set_json(
                    seq![
                        fact_json("Primary"@, "Service SLO registry"@),
                        fact_json("Signals"@, "Availability / latency objective / error budget"@),
                        fact_json("Dimensions"@, "Service / environment / time window"@),
                        fact_json("Resolution"@, "5-minute SLI checkpoints"@),
                    ],
                ),
                main_menu_json(),
            ],
            seq![
                bold_json("Data Retrieval"@),
                intro_json("✓ Loading current SLO objective and service ownership"@),
                intro_json("✓ Calculating achieved SLI for the requested time window"@),
                intro_json("✓ Estimating remaining error budget and breach severity"@),
                main_menu_json(),
            ],
            seq![
                bold_json("Findings"@),
                intro_json("SLO compliance for "@ + sl + " — "@ + environment + " — "@ + time_window),
                fact_set_json(
                    seq![
                        fact_json("Current SLI"@, slo_current(time_window)),
                        fact_json("Target"@, slo_target(environment)),
                        fact_json("Severity"@, slo_severity(presentation)),
                        fact_json("Error budget left"@, slo_error_budget(time_window)),
                    ],
                ),
                main_menu_json(),
            ],
            seq![
                bold_json("Summary"@),
                intro_json(summary),
                fact_set_json(
                    seq![
                        fact_json("Service"@, sl),
                        fact_json("Environment"@, environment),
                        fact_json("Current SLI"@, slo_current(time_window)),
                        fact_json("Target"@, slo_target(environment)),
                    ],
                ),
                main_menu_json(),
            ],
        ],
        "← Back to SLO parameters"@,
        Json::Object(
            seq![
                ("environment"@, Json::Str(environment)),
                ("service"@, Json::Str(service)),
                ("step"@, Json::Str("menu:slo-status-parameters"@)),
                ("text"@, Json::Str("menu:slo-status-parameters"@)),
                ("time_window"@, Json::Str(time_window)),
            ],
        ),
    )
}

fn slo_texts(service: &str, environment: &str, time_window: &str) -> (r: (String, &'static str, &'static str, &'static str))
    ensures
        r.0@ == slo_service_label(service@),
        r.1@ == slo_target(environment@),
        r.2@ == slo_current(time_window@),
        r.3@ == slo_error_budget(time_window@),
{
    let label = if crate::json::str_eq(service, "mobile-data") {
        "svc-mobile-data-core".to_string()
    } else if crate::json::str_eq(service, "internet") {
        "svc-internet-edge".to_string()
    } else {
        service.to_string()
    };
    let target = if crate::json::str_eq(environment, "Staging") {
        "99.50%"
    } else if crate::json::str_eq(environment, "Pre-production") {
        "99.70%"
    } else {
        "99.95%"
    };
    let current = if crate::json::str_eq(time_window, "Last hour") {
        "99.34%"
    } else if crate::json::str_eq(time_window, "Last 7 days") {
        "99.41%"
    } else {
        "99.40%"
    };
    let budget = if crate::json::str_eq(time_window, "Last hour") {
        "4.2 minutes"
    } else if crate::json::str_eq(time_window, "Last 7 days") {
        "53 minutes"
    } else {
        "11 minutes"
    };
    (label, target, current, budget)
}

/// The report of an SLO status run.
pub fn slo_status_analysis_card(
    service: &str,
    environment: &str,
    time_window: &str,
    presentation: &JsonValue,
    summary: &str,
) -> (r: JsonValue)
    ensures
        r@ == slo_status_card_json(service@, environment@, time_window@, presentation@, summary@),
{
    let (sl, target, current, budget) = slo_texts(service, environment, time_window);
    let severity: String = match presentation.get_str("severity") {
        Some(s) => s.clone(),
        None => "warning".to_string(),
    };
    let mut scope_line = "SLO compliance for ".to_string();
    push_str(&mut scope_line, sl.as_str());
    push_str(&mut scope_line, " — ");
    push_str(&mut scope_line, environment);
    push_str(&mut scope_line, " — ");
    push_str(&mut scope_line, time_window);
    let p0 = with_menu(
        items3(
            bold("Query Understanding"),
            wrapped("The assistant prepared an SLO compliance review for the selected service scope."),
            fact_set(items3(fact("Service", sl.as_str()), fact("Environment", environment), fact("Time window", time_window))),
        ),
    );
    let p1 = with_menu(
        items2(
            bold("Data Sources"),
            fact_set(
                items4(
                    fact("Primary", "Service SLO registry"),
                    fact("Signals", "Availability / latency objective / error budget"),
                    fact("Dimensions", "Service / environment / time window"),
                    fact("Resolution", "5-minute SLI checkpoints"),
                ),
            ),
        ),
    );
    let p2 = with_menu(
        items4(
            bold("Data Retrieval"),
            wrapped("✓ Loading current SLO objective and service ownership"),
            wrapped("✓ Calculating achieved SLI for the requested time window"),
            wrapped("✓ Estimating remaining error budget and breach severity"),
        ),
    );
    let p3 = with_menu(
        items3(
            bold("Findings"),
            wrapped(scope_line.as_str()),
            fact_set(
                items4(
                    fact("Current SLI", current),
                    fact("Target", target),
                    fact("Severity", severity.as_str()),
                    fact("Error budget left", budget),
                ),
            ),
        ),
    );
    let p4 = with_menu(
        items3(
            bold("Summary"),
            wrapped(summary),
            fact_set(
                items4(
                    fact("Service", sl.as_str()),
                    fact("Environment", environment),
                    fact("Current SLI", current),
                    fact("Target", target),
                ),
            ),
        ),
    );
    let ghost sl_v = slo_service_label(service@);
    proof {
        assert(scope_line@ =~= "SLO compliance for "@ + sl_v + " — "@ + environment@ + " — "@ + time_window@);
        assert(jv_items(p0@) =~= seq![
            bold_json("Query Understanding"@),
            intro_json("The assistant prepared an SLO compliance review for the selected service scope."@),
            fact_set_json(
                seq![
                    fact_json("Service"@, sl_v),
                    fact_json("Environment"@, environment@),
                    fact_json("Time window"@, time_window@),
                ],
            ),
            main_menu_json(),
        ]);
        assert(jv_items(p1@) =~= seq![
            bold_json("Data Sources"@),
            fact_set_json(
                seq![
                    fact_json("Primary"@, "Service SLO registry"@),
                    fact_json("Signals"@, "Availability / latency objective / error budget"@),
                    fact_json("Dimensions"@, "Service / environment / time window"@),
                    fact_json("Resolution"@, "5-minute SLI checkpoints"@),
                ],
            ),
            main_menu_json(),
        ]);
        assert(jv_items(p2@) =~= seq![
            bold_json("Data Retrieval"@),
            intro_json("✓ Loading current SLO objective and service ownership"@),
            intro_json("✓ Calculating achieved SLI for the requested time window"@),
            intro_json("✓ Estimating remaining error budget and breach severity"@),
            main_menu_json(),
        ]);
        assert(jv_items(p3@) =~= seq![
            bold_json("Findings"@),
            intro_json("SLO compliance for "@ + sl_v + " — "@ + environment@ + " — "@ + time_window@),
            fact_set_json(
                seq![
                    fact_json("Current SLI"@, slo_current(time_window@)),
                    fact_json("Target"@, slo_target(environment@)),
                    fact_json("Severity"@, slo_severity(presentation@)),
                    fact_json("Error budget left"@, slo_error_budget(time_window@)),
                ],
            ),
            main_menu_json(),
        ]);
        assert(jv_items(p4@) =~= seq![
            bold_json("Summary"@),
            intro_json(summary@),
            fact_set_json(
                seq![
                    fact_json("Service"@, sl_v),
                    fact_json("Environment"@, environment@),
                    fact_json("Current SLI"@, slo_current(time_window@)),
                    fact_json("Target"@, slo_target(environment@)),
                ],
            ),
            main_menu_json(),
        ]);
    }
    let back_data = crate::json_build::obj5(
        "environment",
        text(environment),
        "service",
        text(service),
        "step",
        text("menu:slo-status-parameters"),
        "text",
        text("menu:slo-status-parameters"),
        "time_window",
        text(time_window),
    );
    report_card(p0, p1, p2, p3, p4, "← Back to SLO parameters", back_data)
}

// ---------------------------------------------------------------------------
// Report of the other playbooks
// ---------------------------------------------------------------------------

/// Facts from title and value pairs.
pub open spec fn facts_json(pairs: Seq<(Seq<char>, Seq<char>)>) -> Seq<Json> {
    Seq::new(pairs.len(), |i: int| fact_json(pairs[i].0, pairs[i].1))
}

/// One wrapped line per retrieval step.
pub open spec fn steps_json(steps: Seq<Seq<char>>) -> Seq<Json> {
    Seq::new(steps.len(), |i: int| intro_json(steps[i]))
}

/// What the back button submits: the step (as text and step), with the members
/// of `metadata` set over it where that is an object.
pub open spec fn back_data_json(step: Seq<char>, metadata: Json) -> Json {
    Json::Object(
        insert_entries(seq![("step"@, Json::Str(step)), ("text"@, Json::Str(step))], object_entries(metadata)),
    )
}

pub open spec fn pair_views(v: Seq<(String, String)>) -> Seq<(Seq<char>, Seq<char>)> {
    v.map_values(|p: (String, String)| (p.0@, p.1@))
}

/// The report of a playbook run: what was asked (`query_facts`), where the
/// data comes from, how it was retrieved, the findings that the run's
/// presentation gives (the summary when it has no section), and the summary
/// with the facts of the presentation's first section.
pub open spec fn generic_card_json(
    intro: Seq<char>,
    query_facts: Seq<(Seq<char>, Seq<char>)>,
    source_facts: Seq<(Seq<char>, Seq<char>)>,
    steps: Seq<Seq<char>>,
    presentation: Json,
    decimals: Seq<(Seq<char>, Seq<char>)>,
    summary: Seq<char>,
    back_title: Seq<char>,
    back_step: Seq<char>,
    back_metadata: Json,
) -> Json {
    report_card_json(
        seq![
            seq![
                bold_json("Query Understanding"@),
                intro_json(intro),
                fact_set_json(facts_json(query_facts)),
                main_menu_json(),
            ],
            seq![bold_json("Data Sources"@), fact_set_json(facts_json(source_facts)), main_menu_json()],
            steps_json(steps).push(main_menu_json()),
            findings_json(presentation, summary, decimals),
            seq![
                bold_json("Summary"@),
                intro_json(summary),
                fact_set_json(summary_facts_json(presentation, decimals)),
                main_menu_json(),
            ],
        ],
        back_title,
        back_data_json(back_step, back_metadata),
    )
}

fn facts_of(pairs: &Vec<(String, String)>) -> (r: Vec<JsonValue>)
    ensures
        jv_items(r@) == facts_json(pair_views(pairs@)),
{
    let mut out = items0();
    let mut i: usize = 0;
    while i < pairs.len()
        invariant
            i <= pairs@.len(),
            jv_items(out@) == facts_json(pair_views(pairs@)).subrange(0, i as int),
        decreases pairs@.len() - i,
    {
        let ghost before = jv_items(out@);
        push_item(&mut out, fact(pairs[i].0.as_str(), pairs[i].1.as_str()));
        proof {
            assert(facts_json(pair_views(pairs@)).subrange(0, i + 1) =~= before.push(
                fact_json(pairs@[i as int].0@, pairs@[i as int].1@),
            ));
        }
        i = i + 1;
    }
    proof {
        assert(facts_json(pair_views(pairs@)).subrange(0, pairs@.len() as int) =~= facts_json(
            pair_views(pairs@),
        ));
    }
    out
}

fn steps_of(steps: &Vec<String>) -> (r: Vec<JsonValue>)
    ensures
        jv_items(r@) == steps_json(crate::i18n::string_views(steps@)),
{
    let ghost all = steps_json(crate::i18n::string_views(steps@));
    let mut out = items0();
    let mut i: usize = 0;
    while i < steps.len()
        invariant
            all == steps_json(crate::i18n::string_views(steps@)),
            i <= steps@.len(),
            jv_items(out@) == all.subrange(0, i as int),
        decreases steps@.len() - i,
    {
        let ghost before = jv_items(out@);
        push_item(&mut out, wrapped(steps[i].as_str()));
        proof {
            assert(all.subrange(0, i + 1) =~= before.push(intro_json(steps@[i as int]@)));
        }
        i = i + 1;
    }
    proof {
        assert(all.subrange(0, steps@.len() as int) =~= all);
    }
    out
}

fn back_data(step: &str, metadata: &JsonValue) -> (r: JsonValue)
    ensures
        r@ == back_data_json(step@, metadata@),
{
    let start = obj2("step", text(step), "text", text(step));
    let mut entries: Vec<(String, JsonValue)> = match start {
        JsonValue::Object(e) => e,
        _ => Vec::new(),
    };
    crate::json::insert_members(&mut entries, metadata);
    JsonValue::Object(entries)
}

/// The report of a playbook run. `decimals` pairs the texts of the
/// presentation's numbers with their texts at two decimals.
pub fn generic_analysis_card(
    intro_text: &str,
    query_facts: &Vec<(String, String)>,
    source_facts: &Vec<(String, String)>,
    retrieval_steps: &Vec<String>,
    presentation: &JsonValue,
    decimals: &Vec<(String, String)>,
    summary: &str,
    back_title: &str,
    back_step: &str,
    back_metadata: &JsonValue,
) -> (r: JsonValue)
    ensures
        r@ == generic_card_json(
            intro_text@,
            pair_views(query_facts@),
            pair_views(source_facts@),
            crate::i18n::string_views(retrieval_steps@),
            presentation@,
            pair_views(decimals@),
            summary@,
            back_title@,
            back_step@,
            back_metadata@,
        ),
{
    let findings = presentation_section_items(presentation, summary, decimals);
    let summary_facts = summary_fact_set(presentation, decimals);
    let ghost fs = jv_items(summary_facts@);
    let p0 = with_menu(items3(bold("Query Understanding"), wrapped(intro_text), fact_set(facts_of(query_facts))));
    let p1 = with_menu(items2(bold("Data Sources"), fact_set(facts_of(source_facts))));
    let p2 = with_menu(steps_of(retrieval_steps));
    let p4 = with_menu(items3(bold("Summary"), wrapped(summary), fact_set(summary_facts)));
    proof {
        assert(jv_items(p0@) =~= seq![
            bold_json("Query Understanding"@),
            intro_json(intro_text@),
            fact_set_json(facts_json(pair_views(query_facts@))),
            main_menu_json(),
        ]);
        assert(jv_items(p1@) =~= seq![
            bold_json("Data Sources"@),
            fact_set_json(facts_json(pair_views(source_facts@))),
            main_menu_json(),
        ]);
        assert(jv_items(p4@) =~= seq![bold_json("Summary"@), intro_json(summary@), fact_set_json(fs), main_menu_json()]);
    }
    report_card(p0, p1, p2, findings, p4, back_title, back_data(back_step, back_metadata))
}

} // verus!
