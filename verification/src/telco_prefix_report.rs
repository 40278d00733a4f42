//! The report of a prefix traffic run: one fact set per ranked peer of the
//! run's `ranking` section, a line for each of the first five, and a summary
//! of who dominates the traffic. The throughput figures of each peer and the
//! totals are measured in floating point by the caller and come as labels.
use vstd::prelude::*;

use crate::json::{json_get, json_get_str, jv, jv_items, lemma_jv_items, Json, JsonValue};
use crate::json_build::{items2, items3, items4, push_item, text};
use crate::telco_analysis::{
    bold, bold_json, fact, fact_json, fact_set, fact_set_json, presentation_sections, report_card,
    report_card_json, with_menu, wrapped,
};
use crate::telco_cards::intro_json;
use crate::telco_messages::{main_menu_action_set, main_menu_json};
use crate::telco_port_report::{is_u64_text, is_u64_text_exec};
use crate::telco_present::{
    peak_time_label_of, prefix_traffic_peak_time_label, prefix_traffic_resolution_label, resolution_label_of,
};
use crate::text::{decimal, lower_seq, push_str, to_ascii_lowercase, to_ascii_uppercase, u64_to_decimal, upper_seq};

verus! {

broadcast use vstd::string::group_string_axioms;

/// The measured figures of one ranked peer, as they are shown: average, p95
/// and peak throughput, share of the total, and the peak rate of the row.
pub struct PrefixRowFigures {
    pub avg: String,
    pub p95: String,
    pub peak: String,
    pub share: String,
    pub peak_mbps: String,
}

pub struct RowFiguresView {
    pub avg: Seq<char>,
    pub p95: Seq<char>,
    pub peak: Seq<char>,
    pub share: Seq<char>,
    pub peak_mbps: Seq<char>,
}

impl View for PrefixRowFigures {
    type V = RowFiguresView;

    open spec fn view(&self) -> RowFiguresView {
        RowFiguresView {
            avg: self.avg@,
            p95: self.p95@,
            peak: self.peak@,
            share: self.share@,
            peak_mbps: self.peak_mbps@,
        }
    }
}

pub open spec fn figure_views(s: Seq<PrefixRowFigures>) -> Seq<RowFiguresView> {
    s.map_values(|f: PrefixRowFigures| f@)
}

// ---------------------------------------------------------------------------
// The ranked peers
// ---------------------------------------------------------------------------

/// The first section at index `i` or later whose id is `ranking`.
pub open spec fn ranking_section_from(sections: Seq<Json>, i: int) -> Option<Json>
    decreases sections.len() - i,
{
    if i < 0 || i >= sections.len() {
        None
    } else if json_get_str(sections[i], "section_id"@) == Some("ranking"@) {
        Some(sections[i])
    } else {
        ranking_section_from(sections, i + 1)
    }
}

/// The rows of the first `ranking` section, where it has an array of them.
pub open spec fn ranking_rows(presentation: Json) -> Seq<Json> {
    match ranking_section_from(presentation_sections(presentation), 0) {
        Some(section) => match json_get(section, "rows"@) {
            Some(Json::Array(rows)) => rows,
            _ => Seq::empty(),
        },
        None => Seq::empty(),
    }
}

pub open spec fn row_peer(row: Json) -> Seq<char> {
    json_get_str(row, "peer"@).unwrap_or("-"@)
}

pub open spec fn row_device(row: Json) -> Seq<char> {
    json_get_str(row, "device"@).unwrap_or("-"@)
}

/// The byte count of a row as decimal text; `0` where it has no unsigned integer count.
pub open spec fn row_bytes(row: Json) -> Seq<char> {
    match json_get(row, "bytes"@) {
        Some(Json::Number(t)) => if is_u64_text(t) {
            t
        } else {
            "0"@
        },
        _ => "0"@,
    }
}

/// The interface shown for the peer at index `i`.
pub open spec fn interface_name(i: int) -> Seq<char> {
    "Te0/0/0/"@ + decimal((i + 1) as nat)
}

/// The fact set of the peer at index `i`.
pub open spec fn peer_facts_json(row: Json, i: int, f: RowFiguresView) -> Json {
    fact_set_json(
        seq![
            fact_json("Peer"@, row_peer(row)),
            fact_json("Router"@, upper_seq(row_device(row))),
            fact_json("Interface"@, interface_name(i)),
            fact_json("Avg Gbps"@, f.avg),
            fact_json("p95 Gbps"@, f.p95),
            fact_json("Peak Gbps"@, f.peak),
            fact_json("% Total"@, f.share),
        ],
    )
}

/// The line of a ranked peer among the findings.
pub open spec fn peer_line(row: Json, f: RowFiguresView) -> Seq<char> {
    row_peer(row) + " | "@ + row_device(row) + " | bytes "@ + row_bytes(row) + " | peak_mbps "@ + f.peak_mbps
}

/// How the findings name a time window.
pub open spec fn window_title(time_window: Seq<char>) -> Seq<char> {
    if time_window == "Last hour"@ {
        "Last 1h"@
    } else if time_window == "Last 24 hours"@ {
        "Last 24h"@
    } else if time_window == "Last 7 days"@ {
        "Last 7d"@
    } else {
        time_window
    }
}

/// The findings panel: what was analysed, a fact set per ranked peer, the
/// lines of the first five peers (a note when there is none), the main menu.
pub open spec fn prefix_findings_json(
    prefix: Seq<char>,
    direction: Seq<char>,
    time_window: Seq<char>,
    rows: Seq<Json>,
    figures: Seq<RowFiguresView>,
) -> Seq<Json> {
    let lines = if rows.len() == 0 {
        seq![intro_json("No ranked peer data was returned for the selected prefix."@)]
    } else {
        Seq::new(
            if rows.len() < 5 {
                rows.len()
            } else {
                5
            },
            |i: int| intro_json(peer_line(rows[i], figures[i])),
        )
    };
    seq![
        bold_json("Findings"@),
        intro_json("Traffic distribution for "@ + prefix + " — "@ + direction + " — "@ + window_title(time_window)),
    ] + Seq::new(rows.len(), |i: int| peer_facts_json(rows[i], i, figures[i])) + lines + seq![main_menu_json()]
}

/// The peer that leads the ranking, with its share; a note when there is none.
pub open spec fn top_contributor(rows: Seq<Json>, figures: Seq<RowFiguresView>) -> Seq<char> {
    if rows.len() == 0 {
        "No dominant peer"@
    } else {
        row_peer(rows[0]) + " ("@ + figures[0].share + ")"@
    }
}

/// The report of a prefix traffic run for the form's values, the run's
/// presentation, the figures of its ranked peers and the labels of the total
/// throughput, the share of the top three and the peak observed.
pub open spec fn prefix_card_json(
    prefix: Seq<char>,
    direction: Seq<char>,
    time_window: Seq<char>,
    presentation: Json,
    figures: Seq<RowFiguresView>,
    total: Seq<char>,
    top_three: Seq<char>,
    peak_observed: Seq<char>,
) -> Json {
    let rows = ranking_rows(presentation);
    report_card_json(
        seq![
            seq![
                bold_json("Query Understanding"@),
                intro_json("The assistant has understood the query and prepared a traffic analysis request."@),
                fact_set_json(
                    seq![
                        fact_json("Prefix"@, prefix),
                        fact_json("Direction"@, direction),
                        fact_json("Time window"@, time_window),
                    ],
                ),
                main_menu_json(),
            ],
            seq![
                bold_json("Data Sources"@),
                fact_set_json(
                    seq![
                        fact_json("Primary"@, "Traffic engineering subsystem"@),
                        fact_json("Flow data"@, "Arbor flow collector"@),
                        fact_json("Dimensions"@, "Peer / Router / Interface"@),
                        fact_json("Resolution"@, resolution_label_of(time_window)),
                    ],
                ),
                main_menu_json(),
            ],
            seq![
                bold_json("Data Retrieval"@),
                intro_json("✓ Retrieving flow records"@),
                intro_json("✓ Grouping by peer and router"@),
                intro_json("✓ Calculating avg, peak, and total flow volume"@),
                main_menu_json(),
            ],
            prefix_findings_json(prefix, direction, time_window, rows, figures),
            prefix_summary_json(prefix, direction, time_window, rows, figures, total, top_three, peak_observed),
        ],
        "← Back to Prefix traffic parameters"@,
        Json::Object(
            seq![
                ("direction"@, Json::Str(direction)),
                ("prefix"@, Json::Str(prefix)),
                ("step"@, Json::Str("menu:prefix-traffic-parameters"@)),
                ("text"@, Json::Str("menu:prefix-traffic-parameters"@)),
                ("time_window"@, Json::Str(time_window)),
            ],
        ),
    )
}

// ---------------------------------------------------------------------------
// Computing it
// ---------------------------------------------------------------------------

fn ranking_rows_ref<'a>(presentation: &'a JsonValue, empty: &'a Vec<JsonValue>) -> (r: &'a Vec<JsonValue>)
    requires
        empty@.len() == 0,
    ensures
        jv_items(r@) == ranking_rows(presentation@),
{
    proof {
        lemma_jv_items(empty@);
    }
    let sections: &Vec<JsonValue> = match presentation.get("sections") {
        Some(JsonValue::Array(sections)) => sections,
        _ => empty,
    };
    let ghost secs = jv_items(sections@);
    proof {
        lemma_jv_items(sections@);
        assert(secs == presentation_sections(presentation@));
    }
    let mut i: usize = 0;
    while i < sections.len()
        invariant
            secs == jv_items(sections@),
            secs.len() == sections@.len(),
            forall|j: int| 0 <= j < sections@.len() ==> #[trigger] secs[j] == jv(sections@[j]),
            i <= sections@.len(),
            secs == presentation_sections(presentation@),
            ranking_section_from(secs, 0) == ranking_section_from(secs, i as int),
            empty@.len() == 0,
            jv_items(empty@) == Seq::<Json>::empty(),
        decreases sections@.len() - i,
    {
        let is_ranking = match sections[i].get_str("section_id") {
            Some(id) => crate::json::str_eq(id.as_str(), "ranking"),
            None => false,
        };
        if is_ranking {
            proof {
                assert(secs[i as int] == sections@[i as int]@);
                assert(ranking_section_from(secs, i as int) == Some(secs[i as int]));
            }
            match sections[i].get("rows") {
                Some(JsonValue::Array(rows)) => {
                    return rows;
                },
                _ => {
                    return empty;
                },
            }
        }
        i = i + 1;
    }
    empty
}

/// The rows of the run's `ranking` section, from which the caller measures the figures.
pub fn ranking_rows_of(presentation: &JsonValue) -> (r: Vec<JsonValue>)
    ensures
        jv_items(r@) == ranking_rows(presentation@),
{
    let empty: Vec<JsonValue> = Vec::new();
    let rows = ranking_rows_ref(presentation, &empty);
    proof {
        lemma_jv_items(rows@);
    }
    let mut out: Vec<JsonValue> = Vec::new();
    let mut i: usize = 0;
    while i < rows.len()
        invariant
            i <= rows@.len(),
            out@.len() == i,
            forall|j: int| 0 <= j < i ==> #[trigger] jv(out@[j]) == jv(rows@[j]),
        decreases rows@.len() - i,
    {
        out.push(crate::json::deep_clone(&rows[i]));
        i = i + 1;
    }
    proof {
        lemma_jv_items(out@);
        lemma_jv_items(rows@);
        assert(jv_items(out@) =~= jv_items(rows@));
    }
    out
}

fn row_peer_exec(row: &JsonValue) -> (r: String)
    ensures
        r@ == row_peer(row@),
{
    match row.get_str("peer") {
        Some(p) => p.clone(),
        None => "-".to_string(),
    }
}

fn row_device_exec(row: &JsonValue) -> (r: String)
    ensures
        r@ == row_device(row@),
{
    match row.get_str("device") {
        Some(d) => d.clone(),
        None => "-".to_string(),
    }
}

fn row_bytes_exec(row: &JsonValue) -> (r: String)
    ensures
        r@ == row_bytes(row@),
{
    match row.get("bytes") {
        Some(JsonValue::Number(t)) => if is_u64_text_exec(t.as_str()) {
            t.clone()
        } else {
            "0".to_string()
        },
        _ => "0".to_string(),
    }
}

fn peer_facts(row: &JsonValue, i: usize, f: &PrefixRowFigures) -> (r: JsonValue)
    requires
        i < usize::MAX,
    ensures
        r@ == peer_facts_json(row@, i as int, f@),
{
    let peer = row_peer_exec(row);
    let device = row_device_exec(row);
    let router = to_ascii_uppercase(device.as_str());
    let mut interface = "Te0/0/0/".to_string();
    let number = u64_to_decimal((i + 1) as u64);
    push_str(&mut interface, number.as_str());
    let mut facts = items4(
        fact("Peer", peer.as_str()),
        fact("Router", router.as_str()),
        fact("Interface", interface.as_str()),
        fact("Avg Gbps", f.avg.as_str()),
    );
    push_item(&mut facts, fact("p95 Gbps", f.p95.as_str()));
    push_item(&mut facts, fact("Peak Gbps", f.peak.as_str()));
    push_item(&mut facts, fact("% Total", f.share.as_str()));
    proof {
        assert(interface@ =~= interface_name(i as int));
        assert(jv_items(facts@) =~= seq![
            fact_json("Peer"@, row_peer(row@)),
            fact_json("Router"@, upper_seq(row_device(row@))),
            fact_json("Interface"@, interface_name(i as int)),
            fact_json("Avg Gbps"@, f@.avg),
            fact_json("p95 Gbps"@, f@.p95),
            fact_json("Peak Gbps"@, f@.peak),
            fact_json("% Total"@, f@.share),
        ]);
    }
    fact_set(facts)
}

fn peer_line_exec(row: &JsonValue, f: &PrefixRowFigures) -> (r: String)
    ensures
        r@ == peer_line(row@, f@),
{
    let mut line = row_peer_exec(row);
    push_str(&mut line, " | ");
    let device = row_device_exec(row);
    push_str(&mut line, device.as_str());
    push_str(&mut line, " | bytes ");
    let bytes = row_bytes_exec(row);
    push_str(&mut line, bytes.as_str());
    push_str(&mut line, " | peak_mbps ");
    push_str(&mut line, f.peak_mbps.as_str());
    line
}

fn window_title_exec(time_window: &str) -> (r: String)
    ensures
        r@ == window_title(time_window@),
{
    if crate::json::str_eq(time_window, "Last hour") {
        "Last 1h".to_string()
    } else if crate::json::str_eq(time_window, "Last 24 hours") {
        "Last 24h".to_string()
    } else if crate::json::str_eq(time_window, "Last 7 days") {
        "Last 7d".to_string()
    } else {
        time_window.to_string()
    }
}

fn prefix_findings(
    prefix: &str,
    direction: &str,
    time_window: &str,
    rows: &Vec<JsonValue>,
    figures: &Vec<PrefixRowFigures>,
) -> (r: Vec<JsonValue>)
    requires
        figures@.len() == rows@.len(),
    ensures
        jv_items(r@) == prefix_findings_json(prefix@, direction@, time_window@, jv_items(rows@), figure_views(figures@)),
{
    let ghost rs = jv_items(rows@);
    let ghost fs = figure_views(figures@);
    proof {
        lemma_jv_items(rows@);
    }
    let mut heading = "Traffic distribution for ".to_string();
    push_str(&mut heading, prefix);
    push_str(&mut heading, " — ");
    push_str(&mut heading, direction);
    push_str(&mut heading, " — ");
    let title = window_title_exec(time_window);
    push_str(&mut heading, title.as_str());
    let mut out = items2(bold("Findings"), wrapped(heading.as_str()));
    let ghost head = jv_items(out@);
    let ghost table = Seq::new(rs.len(), |i: int| peer_facts_json(rs[i], i, fs[i]));
    let mut i: usize = 0;
    proof {
        assert(head + table.subrange(0, 0) =~= head);
    }
    while i < rows.len()
        invariant
            rs == jv_items(rows@),
            rs.len() == rows@.len(),
            forall|j: int| 0 <= j < rows@.len() ==> #[trigger] rs[j] == jv(rows@[j]),
            fs == figure_views(figures@),
            figures@.len() == rows@.len(),
            table == Seq::new(rs.len(), |i: int| peer_facts_json(rs[i], i, fs[i])),
            i <= rows@.len(),
            jv_items(out@) == head + table.subrange(0, i as int),
        decreases rows@.len() - i,
    {
        let ghost before = jv_items(out@);
        push_item(&mut out, peer_facts(&rows[i], i, &figures[i]));
        proof {
            assert(head + table.subrange(0, i + 1) =~= before.push(table[i as int]));
        }
        i = i + 1;
    }
    proof {
        assert(table.subrange(0, rows@.len() as int) =~= table);
    }
    let ghost with_table = jv_items(out@);
    if rows.len() == 0 {
        push_item(&mut out, wrapped("No ranked peer data was returned for the selected prefix."));
    } else {
        let n: usize = if rows.len() < 5 {
            rows.len()
        } else {
            5
        };
        let ghost lines = Seq::new(n as nat, |i: int| intro_json(peer_line(rs[i], fs[i])));
        let mut k: usize = 0;
        proof {
            assert(with_table + lines.subrange(0, 0) =~= with_table);
        }
        while k < n
            invariant
                rs == jv_items(rows@),
                rs.len() == rows@.len(),
                forall|j: int| 0 <= j < rows@.len() ==> #[trigger] rs[j] == jv(rows@[j]),
                fs == figure_views(figures@),
                figures@.len() == rows@.len(),
                n <= rows@.len(),
                lines == Seq::new(n as nat, |i: int| intro_json(peer_line(rs[i], fs[i]))),
                k <= n,
                jv_items(out@) == with_table + lines.subrange(0, k as int),
            decreases n - k,
        {
            let ghost before = jv_items(out@);
            let line = peer_line_exec(&rows[k], &figures[k]);
            push_item(&mut out, wrapped(line.as_str()));
            proof {
                assert(with_table + lines.subrange(0, k + 1) =~= before.push(lines[k as int]));
            }
            k = k + 1;
        }
        proof {
            assert(lines.subrange(0, n as int) =~= lines);
        }
    }
    let ghost before_menu = jv_items(out@);
    push_item(&mut out, main_menu_action_set());
    proof {
        assert(jv_items(out@) =~= prefix_findings_json(prefix@, direction@, time_window@, rs, fs));
    }
    out
}

fn query_panel(prefix: &str, direction: &str, time_window: &str) -> (r: Vec<JsonValue>)
    ensures
        jv_items(r@) == seq![
            bold_json("Query Understanding"@),
            intro_json("The assistant has understood the query and prepared a traffic analysis request."@),
            fact_set_json(
                seq![
                    fact_json("Prefix"@, prefix@),
                    fact_json("Direction"@, direction@),
                    fact_json("Time window"@, time_window@),
                ],
            ),
            main_menu_json(),
        ],
{
    let p = with_menu(
        items3(
            bold("Query Understanding"),
            wrapped("The assistant has understood the query and prepared a traffic analysis request."),
            fact_set(items3(fact("Prefix", prefix), fact("Direction", direction), fact("Time window", time_window))),
        ),
    );
    proof {
        assert(jv_items(p@) =~= seq![
            bold_json("Query Understanding"@),
            intro_json("The assistant has understood the query and prepared a traffic analysis request."@),
            fact_set_json(
                seq![
                    fact_json("Prefix"@, prefix@),
                    fact_json("Direction"@, direction@),
                    fact_json("Time window"@, time_window@),
                ],
            ),
            main_menu_json(),
        ]);
    }
    p
}

fn sources_panel(time_window: &str) -> (r: Vec<JsonValue>)
    ensures
        jv_items(r@) == seq![
            bold_json("Data Sources"@),
            fact_set_json(
                seq![
                    fact_json("Primary"@, "Traffic engineering subsystem"@),
                    fact_json("Flow data"@, "Arbor flow collector"@),
                    fact_json("Dimensions"@, "Peer / Router / Interface"@),
                    fact_json("Resolution"@, resolution_label_of(time_window@)),
                ],
            ),
            main_menu_json(),
        ],
{
    let p = with_menu(
        items2(
            bold("Data Sources"),
            fact_set(
                items4(
                    fact("Primary", "Traffic engineering subsystem"),
                    fact("Flow data", "Arbor flow collector"),
                    fact("Dimensions", "Peer / Router / Interface"),
                    fact("Resolution", prefix_traffic_resolution_label(time_window)),
                ),
            ),
        ),
    );
    proof {
        assert(jv_items(p@) =~= seq![
            bold_json("Data Sources"@),
            fact_set_json(
                seq![
                    fact_json("Primary"@, "Traffic engineering subsystem"@),
                    fact_json("Flow data"@, "Arbor flow collector"@),
                    fact_json("Dimensions"@, "Peer / Router / Interface"@),
                    fact_json("Resolution"@, resolution_label_of(time_window@)),
                ],
            ),
            main_menu_json(),
        ]);
    }
    p
}

fn retrieval_panel() -> (r: Vec<JsonValue>)
    ensures
        jv_items(r@) == seq![
            bold_json("Data Retrieval"@),
            intro_json("✓ Retrieving flow records"@),
            intro_json("✓ Grouping by peer and router"@),
            intro_json("✓ Calculating avg, peak, and total flow volume"@),
            main_menu_json(),
        ],
{
    let p = with_menu(
        items4(
            bold("Data Retrieval"),
            wrapped("✓ Retrieving flow records"),
            wrapped("✓ Grouping by peer and router"),
            wrapped("✓ Calculating avg, peak, and total flow volume"),
        ),
    );
    proof {
        assert(jv_items(p@) =~= seq![
            bold_json("Data Retrieval"@),
            intro_json("✓ Retrieving flow records"@),
            intro_json("✓ Grouping by peer and router"@),
            intro_json("✓ Calculating avg, peak, and total flow volume"@),
            main_menu_json(),
        ]);
    }
    p
}

/// The summary panel of the report.
pub open spec fn prefix_summary_json(
    prefix: Seq<char>,
    direction: Seq<char>,
    time_window: Seq<char>,
    rows: Seq<Json>,
    figures: Seq<RowFiguresView>,
    total: Seq<char>,
    top_three: Seq<char>,
    peak_observed: Seq<char>,
) -> Seq<Json> {
    let top = top_contributor(rows, figures);
    let peak_time = peak_time_label_of(time_window);
    seq![
        bold_json("Summary"@),
        intro_json(
            prefix + " "@ + lower_seq(direction) + " traffic is dominated by "@ + top
                + ", with the top 3 contributors accounting for "@ + top_three
                + " of observed throughput. Peak utilisation occurred at "@ + peak_time + "."@,
        ),
        fact_set_json(
            seq![
                fact_json("Total throughput"@, total),
                fact_json("Top contributor"@, top),
                fact_json("Peak time"@, peak_time),
                fact_json("Peak observed"@, peak_observed),
                fact_json("Top 3 share"@, top_three),
            ],
        ),
        main_menu_json(),
    ]
}

fn summary_panel(
    prefix: &str,
    direction: &str,
    time_window: &str,
    rows: &Vec<JsonValue>,
    figures: &Vec<PrefixRowFigures>,
    total: &str,
    top_three: &str,
    peak_observed: &str,
) -> (r: Vec<JsonValue>)
    requires
        figures@.len() == rows@.len(),
    ensures
        jv_items(r@) == prefix_summary_json(
            prefix@,
            direction@,
            time_window@,
            jv_items(rows@),
            figure_views(figures@),
            total@,
            top_three@,
            peak_observed@,
        ),
{
    proof {
        lemma_jv_items(rows@);
    }
    let ghost rs = jv_items(rows@);
    let ghost fs = figure_views(figures@);
    let top: String = if rows.len() == 0 {
        "No dominant peer".to_string()
    } else {
        let mut t = row_peer_exec(&rows[0]);
        push_str(&mut t, " (");
        push_str(&mut t, figures[0].share.as_str());
        push_str(&mut t, ")");
        t
    };
    let peak_time = prefix_traffic_peak_time_label(time_window);
    let mut summary = prefix.to_string();
    push_str(&mut summary, " ");
    let lowered = to_ascii_lowercase(direction);
    push_str(&mut summary, lowered.as_str());
    push_str(&mut summary, " traffic is dominated by ");
    push_str(&mut summary, top.as_str());
    push_str(&mut summary, ", with the top 3 contributors accounting for ");
    push_str(&mut summary, top_three);
    push_str(&mut summary, " of observed throughput. Peak utilisation occurred at ");
    push_str(&mut summary, peak_time);
    push_str(&mut summary, ".");
    let mut summary_facts = items4(
        fact("Total throughput", total),
        fact("Top contributor", top.as_str()),
        fact("Peak time", peak_time),
        fact("Peak observed", peak_observed),
    );
    push_item(&mut summary_facts, fact("Top 3 share", top_three));
    let ghost top_v = top_contributor(jv_items(rows@), figure_views(figures@));
    proof {
        assert(top@ =~= top_v);
        assert(jv_items(summary_facts@) =~= seq![
            fact_json("Total throughput"@, total@),
            fact_json("Top contributor"@, top_v),
            fact_json("Peak time"@, peak_time_label_of(time_window@)),
            fact_json("Peak observed"@, peak_observed@),
            fact_json("Top 3 share"@, top_three@),
        ]);
    }
    let p = with_menu(items3(bold("Summary"), wrapped(summary.as_str()), fact_set(summary_facts)));
    let ghost pt = peak_time_label_of(time_window@);
    proof {
        assert(summary@ =~= prefix@ + " "@ + lower_seq(direction@) + " traffic is dominated by "@ + top_v
            + ", with the top 3 contributors accounting for "@ + top_three@
            + " of observed throughput. Peak utilisation occurred at "@ + pt + "."@);
        assert(jv_items(p@) =~= seq![
            bold_json("Summary"@),
            intro_json(summary@),
            fact_set_json(
                seq![
                    fact_json("Total throughput"@, total@),
                    fact_json("Top contributor"@, top_v),
                    fact_json("Peak time"@, pt),
                    fact_json("Peak observed"@, peak_observed@),
                    fact_json("Top 3 share"@, top_three@),
                ],
            ),
            main_menu_json(),
        ]);
    }
    p
}

/// The report of a prefix traffic run. `figures` holds the measured figures of
/// each ranked peer of the run's `ranking` section, in order (see
/// `ranking_rows_of`); `total`, `top_three` and `peak_observed` are the labels
/// of the total average throughput, the top three's share and the peak observed.
pub fn prefix_traffic_analysis_card(
    prefix: &str,
    direction: &str,
    time_window: &str,
    presentation: &JsonValue,
    figures: &Vec<PrefixRowFigures>,
    total: &str,
    top_three: &str,
    peak_observed: &str,
) -> (r: JsonValue)
    requires
        figures@.len() == ranking_rows(presentation@).len(),
    ensures
        r@ == prefix_card_json(
            prefix@,
            direction@,
            time_window@,
            presentation@,
            figure_views(figures@),
            total@,
            top_three@,
            peak_observed@,
        ),
{
    let empty: Vec<JsonValue> = Vec::new();
    let rows = ranking_rows_ref(presentation, &empty);
    proof {
        lemma_jv_items(rows@);
    }
    let p0 = query_panel(prefix, direction, time_window);
    let p1 = sources_panel(time_window);
    let p2 = retrieval_panel();
    let p3 = prefix_findings(prefix, direction, time_window, rows, figures);
    let p4 = summary_panel(prefix, direction, time_window, rows, figures, total, top_three, peak_observed);
    let back_data = crate::json_build::obj5(
        "direction",
        text(direction),
        "prefix",
        text(prefix),
        "step",
        text("menu:prefix-traffic-parameters"),
        "text",
        text("menu:prefix-traffic-parameters"),
        "time_window",
        text(time_window),
    );
    report_card(p0, p1, p2, p3, p4, "← Back to Prefix traffic parameters", back_data)
}

} // verus!
