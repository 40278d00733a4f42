//! The report of a port utilisation run: the hot-port count and the busiest
//! port that the run's first presentation section names, the counter
//! resolution of the time window, and the five panels of the report card.
use vstd::prelude::*;

use crate::json::{json_get, json_get_str, jv, jv_items, lemma_jv_items, Json, JsonValue};
use crate::json_build::{items2, items3, items4, text};
use crate::telco_analysis::{
    bold, bold_json, fact, fact_json, fact_set, fact_set_json, report_card, report_card_json, with_menu,
    wrapped,
};
use crate::telco_cards::intro_json;
use crate::telco_messages::main_menu_json;
use crate::text::{decimal, digit_char, push_str};

verus! {

broadcast use vstd::string::group_string_axioms;

// ---------------------------------------------------------------------------
// What the run's summary section says
// ---------------------------------------------------------------------------

/// The items of the first section of a presentation; none when it has no section.
pub open spec fn summary_items(presentation: Json) -> Seq<Json> {
    let sections = crate::telco_analysis::presentation_sections(presentation);
    if sections.len() == 0 {
        Seq::empty()
    } else {
        crate::telco_analysis::section_items(sections[0])
    }
}

/// The first item at index `i` or later whose label is the string `label`.
pub open spec fn labelled_from(items: Seq<Json>, label: Seq<char>, i: int) -> Option<Json>
    decreases items.len() - i,
{
    if i < 0 || i >= items.len() {
        None
    } else if json_get_str(items[i], "label"@) == Some(label) {
        Some(items[i])
    } else {
        labelled_from(items, label, i + 1)
    }
}

/// The first item whose label is the string `label`.
pub open spec fn labelled_item(items: Seq<Json>, label: Seq<char>) -> Option<Json> {
    labelled_from(items, label, 0)
}

pub open spec fn is_digit(c: char) -> bool {
    '0' <= c && c <= '9'
}

/// The value of a string of decimal digits.
pub open spec fn digits_value(t: Seq<char>) -> nat
    decreases t.len(),
{
    if t.len() == 0 {
        0
    } else {
        digits_value(t.drop_last()) * 10 + (((t.last() as int) - ('0' as int)) as nat)
    }
}

/// Whether `t` is a number text that reads as an unsigned 64-bit integer:
/// decimal digits without a leading zero, of a value that fits.
pub open spec fn is_u64_text(t: Seq<char>) -> bool {
    &&& t.len() > 0
    &&& forall|i: int| 0 <= i < t.len() ==> is_digit(#[trigger] t[i])
    &&& (t.len() == 1 || t[0] != '0')
    &&& digits_value(t) <= u64::MAX
}

/// The count of hot ports that the summary section gives, as decimal text;
/// `0` where its `hot_ports` item has no unsigned integer value.
pub open spec fn hot_ports_text(presentation: Json) -> Seq<char> {
    match labelled_item(summary_items(presentation), "hot_ports"@) {
        Some(item) => match json_get(item, "value"@) {
            Some(Json::Number(t)) => if is_u64_text(t) {
                t
            } else {
                "0"@
            },
            _ => "0"@,
        },
        None => "0"@,
    }
}

/// The busiest port that the summary section names; `eth1/1` where it names none.
pub open spec fn busiest_port_text(presentation: Json) -> Seq<char> {
    match labelled_item(summary_items(presentation), "busiest_port"@) {
        Some(item) => json_get_str(item, "value"@).unwrap_or("eth1/1"@),
        None => "eth1/1"@,
    }
}

/// A digit string is worth at least each of its prefixes.
proof fn lemma_digits_value_prefix(t: Seq<char>, i: int)
    requires
        0 <= i <= t.len(),
        forall|j: int| 0 <= j < t.len() ==> is_digit(#[trigger] t[j]),
    ensures
        digits_value(t.subrange(0, i)) <= digits_value(t),
    decreases t.len() - i,
{
    if i < t.len() {
        let u = t.subrange(0, i + 1);
        assert(u.drop_last() =~= t.subrange(0, i));
        assert(is_digit(u.last()));
        lemma_digits_value_prefix(t, i + 1);
    } else {
        assert(t.subrange(0, i) =~= t);
    }
}

/// Whether a number text reads as an unsigned 64-bit integer.
pub fn is_u64_text_exec(t: &str) -> (b: bool)
    ensures
        b == is_u64_text(t@),
{
    let n = t.unicode_len();
    if n == 0 {
        return false;
    }
    if n > 1 && t.get_char(0) == '0' {
        return false;
    }
    let mut acc: u64 = 0;
    let mut i: usize = 0;
    proof {
        assert(t@.subrange(0, 0) =~= Seq::<char>::empty());
    }
    while i < n
        invariant
            n == t@.len(),
            i <= n,
            forall|j: int| 0 <= j < i ==> is_digit(#[trigger] t@[j]),
            acc as nat == digits_value(t@.subrange(0, i as int)),
        decreases n - i,
    {
        let c = t.get_char(i);
        if !('0' <= c && c <= '9') {
            return false;
        }
        let d: u64 = ((c as u32) - ('0' as u32)) as u64;
        let ghost u = t@.subrange(0, i + 1);
        proof {
            assert(u.drop_last() =~= t@.subrange(0, i as int));
            assert(u.last() == c);
            assert(digits_value(u) == acc * 10 + d);
        }
        if acc > (u64::MAX - d) / 10 {
            proof {
                assert(acc * 10 + d > u64::MAX) by (nonlinear_arith)
                    requires
                        acc > (u64::MAX - d) / 10,
                        d <= 9,
                ;
                if forall|j: int| 0 <= j < n ==> is_digit(#[trigger] t@[j]) {
                    lemma_digits_value_prefix(t@, i + 1);
                }
            }
            return false;
        }
        proof {
            assert(acc * 10 + d <= u64::MAX) by (nonlinear_arith)
                requires
                    acc <= (u64::MAX - d) / 10,
                    d <= 9,
            ;
        }
        acc = acc * 10 + d;
        i = i + 1;
    }
    proof {
        assert(t@.subrange(0, n as int) =~= t@);
    }
    true
}

/// The first item whose label is the string `label`.
fn labelled_item_exec<'a>(items: &'a Vec<JsonValue>, label: &str) -> (r: Option<&'a JsonValue>)
    ensures
        match r {
            Some(x) => labelled_item(jv_items(items@), label@) == Some(x@),
            None => labelled_item(jv_items(items@), label@) is None,
        },
{
    let ghost its = jv_items(items@);
    proof {
        lemma_jv_items(items@);
    }
    let mut i: usize = 0;
    while i < items.len()
        invariant
            its == jv_items(items@),
            its.len() == items@.len(),
            forall|j: int| 0 <= j < items@.len() ==> #[trigger] its[j] == jv(items@[j]),
            i <= items@.len(),
            labelled_item(its, label@) == labelled_from(its, label@, i as int),
        decreases items@.len() - i,
    {
        let matched = match items[i].get_str("label") {
            Some(l) => crate::json::str_eq(l.as_str(), label),
            None => false,
        };
        if matched {
            return Some(&items[i]);
        }
        i = i + 1;
    }
    None
}

/// The items of the first section of a presentation, or `empty`.
pub(crate) fn summary_items_of<'a>(presentation: &'a JsonValue, empty: &'a Vec<JsonValue>) -> (r: &'a Vec<JsonValue>)
    requires
        empty@.len() == 0,
    ensures
        jv_items(r@) == summary_items(presentation@),
{
    proof {
        lemma_jv_items(empty@);
    }
    let sections: &Vec<JsonValue> = match presentation.get("sections") {
        Some(JsonValue::Array(sections)) => sections,
        _ => empty,
    };
    proof {
        lemma_jv_items(sections@);
        assert(jv_items(sections@) == crate::telco_analysis::presentation_sections(presentation@));
    }
    if sections.len() == 0 {
        return empty;
    }
    match sections[0].get("items") {
        Some(JsonValue::Array(items)) => items,
        _ => empty,
    }
}

/// The count of hot ports that the summary section gives, as decimal text.
pub fn hot_ports_text_exec(presentation: &JsonValue) -> (r: String)
    ensures
        r@ == hot_ports_text(presentation@),
{
    let empty: Vec<JsonValue> = Vec::new();
    let items = summary_items_of(presentation, &empty);
    match labelled_item_exec(items, "hot_ports") {
        Some(item) => match item.get("value") {
            Some(JsonValue::Number(t)) => if is_u64_text_exec(t.as_str()) {
                t.clone()
            } else {
                "0".to_string()
            },
            _ => "0".to_string(),
        },
        None => "0".to_string(),
    }
}

/// The busiest port that the summary section names.
pub fn busiest_port_text_exec(presentation: &JsonValue) -> (r: String)
    ensures
        r@ == busiest_port_text(presentation@),
{
    let empty: Vec<JsonValue> = Vec::new();
    let items = summary_items_of(presentation, &empty);
    match labelled_item_exec(items, "busiest_port") {
        Some(item) => match item.get_str("value") {
            Some(v) => v.clone(),
            None => "eth1/1".to_string(),
        },
        None => "eth1/1".to_string(),
    }
}


// ---------------------------------------------------------------------------
// The report card
// ---------------------------------------------------------------------------

/// The counter resolution that a time window is read at.
pub open spec fn port_resolution(time_window: Seq<char>) -> Seq<char> {
    if time_window == "Last hour"@ {
        "1-minute interface counters"@
    } else if time_window == "Last 7 days"@ {
        "30-minute utilisation aggregates"@
    } else {
        "5-minute interface counters"@
    }
}

/// The name of an ACI node in the report.
pub open spec fn node_label(device: Seq<char>) -> Seq<char> {
    "ACI POD / NODE "@ + device
}

/// The report of a port utilisation run for the form's device and time window,
/// the threshold as the form gave it and as a percentage label, the labels of
/// the peak and average utilisation, and the run's presentation.
pub open spec fn port_card_json(
    device: Seq<char>,
    threshold: Json,
    threshold_label: Seq<char>,
    peak_label: Seq<char>,
    avg_label: Seq<char>,
    time_window: Seq<char>,
    presentation: Json,
) -> Json {
    let node = node_label(device);
    let hot = hot_ports_text(presentation);
    let busiest = busiest_port_text(presentation);
    report_card_json(
        seq![
            seq![
                bold_json("Query Understanding"@),
                intro_json("The assistant prepared a port utilisation review for the selected ACI scope and threshold."@),
                fact_set_json(
                    seq![
                        fact_json("Node"@, node),
                        fact_json("Threshold"@, threshold_label),
                        fact_json("Time window"@, time_window),
                    ],
                ),
                main_menu_json(),
            ],
            seq![
                bold_json("Data Sources"@),
                fact_set_json(
                    seq![
                        fact_json("Primary"@, "ACI fabric utilisation telemetry"@),
                        fact_json("Signals"@, "Port counters / line-rate / saturation flags"@),
                        fact_json("Dimensions"@, "Node / Port / Interface"@),
                        fact_json("Resolution"@, port_resolution(time_window)),
                    ],
                ),
                main_menu_json(),
            ],
            seq![
                bold_json("Data Retrieval"@),
                intro_json("✓ Collecting interface counters for the selected node"@),
                intro_json("✓ Filtering ports above the requested utilisation threshold"@),
                intro_json("✓ Ranking busiest interfaces by sustained load"@),
                main_menu_json(),
            ],
            seq![
                bold_json("Findings"@),
                intro_json("Port utilisation for "@ + node + " — threshold "@ + threshold_label + " — "@ + time_window),
                fact_set_json(
                    seq![
                        fact_json("Hot ports"@, hot),
                        fact_json("Busiest port"@, busiest),
                        fact_json("Peak utilisation"@, peak_label),
                        fact_json("Average utilisation"@, avg_label),
                    ],
                ),
                main_menu_json(),
            ],
            seq![
                bold_json("Summary"@),
                intro_json(
                    node + " shows "@ + hot + " overutilised interfaces above "@ + threshold_label
                        + ". The busiest interface is "@ + busiest + " with observed peak utilisation of "@
                        + peak_label + " during the selected "@ + time_window + " window."@,
                ),
                fact_set_json(
                    seq![
                        fact_json("Node"@, node),
                        fact_json("Threshold"@, threshold_label),
                        fact_json("Busiest port"@, busiest),
                        fact_json("Peak observed"@, peak_label),
                    ],
                ),
                main_menu_json(),
            ],
        ],
        "← Back to port parameters"@,
        Json::Object(
            seq![
                ("device"@, Json::Str(device)),
                ("step"@, Json::Str("menu:port-utilisation-parameters"@)),
                ("text"@, Json::Str("menu:port-utilisation-parameters"@)),
                ("threshold"@, threshold),
                ("time_window"@, Json::Str(time_window)),
            ],
        ),
    )
}

fn port_resolution_exec(time_window: &str) -> (r: &'static str)
    ensures
        r@ == port_resolution(time_window@),
{
    if crate::json::str_eq(time_window, "Last hour") {
        "1-minute interface counters"
    } else if crate::json::str_eq(time_window, "Last 7 days") {
        "30-minute utilisation aggregates"
    } else {
        "5-minute interface counters"
    }
}

/// The report of a port utilisation run. The threshold, and the peak and
/// average utilisation derived from it, come as their labels: `threshold` as
/// the number the form gave, the others as percentages.
pub fn port_utilisation_analysis_card(
    device: &str,
    threshold: JsonValue,
    threshold_label: &str,
    peak_label: &str,
    avg_label: &str,
    time_window: &str,
    presentation: &JsonValue,
) -> (r: JsonValue)
    ensures
        r@ == port_card_json(
            device@,
            threshold@,
            threshold_label@,
            peak_label@,
            avg_label@,
            time_window@,
            presentation@,
        ),
{
    let hot = hot_ports_text_exec(presentation);
    let busiest = busiest_port_text_exec(presentation);
    let mut node = "ACI POD / NODE ".to_string();
    push_str(&mut node, device);
    let mut scope_line = "Port utilisation for ".to_string();
    push_str(&mut scope_line, node.as_str());
    push_str(&mut scope_line, " — threshold ");
    push_str(&mut scope_line, threshold_label);
    push_str(&mut scope_line, " — ");
    push_str(&mut scope_line, time_window);
    let mut summary = node.clone();
    push_str(&mut summary, " shows ");
    push_str(&mut summary, hot.as_str());
    push_str(&mut summary, " overutilised interfaces above ");
    push_str(&mut summary, threshold_label);
    push_str(&mut summary, ". The busiest interface is ");
    push_str(&mut summary, busiest.as_str());
    push_str(&mut summary, " with observed peak utilisation of ");
    push_str(&mut summary, peak_label);
    push_str(&mut summary, " during the selected ");
    push_str(&mut summary, time_window);
    push_str(&mut summary, " window.");
    let p0 = with_menu(
        items3(
            bold("Query Understanding"),
            wrapped("The assistant prepared a port utilisation review for the selected ACI scope and threshold."),
            fact_set(items3(fact("Node", node.as_str()), fact("Threshold", threshold_label), fact("Time window", time_window))),
        ),
    );
    let p1 = with_menu(
        items2(
            bold("Data Sources"),
            fact_set(
                items4(
                    fact("Primary", "ACI fabric utilisation telemetry"),
                    fact("Signals", "Port counters / line-rate / saturation flags"),
                    fact("Dimensions", "Node / Port / Interface"),
                    fact("Resolution", port_resolution_exec(time_window)),
                ),
            ),
        ),
    );
    let p2 = with_menu(
        items4(
            bold("Data Retrieval"),
            wrapped("✓ Collecting interface counters for the selected node"),
            wrapped("✓ Filtering ports above the requested utilisation threshold"),
            wrapped("✓ Ranking busiest interfaces by sustained load"),
        ),
    );
    let p3 = with_menu(
        items3(
            bold("Findings"),
            wrapped(scope_line.as_str()),
            fact_set(
                items4(
                    fact("Hot ports", hot.as_str()),
                    fact("Busiest port", busiest.as_str()),
                    fact("Peak utilisation", peak_label),
                    fact("Average utilisation", avg_label),
                ),
            ),
        ),
    );
    let p4 = with_menu(
        items3(
            bold("Summary"),
            wrapped(summary.as_str()),
            fact_set(
                items4(
                    fact("Node", node.as_str()),
                    fact("Threshold", threshold_label),
                    fact("Busiest port", busiest.as_str()),
                    fact("Peak observed", peak_label),
                ),
            ),
        ),
    );
    let ghost nv = node_label(device@);
    let ghost hv = hot_ports_text(presentation@);
    let ghost bv = busiest_port_text(presentation@);
    proof {
        assert(node@ =~= nv);
        assert(scope_line@ =~= "Port utilisation for "@ + nv + " — threshold "@ + threshold_label@ + " — "@
            + time_window@);
        assert(summary@ =~= nv + " shows "@ + hv + " overutilised interfaces above "@ + threshold_label@
            + ". The busiest interface is "@ + bv + " with observed peak utilisation of "@ + peak_label@
            + " during the selected "@ + time_window@ + " window."@);
        assert(jv_items(p0@) =~= seq![
            bold_json("Query Understanding"@),
            intro_json("The assistant prepared a port utilisation review for the selected ACI scope and threshold."@),
            fact_set_json(
                seq![
                    fact_json("Node"@, nv),
                    fact_json("Threshold"@, threshold_label@),
                    fact_json("Time window"@, time_window@),
                ],
            ),
            main_menu_json(),
        ]);
        assert(jv_items(p1@) =~= seq![
            bold_json("Data Sources"@),
            fact_set_json(
                seq![
                    fact_json("Primary"@, "ACI fabric utilisation telemetry"@),
                    fact_json("Signals"@, "Port counters / line-rate / saturation flags"@),
                    fact_json("Dimensions"@, "Node / Port / Interface"@),
                    fact_json("Resolution"@, port_resolution(time_window@)),
                ],
            ),
            main_menu_json(),
        ]);
        assert(jv_items(p2@) =~= seq![
            bold_json("Data Retrieval"@),
            intro_json("✓ Collecting interface counters for the selected node"@),
            intro_json("✓ Filtering ports above the requested utilisation threshold"@),
            intro_json("✓ Ranking busiest interfaces by sustained load"@),
            main_menu_json(),
        ]);
        assert(jv_items(p3@) =~= seq![
            bold_json("Findings"@),
            intro_json("Port utilisation for "@ + nv + " — threshold "@ + threshold_label@ + " — "@ + time_window@),
            fact_set_json(
                seq![
                    fact_json("Hot ports"@, hv),
                    fact_json("Busiest port"@, bv),
                    fact_json("Peak utilisation"@, peak_label@),
                    fact_json("Average utilisation"@, avg_label@),
                ],
            ),
            main_menu_json(),
        ]);
        assert(jv_items(p4@) =~= seq![
            bold_json("Summary"@),
            intro_json(summary@),
            fact_set_json(
                seq![
                    fact_json("Node"@, nv),
                    fact_json("Threshold"@, threshold_label@),
                    fact_json("Busiest port"@, bv),
                    fact_json("Peak observed"@, peak_label@),
                ],
            ),
            main_menu_json(),
        ]);
    }
    let back_data = crate::json_build::obj5(
        "device",
        text(device),
        "step",
        text("menu:port-utilisation-parameters"),
        "text",
        text("menu:port-utilisation-parameters"),
        "threshold",
        threshold,
        "time_window",
        text(time_window),
    );
    report_card(p0, p1, p2, p3, p4, "← Back to port parameters", back_data)
}

/// Each digit of a decimal text counts with its value.
proof fn lemma_decimal_digits(n: nat)
    ensures
        decimal(n).len() > 0,
        forall|i: int| 0 <= i < decimal(n).len() ==> is_digit(#[trigger] decimal(n)[i]),
        n > 0 ==> decimal(n)[0] != '0',
        n == 0 ==> decimal(n).len() == 1,
        digits_value(decimal(n)) == n,
    decreases n,
{
    if n < 10 {
        let t = decimal(n);
        assert(t == seq![digit_char(n)]);
        assert(t.drop_last() =~= Seq::<char>::empty());
        assert((digit_char(n) as int) == ('0' as int) + n);
        assert(t.last() == digit_char(n));
        assert(digits_value(t) == digits_value(t.drop_last()) * 10 + (((t.last() as int) - ('0' as int)) as nat));
        assert(digits_value(Seq::<char>::empty()) == 0);
    } else {
        lemma_decimal_digits(n / 10);
        let p = decimal(n / 10);
        let t = decimal(n);
        assert(t == p.push(digit_char(n % 10)));
        assert(t.drop_last() =~= p);
        assert((digit_char(n % 10) as int) == ('0' as int) + n % 10);
        assert(t[0] == p[0]);
        assert(t.last() == digit_char(n % 10));
        assert(digits_value(t) == digits_value(p) * 10 + (((t.last() as int) - ('0' as int)) as nat));
        assert(n == (n / 10) * 10 + n % 10);
        assert forall|i: int| 0 <= i < t.len() implies is_digit(#[trigger] t[i]) by {
            if i < p.len() {
                assert(t[i] == p[i]);
            }
        }
    }
}

/// The decimal text of every unsigned 64-bit count reads back as that count.
pub proof fn lemma_count_text_reads_back(n: u64)
    ensures
        is_u64_text(decimal(n as nat)),
        digits_value(decimal(n as nat)) == n,
{
    lemma_decimal_digits(n as nat);
}

} // verus!
